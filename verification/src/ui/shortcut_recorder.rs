//! The shortcut field of the settings window: once focused it records the
//! next key press that carries a modifier, and writes it in the form that
//! the global-shortcut parser reads (`Ctrl+Shift+K`).
use vstd::prelude::*;
use crate::text::{chars_of, lemma_one_byte_iff_one_ascii_char, str_equal, string_push};
use vstd::utf8::encode_utf8;

verus! {

/// The modifier keys held during a key press.
pub struct Modifiers {
    pub meta: bool,
    pub ctrl: bool,
    pub shift: bool,
    pub alt: bool,
}

/// What a key press does to the field.
pub enum KeyOutcome {
    /// Nothing: a bare modifier, or a key without any modifier.
    Ignore,
    /// Escape: stop recording, keep the old value.
    StopRecording,
    /// Store this shortcut and stop recording.
    Record(String),
}

/// Keys that only modify others, or move focus, and never form a shortcut
/// on their own.
pub open spec fn is_modifier_key(key: Seq<char>) -> bool {
    ||| key == "Meta"@
    ||| key == "Control"@
    ||| key == "Shift"@
    ||| key == "Alt"@
    ||| key == "CapsLock"@
    ||| key == "Tab"@
}

/// The upper-case form of an ASCII character; other characters are kept.
pub open spec fn ascii_upper(c: char) -> char {
    if 'a' <= c <= 'z' {
        ((c as u32) - 32) as char
    } else {
        c
    }
}

/// The name a key has in a shortcut: the space bar is `Space`; a key whose
/// name is one byte long (a single ASCII character) is upper-cased; other
/// names (`F1`, `ArrowUp`, `é`, ...) are kept.
pub open spec fn main_key_name(key: Seq<char>) -> Seq<char> {
    if key == " "@ {
        "Space"@
    } else if encode_utf8(key).len() == 1 {
        seq![ascii_upper(key[0])]
    } else {
        key
    }
}

/// `part` followed by `+`, when `on`.
pub open spec fn part_if(on: bool, part: Seq<char>) -> Seq<char> {
    if on {
        part + "+"@
    } else {
        Seq::empty()
    }
}

/// The shortcut text with separate `Super` and `Ctrl` modifiers, in the
/// order Super, Ctrl, Shift, Alt, then the key.
pub open spec fn shortcut_text(m: Modifiers, key: Seq<char>) -> Seq<char> {
    part_if(m.meta, "Super"@) + part_if(m.ctrl, "Ctrl"@) + part_if(m.shift, "Shift"@) + part_if(
        m.alt,
        "Alt"@,
    ) + main_key_name(key)
}

/// The shortcut text in which Meta and Control both read `CmdOrCtrl`.
pub open spec fn shortcut_text_cmd_or_ctrl(m: Modifiers, key: Seq<char>) -> Seq<char> {
    part_if(m.meta || m.ctrl, "CmdOrCtrl"@) + part_if(m.shift, "Shift"@) + part_if(m.alt, "Alt"@)
        + main_key_name(key)
}

/// What a key press does, given the text the field would store.
pub open spec fn key_rule(key: Seq<char>, m: Modifiers, text: Seq<char>) -> Option<
    Option<Seq<char>>,
> {
    if is_modifier_key(key) {
        None
    } else if key == "Escape"@ {
        Some(None)
    } else if !(m.meta || m.ctrl || m.shift || m.alt) {
        None
    } else {
        Some(Some(text))
    }
}

/// The outcome as `None` for ignore, `Some(None)` for stop, `Some(Some(t))`
/// for storing `t`.
pub open spec fn outcome_view(o: KeyOutcome) -> Option<Option<Seq<char>>> {
    match o {
        KeyOutcome::Ignore => None,
        KeyOutcome::StopRecording => Some(None),
        KeyOutcome::Record(s) => Some(Some(s@)),
    }
}

fn is_modifier_key_exec(key: &str) -> (b: bool)
    ensures
        b == is_modifier_key(key@),
{
    str_equal(key, "Meta") || str_equal(key, "Control") || str_equal(key, "Shift") || str_equal(
        key,
        "Alt",
    ) || str_equal(key, "CapsLock") || str_equal(key, "Tab")
}

/// Appends `part` and a `+`.
fn push_part(s: &mut String, part: &str)
    ensures
        final(s)@ == old(s)@ + part@ + "+"@,
{
    s.append(part);
    proof {
        reveal_strlit("+");
    }
    string_push(s, '+');
    assert(final(s)@ =~= old(s)@ + part@ + "+"@);
}

/// Appends the key's shortcut name.
fn push_main_key(s: &mut String, key: &str)
    ensures
        final(s)@ == old(s)@ + main_key_name(key@),
{
    if str_equal(key, " ") {
        s.append("Space");
        return;
    }
    let chars = chars_of(key);
    proof {
        lemma_one_byte_iff_one_ascii_char(key@);
    }
    // one byte of UTF-8 is exactly one ASCII character
    if chars.len() == 1 && (chars[0] as u32) < 0x80 {
        let c = chars[0];
        let up = if 'a' <= c && c <= 'z' {
            let u = (c as u32) - 32;
            assert(u < 0x80);
            proof {
                assert(0x61 <= c as u32 <= 0x7a);
            }
            char_from_ascii(u)
        } else {
            c
        };
        string_push(s, up);
        assert(final(s)@ =~= old(s)@ + seq![ascii_upper(key@[0])]);
    } else {
        s.append(key);
    }
}

/// The character with ASCII code `u`.
fn char_from_ascii(u: u32) -> (c: char)
    requires
        u < 0x80,
    ensures
        c == u as char,
{
    let b = u as u8;
    b as char
}

/// A key press while the field records, with separate `Super` and `Ctrl`
/// modifiers. Bare modifiers and unmodified keys are ignored; Escape stops
/// recording; anything else is stored as [`shortcut_text`].
pub fn on_key_down(key: &str, m: Modifiers) -> (o: KeyOutcome)
    ensures
        outcome_view(o) == key_rule(key@, m, shortcut_text(m, key@)),
{
    if is_modifier_key_exec(key) {
        return KeyOutcome::Ignore;
    }
    if str_equal(key, "Escape") {
        return KeyOutcome::StopRecording;
    }
    if !m.meta && !m.ctrl && !m.shift && !m.alt {
        return KeyOutcome::Ignore;
    }
    let mut s = String::new();
    if m.meta {
        push_part(&mut s, "Super");
    }
    let ghost a = s@;
    if m.ctrl {
        push_part(&mut s, "Ctrl");
    }
    let ghost b = s@;
    if m.shift {
        push_part(&mut s, "Shift");
    }
    let ghost c = s@;
    if m.alt {
        push_part(&mut s, "Alt");
    }
    let ghost d = s@;
    push_main_key(&mut s, key);
    assert(a =~= part_if(m.meta, "Super"@));
    assert(b =~= a + part_if(m.ctrl, "Ctrl"@));
    assert(c =~= b + part_if(m.shift, "Shift"@));
    assert(d =~= c + part_if(m.alt, "Alt"@));
    assert(s@ =~= shortcut_text(m, key@));
    KeyOutcome::Record(s)
}

/// A key press while the field records, writing Meta and Control alike as
/// `CmdOrCtrl`; otherwise as [`on_key_down`].
pub fn on_key_down_cmd_or_ctrl(key: &str, m: Modifiers) -> (o: KeyOutcome)
    ensures
        outcome_view(o) == key_rule(key@, m, shortcut_text_cmd_or_ctrl(m, key@)),
{
    if is_modifier_key_exec(key) {
        return KeyOutcome::Ignore;
    }
    if str_equal(key, "Escape") {
        return KeyOutcome::StopRecording;
    }
    if !m.meta && !m.ctrl && !m.shift && !m.alt {
        return KeyOutcome::Ignore;
    }
    let mut s = String::new();
    if m.meta || m.ctrl {
        push_part(&mut s, "CmdOrCtrl");
    }
    let ghost a = s@;
    if m.shift {
        push_part(&mut s, "Shift");
    }
    let ghost b = s@;
    if m.alt {
        push_part(&mut s, "Alt");
    }
    let ghost c = s@;
    push_main_key(&mut s, key);
    assert(a =~= part_if(m.meta || m.ctrl, "CmdOrCtrl"@));
    assert(b =~= a + part_if(m.shift, "Shift"@));
    assert(c =~= b + part_if(m.alt, "Alt"@));
    assert(s@ =~= shortcut_text_cmd_or_ctrl(m, key@));
    KeyOutcome::Record(s)
}

/// What the field shows: a prompt while it records, a hint when it is
/// empty, the shortcut otherwise.
pub open spec fn display_text_spec(recording: bool, value: Seq<char>) -> Seq<char> {
    if recording {
        "Press shortcut…"@
    } else if value.len() == 0 {
        "Click to record…"@
    } else {
        value
    }
}

/// What the field shows; see [`display_text_spec`].
pub fn display_text(recording: bool, value: &str) -> (s: String)
    ensures
        s@ == display_text_spec(recording, value@),
{
    if recording {
        String::from_str("Press shortcut…")
    } else if value.is_empty() {
        String::from_str("Click to record…")
    } else {
        String::from_str(value)
    }
}

} // verus!
