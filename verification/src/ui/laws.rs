//! Properties of the settings window's logic that hold whatever the user
//! does and in whatever order replies arrive.
use vstd::prelude::*;
use crate::app::settings::SettingsView;
use crate::ui::settings_form::{
    begin_save_view, save_finished_view, schedule_view, take_due_view, wants_save_spec,
    DebounceView, FormView, SAVE_DEBOUNCE_MS,
};
use crate::ui::shortcut_recorder::{
    is_modifier_key, key_rule, main_key_name, part_if, shortcut_text, shortcut_text_cmd_or_ctrl,
    Modifiers,
};

verus! {

/// Once the latest save of `s` is confirmed, the same settings on screen do
/// not ask for another save.
pub proof fn law_saved_settings_are_not_saved_again(form: FormView, s: SettingsView)
    requires
        form.save_request_id < u64::MAX,
    ensures
        !wants_save_spec(
            save_finished_view(
                begin_save_view(form),
                (form.save_request_id + 1) as u64,
                s,
                Ok(()),
            ),
            s,
        ),
{
}

/// A reply to any request but the latest changes nothing.
pub proof fn law_stale_reply_changes_nothing(
    form: FormView,
    request_id: u64,
    s: SettingsView,
    result: Result<(), Option<String>>,
)
    requires
        request_id != form.save_request_id,
    ensures
        save_finished_view(form, request_id, s, result) == form,
{
}

/// When a second save starts before the first one's reply arrives, that
/// reply is ignored, whatever it says.
pub proof fn law_superseded_save_is_ignored(
    form: FormView,
    s: SettingsView,
    result: Result<(), Option<String>>,
)
    requires
        form.save_request_id + 2 <= u64::MAX,
    ensures
        ({
            let first = begin_save_view(form);
            let second = begin_save_view(first);
            save_finished_view(second, first.save_request_id, s, result) == second
        }),
{
}

/// Every save request is numbered above all earlier ones.
pub proof fn law_request_ids_increase(form: FormView)
    requires
        form.save_request_id < u64::MAX,
    ensures
        begin_save_view(form).save_request_id > form.save_request_id,
{
}

/// Nothing is saved before the stored settings are known.
pub proof fn law_nothing_saved_before_load(form: FormView, current: SettingsView)
    requires
        !form.loaded,
    ensures
        !wants_save_spec(form, current),
{
}

/// A failed latest save keeps what was last saved, so the same settings are
/// offered for saving again.
pub proof fn law_failed_save_keeps_last_saved(
    form: FormView,
    s: SettingsView,
    message: Option<String>,
)
    requires
        form.save_request_id < u64::MAX,
    ensures
        ({
            let started = begin_save_view(form);
            let after = save_finished_view(started, started.save_request_id, s, Err(message));
            &&& after.last_saved == form.last_saved
            &&& after.error is Some
            &&& !after.saving
        }),
{
}

/// A stored shortcut always carries at least one modifier, is never a bare
/// modifier or Escape, and ends with the key's name after a `+`.
pub proof fn law_recorded_shortcut_shape(key: Seq<char>, m: Modifiers)
    ensures
        key_rule(key, m, shortcut_text(m, key)) matches Some(Some(t)) ==> {
            &&& m.meta || m.ctrl || m.shift || m.alt
            &&& !is_modifier_key(key)
            &&& key != "Escape"@
            &&& exists|p: Seq<char>| #[trigger] (p + main_key_name(key)) == t && p.len() > 0
                && p.last() == '+'
        },
        key_rule(key, m, shortcut_text_cmd_or_ctrl(m, key)) matches Some(Some(t)) ==> {
            &&& m.meta || m.ctrl || m.shift || m.alt
            &&& exists|p: Seq<char>| #[trigger] (p + main_key_name(key)) == t && p.len() > 0
                && p.last() == '+'
        },
{
    reveal_strlit("+");
    let p1 = part_if(m.meta, "Super"@) + part_if(m.ctrl, "Ctrl"@) + part_if(m.shift, "Shift"@)
        + part_if(m.alt, "Alt"@);
    let p2 = part_if(m.meta || m.ctrl, "CmdOrCtrl"@) + part_if(m.shift, "Shift"@) + part_if(
        m.alt,
        "Alt"@,
    );
    if m.meta || m.ctrl || m.shift || m.alt {
        assert(p1.len() > 0);
        assert(p1.last() == '+');
        assert(p1 + main_key_name(key) == shortcut_text(m, key));
        assert(p2.len() > 0);
        assert(p2.last() == '+');
        assert(p2 + main_key_name(key) == shortcut_text_cmd_or_ctrl(m, key));
    }
}


/// Saves go out with the latest values: after edits `a` at `t1` and `b` at
/// `t2`, nothing is due before `SAVE_DEBOUNCE_MS` have passed since the later
/// edit, and then it is `b` that is due, never `a`.
pub proof fn law_debounce_saves_latest(
    d: DebounceView,
    a: SettingsView,
    t1: u64,
    b: SettingsView,
    t2: u64,
    now: u64,
)
    requires
        t1 <= u64::MAX - SAVE_DEBOUNCE_MS,
        t2 <= u64::MAX - SAVE_DEBOUNCE_MS,
    ensures
        take_due_view(schedule_view(schedule_view(d, a, t1), b, t2), now).1 == (if now >= t2
            + SAVE_DEBOUNCE_MS {
            Some(b)
        } else {
            None
        }),
{
}

/// At most one save per pause: once the waiting edits were handed out,
/// nothing more is due, whenever one asks, until the settings are edited
/// again; and edits are handed out only once their wait is over.
pub proof fn law_debounce_fires_once(d: DebounceView, now: u64, later: u64)
    ensures
        take_due_view(d, now).1 is Some ==> now >= d.due_at,
        take_due_view(d, now).1 is Some ==> take_due_view(take_due_view(d, now).0, later).1 is None,
{
}


/// Once the stored settings are known, the window saves any change: the
/// settings on screen ask for a save exactly when they differ from the last
/// saved ones in some field; a change of the sound switch alone is a change.
pub proof fn law_any_change_is_saved(form: FormView, saved: SettingsView, current: SettingsView)
    requires
        form.loaded,
        form.last_saved == Some(saved),
    ensures
        wants_save_spec(form, current) <==> (saved.base_url != current.base_url || saved.model
            != current.model || saved.recording != current.recording || saved.cancel
            != current.cancel || saved.play_sound != current.play_sound),
        saved.play_sound != current.play_sound ==> wants_save_spec(form, current),
{
    if !(saved.base_url != current.base_url || saved.model != current.model || saved.recording
        != current.recording || saved.cancel != current.cancel || saved.play_sound
        != current.play_sound) {
        assert(saved == current);
    }
}

} // verus!
