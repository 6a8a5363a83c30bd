//! The settings record that the settings window and the tray process
//! exchange, with the defaults that fill in what a stored file leaves out.
use vstd::prelude::*;
use vstd::std_specs::cmp::PartialEqSpecImpl;

verus! {

/// The two global shortcuts.
#[derive(Clone)]
pub struct ShortcutSetting {
    pub recording: String,
    pub cancel: String,
}

/// Everything the user can configure.
#[derive(Clone)]
pub struct AppSettings {
    pub shortcut: ShortcutSetting,
    pub play_sound: bool,
    pub auto_paste: bool,
    pub ai_model: String,
    pub ai_api_base: String,
    pub ai_api_key: String,
}

/// The transcription model used when none is configured.
pub open spec fn default_ai_model_spec() -> Seq<char> {
    "Qwen/Qwen3-ASR-1.7B"@
}

/// The API base used when none is configured.
pub open spec fn default_ai_api_base_spec() -> Seq<char> {
    "https://henry.gooseread.com/v1"@
}

/// `s` holds the default shortcuts: `Ctrl+1` records or transcribes,
/// `Ctrl+2` cancels.
pub open spec fn is_default_shortcut(s: ShortcutSetting) -> bool {
    &&& s.recording@ == "Ctrl+1"@
    &&& s.cancel@ == "Ctrl+2"@
}

/// `s` is the settings record of a fresh install.
pub open spec fn is_default_settings(s: AppSettings) -> bool {
    &&& is_default_shortcut(s.shortcut)
    &&& !s.play_sound
    &&& !s.auto_paste
    &&& s.ai_model@ == default_ai_model_spec()
    &&& s.ai_api_base@ == default_ai_api_base_spec()
    &&& s.ai_api_key@ == Seq::<char>::empty()
}

/// The transcription model used when none is configured.
pub fn default_ai_model() -> (s: String)
    ensures
        s@ == default_ai_model_spec(),
{
    String::from_str("Qwen/Qwen3-ASR-1.7B")
}

/// The API base used when none is configured.
pub fn default_ai_api_base() -> (s: String)
    ensures
        s@ == default_ai_api_base_spec(),
{
    String::from_str("https://henry.gooseread.com/v1")
}

impl Default for ShortcutSetting {
    fn default() -> (r: Self)
        ensures
            is_default_shortcut(r),
    {
        ShortcutSetting { recording: String::from_str("Ctrl+1"), cancel: String::from_str("Ctrl+2") }
    }
}

impl Default for AppSettings {
    fn default() -> (r: Self)
        ensures
            is_default_settings(r),
    {
        AppSettings {
            shortcut: ShortcutSetting::default(),
            play_sound: false,
            auto_paste: false,
            ai_model: default_ai_model(),
            ai_api_base: default_ai_api_base(),
            ai_api_key: String::new(),
        }
    }
}

impl AppSettings {
    /// Builds the record from a stored file in which the last four fields may
    /// be missing: a missing `auto_paste` is `false`, a missing model or API
    /// base is the default one, a missing key is empty.
    pub fn from_stored(
        shortcut: ShortcutSetting,
        play_sound: bool,
        auto_paste: Option<bool>,
        ai_model: Option<String>,
        ai_api_base: Option<String>,
        ai_api_key: Option<String>,
    ) -> (r: Self)
        ensures
            r.shortcut == shortcut,
            r.play_sound == play_sound,
            r.auto_paste == match auto_paste {
                Some(b) => b,
                None => false,
            },
            r.ai_model@ == match ai_model {
                Some(m) => m@,
                None => default_ai_model_spec(),
            },
            r.ai_api_base@ == match ai_api_base {
                Some(b) => b@,
                None => default_ai_api_base_spec(),
            },
            r.ai_api_key@ == match ai_api_key {
                Some(k) => k@,
                None => Seq::<char>::empty(),
            },
    {
        AppSettings {
            shortcut,
            play_sound,
            auto_paste: match auto_paste {
                Some(b) => b,
                None => false,
            },
            ai_model: match ai_model {
                Some(m) => m,
                None => default_ai_model(),
            },
            ai_api_base: match ai_api_base {
                Some(b) => b,
                None => default_ai_api_base(),
            },
            ai_api_key: match ai_api_key {
                Some(k) => k,
                None => String::new(),
            },
        }
    }
}

impl PartialEq for ShortcutSetting {
    fn eq(&self, other: &Self) -> (r: bool) {
        self.recording == other.recording && self.cancel == other.cancel
    }
}

impl PartialEqSpecImpl for ShortcutSetting {
    open spec fn obeys_eq_spec() -> bool {
        true
    }

    open spec fn eq_spec(&self, other: &Self) -> bool {
        self.recording@ == other.recording@ && self.cancel@ == other.cancel@
    }
}

impl PartialEq for AppSettings {
    fn eq(&self, other: &Self) -> (r: bool) {
        self.shortcut == other.shortcut && self.play_sound == other.play_sound && self.auto_paste
            == other.auto_paste && self.ai_model == other.ai_model && self.ai_api_base
            == other.ai_api_base && self.ai_api_key == other.ai_api_key
    }
}

impl PartialEqSpecImpl for AppSettings {
    open spec fn obeys_eq_spec() -> bool {
        true
    }

    open spec fn eq_spec(&self, other: &Self) -> bool {
        &&& self.shortcut.recording@ == other.shortcut.recording@
        &&& self.shortcut.cancel@ == other.shortcut.cancel@
        &&& self.play_sound == other.play_sound
        &&& self.auto_paste == other.auto_paste
        &&& self.ai_model@ == other.ai_model@
        &&& self.ai_api_base@ == other.ai_api_base@
        &&& self.ai_api_key@ == other.ai_api_key@
    }
}

} // verus!
