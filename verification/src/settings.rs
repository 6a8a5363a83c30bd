//! Settings of the chat-completion tray variant: an API key, the two shortcuts and
//! whether cue sounds play.
use vstd::prelude::*;

verus! {

/// The shortcut that starts a recording or transcribes it.
pub const DEFAULT_RECORD_TRANSCRIBE_SHORTCUT: &'static str = "Ctrl+1";

/// The shortcut that cancels a recording.
pub const DEFAULT_CANCEL_SHORTCUT: &'static str = "Ctrl+2";

/// What the user configures.
#[derive(Clone)]
pub struct AppSettings {
    pub api_key: String,
    pub recording_shortcut: String,
    pub cancel_shortcut: String,
    pub play_sound: bool,
}

/// `s` is the default record, with `key` as the API key.
pub open spec fn is_default_with_key(s: AppSettings, key: Seq<char>) -> bool {
    &&& s.api_key@ == key
    &&& s.recording_shortcut@ == "Ctrl+1"@
    &&& s.cancel_shortcut@ == "Ctrl+2"@
    &&& s.play_sound
}

/// The key that the environment supplies, or nothing.
pub open spec fn key_or_empty(env_api_key: Option<String>) -> Seq<char> {
    match env_api_key {
        Some(k) => k@,
        None => Seq::<char>::empty(),
    }
}

impl AppSettings {
    /// The default record; its API key is the one the environment holds
    /// (`OPENROUTER_API_KEY`), or empty when it holds none.
    pub fn default_with_env_key(env_api_key: Option<String>) -> (r: Self)
        ensures
            is_default_with_key(r, key_or_empty(env_api_key)),
    {
        AppSettings {
            api_key: match env_api_key {
                Some(k) => k,
                None => String::new(),
            },
            recording_shortcut: String::from_str(DEFAULT_RECORD_TRANSCRIBE_SHORTCUT),
            cancel_shortcut: String::from_str(DEFAULT_CANCEL_SHORTCUT),
            play_sound: true,
        }
    }
}

/// The settings in force after start-up: the stored ones when the file could
/// be read and parsed, the defaults otherwise.
pub fn settings_or_default(parsed: Option<AppSettings>, env_api_key: Option<String>) -> (r:
    AppSettings)
    ensures
        match parsed {
            Some(s) => r == s,
            None => is_default_with_key(r, key_or_empty(env_api_key)),
        },
{
    match parsed {
        Some(s) => s,
        None => AppSettings::default_with_env_key(env_api_key),
    }
}

} // verus!
