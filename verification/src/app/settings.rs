//! Settings of the tray process: the transcription endpoint, the two
//! shortcuts and whether cue sounds play, and what start-up does with a
//! stored file.
use vstd::prelude::*;
use vstd::std_specs::cmp::PartialEqSpecImpl;

verus! {

/// The OpenAI-compatible endpoint that transcribes.
#[derive(Clone)]
pub struct ModelSetting {
    pub base_url: String,
    pub model: String,
}

/// The two global shortcuts.
#[derive(Clone)]
pub struct ShortcutSetting {
    pub recording: String,
    pub cancel: String,
}

/// Everything the user configures.
#[derive(Clone)]
pub struct AppSettings {
    pub model: ModelSetting,
    pub shortcut: ShortcutSetting,
    pub play_sound: bool,
}

/// The settings as plain character sequences, which is what two records are
/// compared by.
pub struct SettingsView {
    pub base_url: Seq<char>,
    pub model: Seq<char>,
    pub recording: Seq<char>,
    pub cancel: Seq<char>,
    pub play_sound: bool,
}

impl View for AppSettings {
    type V = SettingsView;

    open spec fn view(&self) -> SettingsView {
        SettingsView {
            base_url: self.model.base_url@,
            model: self.model.model@,
            recording: self.shortcut.recording@,
            cancel: self.shortcut.cancel@,
            play_sound: self.play_sound,
        }
    }
}

/// The settings of a fresh install.
pub open spec fn default_settings_view() -> SettingsView {
    SettingsView {
        base_url: "https://gemini.gooseread.com/v1"@,
        model: "google/gemma-4-E4B-it"@,
        recording: "Ctrl+1"@,
        cancel: "Ctrl+2"@,
        play_sound: true,
    }
}

impl Default for AppSettings {
    fn default() -> (r: Self)
        ensures
            r@ == default_settings_view(),
    {
        AppSettings {
            model: ModelSetting {
                base_url: String::from_str("https://gemini.gooseread.com/v1"),
                model: String::from_str("google/gemma-4-E4B-it"),
            },
            shortcut: ShortcutSetting {
                recording: String::from_str("Ctrl+1"),
                cancel: String::from_str("Ctrl+2"),
            },
            play_sound: true,
        }
    }
}

impl PartialEq for AppSettings {
    fn eq(&self, other: &Self) -> (r: bool) {
        self.model.base_url == other.model.base_url && self.model.model == other.model.model
            && self.shortcut.recording == other.shortcut.recording && self.shortcut.cancel
            == other.shortcut.cancel && self.play_sound == other.play_sound
    }
}

impl PartialEqSpecImpl for AppSettings {
    open spec fn obeys_eq_spec() -> bool {
        true
    }

    open spec fn eq_spec(&self, other: &Self) -> bool {
        self@ == other@
    }
}

/// What start-up does with the settings file.
pub struct LoadedSettings {
    /// The settings in force.
    pub settings: AppSettings,
    /// Whether they are written back, which normalises the stored file.
    pub persist: bool,
}

/// Start-up: settings that were read and parsed are used and written back;
/// otherwise the defaults are used and nothing is written.
pub fn settings_to_use(parsed: Option<AppSettings>) -> (r: LoadedSettings)
    ensures
        match parsed {
            Some(s) => r.settings == s && r.persist,
            None => r.settings@ == default_settings_view() && !r.persist,
        },
{
    match parsed {
        Some(s) => LoadedSettings { settings: s, persist: true },
        None => LoadedSettings { settings: AppSettings::default(), persist: false },
    }
}

} // verus!
