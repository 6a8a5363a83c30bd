//! The settings window's save logic: edits are saved once the stored
//! settings are known and differ from what was last saved; every save gets a
//! new request number, and only the reply to the latest request counts.
use vstd::prelude::*;
use crate::app::settings::{AppSettings, ModelSetting, SettingsView, ShortcutSetting};

verus! {

/// The window's bookkeeping.
pub struct SettingsForm {
    /// The stored settings have been received.
    pub loaded: bool,
    /// What the tray process last confirmed as saved.
    pub last_saved: Option<AppSettings>,
    /// The number of the latest save request.
    pub save_request_id: u64,
    /// A save is under way.
    pub saving: bool,
    /// Why the latest save failed.
    pub error: Option<String>,
}

/// The form as plain values.
pub struct FormView {
    pub loaded: bool,
    pub last_saved: Option<SettingsView>,
    pub save_request_id: u64,
    pub saving: bool,
    pub error: Option<Seq<char>>,
}

impl View for SettingsForm {
    type V = FormView;

    open spec fn view(&self) -> FormView {
        FormView {
            loaded: self.loaded,
            last_saved: match self.last_saved {
                Some(s) => Some(s@),
                None => None,
            },
            save_request_id: self.save_request_id,
            saving: self.saving,
            error: match self.error {
                Some(e) => Some(e@),
                None => None,
            },
        }
    }
}

/// Whether the settings on screen, `current`, should be saved.
pub open spec fn wants_save_spec(form: FormView, current: SettingsView) -> bool {
    form.loaded && form.last_saved != Some(current)
}

/// The message shown when a save fails: the error's text, or a fixed one
/// when it has none.
pub open spec fn save_error_text(js_text: Option<String>) -> Seq<char> {
    match js_text {
        Some(t) => t@,
        None => "Error saving settings"@,
    }
}

/// The form after a save request starts.
pub open spec fn begin_save_view(form: FormView) -> FormView {
    FormView { save_request_id: (form.save_request_id + 1) as u64, saving: true, error: None, ..form }
}

/// The form after the reply to request `request_id` for `settings` arrives.
pub open spec fn save_finished_view(
    form: FormView,
    request_id: u64,
    settings: SettingsView,
    result: Result<(), Option<String>>,
) -> FormView {
    if request_id != form.save_request_id {
        form
    } else {
        match result {
            Ok(()) => FormView { last_saved: Some(settings), saving: false, ..form },
            Err(t) => FormView { error: Some(save_error_text(t)), saving: false, ..form },
        }
    }
}

/// What the window does when it is closed.
pub enum CloseAction {
    /// Save the settings on screen, then hide once the save is confirmed.
    SaveThenHide,
    /// Hide at once.
    Hide,
}

/// The settings as the fields on screen hold them.
pub fn current_settings(
    model_base_url: String,
    model_name: String,
    rec_shortcut: String,
    cancel_shortcut: String,
    play_sound: bool,
) -> (s: AppSettings)
    ensures
        s@ == (SettingsView {
            base_url: model_base_url@,
            model: model_name@,
            recording: rec_shortcut@,
            cancel: cancel_shortcut@,
            play_sound,
        }),
{
    AppSettings {
        model: ModelSetting { base_url: model_base_url, model: model_name },
        shortcut: ShortcutSetting { recording: rec_shortcut, cancel: cancel_shortcut },
        play_sound,
    }
}

/// How long the edits must rest before they are saved, in milliseconds.
pub const SAVE_DEBOUNCE_MS: u64 = 550;

/// Edits waiting to be saved: only the latest settings are kept, and they
/// fall due once `SAVE_DEBOUNCE_MS` have passed without a newer edit.
pub struct SaveDebounce {
    /// The latest settings not yet handed to a save.
    pub pending: Option<AppSettings>,
    /// When the pending settings fall due, in milliseconds.
    pub due_at: u64,
}

/// The waiting edits as plain values.
pub struct DebounceView {
    pub pending: Option<SettingsView>,
    pub due_at: u64,
}

/// The view of optional settings.
pub open spec fn settings_option_view(o: Option<AppSettings>) -> Option<SettingsView> {
    match o {
        Some(s) => Some(s@),
        None => None,
    }
}

impl View for SaveDebounce {
    type V = DebounceView;

    open spec fn view(&self) -> DebounceView {
        DebounceView { pending: settings_option_view(self.pending), due_at: self.due_at }
    }
}

/// The waiting edits after `settings` were edited at time `now`: they
/// replace what was waiting, and the wait starts over.
pub open spec fn schedule_view(d: DebounceView, settings: SettingsView, now: u64) -> DebounceView {
    DebounceView { pending: Some(settings), due_at: (now + SAVE_DEBOUNCE_MS) as u64 }
}

/// What asking at time `now` for the edits that are due gives: the waiting
/// settings when their time has come (and nothing waits afterwards),
/// otherwise nothing and no change.
pub open spec fn take_due_view(d: DebounceView, now: u64) -> (DebounceView, Option<SettingsView>) {
    match d.pending {
        Some(s) => if now >= d.due_at {
            (DebounceView { pending: None, ..d }, Some(s))
        } else {
            (d, None)
        },
        None => (d, None),
    }
}

impl SaveDebounce {
    /// Nothing waits.
    pub fn new() -> (d: Self)
        ensures
            d@ == (DebounceView { pending: None, due_at: 0 }),
    {
        SaveDebounce { pending: None, due_at: 0 }
    }

    /// The settings on screen changed at time `now` (milliseconds).
    pub fn schedule(&mut self, settings: AppSettings, now: u64)
        requires
            now <= u64::MAX - SAVE_DEBOUNCE_MS,
        ensures
            final(self)@ == schedule_view(old(self)@, settings@, now),
    {
        self.pending = Some(settings);
        self.due_at = now + SAVE_DEBOUNCE_MS;
    }

    /// The settings to save at time `now`, if their wait is over.
    pub fn take_due(&mut self, now: u64) -> (r: Option<AppSettings>)
        ensures
            (final(self)@, settings_option_view(r)) == take_due_view(old(self)@, now),
    {
        if now < self.due_at {
            return None;
        }
        let mut out: Option<AppSettings> = None;
        std::mem::swap(&mut out, &mut self.pending);
        out
    }
}

impl SettingsForm {
    /// The window before the stored settings arrive.
    pub fn new() -> (f: Self)
        ensures
            f@ == (FormView {
                loaded: false,
                last_saved: None,
                save_request_id: 0,
                saving: false,
                error: None,
            }),
    {
        SettingsForm { loaded: false, last_saved: None, save_request_id: 0, saving: false, error: None }
    }

    /// The stored settings arrived; they count as saved.
    pub fn on_loaded(&mut self, settings: AppSettings)
        ensures
            final(self)@ == (FormView {
                loaded: true,
                last_saved: Some(settings@),
                ..old(self)@
            }),
    {
        self.last_saved = Some(settings);
        self.loaded = true;
    }

    /// Whether the settings on screen should be saved: only once the stored
    /// ones are known, and only when they differ from the last saved ones.
    pub fn wants_save(&self, current: &AppSettings) -> (b: bool)
        ensures
            b == wants_save_spec(self@, current@),
    {
        if !self.loaded {
            return false;
        }
        match &self.last_saved {
            Some(s) => !(*s == *current),
            None => true,
        }
    }

    /// Starts a save: clears the error, marks the form as saving, and numbers
    /// the request one above the previous one.
    pub fn begin_save(&mut self) -> (id: u64)
        requires
            old(self).save_request_id < u64::MAX,
        ensures
            id == old(self).save_request_id + 1,
            final(self)@ == begin_save_view(old(self)@),
    {
        self.error = None;
        self.saving = true;
        self.save_request_id = self.save_request_id + 1;
        self.save_request_id
    }

    /// The reply to save request `request_id` for `settings` arrived. Only
    /// the reply to the latest request changes anything: success records the
    /// settings as saved, failure records the message; either ends the
    /// saving state. The result tells whether to run what waited on the save.
    pub fn on_save_finished(
        &mut self,
        request_id: u64,
        settings: AppSettings,
        result: Result<(), Option<String>>,
    ) -> (run_on_saved: bool)
        ensures
            final(self)@ == save_finished_view(old(self)@, request_id, settings@, result),
            run_on_saved == (request_id == old(self).save_request_id && result is Ok),
    {
        if request_id != self.save_request_id {
            return false;
        }
        let run = match result {
            Ok(()) => {
                self.last_saved = Some(settings);
                true
            },
            Err(t) => {
                let msg = match t {
                    Some(m) => m,
                    None => String::from_str("Error saving settings"),
                };
                self.error = Some(msg);
                false
            },
        };
        self.saving = false;
        run
    }

    /// What closing the window does: save first when the stored settings are
    /// known and the ones on screen differ, hide at once otherwise.
    pub fn on_close(&self, current: &AppSettings) -> (a: CloseAction)
        ensures
            a == (if wants_save_spec(self@, current@) {
                CloseAction::SaveThenHide
            } else {
                CloseAction::Hide
            }),
    {
        if self.wants_save(current) {
            CloseAction::SaveThenHide
        } else {
            CloseAction::Hide
        }
    }

    /// The save status line: saving, failed, or saved.
    pub fn status_text(&self) -> (s: &'static str)
        ensures
            s@ == (if self.saving {
                "Saving..."@
            } else if self.error is Some {
                "Could not save"@
            } else {
                "Saved"@
            }),
    {
        if self.saving {
            "Saving..."
        } else if self.error.is_some() {
            "Could not save"
        } else {
            "Saved"
        }
    }
}

} // verus!
