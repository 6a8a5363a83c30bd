use henry_whisper::app::settings::AppSettings;
use henry_whisper::ui::settings_form::{current_settings, CloseAction, SaveDebounce, SettingsForm, SAVE_DEBOUNCE_MS};
use henry_whisper::ui::shortcut_recorder::{
    display_text, on_key_down, on_key_down_cmd_or_ctrl, KeyOutcome, Modifiers,
};

fn mods(meta: bool, ctrl: bool, shift: bool, alt: bool) -> Modifiers {
    Modifiers { meta, ctrl, shift, alt }
}

fn recorded(o: KeyOutcome) -> String {
    match o {
        KeyOutcome::Record(s) => s,
        _ => panic!("expected a shortcut"),
    }
}

#[test]
fn letter_with_control_is_upper_cased() {
    assert_eq!(recorded(on_key_down("k", mods(false, true, false, false))), "Ctrl+K");
    assert_eq!(recorded(on_key_down("1", mods(false, true, false, false))), "Ctrl+1");
}

#[test]
fn modifiers_come_in_fixed_order() {
    assert_eq!(recorded(on_key_down(" ", mods(true, true, true, true))), "Super+Ctrl+Shift+Alt+Space");
    assert_eq!(recorded(on_key_down("F5", mods(false, false, false, true))), "Alt+F5");
    assert_eq!(recorded(on_key_down("ArrowUp", mods(true, false, true, false))), "Super+Shift+ArrowUp");
    assert_eq!(recorded(on_key_down("é", mods(false, true, false, false))), "Ctrl+é");
}

#[test]
fn bare_modifiers_and_plain_keys_are_ignored() {
    for k in ["Meta", "Control", "Shift", "Alt", "CapsLock", "Tab"] {
        assert!(matches!(on_key_down(k, mods(true, true, false, false)), KeyOutcome::Ignore));
    }
    assert!(matches!(on_key_down("a", mods(false, false, false, false)), KeyOutcome::Ignore));
    assert!(matches!(on_key_down("Escape", mods(false, false, false, false)), KeyOutcome::StopRecording));
    assert!(matches!(on_key_down("Escape", mods(true, false, false, false)), KeyOutcome::StopRecording));
}

#[test]
fn cmd_or_ctrl_variant_merges_meta_and_control() {
    assert_eq!(recorded(on_key_down_cmd_or_ctrl("r", mods(true, false, true, false))), "CmdOrCtrl+Shift+R");
    assert_eq!(recorded(on_key_down_cmd_or_ctrl("r", mods(true, true, false, false))), "CmdOrCtrl+R");
    assert_eq!(recorded(on_key_down_cmd_or_ctrl(" ", mods(false, false, false, true))), "Alt+Space");
    assert!(matches!(on_key_down_cmd_or_ctrl("Tab", mods(true, false, false, false)), KeyOutcome::Ignore));
}

#[test]
fn field_text() {
    assert_eq!(display_text(true, "Ctrl+1"), "Press shortcut…");
    assert_eq!(display_text(false, ""), "Click to record…");
    assert_eq!(display_text(false, "Ctrl+1"), "Ctrl+1");
}

fn settings(url: &str) -> AppSettings {
    current_settings(url.to_string(), "m".to_string(), "CmdOrCtrl+1".to_string(), "CmdOrCtrl+2".to_string(), true)
}

#[test]
fn nothing_is_saved_before_load_or_without_change() {
    let mut form = SettingsForm::new();
    assert!(!form.wants_save(&settings("a")));
    form.on_loaded(settings("a"));
    assert!(!form.wants_save(&settings("a")));
    assert!(form.wants_save(&settings("b")));
    assert!(matches!(form.on_close(&settings("a")), CloseAction::Hide));
    assert!(matches!(form.on_close(&settings("b")), CloseAction::SaveThenHide));
}

#[test]
fn confirmed_save_is_not_repeated() {
    let mut form = SettingsForm::new();
    form.on_loaded(settings("a"));
    let id = form.begin_save();
    assert_eq!(id, 1);
    assert_eq!(form.status_text(), "Saving...");
    assert!(form.on_save_finished(id, settings("b"), Ok(())));
    assert!(!form.wants_save(&settings("b")));
    assert_eq!(form.status_text(), "Saved");
}

#[test]
fn only_the_latest_reply_counts() {
    let mut form = SettingsForm::new();
    form.on_loaded(settings("a"));
    let first = form.begin_save();
    let second = form.begin_save();
    assert_eq!(second, first + 1);
    assert!(!form.on_save_finished(first, settings("b"), Ok(())));
    assert!(form.saving);
    assert!(form.wants_save(&settings("b")));
    assert!(!form.on_save_finished(second, settings("c"), Err(None)));
    assert_eq!(form.error.as_deref(), Some("Error saving settings"));
    assert_eq!(form.status_text(), "Could not save");
    assert!(form.wants_save(&settings("c")));
    let third = form.begin_save();
    assert!(form.error.is_none());
    assert!(!form.on_save_finished(third, settings("c"), Err(Some("disk full".to_string()))));
    assert_eq!(form.error.as_deref(), Some("disk full"));
}

#[test]
fn debounced_save_waits_and_takes_the_latest_edit() {
    let mut d = SaveDebounce::new();
    assert!(d.take_due(10_000).is_none());
    d.schedule(current_settings("a".to_string(), "m".to_string(), "F1".to_string(), "F2".to_string(), true), 1_000);
    d.schedule(current_settings("b".to_string(), "m".to_string(), "F1".to_string(), "F2".to_string(), true), 1_200);
    assert_eq!(d.due_at, 1_200 + SAVE_DEBOUNCE_MS);
    assert!(d.take_due(1_600).is_none());
    assert!(d.take_due(1_749).is_none());
    let due = d.take_due(1_750).expect("due after the pause");
    assert_eq!(due.model.base_url, "b");
    assert!(d.take_due(5_000).is_none());
}
