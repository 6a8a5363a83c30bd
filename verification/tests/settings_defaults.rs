use henry_whisper::app::settings::{settings_to_use, AppSettings as TraySettings, ModelSetting, ShortcutSetting as TrayShortcut};
use henry_whisper::settings::{settings_or_default, AppSettings as ChatSettings, DEFAULT_RECORD_TRANSCRIBE_SHORTCUT};
use henry_whisper::shared::{default_ai_api_base, default_ai_model, AppSettings, ShortcutSetting};

#[test]
fn shared_defaults_match_readme() {
    let s = AppSettings::default();
    assert_eq!(s.shortcut.recording, "Ctrl+1");
    assert_eq!(s.shortcut.cancel, "Ctrl+2");
    assert!(!s.play_sound);
    assert!(!s.auto_paste);
    assert_eq!(s.ai_model, "Qwen/Qwen3-ASR-1.7B");
    assert_eq!(s.ai_api_base, "https://henry.gooseread.com/v1");
    assert_eq!(s.ai_api_key, "");
    assert_eq!(default_ai_model(), "Qwen/Qwen3-ASR-1.7B");
    assert_eq!(default_ai_api_base(), "https://henry.gooseread.com/v1");
}

#[test]
fn stored_settings_fill_missing_fields_with_defaults() {
    let shortcut = ShortcutSetting { recording: "Alt+R".to_string(), cancel: "Alt+C".to_string() };
    let s = AppSettings::from_stored(shortcut, true, None, None, None, None);
    assert_eq!(s.shortcut.recording, "Alt+R");
    assert!(s.play_sound);
    assert!(!s.auto_paste);
    assert_eq!(s.ai_model, "Qwen/Qwen3-ASR-1.7B");
    assert_eq!(s.ai_api_base, "https://henry.gooseread.com/v1");
    assert_eq!(s.ai_api_key, "");

    let shortcut = ShortcutSetting::default();
    let t = AppSettings::from_stored(
        shortcut,
        false,
        Some(true),
        Some("m".to_string()),
        Some("http://x/v1".to_string()),
        Some("key".to_string()),
    );
    assert!(t.auto_paste);
    assert_eq!(t.ai_model, "m");
    assert_eq!(t.ai_api_base, "http://x/v1");
    assert_eq!(t.ai_api_key, "key");
}

#[test]
fn shared_settings_compare_by_fields() {
    let a = AppSettings::default();
    let mut b = AppSettings::default();
    assert!(a == b);
    b.ai_api_key = "k".to_string();
    assert!(a != b);
    let mut c = AppSettings::default();
    c.shortcut.cancel = "Ctrl+3".to_string();
    assert!(a != c);
}

#[test]
fn chat_settings_default_uses_environment_key() {
    let s = ChatSettings::default_with_env_key(Some("sk-1".to_string()));
    assert_eq!(s.api_key, "sk-1");
    assert_eq!(s.recording_shortcut, DEFAULT_RECORD_TRANSCRIBE_SHORTCUT);
    assert_eq!(s.recording_shortcut, "Ctrl+1");
    assert_eq!(s.cancel_shortcut, "Ctrl+2");
    assert!(s.play_sound);
    let e = ChatSettings::default_with_env_key(None);
    assert_eq!(e.api_key, "");
}

#[test]
fn chat_settings_keep_parsed_file() {
    let stored = ChatSettings {
        api_key: "abc".to_string(),
        recording_shortcut: "F5".to_string(),
        cancel_shortcut: "F6".to_string(),
        play_sound: false,
    };
    let s = settings_or_default(Some(stored), Some("env".to_string()));
    assert_eq!(s.api_key, "abc");
    assert_eq!(s.recording_shortcut, "F5");
    assert!(!s.play_sound);
    let d = settings_or_default(None, Some("env".to_string()));
    assert_eq!(d.api_key, "env");
    assert!(d.play_sound);
}

#[test]
fn tray_settings_default_and_load_rule() {
    let d = TraySettings::default();
    assert_eq!(d.model.base_url, "https://gemini.gooseread.com/v1");
    assert_eq!(d.model.model, "google/gemma-4-E4B-it");
    assert_eq!(d.shortcut.recording, "Ctrl+1");
    assert_eq!(d.shortcut.cancel, "Ctrl+2");
    assert!(d.play_sound);

    let parsed = TraySettings {
        model: ModelSetting { base_url: "http://local/v1".to_string(), model: "whisper".to_string() },
        shortcut: TrayShortcut { recording: "F9".to_string(), cancel: "F10".to_string() },
        play_sound: false,
    };
    let loaded = settings_to_use(Some(parsed));
    assert!(loaded.persist);
    assert_eq!(loaded.settings.model.model, "whisper");
    assert!(!loaded.settings.play_sound);

    let fresh = settings_to_use(None);
    assert!(!fresh.persist);
    assert!(fresh.settings == TraySettings::default());
}
