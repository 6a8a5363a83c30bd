use henry_whisper::app::shortcuts::{shortcut_action, Configured, ShortcutAction};
use henry_whisper::app::tray::{menu_action, menu_entries, MenuAction, MenuEntry};
use henry_whisper::ipc_gen::{
    binding_plan, command_meta, is_tauri_type, type_str, unwrap_result_str, ArgsPlan, Param, PathShape,
    ResultChoice, TypeShape,
};
use henry_whisper::shortcuts::{command_for, Binding, Command};

fn path(text: &str, segs: &[&str], arg: Option<TypeShape>) -> TypeShape {
    TypeShape {
        text: text.to_string(),
        path: Some(PathShape {
            leading_colon: false,
            segments: segs.iter().map(|s| s.to_string()).collect(),
            last_has_arguments: arg.is_some(),
            last_first_type_arg: arg.map(Box::new),
        }),
        empty_tuple: false,
    }
}

fn unit() -> TypeShape {
    TypeShape { text: "()".to_string(), path: None, empty_tuple: true }
}

#[test]
fn shortcut_press_dispatch() {
    let yes = || Configured::Parsed { matches: true };
    let no = || Configured::Parsed { matches: false };
    assert!(matches!(shortcut_action(true, yes(), no()), Some(ShortcutAction::RecordOrTranscribe)));
    assert!(matches!(shortcut_action(true, no(), yes()), Some(ShortcutAction::CancelRecording)));
    assert!(matches!(shortcut_action(true, yes(), yes()), Some(ShortcutAction::RecordOrTranscribe)));
    assert!(shortcut_action(false, yes(), no()).is_none());
    assert!(shortcut_action(true, no(), no()).is_none());
    assert!(shortcut_action(true, yes(), Configured::Unparsable).is_none());
    assert!(shortcut_action(true, Configured::Unparsable, yes()).is_none());
}

#[test]
fn chat_shortcuts_run_on_press_only() {
    assert!(matches!(command_for(Binding::Recording, true), Some(Command::StartRecording)));
    assert!(matches!(command_for(Binding::Transcribe, true), Some(Command::StopAndTranscribe)));
    assert!(matches!(command_for(Binding::Cancel, true), Some(Command::CancelRecording)));
    assert!(command_for(Binding::Cancel, false).is_none());
}

#[test]
fn every_menu_entry_dispatches_to_its_action() {
    let entries = menu_entries();
    assert_eq!(entries.len(), 6);
    let ids: Vec<&str> = entries
        .iter()
        .filter_map(|e| match e {
            MenuEntry::Item { id, .. } => Some(*id),
            MenuEntry::Separator => None,
        })
        .collect();
    assert_eq!(ids, vec!["record", "cancel", "settings", "quit"]);
    assert!(matches!(menu_action("record"), MenuAction::RecordOrTranscribe));
    assert!(matches!(menu_action("cancel"), MenuAction::CancelRecording));
    assert!(matches!(menu_action("settings"), MenuAction::ShowSettings));
    assert!(matches!(menu_action("quit"), MenuAction::Quit));
    assert!(matches!(menu_action("other"), MenuAction::Nothing));
}

#[test]
fn framework_types_are_recognised() {
    assert!(is_tauri_type(&path("tauri::AppHandle", &["tauri", "AppHandle"], None)));
    assert!(is_tauri_type(&path("State<'_,AppState>", &["State"], Some(path("AppState", &["AppState"], None)))));
    assert!(is_tauri_type(&path("WebviewWindow", &["WebviewWindow"], None)));
    assert!(!is_tauri_type(&path("String", &["String"], None)));
    assert!(!is_tauri_type(&unit()));
}

#[test]
fn result_types_are_described_by_their_value() {
    let r = path("Result<AppSettings,String>", &["Result"], Some(path("AppSettings", &["AppSettings"], None)));
    assert_eq!(unwrap_result_str(&r), "AppSettings");
    let s = path("String", &["String"], None);
    assert_eq!(unwrap_result_str(&s), "String");
}

#[test]
fn command_metadata_lists_frontend_parameters() {
    let params = vec![
        Param { name: Some("app".to_string()), ty: path("tauri::AppHandle", &["tauri", "AppHandle"], None) },
        Param { name: Some("state".to_string()), ty: path("tauri::State<'_,AppState>", &["tauri", "State"], None) },
        Param { name: Some("settings".to_string()), ty: path("AppSettings", &["AppSettings"], None) },
        Param { name: None, ty: path("u64", &["u64"], None) },
    ];
    let out = Some(path("Result<(),String>", &["Result"], Some(unit())));
    let m = command_meta("save_settings", &params, &out);
    assert_eq!(m.name, "save_settings");
    assert_eq!(m.meta_fn, "__ipc_meta_save_settings");
    assert_eq!(m.params.len(), 2);
    assert_eq!(m.params[0].name, "settings");
    assert_eq!(m.params[0].ty, "AppSettings");
    assert_eq!(m.params[1].name, "_");
    assert!(m.return_type.is_none());

    let out = Some(path("AppSettings", &["AppSettings"], None));
    let g = command_meta("get_settings", &Vec::new(), &out);
    assert_eq!(g.return_type.as_deref(), Some("AppSettings"));
    let none = command_meta("frontend_info", &Vec::new(), &None);
    assert!(none.return_type.is_none());
}

#[test]
fn binding_plan_borrows_strings_and_unwraps_results() {
    let params = vec![
        Param { name: Some("message".to_string()), ty: path("String", &["String"], None) },
        Param { name: Some("count".to_string()), ty: path("u32", &["u32"], None) },
    ];
    let out = Some(path("Result<AppSettings,String>", &["Result"], Some(path("AppSettings", &["AppSettings"], None))));
    let b = binding_plan("save", &params, &out);
    assert_eq!(b.command, "save");
    assert_eq!(b.str_params, vec![true, false]);
    match b.args {
        ArgsPlan::Json(f) => assert_eq!(f, vec![Some("message".to_string()), Some("count".to_string())]),
        ArgsPlan::Null => panic!("expected an argument object"),
    }
    assert!(matches!(b.decoded, Some(ResultChoice::Inner)));

    let unit_out = Some(path("Result<(),JsValue>", &["Result"], Some(unit())));
    let c = binding_plan("hide", &Vec::new(), &unit_out);
    assert!(matches!(c.args, ArgsPlan::Null));
    assert!(c.decoded.is_none());
    let whole = binding_plan("get", &Vec::new(), &Some(path("u64", &["u64"], None)));
    assert!(matches!(whole.decoded, Some(ResultChoice::Whole)));
}

#[test]
fn type_text_drops_spaces() {
    assert_eq!(type_str("Result < Vec < u8 > , String >"), "Result<Vec<u8>,String>");
    assert_eq!(type_str("& 'a str"), "&'astr");
    assert_eq!(type_str(""), "");
    assert_eq!(type_str("u64"), "u64");
}
