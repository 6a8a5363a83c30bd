//! The tray menu: its entries and what choosing one does.
use vstd::prelude::*;
use crate::text::str_equal;

verus! {

/// What a menu entry does.
pub enum MenuAction {
    Quit,
    /// Show and focus the settings window.
    ShowSettings,
    RecordOrTranscribe,
    CancelRecording,
    /// An id that no entry has.
    Nothing,
}

/// The action bound to menu id `id`.
pub open spec fn menu_rule(id: Seq<char>) -> MenuAction {
    if id == "quit"@ {
        MenuAction::Quit
    } else if id == "settings"@ {
        MenuAction::ShowSettings
    } else if id == "record"@ {
        MenuAction::RecordOrTranscribe
    } else if id == "cancel"@ {
        MenuAction::CancelRecording
    } else {
        MenuAction::Nothing
    }
}

/// The action of the menu entry with id `id`.
pub fn menu_action(id: &str) -> (a: MenuAction)
    ensures
        a == menu_rule(id@),
{
    if str_equal(id, "quit") {
        MenuAction::Quit
    } else if str_equal(id, "settings") {
        MenuAction::ShowSettings
    } else if str_equal(id, "record") {
        MenuAction::RecordOrTranscribe
    } else if str_equal(id, "cancel") {
        MenuAction::CancelRecording
    } else {
        MenuAction::Nothing
    }
}

/// An entry of the tray menu.
pub enum MenuEntry {
    Item { id: &'static str, label: &'static str },
    Separator,
}

/// The menu, top to bottom: record / transcribe, cancel, a separator,
/// settings, a separator, quit.
pub fn menu_entries() -> (v: Vec<MenuEntry>)
    ensures
        v.len() == 6,
        v[0] matches MenuEntry::Item { id, label } && id@ == "record"@ && label@
            == "Record / Transcribe"@,
        v[1] matches MenuEntry::Item { id, label } && id@ == "cancel"@ && label@ == "Cancel"@,
        v[2] is Separator,
        v[3] matches MenuEntry::Item { id, label } && id@ == "settings"@ && label@ == "Setting"@,
        v[4] is Separator,
        v[5] matches MenuEntry::Item { id, label } && id@ == "quit"@ && label@ == "Quit"@,
{
    let mut v = Vec::new();
    v.push(MenuEntry::Item { id: "record", label: "Record / Transcribe" });
    v.push(MenuEntry::Item { id: "cancel", label: "Cancel" });
    v.push(MenuEntry::Separator);
    v.push(MenuEntry::Item { id: "settings", label: "Setting" });
    v.push(MenuEntry::Separator);
    v.push(MenuEntry::Item { id: "quit", label: "Quit" });
    v
}

} // verus!
