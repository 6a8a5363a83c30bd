//! Decision logic of the settings window.
pub mod shortcut_recorder;
pub mod settings_form;
pub mod laws;
