//! The tray process: settings, recording flows, shortcuts and the tray menu.
pub mod settings;
pub mod recording;
pub mod laws;
pub mod shortcuts;
pub mod tray;
