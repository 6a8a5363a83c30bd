//! Decision logic of a tray dictation app: settings and their defaults,
//! the recording / transcription flows, shortcut capture and transcript
//! cleanup.
pub mod text;
pub mod shared;
pub mod ai;
pub mod settings;
pub mod app;
pub mod audio;
pub mod recording;
pub mod ui;
pub mod laws;
pub mod ipc_gen;
pub mod shortcuts;
