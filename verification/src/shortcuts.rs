//! The three global shortcuts of the chat-completion tray variant and the command
//! each one runs.
use vstd::prelude::*;

verus! {

/// Which registered shortcut fired.
pub enum Binding {
    Recording,
    Transcribe,
    Cancel,
}

/// The command a shortcut runs.
pub enum Command {
    StartRecording,
    StopAndTranscribe,
    CancelRecording,
}

/// A press runs the shortcut's command; a release runs nothing.
pub open spec fn binding_rule(binding: Binding, pressed: bool) -> Option<Command> {
    if !pressed {
        None
    } else {
        Some(
            match binding {
                Binding::Recording => Command::StartRecording,
                Binding::Transcribe => Command::StopAndTranscribe,
                Binding::Cancel => Command::CancelRecording,
            },
        )
    }
}

/// The command that a shortcut event runs; see [`binding_rule`].
pub fn command_for(binding: Binding, pressed: bool) -> (c: Option<Command>)
    ensures
        c == binding_rule(binding, pressed),
{
    if !pressed {
        return None;
    }
    Some(
        match binding {
            Binding::Recording => Command::StartRecording,
            Binding::Transcribe => Command::StopAndTranscribe,
            Binding::Cancel => Command::CancelRecording,
        },
    )
}

} // verus!
