//! What a global shortcut press does in the tray process.
use vstd::prelude::*;

verus! {

/// The command a shortcut press starts.
pub enum ShortcutAction {
    /// Start a recording, or stop and transcribe the one in progress.
    RecordOrTranscribe,
    CancelRecording,
}

/// How a configured shortcut compares with the pressed one: it did not
/// parse, or it parsed and does or does not match.
pub enum Configured {
    Unparsable,
    Parsed { matches: bool },
}

/// The press handler: releases do nothing; so does any press while either
/// configured shortcut fails to parse; otherwise the record / transcribe
/// shortcut is checked first, then the cancel one.
pub open spec fn shortcut_rule(pressed: bool, recording: Configured, cancel: Configured) -> Option<
    ShortcutAction,
> {
    if !pressed {
        None
    } else {
        match (recording, cancel) {
            (Configured::Parsed { matches: r }, Configured::Parsed { matches: c }) => if r {
                Some(ShortcutAction::RecordOrTranscribe)
            } else if c {
                Some(ShortcutAction::CancelRecording)
            } else {
                None
            },
            _ => None,
        }
    }
}

/// Decides what a shortcut event does; see [`shortcut_rule`].
pub fn shortcut_action(pressed: bool, recording: Configured, cancel: Configured) -> (a: Option<
    ShortcutAction,
>)
    ensures
        a == shortcut_rule(pressed, recording, cancel),
{
    if !pressed {
        return None;
    }
    let r = match recording {
        Configured::Parsed { matches } => matches,
        Configured::Unparsable => {
            return None;
        },
    };
    let c = match cancel {
        Configured::Parsed { matches } => matches,
        Configured::Unparsable => {
            return None;
        },
    };
    if r {
        Some(ShortcutAction::RecordOrTranscribe)
    } else if c {
        Some(ShortcutAction::CancelRecording)
    } else {
        None
    }
}

} // verus!
