//! Properties that hold of every run of the tray process's recording
//! commands.
use vstd::prelude::*;
use crate::audio::SoundEffect;
use crate::app::recording::{
    cancel_next, chunk_rule, start_next, toggle_command, transcribe_next, Action, CancelEvent,
    CancelStage, Command, RecordingError, StartEvent, StartStage, TranscribeEvent, TranscribeStage,
    TranscriptionOutcome, TrayTitle,
};

verus! {

/// How many more reported events the stop-and-transcribe command needs at
/// most from `stage` on.
pub open spec fn transcribe_rank(stage: TranscribeStage) -> nat {
    match stage {
        TranscribeStage::TakeRecording => 6,
        TranscribeStage::StopCapture => 5,
        TranscribeStage::Collect => 4,
        TranscribeStage::Encode => 3,
        TranscribeStage::Transcribe { .. } => 2,
        TranscribeStage::Copy { .. } => 1,
        TranscribeStage::Finished => 0,
    }
}

/// A step of the stop-and-transcribe command either ignores an event that
/// does not belong to its stage (same stage, no work, no result) or moves
/// strictly closer to the end; it has a result exactly when it reaches the
/// end, and it never leaves the end. So the command is over after at most
/// six events.
pub proof fn law_transcribe_progresses(stage: TranscribeStage, event: TranscribeEvent)
    ensures
        ({
            let (next, actions, outcome) = transcribe_next(stage, event);
            ||| (next == stage && actions.len() == 0 && outcome is None)
            ||| (transcribe_rank(next) < transcribe_rank(stage) && (outcome is Some <==> next
                == TranscribeStage::Finished))
        }),
        stage == TranscribeStage::Finished ==> transcribe_next(stage, event).0
            == TranscribeStage::Finished,
{
}

/// Once the recording was taken, every way out of stop-and-transcribe puts
/// the tray's idle title back, as its last action; no step before the end
/// touches it.
pub proof fn law_transcribe_restores_title(stage: TranscribeStage, event: TranscribeEvent)
    ensures
        ({
            let (next, actions, outcome) = transcribe_next(stage, event);
            &&& outcome is Some ==> actions.len() > 0 && actions.last() == Action::RestoreTrayTitle
            &&& outcome is None ==> !actions.contains(Action::RestoreTrayTitle)
        }),
{
    let (next, actions, outcome) = transcribe_next(stage, event);
    if outcome is None {
        assert forall|i: int| 0 <= i < actions.len() implies actions[i]
            != Action::RestoreTrayTitle by {}
    }
}

/// Cue sounds follow the setting: the "transcribing" cue plays only when the
/// setting read after the capture stopped is on, the "done" cue only when the
/// setting read before transcribing is on.
pub proof fn law_transcribe_sounds_follow_setting(
    stage: TranscribeStage,
    event: TranscribeEvent,
)
    ensures
        ({
            let actions = transcribe_next(stage, event).1;
            &&& actions.contains(Action::PlaySound(SoundEffect::TranscribeStart))
                ==> event == TranscribeEvent::CaptureStopped { play_sound: true }
            &&& actions.contains(Action::PlaySound(SoundEffect::Transcribe)) ==> (stage matches
                TranscribeStage::Copy { play_sound: true, .. })
            &&& !actions.contains(Action::PlaySound(SoundEffect::Record))
            &&& !actions.contains(Action::PlaySound(SoundEffect::Cancel))
        }),
{
}

/// Stop-and-transcribe succeeds only when the clipboard took the transcript,
/// and what goes to the clipboard is exactly the text the model returned.
pub proof fn law_transcript_reaches_clipboard(stage: TranscribeStage, event: TranscribeEvent)
    ensures
        ({
            let (next, actions, outcome) = transcribe_next(stage, event);
            &&& outcome == Some(Ok::<(), RecordingError>(())) ==> (stage is Copy)
            &&& outcome == Some(Ok::<(), RecordingError>(())) ==> (event
                == TranscribeEvent::Copied { outcome: Ok(()) })
            &&& forall|t: String| #[trigger]
                actions.contains(Action::CopyToClipboard(t)) ==> (stage is Transcribe)
            &&& forall|t: String| #[trigger]
                actions.contains(Action::CopyToClipboard(t)) ==> (event
                == TranscribeEvent::Transcribed { outcome: TranscriptionOutcome::Text(t) })
        }),
{
    let actions = transcribe_next(stage, event).1;
    if let TranscribeEvent::Copied { outcome: Ok(u) } = event {
        assert(u == ());
    }
    assert forall|t: String| #[trigger] actions.contains(Action::CopyToClipboard(t)) implies (
    stage is Transcribe) && (event == TranscribeEvent::Transcribed {
        outcome: TranscriptionOutcome::Text(t),
    }) by {
        let i = choose|i: int| 0 <= i < actions.len() && actions[i] == Action::CopyToClipboard(t);
        assert(actions[i] == Action::CopyToClipboard(t));
    }
}

/// Starting refuses exactly when a recording is in progress, and a start
/// that succeeds keeps the capture and shows the recording title.
pub proof fn law_start_refuses_only_while_recording(stage: StartStage, event: StartEvent)
    ensures
        ({
            let (next, actions, outcome) = start_next(stage, event);
            &&& outcome == Some(Err::<(), RecordingError>(RecordingError::AlreadyRecording)) <==> (
            stage == StartStage::CheckSlot && event == StartEvent::SlotChecked { recording: true })
            &&& outcome == Some(Ok::<(), RecordingError>(())) ==> actions.contains(
                Action::StoreRecording,
            ) && actions.contains(Action::SetTrayTitle(TrayTitle::Recording))
            &&& outcome is Some <==> (next == StartStage::Finished && stage
                != StartStage::Finished)
        }),
{
    let (next, actions, outcome) = start_next(stage, event);
    if outcome == Some(Ok::<(), RecordingError>(())) {
        assert(actions[1] == Action::StoreRecording);
        assert(actions[2] == Action::SetTrayTitle(TrayTitle::Recording));
    }
}

/// Cancelling restores the idle title on both ways out, and plays its cue
/// only when the setting is on; a cancel that found a recording tells the
/// capture to drop further audio before stopping it.
pub proof fn law_cancel(stage: CancelStage, event: CancelEvent)
    ensures
        ({
            let (next, actions, outcome) = cancel_next(stage, event);
            &&& outcome is Some ==> actions.len() > 0 && actions.last() == Action::RestoreTrayTitle
            &&& actions.contains(Action::PlaySound(SoundEffect::Cancel)) ==> event
                == CancelEvent::CaptureStopped { play_sound: true }
            &&& actions.contains(Action::SignalStop) ==> actions[0] == Action::MarkCancelled
        }),
{
    let (next, actions, outcome) = cancel_next(stage, event);
    if actions.contains(Action::SignalStop) {
        let i = choose|i: int| 0 <= i < actions.len() && actions[i] == Action::SignalStop;
        assert(actions[i] == Action::SignalStop);
    }
}

/// The number of record cues that a capture plays over the chunks whose
/// loudness verdicts are `voiced`, starting warmed up or not and without a
/// cancel.
pub open spec fn cues_played(warmed_up: bool, voiced: Seq<bool>, play_sound: bool) -> nat
    decreases voiced.len(),
{
    if voiced.len() == 0 {
        0
    } else {
        let d = chunk_rule(false, warmed_up, voiced[0], play_sound);
        (if d.play_record_cue {
            1nat
        } else {
            0nat
        }) + cues_played(d.warmed_up, voiced.drop_first(), play_sound)
    }
}

/// The number of chunks that a capture keeps, under the same conditions.
pub open spec fn chunks_kept(warmed_up: bool, voiced: Seq<bool>) -> nat
    decreases voiced.len(),
{
    if voiced.len() == 0 {
        0
    } else {
        let d = chunk_rule(false, warmed_up, voiced[0], false);
        (if d.forward {
            1nat
        } else {
            0nat
        }) + chunks_kept(d.warmed_up, voiced.drop_first())
    }
}

/// Over any run of chunks, the record cue plays at most once, never when
/// sounds are off and never when speech was already heard; and the chunks
/// kept are exactly those from the first loud one on.
pub proof fn law_record_cue_at_most_once(warmed_up: bool, voiced: Seq<bool>, play_sound: bool)
    ensures
        cues_played(warmed_up, voiced, play_sound) <= 1,
        !play_sound ==> cues_played(warmed_up, voiced, play_sound) == 0,
        warmed_up ==> cues_played(warmed_up, voiced, play_sound) == 0,
        warmed_up ==> chunks_kept(warmed_up, voiced) == voiced.len(),
        (forall|i: int| 0 <= i < voiced.len() ==> !voiced[i]) ==> chunks_kept(warmed_up, voiced)
            == (if warmed_up {
            voiced.len()
        } else {
            0
        }),
    decreases voiced.len(),
{
    if voiced.len() > 0 {
        let d = chunk_rule(false, warmed_up, voiced[0], play_sound);
        let rest = voiced.drop_first();
        law_record_cue_at_most_once(d.warmed_up, rest, play_sound);
        law_record_cue_at_most_once(true, rest, play_sound);
        if forall|i: int| 0 <= i < voiced.len() ==> !voiced[i] {
            assert forall|i: int| 0 <= i < rest.len() implies !rest[i] by {
                assert(rest[i] == voiced[i + 1]);
            }
        }
    }
}

/// A cancelled capture keeps nothing and plays nothing.
pub proof fn law_cancelled_capture_keeps_nothing(warmed_up: bool, voiced: bool, play_sound: bool)
    ensures
        !chunk_rule(true, warmed_up, voiced, play_sound).forward,
        !chunk_rule(true, warmed_up, voiced, play_sound).play_record_cue,
{
}


// ---------------------------------------------------------------------------
// The recording slot across commands
// ---------------------------------------------------------------------------

/// Whether a recording is in progress once the runner has performed
/// `actions`, starting from `slot`: storing a capture fills the slot, taking
/// the recording out empties it, and no other action touches it.
pub open spec fn slot_after(slot: bool, actions: Seq<Action>) -> bool
    decreases actions.len(),
{
    if actions.len() == 0 {
        slot
    } else {
        match actions.last() {
            Action::StoreRecording => true,
            Action::TakeRecording => false,
            _ => slot_after(slot, actions.drop_last()),
        }
    }
}

/// Actions that neither store nor take a recording leave the slot as it is.
proof fn lemma_slot_untouched(slot: bool, actions: Seq<Action>)
    requires
        forall|i: int|
            0 <= i < actions.len() ==> #[trigger] actions[i] != Action::StoreRecording
                && actions[i] != Action::TakeRecording,
    ensures
        slot_after(slot, actions) == slot,
    decreases actions.len(),
{
    if actions.len() > 0 {
        assert(actions[actions.len() - 1] == actions.last());
        lemma_slot_untouched(slot, actions.drop_last());
    }
}

/// The start command after its first step and the runner's reports
/// `events`: its stage, whether a recording is in progress, and its result.
pub open spec fn start_run(slot: bool, events: Seq<StartEvent>) -> (
    StartStage,
    bool,
    Option<Result<(), RecordingError>>,
)
    decreases events.len(),
{
    if events.len() == 0 {
        (StartStage::CheckSlot, slot_after(slot, seq![Action::CheckRecording]), None)
    } else {
        let (stage, now, outcome) = start_run(slot, events.drop_last());
        let (next, actions, result) = start_next(stage, events.last());
        (next, slot_after(now, actions), if outcome is Some {
            outcome
        } else {
            result
        })
    }
}

/// Every slot check among `events` reports the slot as it stands when the
/// check is made.
pub open spec fn start_reports_slot(slot: bool, events: Seq<StartEvent>) -> bool {
    forall|i: int|
        0 <= i < events.len() ==> (#[trigger] events[i] matches StartEvent::SlotChecked {
            recording,
        } ==> recording == start_run(slot, events.take(i)).1)
}

/// Honest reports about a run are honest about each shorter run.
proof fn lemma_start_reports_prefix(slot: bool, events: Seq<StartEvent>)
    requires
        events.len() > 0,
        start_reports_slot(slot, events),
    ensures
        start_reports_slot(slot, events.drop_last()),
        events.last() matches StartEvent::SlotChecked { recording } ==> recording == start_run(
            slot,
            events.drop_last(),
        ).1,
{
    let shorter = events.drop_last();
    assert forall|i: int| 0 <= i < shorter.len() implies (#[trigger] shorter[i] matches StartEvent::SlotChecked {
        recording,
    } ==> recording == start_run(slot, shorter.take(i)).1) by {
        assert(shorter[i] == events[i]);
        assert(shorter.take(i) =~= events.take(i));
    }
    assert(events.take(events.len() - 1) =~= shorter);
    assert(events[events.len() - 1] == events.last());
}

/// Starting fills the slot only by succeeding, and succeeds only from an
/// empty slot: after any run of the start command whose slot checks are
/// reported truly, a recording is in progress exactly when one already was
/// or the command succeeded, and a success means none was in progress
/// before.
pub proof fn law_start_fills_slot_only_on_success(slot: bool, events: Seq<StartEvent>)
    requires
        start_reports_slot(slot, events),
    ensures
        ({
            let (stage, now, outcome) = start_run(slot, events);
            &&& now == (slot || outcome == Some(Ok::<(), RecordingError>(())))
            &&& outcome == Some(Ok::<(), RecordingError>(())) ==> !slot
            &&& outcome is None ==> (stage == StartStage::CheckSlot || (stage
                == StartStage::OpenDevice && !slot))
            &&& outcome is Some ==> stage == StartStage::Finished
        }),
    decreases events.len(),
{
    if events.len() == 0 {
        let first = seq![Action::CheckRecording];
        assert(first.last() == Action::CheckRecording);
        assert(first.drop_last() =~= Seq::<Action>::empty());
        assert(slot_after(slot, first) == slot_after(slot, first.drop_last()));
        assert(start_run(slot, events).1 == slot);
    } else {
        lemma_start_reports_prefix(slot, events);
        law_start_fills_slot_only_on_success(slot, events.drop_last());
        let (stage, now, outcome) = start_run(slot, events.drop_last());
        let (next, actions, result) = start_next(stage, events.last());
        if stage == StartStage::OpenDevice && events.last() matches StartEvent::DeviceOpened {
            outcome: Ok(_),
            ..
        } {
            assert(actions.last() == Action::SetTrayTitle(TrayTitle::Recording));
            assert(actions.drop_last().last() == Action::StoreRecording);
            assert(slot_after(now, actions) == slot_after(now, actions.drop_last()));
            assert(slot_after(now, actions));
        } else {
            assert forall|i: int| 0 <= i < actions.len() implies #[trigger] actions[i]
                != Action::StoreRecording && actions[i] != Action::TakeRecording by {}
            lemma_slot_untouched(now, actions);
        }
        assert(start_run(slot, events) == (next, slot_after(now, actions), if outcome is Some {
            outcome
        } else {
            result
        }));
    }
}

/// The stop-and-transcribe command after its first step and the runner's
/// reports `events`: its stage, whether a recording is in progress, and its
/// result.
pub open spec fn transcribe_run(slot: bool, events: Seq<TranscribeEvent>) -> (
    TranscribeStage,
    bool,
    Option<Result<(), RecordingError>>,
)
    decreases events.len(),
{
    if events.len() == 0 {
        (TranscribeStage::TakeRecording, slot_after(slot, seq![Action::TakeRecording]), None)
    } else {
        let (stage, now, outcome) = transcribe_run(slot, events.drop_last());
        let (next, actions, result) = transcribe_next(stage, events.last());
        (next, slot_after(now, actions), if outcome is Some {
            outcome
        } else {
            result
        })
    }
}

/// Every report of what was taken out of the slot says truly whether a
/// recording was in it.
pub open spec fn transcribe_reports_taken(slot: bool, events: Seq<TranscribeEvent>) -> bool {
    forall|i: int|
        0 <= i < events.len() ==> (#[trigger] events[i] matches TranscribeEvent::RecordingTaken {
            present,
        } ==> present == slot)
}

/// Stopping empties the slot: after any run of stop-and-transcribe, whatever
/// its result, no recording is in progress. It fails with "not recording"
/// only when none was in progress, and from an empty slot it does nothing
/// else.
pub proof fn law_stop_empties_slot(slot: bool, events: Seq<TranscribeEvent>)
    requires
        transcribe_reports_taken(slot, events),
    ensures
        ({
            let (stage, now, outcome) = transcribe_run(slot, events);
            &&& !now
            &&& outcome == Some(Err::<(), RecordingError>(RecordingError::NotRecording)) ==> !slot
            &&& !slot ==> (outcome is None || outcome == Some(
                Err::<(), RecordingError>(RecordingError::NotRecording),
            ))
            &&& !slot && outcome is None ==> stage == TranscribeStage::TakeRecording
            &&& outcome is Some ==> stage == TranscribeStage::Finished
            &&& stage == TranscribeStage::Finished ==> outcome is Some
        }),
    decreases events.len(),
{
    if events.len() > 0 {
        let shorter = events.drop_last();
        assert forall|i: int| 0 <= i < shorter.len() implies (#[trigger] shorter[i] matches TranscribeEvent::RecordingTaken {
            present,
        } ==> present == slot) by {
            assert(shorter[i] == events[i]);
        }
        assert(events[events.len() - 1] == events.last());
        law_stop_empties_slot(slot, shorter);
        let (stage, now, outcome) = transcribe_run(slot, shorter);
        let (next, actions, result) = transcribe_next(stage, events.last());
        assert forall|i: int| 0 <= i < actions.len() implies #[trigger] actions[i]
            != Action::StoreRecording && actions[i] != Action::TakeRecording by {}
        lemma_slot_untouched(now, actions);
    }
}

/// The cancel command after its first step and the runner's reports
/// `events`: its stage, whether a recording is in progress, and its result.
pub open spec fn cancel_run(slot: bool, events: Seq<CancelEvent>) -> (
    CancelStage,
    bool,
    Option<Result<(), RecordingError>>,
)
    decreases events.len(),
{
    if events.len() == 0 {
        (CancelStage::TakeRecording, slot_after(slot, seq![Action::TakeRecording]), None)
    } else {
        let (stage, now, outcome) = cancel_run(slot, events.drop_last());
        let (next, actions, result) = cancel_next(stage, events.last());
        (next, slot_after(now, actions), if outcome is Some {
            outcome
        } else {
            result
        })
    }
}

/// Every report of what was taken out of the slot says truly whether a
/// recording was in it.
pub open spec fn cancel_reports_taken(slot: bool, events: Seq<CancelEvent>) -> bool {
    forall|i: int|
        0 <= i < events.len() ==> (#[trigger] events[i] matches CancelEvent::RecordingTaken {
            present,
        } ==> present == slot)
}

/// Cancelling empties the slot: after any run of the cancel command,
/// whatever its result, no recording is in progress; it fails with "not
/// recording" exactly when none was in progress and the slot was checked.
pub proof fn law_cancel_empties_slot(slot: bool, events: Seq<CancelEvent>)
    requires
        cancel_reports_taken(slot, events),
    ensures
        ({
            let (stage, now, outcome) = cancel_run(slot, events);
            &&& !now
            &&& outcome == Some(Err::<(), RecordingError>(RecordingError::NotRecording)) ==> !slot
            &&& !slot ==> (outcome is None || outcome == Some(
                Err::<(), RecordingError>(RecordingError::NotRecording),
            ))
            &&& !slot && outcome is None ==> stage == CancelStage::TakeRecording
            &&& outcome is Some <==> stage == CancelStage::Finished
        }),
    decreases events.len(),
{
    if events.len() > 0 {
        let shorter = events.drop_last();
        assert forall|i: int| 0 <= i < shorter.len() implies (#[trigger] shorter[i] matches CancelEvent::RecordingTaken {
            present,
        } ==> present == slot) by {
            assert(shorter[i] == events[i]);
        }
        assert(events[events.len() - 1] == events.last());
        law_cancel_empties_slot(slot, shorter);
        let (stage, now, outcome) = cancel_run(slot, shorter);
        let (next, actions, result) = cancel_next(stage, events.last());
        assert forall|i: int| 0 <= i < actions.len() implies #[trigger] actions[i]
            != Action::StoreRecording && actions[i] != Action::TakeRecording by {}
        lemma_slot_untouched(now, actions);
    }
}

/// The record / transcribe shortcut toggles: from an idle slot it starts,
/// and a start that succeeds leaves a recording in progress while one that
/// fails leaves none; from a recording it stops and transcribes, which
/// leaves no recording whatever the result and never answers "not
/// recording".
pub proof fn law_shortcut_toggles(
    slot: bool,
    start_events: Seq<StartEvent>,
    stop_events: Seq<TranscribeEvent>,
)
    requires
        start_reports_slot(slot, start_events),
        transcribe_reports_taken(slot, stop_events),
    ensures
        match toggle_command(slot) {
            Command::StartRecording => {
                let (stage, now, outcome) = start_run(slot, start_events);
                &&& !slot
                &&& outcome == Some(Ok::<(), RecordingError>(())) ==> now
                &&& outcome matches Some(Err(_)) ==> !now
            },
            Command::StopAndTranscribe => {
                let (stage, now, outcome) = transcribe_run(slot, stop_events);
                &&& slot
                &&& !now
                &&& outcome != Some(Err::<(), RecordingError>(RecordingError::NotRecording))
            },
        },
{
    law_start_fills_slot_only_on_success(slot, start_events);
    law_stop_empties_slot(slot, stop_events);
}


// ---------------------------------------------------------------------------
// The settings that a command reads decide what it does
// ---------------------------------------------------------------------------

/// The end of a successful stop-and-transcribe follows the settings read
/// after encoding: over the whole run from the encoded audio to the copied
/// transcript, the clipboard is pasted exactly when auto-paste was on, the
/// done cue plays exactly when sounds were on, and the transcript the model
/// returned is what goes to the clipboard.
pub proof fn law_done_follows_settings(play_sound: bool, auto_paste: bool, t: String)
    ensures
        ({
            let (s1, a1, o1) = transcribe_next(
                TranscribeStage::Encode,
                TranscribeEvent::Encoded { outcome: Ok(()), play_sound, auto_paste },
            );
            let (s2, a2, o2) = transcribe_next(
                s1,
                TranscribeEvent::Transcribed { outcome: TranscriptionOutcome::Text(t) },
            );
            let (s3, a3, o3) = transcribe_next(s2, TranscribeEvent::Copied { outcome: Ok(()) });
            let all = a1 + a2 + a3;
            &&& o1 is None
            &&& o2 is None
            &&& o3 == Some(Ok::<(), RecordingError>(()))
            &&& all.contains(Action::PasteClipboard) == auto_paste
            &&& all.contains(Action::PlaySound(SoundEffect::Transcribe)) == play_sound
            &&& all.contains(Action::CopyToClipboard(t))
            &&& all.last() == Action::RestoreTrayTitle
        }),
{
    let (s1, a1, o1) = transcribe_next(
        TranscribeStage::Encode,
        TranscribeEvent::Encoded { outcome: Ok(()), play_sound, auto_paste },
    );
    let (s2, a2, o2) = transcribe_next(
        s1,
        TranscribeEvent::Transcribed { outcome: TranscriptionOutcome::Text(t) },
    );
    let (s3, a3, o3) = transcribe_next(s2, TranscribeEvent::Copied { outcome: Ok(()) });
    let all = a1 + a2 + a3;
    let paste = if auto_paste {
        seq![Action::PasteClipboard]
    } else {
        Seq::<Action>::empty()
    };
    let cue = if play_sound {
        seq![Action::PlaySound(SoundEffect::Transcribe)]
    } else {
        Seq::<Action>::empty()
    };
    assert(a3 =~= paste + cue + seq![Action::RestoreTrayTitle]);
    assert(all =~= seq![Action::Transcribe, Action::CopyToClipboard(t)] + paste + cue + seq![
        Action::RestoreTrayTitle,
    ]);
    assert(all[1] == Action::CopyToClipboard(t));
    if auto_paste {
        assert(all[2] == Action::PasteClipboard);
    } else {
        assert forall|i: int| 0 <= i < all.len() implies all[i] != Action::PasteClipboard by {}
    }
    if play_sound {
        assert(all[all.len() - 2] == Action::PlaySound(SoundEffect::Transcribe));
    } else {
        assert forall|i: int| 0 <= i < all.len() implies all[i] != Action::PlaySound(
            SoundEffect::Transcribe,
        ) by {}
    }
}

/// The capture that a start launches carries the sound setting that was
/// read when the device opened: a start step launches a capture with
/// `play_sound == p` only on the report that the device opened with that
/// setting, and such a report does launch it and succeed.
pub proof fn law_capture_carries_sound_setting(stage: StartStage, event: StartEvent, p: bool)
    ensures
        start_next(stage, event).1.contains(Action::StartCapture { play_sound: p }) ==> (stage
            == StartStage::OpenDevice && (event matches StartEvent::DeviceOpened {
            outcome: Ok(_),
            play_sound: q,
        } && q == p)),
        (stage == StartStage::OpenDevice && event == StartEvent::DeviceOpened {
            outcome: Ok(()),
            play_sound: p,
        }) ==> start_next(stage, event).1.contains(Action::StartCapture { play_sound: p })
            && start_next(stage, event).2 == Some(Ok::<(), RecordingError>(())),
{
    let actions = start_next(stage, event).1;
    if actions.contains(Action::StartCapture { play_sound: p }) {
        let i = choose|i: int|
            0 <= i < actions.len() && actions[i] == Action::StartCapture { play_sound: p };
        assert(actions[i] == Action::StartCapture { play_sound: p });
    }
    if stage == StartStage::OpenDevice && event == (StartEvent::DeviceOpened {
        outcome: Ok(()),
        play_sound: p,
    }) {
        assert(actions[0] == Action::StartCapture { play_sound: p });
    }
}


/// The "transcribing" cue plays exactly when the setting read after the
/// capture stopped is on, and the cancel cue exactly when the setting read
/// after a cancelled capture stopped is on.
pub proof fn law_cues_follow_settings(q: bool)
    ensures
        transcribe_next(
            TranscribeStage::StopCapture,
            TranscribeEvent::CaptureStopped { play_sound: q },
        ).1.contains(Action::PlaySound(SoundEffect::TranscribeStart)) == q,
        cancel_next(CancelStage::StopCapture, CancelEvent::CaptureStopped { play_sound: q }).1.contains(
            Action::PlaySound(SoundEffect::Cancel),
        ) == q,
{
    let a = transcribe_next(
        TranscribeStage::StopCapture,
        TranscribeEvent::CaptureStopped { play_sound: q },
    ).1;
    let c = cancel_next(CancelStage::StopCapture, CancelEvent::CaptureStopped { play_sound: q }).1;
    if q {
        assert(a[0] == Action::PlaySound(SoundEffect::TranscribeStart));
        assert(c[0] == Action::PlaySound(SoundEffect::Cancel));
    } else {
        assert(a =~= seq![Action::CollectSamples]);
        assert(c =~= seq![Action::RestoreTrayTitle]);
        assert forall|i: int| 0 <= i < a.len() implies a[i] != Action::PlaySound(
            SoundEffect::TranscribeStart,
        ) by {}
        assert forall|i: int| 0 <= i < c.len() implies c[i] != Action::PlaySound(
            SoundEffect::Cancel,
        ) by {}
    }
}

} // verus!
