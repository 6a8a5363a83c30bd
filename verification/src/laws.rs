//! Properties of the chat-completion tray variant's recording commands.
use vstd::prelude::*;
use crate::app::recording::TrayTitle;
use crate::recording::{
    base64_standard, bearer, cancel_next, reply_transcript, start_next, success_actions,
    transcribe_next, only_if, ActionView, ChatReply, CancelStage, CommandError, StartEvent, StartStage,
    TranscribeEvent, TranscribeStage, command_error_message,
};
use crate::text::{is_white_space, lemma_trim_has_no_outer_white_space};

verus! {

/// How many more reported events stop-and-transcribe needs at most.
pub open spec fn transcribe_rank(stage: TranscribeStage) -> nat {
    match stage {
        TranscribeStage::TakeRecording => 4,
        TranscribeStage::Collect => 3,
        TranscribeStage::Encode => 2,
        TranscribeStage::AwaitReply => 1,
        TranscribeStage::Finished => 0,
    }
}

/// A step either ignores an event that does not belong to its stage or moves
/// strictly closer to the end, with a result exactly when it gets there: the
/// command is over after at most four events.
pub proof fn law_transcribe_progresses(stage: TranscribeStage, event: TranscribeEvent)
    ensures
        ({
            let (next, actions, outcome) = transcribe_next(stage, event);
            ||| (next == stage && actions.len() == 0 && outcome is None)
            ||| (transcribe_rank(next) < transcribe_rank(stage) && (outcome is Some <==> next
                == TranscribeStage::Finished))
        }),
{
}

/// The audio is sent only with a non-empty API key, authorised as
/// `Bearer <key>`, and it is the Base64 text of exactly the encoded WAV.
pub proof fn law_request_carries_key_and_audio(stage: TranscribeStage, event: TranscribeEvent)
    ensures
        forall|auth: Seq<char>, audio: Seq<char>| #[trigger]
            transcribe_next(stage, event).1.contains(
                ActionView::PostTranscription { authorization: auth, audio_base64: audio },
            ) ==> (event matches TranscribeEvent::WavEncoded { result: Ok(wav), api_key }
                && api_key@.len() > 0 && auth == bearer(api_key@) && audio == base64_standard(
                wav@,
            )),
{
    let actions = transcribe_next(stage, event).1;
    assert forall|auth: Seq<char>, audio: Seq<char>| #[trigger]
        actions.contains(
            ActionView::PostTranscription { authorization: auth, audio_base64: audio },
        ) implies (event matches TranscribeEvent::WavEncoded { result: Ok(wav), api_key }
        && api_key@.len() > 0 && auth == bearer(api_key@) && audio == base64_standard(wav@)) by {
        let i = choose|i: int|
            0 <= i < actions.len() && actions[i] == ActionView::PostTranscription {
                authorization: auth,
                audio_base64: audio,
            };
        assert(actions[i] == ActionView::PostTranscription {
            authorization: auth,
            audio_base64: audio,
        });
    }
}

/// A transcript that the command returns has no white space at either end,
/// is the first thing the command does with it (copy to the clipboard),
/// and is announced only when notifications are asked for and it is not
/// empty.
pub proof fn law_transcript_trimmed_and_copied(t: Seq<char>, content: Option<String>, play_sound: bool, show_notification: bool)
    requires
        t == reply_transcript(content),
    ensures
        t.len() > 0 ==> !is_white_space(t[0]) && !is_white_space(t.last()),
        success_actions(t, play_sound, show_notification)[0] == ActionView::CopyToClipboard(t),
        success_actions(t, play_sound, show_notification).contains(ActionView::Notify(t))
            <==> (show_notification && t.len() > 0),
{
    if let Some(c) = content {
        lemma_trim_has_no_outer_white_space(c@);
    }
    let acts = success_actions(t, play_sound, show_notification);
    let n = only_if(show_notification && t.len() > 0, ActionView::Notify(t));
    let rest = only_if(play_sound, ActionView::PlayCue) + seq![ActionView::ClearTrayTitle];
    assert(acts =~= seq![ActionView::CopyToClipboard(t)] + n + rest);
    if show_notification && t.len() > 0 {
        assert(acts[1] == ActionView::Notify(t));
    } else {
        assert forall|i: int| 0 <= i < acts.len() implies acts[i] != ActionView::Notify(t) by {
            if i >= 1 {
                assert(acts[i] == rest[i - 1]);
            }
        }
    }
}


// ---------------------------------------------------------------------------
// The recording slot across commands
// ---------------------------------------------------------------------------

/// Whether a recording is in progress once the runner has performed
/// `actions`, starting from `slot`: storing a capture fills the slot, taking
/// the recording out empties it, and no other action touches it.
pub open spec fn slot_after(slot: bool, actions: Seq<ActionView>) -> bool
    decreases actions.len(),
{
    if actions.len() == 0 {
        slot
    } else {
        match actions.last() {
            ActionView::StoreRecording => true,
            ActionView::TakeRecording => false,
            _ => slot_after(slot, actions.drop_last()),
        }
    }
}

/// Actions that neither store nor take a recording leave the slot as it is.
proof fn lemma_slot_untouched(slot: bool, actions: Seq<ActionView>)
    requires
        forall|i: int|
            0 <= i < actions.len() ==> #[trigger] actions[i] != ActionView::StoreRecording
                && actions[i] != ActionView::TakeRecording,
    ensures
        slot_after(slot, actions) == slot,
    decreases actions.len(),
{
    if actions.len() > 0 {
        assert(actions[actions.len() - 1] == actions.last());
        lemma_slot_untouched(slot, actions.drop_last());
    }
}

/// The start command after its first step and the runner's reports
/// `events`: its stage, whether a recording is in progress, and its result.
pub open spec fn start_run(slot: bool, events: Seq<StartEvent>) -> (
    StartStage,
    bool,
    Option<Result<(), Seq<char>>>,
)
    decreases events.len(),
{
    if events.len() == 0 {
        (StartStage::CheckSlot, slot_after(slot, seq![ActionView::CheckRecording]), None)
    } else {
        let (stage, now, outcome) = start_run(slot, events.drop_last());
        let (next, actions, result) = start_next(stage, events.last());
        (next, slot_after(now, actions), if outcome is Some {
            outcome
        } else {
            result
        })
    }
}

/// Every slot check among `events` reports the slot as it stands when the
/// check is made.
pub open spec fn start_reports_slot(slot: bool, events: Seq<StartEvent>) -> bool {
    forall|i: int|
        0 <= i < events.len() ==> (#[trigger] events[i] matches StartEvent::SlotChecked {
            recording,
        } ==> recording == start_run(slot, events.take(i)).1)
}

/// Starting fills the slot only on the way to success, and succeeds only
/// from an empty slot: once the start command is over, a recording is in
/// progress exactly when one already was or the command succeeded; while it
/// runs, the slot is filled only once the capture is stored.
pub proof fn law_start_fills_slot_only_on_success(slot: bool, events: Seq<StartEvent>)
    requires
        start_reports_slot(slot, events),
    ensures
        ({
            let (stage, now, outcome) = start_run(slot, events);
            &&& outcome is Some ==> now == (slot || outcome == Some(Ok::<(), Seq<char>>(())))
            &&& outcome == Some(Ok::<(), Seq<char>>(())) ==> !slot
            &&& outcome is None ==> now == (stage == StartStage::Store || slot)
            &&& outcome is None ==> (stage == StartStage::CheckSlot || !slot)
            &&& outcome is Some <==> stage == StartStage::Finished
        }),
    decreases events.len(),
{
    if events.len() == 0 {
        let first = seq![ActionView::CheckRecording];
        assert(first.last() == ActionView::CheckRecording);
        assert(first.drop_last() =~= Seq::<ActionView>::empty());
        assert(slot_after(slot, first) == slot_after(slot, first.drop_last()));
    } else {
        let shorter = events.drop_last();
        assert forall|i: int| 0 <= i < shorter.len() implies (#[trigger] shorter[i] matches StartEvent::SlotChecked {
            recording,
        } ==> recording == start_run(slot, shorter.take(i)).1) by {
            assert(shorter[i] == events[i]);
            assert(shorter.take(i) =~= events.take(i));
        }
        assert(events.take(events.len() - 1) =~= shorter);
        assert(events[events.len() - 1] == events.last());
        law_start_fills_slot_only_on_success(slot, shorter);
        let (stage, now, outcome) = start_run(slot, shorter);
        let (next, actions, result) = start_next(stage, events.last());
        if stage == StartStage::OpenDevice && events.last() matches StartEvent::DeviceOpened {
            result: Ok(_),
        } {
            assert(actions.last() == ActionView::StoreRecording);
            assert(slot_after(now, actions));
        } else {
            assert forall|i: int| 0 <= i < actions.len() implies #[trigger] actions[i]
                != ActionView::StoreRecording && actions[i] != ActionView::TakeRecording by {}
            lemma_slot_untouched(now, actions);
        }
        assert(start_run(slot, events) == (next, slot_after(now, actions), if outcome is Some {
            outcome
        } else {
            result
        }));
    }
}

/// The stop-and-transcribe command after its first step and the runner's
/// reports `events`: its stage, whether a recording is in progress, and its
/// result.
pub open spec fn transcribe_run(slot: bool, events: Seq<TranscribeEvent>) -> (
    TranscribeStage,
    bool,
    Option<Result<Seq<char>, Seq<char>>>,
)
    decreases events.len(),
{
    if events.len() == 0 {
        (
            TranscribeStage::TakeRecording,
            slot_after(
                slot,
                seq![ActionView::SetTrayTitle(TrayTitle::Transcribing), ActionView::TakeRecording],
            ),
            None,
        )
    } else {
        let (stage, now, outcome) = transcribe_run(slot, events.drop_last());
        let (next, actions, result) = transcribe_next(stage, events.last());
        (next, slot_after(now, actions), if outcome is Some {
            outcome
        } else {
            result
        })
    }
}

/// Every report of what was taken out of the slot says truly whether a
/// recording was in it.
pub open spec fn transcribe_reports_taken(slot: bool, events: Seq<TranscribeEvent>) -> bool {
    forall|i: int|
        0 <= i < events.len() ==> (#[trigger] events[i] matches TranscribeEvent::RecordingTaken {
            present,
        } ==> present == slot)
}

/// Stopping empties the slot: after any run of stop-and-transcribe, whatever
/// its result, no recording is in progress; from an empty slot it does
/// nothing but answer "Not currently recording".
pub proof fn law_stop_empties_slot(slot: bool, events: Seq<TranscribeEvent>)
    requires
        transcribe_reports_taken(slot, events),
    ensures
        ({
            let (stage, now, outcome) = transcribe_run(slot, events);
            let refused = Some(Err::<Seq<char>, Seq<char>>(
                command_error_message(CommandError::NotRecording),
            ));
            &&& !now
            &&& !slot ==> (outcome is None || outcome == refused)
            &&& !slot && outcome is None ==> stage == TranscribeStage::TakeRecording
            &&& outcome is Some <==> stage == TranscribeStage::Finished
        }),
    decreases events.len(),
{
    if events.len() > 0 {
        let shorter = events.drop_last();
        assert forall|i: int| 0 <= i < shorter.len() implies (#[trigger] shorter[i] matches TranscribeEvent::RecordingTaken {
            present,
        } ==> present == slot) by {
            assert(shorter[i] == events[i]);
        }
        assert(events[events.len() - 1] == events.last());
        law_stop_empties_slot(slot, shorter);
        let (stage, now, outcome) = transcribe_run(slot, shorter);
        let (next, actions, result) = transcribe_next(stage, events.last());
        assert forall|i: int| 0 <= i < actions.len() implies #[trigger] actions[i]
            != ActionView::StoreRecording && actions[i] != ActionView::TakeRecording by {}
        lemma_slot_untouched(now, actions);
    }
}

/// Cancelling empties the slot: once the cancel command knows what it took,
/// no recording is in progress, and it answers "Not currently recording"
/// exactly when none was.
pub proof fn law_cancel_empties_slot(slot: bool)
    ensures
        ({
            let begun = slot_after(
                slot,
                seq![ActionView::ClearTrayTitle, ActionView::TakeRecording],
            );
            let (stage, actions, outcome) = cancel_next(CancelStage::TakeRecording, slot);
            &&& !slot_after(begun, actions)
            &&& stage == CancelStage::Finished
            &&& outcome == (if slot {
                Some(Ok::<(), Seq<char>>(()))
            } else {
                Some(Err(command_error_message(CommandError::NotRecording)))
            })
        }),
{
    let begun = seq![ActionView::ClearTrayTitle, ActionView::TakeRecording];
    assert(begun.last() == ActionView::TakeRecording);
    let actions = cancel_next(CancelStage::TakeRecording, slot).1;
    assert forall|i: int| 0 <= i < actions.len() implies #[trigger] actions[i]
        != ActionView::StoreRecording && actions[i] != ActionView::TakeRecording by {}
    lemma_slot_untouched(false, actions);
}


// ---------------------------------------------------------------------------
// Announcements follow the settings
// ---------------------------------------------------------------------------

/// A step of stop-and-transcribe announces a transcript `t` only on the
/// model's reply with notifications turned on, and only when `t` is not
/// empty; it plays the done cue only on the reply with sounds turned on.
pub proof fn law_announcements_follow_settings(
    stage: TranscribeStage,
    event: TranscribeEvent,
    t: Seq<char>,
)
    ensures
        transcribe_next(stage, event).1.contains(ActionView::Notify(t)) ==> (stage is AwaitReply
            && (event matches TranscribeEvent::Replied { show_notification: true, .. }) && t.len()
            > 0),
        transcribe_next(stage, event).1.contains(ActionView::PlayCue) ==> (stage is AwaitReply
            && (event matches TranscribeEvent::Replied { play_sound: true, .. })),
{
    let actions = transcribe_next(stage, event).1;
    if actions.contains(ActionView::Notify(t)) {
        let i = choose|i: int| 0 <= i < actions.len() && actions[i] == ActionView::Notify(t);
        assert(actions[i] == ActionView::Notify(t));
    }
    if actions.contains(ActionView::PlayCue) {
        let i = choose|i: int| 0 <= i < actions.len() && actions[i] == ActionView::PlayCue;
        assert(actions[i] == ActionView::PlayCue);
    }
}

/// On a reply without an error, the transcript is announced exactly when
/// notifications are on and it is not empty, and the done cue plays exactly
/// when sounds are on.
pub proof fn law_successful_reply_announces(
    reply: ChatReply,
    play_sound: bool,
    show_notification: bool,
)
    requires
        reply.error is None,
    ensures
        ({
            let t = reply_transcript(reply.content);
            let (next, actions, outcome) = transcribe_next(
                TranscribeStage::AwaitReply,
                TranscribeEvent::Replied { result: Ok(reply), play_sound, show_notification },
            );
            &&& actions.contains(ActionView::Notify(t)) == (show_notification && t.len() > 0)
            &&& actions.contains(ActionView::PlayCue) == play_sound
            &&& outcome == Some(Ok::<Seq<char>, Seq<char>>(t))
        }),
{
    let t = reply_transcript(reply.content);
    let actions = transcribe_next(
        TranscribeStage::AwaitReply,
        TranscribeEvent::Replied { result: Ok(reply), play_sound, show_notification },
    ).1;
    law_transcript_trimmed_and_copied(t, reply.content, play_sound, show_notification);
    let n = only_if(show_notification && t.len() > 0, ActionView::Notify(t));
    let c = only_if(play_sound, ActionView::PlayCue);
    assert(actions =~= seq![ActionView::CopyToClipboard(t)] + n + c + seq![ActionView::ClearTrayTitle]);
    if play_sound {
        assert(actions[actions.len() - 2] == ActionView::PlayCue);
    } else {
        assert forall|i: int| 0 <= i < actions.len() implies actions[i] != ActionView::PlayCue by {
            if i == 1 && show_notification && t.len() > 0 {
                assert(actions[i] == ActionView::Notify(t));
            }
        }
    }
}


/// A start plays the record cue only once the capture is stored and then
/// exactly when the setting read at that moment is on.
pub proof fn law_record_cue_follows_setting(stage: StartStage, event: StartEvent, q: bool)
    ensures
        start_next(stage, event).1.contains(ActionView::PlayCue) ==> (stage == StartStage::Store
            && event == StartEvent::RecordingStored { play_sound: true }),
        start_next(StartStage::Store, StartEvent::RecordingStored { play_sound: q }).1.contains(
            ActionView::PlayCue,
        ) == q,
{
    let actions = start_next(stage, event).1;
    if actions.contains(ActionView::PlayCue) {
        let i = choose|i: int| 0 <= i < actions.len() && actions[i] == ActionView::PlayCue;
        assert(actions[i] == ActionView::PlayCue);
    }
    let b = start_next(StartStage::Store, StartEvent::RecordingStored { play_sound: q }).1;
    if q {
        assert(b[0] == ActionView::PlayCue);
    } else {
        assert(b =~= seq![ActionView::SetTrayTitle(TrayTitle::Recording)]);
        assert forall|i: int| 0 <= i < b.len() implies b[i] != ActionView::PlayCue by {}
    }
}

} // verus!
