use henry_whisper::app::recording::{
    cancel_begin, cancel_step, on_audio_chunk, paste_modifier, paste_outcome, record_or_transcribe,
    start_begin, start_step, transcribe_begin, transcribe_step, Action, CancelEvent, CancelStage,
    Command, DeviceError, PasteModifier, RecordingError, StartEvent, StartStage, TranscribeEvent,
    TranscribeStage, TranscriptionOutcome, TrayTitle,
};
use henry_whisper::audio::SoundEffect;

fn run_transcribe(events: Vec<TranscribeEvent>) -> (Vec<Action>, Option<Result<(), RecordingError>>) {
    let first = transcribe_begin();
    let mut all = first.actions;
    let mut stage = first.stage;
    for e in events {
        let step = transcribe_step(stage, e);
        all.extend(step.actions);
        stage = step.stage;
        if step.outcome.is_some() {
            return (all, step.outcome);
        }
    }
    (all, None)
}

#[test]
fn start_refuses_while_recording() {
    let b = start_begin();
    assert!(matches!(b.actions.as_slice(), [Action::CheckRecording]));
    let s = start_step(b.stage, StartEvent::SlotChecked { recording: true });
    assert!(matches!(s.stage, StartStage::Finished));
    assert!(s.actions.is_empty());
    let err = s.outcome.unwrap().unwrap_err();
    assert_eq!(err.message(), "Already recording");
}

#[test]
fn start_opens_the_device_and_shows_the_title() {
    let b = start_begin();
    let s = start_step(b.stage, StartEvent::SlotChecked { recording: false });
    assert!(matches!(s.actions.as_slice(), [Action::OpenInputDevice]));
    let t = start_step(s.stage, StartEvent::DeviceOpened { outcome: Ok(()), play_sound: true });
    assert!(matches!(
        t.actions.as_slice(),
        [Action::StartCapture { play_sound: true }, Action::StoreRecording, Action::SetTrayTitle(TrayTitle::Recording)]
    ));
    assert!(matches!(t.outcome, Some(Ok(()))));
}

#[test]
fn start_reports_device_problems() {
    let s = start_step(StartStage::OpenDevice, StartEvent::DeviceOpened { outcome: Err(DeviceError::NoInputDevice), play_sound: false });
    assert_eq!(s.outcome.unwrap().unwrap_err().message(), "No input device available");
    let s = start_step(
        StartStage::OpenDevice,
        StartEvent::DeviceOpened { outcome: Err(DeviceError::Config("bad config".to_string())), play_sound: false },
    );
    assert_eq!(s.outcome.unwrap().unwrap_err().message(), "bad config");
    assert!(s.actions.is_empty());
}

#[test]
fn transcription_success_copies_pastes_and_restores_title() {
    let (actions, outcome) = run_transcribe(vec![
        TranscribeEvent::RecordingTaken { present: true },
        TranscribeEvent::CaptureStopped { play_sound: true },
        TranscribeEvent::SamplesCollected { count: 4800 },
        TranscribeEvent::Encoded { outcome: Ok(()), play_sound: true, auto_paste: true },
        TranscribeEvent::Transcribed { outcome: TranscriptionOutcome::Text("hello world".to_string()) },
        TranscribeEvent::Copied { outcome: Ok(()) },
    ]);
    assert!(matches!(outcome, Some(Ok(()))));
    assert_eq!(actions.len(), 12);
    assert!(matches!(actions[0], Action::TakeRecording));
    assert!(matches!(actions[1], Action::SetTrayTitle(TrayTitle::Transcribing)));
    assert!(matches!(actions[2], Action::SignalStop));
    assert!(matches!(actions[3], Action::AwaitCapture));
    assert!(matches!(actions[4], Action::PlaySound(SoundEffect::TranscribeStart)));
    assert!(matches!(actions[5], Action::CollectSamples));
    assert!(matches!(actions[6], Action::EncodeAudio));
    assert!(matches!(actions[7], Action::Transcribe));
    match &actions[8] {
        Action::CopyToClipboard(t) => assert_eq!(t, "hello world"),
        _ => panic!("expected the transcript to be copied"),
    }
    assert!(matches!(actions[9], Action::PasteClipboard));
    assert!(matches!(actions[10], Action::PlaySound(SoundEffect::Transcribe)));
    assert!(matches!(actions[11], Action::RestoreTrayTitle));
}

#[test]
fn transcription_without_sounds_or_paste() {
    let (actions, outcome) = run_transcribe(vec![
        TranscribeEvent::RecordingTaken { present: true },
        TranscribeEvent::CaptureStopped { play_sound: false },
        TranscribeEvent::SamplesCollected { count: 1 },
        TranscribeEvent::Encoded { outcome: Ok(()), play_sound: false, auto_paste: false },
        TranscribeEvent::Transcribed { outcome: TranscriptionOutcome::Text("x".to_string()) },
        TranscribeEvent::Copied { outcome: Ok(()) },
    ]);
    assert!(matches!(outcome, Some(Ok(()))));
    assert!(!actions.iter().any(|a| matches!(a, Action::PlaySound(_) | Action::PasteClipboard)));
    assert!(matches!(actions.last(), Some(Action::RestoreTrayTitle)));
}

#[test]
fn transcription_errors_restore_the_title() {
    let (actions, outcome) = run_transcribe(vec![TranscribeEvent::RecordingTaken { present: false }]);
    assert_eq!(outcome.unwrap().unwrap_err().message(), "Not currently recording");
    assert!(matches!(actions.as_slice(), [Action::TakeRecording, Action::RestoreTrayTitle]));

    let (actions, outcome) = run_transcribe(vec![
        TranscribeEvent::RecordingTaken { present: true },
        TranscribeEvent::CaptureStopped { play_sound: false },
        TranscribeEvent::SamplesCollected { count: 0 },
    ]);
    assert_eq!(outcome.unwrap().unwrap_err().message(), "No audio captured");
    assert!(matches!(actions.last(), Some(Action::RestoreTrayTitle)));

    let (_, outcome) = run_transcribe(vec![
        TranscribeEvent::RecordingTaken { present: true },
        TranscribeEvent::CaptureStopped { play_sound: false },
        TranscribeEvent::SamplesCollected { count: 3 },
        TranscribeEvent::Encoded { outcome: Err("encoder failed".to_string()), play_sound: false, auto_paste: false },
    ]);
    assert_eq!(outcome.unwrap().unwrap_err().message(), "encoder failed");

    let (_, outcome) = run_transcribe(vec![
        TranscribeEvent::RecordingTaken { present: true },
        TranscribeEvent::CaptureStopped { play_sound: false },
        TranscribeEvent::SamplesCollected { count: 3 },
        TranscribeEvent::Encoded { outcome: Ok(()), play_sound: true, auto_paste: true },
        TranscribeEvent::Transcribed { outcome: TranscriptionOutcome::TimedOut },
    ]);
    assert_eq!(outcome.unwrap().unwrap_err().message(), "Transcription timed out");

    let (actions, outcome) = run_transcribe(vec![
        TranscribeEvent::RecordingTaken { present: true },
        TranscribeEvent::CaptureStopped { play_sound: false },
        TranscribeEvent::SamplesCollected { count: 3 },
        TranscribeEvent::Encoded { outcome: Ok(()), play_sound: true, auto_paste: true },
        TranscribeEvent::Transcribed { outcome: TranscriptionOutcome::Failed("401".to_string()) },
    ]);
    assert_eq!(outcome.unwrap().unwrap_err().message(), "401");
    assert!(!actions.iter().any(|a| matches!(a, Action::CopyToClipboard(_))));

    let (actions, outcome) = run_transcribe(vec![
        TranscribeEvent::RecordingTaken { present: true },
        TranscribeEvent::CaptureStopped { play_sound: false },
        TranscribeEvent::SamplesCollected { count: 3 },
        TranscribeEvent::Encoded { outcome: Ok(()), play_sound: true, auto_paste: true },
        TranscribeEvent::Transcribed { outcome: TranscriptionOutcome::Text("t".to_string()) },
        TranscribeEvent::Copied { outcome: Err("no clipboard".to_string()) },
    ]);
    assert_eq!(outcome.unwrap().unwrap_err().message(), "no clipboard");
    assert!(!actions.iter().any(|a| matches!(a, Action::PasteClipboard)));
}

#[test]
fn out_of_order_events_are_ignored() {
    let s = transcribe_step(TranscribeStage::Collect, TranscribeEvent::Copied { outcome: Ok(()) });
    assert!(matches!(s.stage, TranscribeStage::Collect));
    assert!(s.actions.is_empty());
    assert!(s.outcome.is_none());
    let f = transcribe_step(TranscribeStage::Finished, TranscribeEvent::RecordingTaken { present: true });
    assert!(matches!(f.stage, TranscribeStage::Finished));
    assert!(f.outcome.is_none());
}

#[test]
fn cancel_drops_audio_and_plays_its_cue() {
    let b = cancel_begin();
    assert!(matches!(b.actions.as_slice(), [Action::TakeRecording]));
    let s = cancel_step(b.stage, CancelEvent::RecordingTaken { present: true });
    assert!(matches!(s.actions.as_slice(), [Action::MarkCancelled, Action::SignalStop, Action::AwaitCapture]));
    let t = cancel_step(s.stage, CancelEvent::CaptureStopped { play_sound: true });
    assert!(matches!(t.actions.as_slice(), [Action::PlaySound(SoundEffect::Cancel), Action::RestoreTrayTitle]));
    assert!(matches!(t.outcome, Some(Ok(()))));

    let n = cancel_step(CancelStage::TakeRecording, CancelEvent::RecordingTaken { present: false });
    assert!(matches!(n.actions.as_slice(), [Action::RestoreTrayTitle]));
    assert_eq!(n.outcome.unwrap().unwrap_err().message(), "Not currently recording");
}

#[test]
fn record_shortcut_toggles() {
    assert!(matches!(record_or_transcribe(true), Command::StopAndTranscribe));
    assert!(matches!(record_or_transcribe(false), Command::StartRecording));
}

#[test]
fn capture_waits_for_speech_and_cues_once() {
    let quiet = on_audio_chunk(false, false, false, true);
    assert!(!quiet.forward && !quiet.play_record_cue && !quiet.warmed_up);
    let first = on_audio_chunk(false, false, true, true);
    assert!(first.forward && first.play_record_cue && first.warmed_up);
    let later_quiet = on_audio_chunk(false, true, false, true);
    assert!(later_quiet.forward && !later_quiet.play_record_cue);
    let muted = on_audio_chunk(false, false, true, false);
    assert!(muted.forward && !muted.play_record_cue);
    let cancelled = on_audio_chunk(true, true, true, true);
    assert!(!cancelled.forward && !cancelled.play_record_cue && cancelled.warmed_up);
}

#[test]
fn paste_reports_click_failure_first() {
    assert!(matches!(paste_modifier(true), PasteModifier::Meta));
    assert!(matches!(paste_modifier(false), PasteModifier::Control));
    assert_eq!(paste_outcome(Err("click".to_string()), Err("release".to_string())), Err("click".to_string()));
    assert_eq!(paste_outcome(Ok(()), Err("release".to_string())), Err("release".to_string()));
    assert_eq!(paste_outcome(Ok(()), Ok(())), Ok(()));
}

#[test]
fn tray_titles() {
    assert_eq!(TrayTitle::Recording.text(), "Recording...");
    assert_eq!(TrayTitle::Transcribing.text(), "Transcribing...");
}

/// Runs a command's actions against a recording slot the way the runner
/// keeps it: storing fills the slot, taking empties it.
fn apply_slot(slot: &mut bool, actions: &[Action]) {
    for a in actions {
        match a {
            Action::StoreRecording => *slot = true,
            Action::TakeRecording => *slot = false,
            _ => {}
        }
    }
}

#[test]
fn slot_is_filled_by_a_successful_start_and_emptied_by_stop_or_cancel() {
    let mut slot = false;
    // start from idle: succeeds and fills the slot
    assert!(matches!(record_or_transcribe(slot), Command::StartRecording));
    let b = start_begin();
    apply_slot(&mut slot, &b.actions);
    let s1 = start_step(b.stage, StartEvent::SlotChecked { recording: slot });
    apply_slot(&mut slot, &s1.actions);
    let s2 = start_step(s1.stage, StartEvent::DeviceOpened { outcome: Ok(()), play_sound: false });
    apply_slot(&mut slot, &s2.actions);
    assert!(matches!(s2.outcome, Some(Ok(()))));
    assert!(slot);

    // a second start is refused and leaves the slot full
    let b = start_begin();
    let s = start_step(b.stage, StartEvent::SlotChecked { recording: slot });
    apply_slot(&mut slot, &s.actions);
    assert!(matches!(s.outcome, Some(Err(RecordingError::AlreadyRecording))));
    assert!(slot);

    // the toggle now stops; a failing transcription still empties the slot
    assert!(matches!(record_or_transcribe(slot), Command::StopAndTranscribe));
    let present = slot;
    let b = transcribe_begin();
    apply_slot(&mut slot, &b.actions);
    let t = transcribe_step(b.stage, TranscribeEvent::RecordingTaken { present });
    apply_slot(&mut slot, &t.actions);
    let t = transcribe_step(t.stage, TranscribeEvent::CaptureStopped { play_sound: false });
    apply_slot(&mut slot, &t.actions);
    let t = transcribe_step(t.stage, TranscribeEvent::SamplesCollected { count: 0 });
    assert!(matches!(t.outcome, Some(Err(RecordingError::NoAudioCaptured))));
    assert!(!slot);

    // with the slot empty, stop and cancel answer "not recording"
    let present = slot;
    let b = transcribe_begin();
    apply_slot(&mut slot, &b.actions);
    let t = transcribe_step(b.stage, TranscribeEvent::RecordingTaken { present });
    assert!(matches!(t.outcome, Some(Err(RecordingError::NotRecording))));
    let c = cancel_begin();
    apply_slot(&mut slot, &c.actions);
    let c = cancel_step(c.stage, CancelEvent::RecordingTaken { present: slot });
    assert!(matches!(c.outcome, Some(Err(RecordingError::NotRecording))));
    assert!(!slot);
}
