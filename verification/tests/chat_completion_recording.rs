use henry_whisper::app::recording::TrayTitle;
use henry_whisper::recording::{
    can_encode, cancel_begin, cancel_step, start_begin, start_step, transcribe_begin, transcribe_step, Action,
    CancelStage, ChatReply, CommandError, DeviceError, StartEvent, StartStage, TranscribeEvent,
    TranscribeStage, TRANSCRIPTION_ENDPOINT, TRANSCRIPTION_MODEL,
};

fn run(events: Vec<TranscribeEvent>) -> (Vec<Action>, Option<Result<String, CommandError>>) {
    let first = transcribe_begin();
    let mut all = first.actions;
    let mut stage = first.stage;
    for e in events {
        let step = transcribe_step(stage, e);
        all.extend(step.actions);
        stage = step.stage;
        if step.outcome.is_some() {
            return (all, step.outcome);
        }
    }
    (all, None)
}

fn reply(error: Option<&str>, content: Option<&str>) -> ChatReply {
    ChatReply { error: error.map(|s| s.to_string()), content: content.map(|s| s.to_string()) }
}

#[test]
fn request_carries_bearer_key_and_base64_audio() {
    let (actions, outcome) = run(vec![
        TranscribeEvent::RecordingTaken { present: true },
        TranscribeEvent::SamplesCollected { count: 10 },
        TranscribeEvent::WavEncoded { result: Ok(b"Many".to_vec()), api_key: "sk-or".to_string() },
    ]);
    assert!(outcome.is_none());
    match actions.last() {
        Some(Action::PostTranscription { authorization, audio_base64 }) => {
            assert_eq!(authorization, "Bearer sk-or");
            assert_eq!(audio_base64, "TWFueQ==");
        }
        _ => panic!("expected a request"),
    }
    assert_eq!(TRANSCRIPTION_ENDPOINT, "https://openrouter.ai/api/v1/chat/completions");
    assert_eq!(TRANSCRIPTION_MODEL, "google/gemini-3.1-flash-lite-preview");
}

#[test]
fn transcript_is_trimmed_copied_and_announced() {
    let (actions, outcome) = run(vec![
        TranscribeEvent::RecordingTaken { present: true },
        TranscribeEvent::SamplesCollected { count: 10 },
        TranscribeEvent::WavEncoded { result: Ok(vec![0, 1, 2]), api_key: "k".to_string() },
        TranscribeEvent::Replied { result: Ok(reply(None, Some("  hi there \n"))), play_sound: true, show_notification: true },
    ]);
    match outcome {
        Some(Ok(t)) => assert_eq!(t, "hi there"),
        _ => panic!("expected a transcript"),
    }
    let n = actions.len();
    match (&actions[n - 4], &actions[n - 3]) {
        (Action::CopyToClipboard(a), Action::Notify(b)) => {
            assert_eq!(a, "hi there");
            assert_eq!(b, "hi there");
        }
        _ => panic!("expected copy and notification"),
    }
    assert!(matches!(actions[n - 2], Action::PlayCue));
    assert!(matches!(actions[n - 1], Action::ClearTrayTitle));
    assert!(matches!(actions[0], Action::SetTrayTitle(TrayTitle::Transcribing)));
}

#[test]
fn empty_transcript_is_not_announced() {
    let (actions, outcome) = run(vec![
        TranscribeEvent::RecordingTaken { present: true },
        TranscribeEvent::SamplesCollected { count: 10 },
        TranscribeEvent::WavEncoded { result: Ok(vec![0]), api_key: "k".to_string() },
        TranscribeEvent::Replied { result: Ok(reply(None, None)), play_sound: false, show_notification: true },
    ]);
    match outcome {
        Some(Ok(t)) => assert_eq!(t, ""),
        _ => panic!("expected an empty transcript"),
    }
    assert!(!actions.iter().any(|a| matches!(a, Action::Notify(_) | Action::PlayCue)));
}

#[test]
fn command_errors_carry_their_messages() {
    let (_, o) = run(vec![TranscribeEvent::RecordingTaken { present: false }]);
    assert_eq!(o.unwrap().unwrap_err().message(), "Not currently recording");
    let (a, o) = run(vec![
        TranscribeEvent::RecordingTaken { present: true },
        TranscribeEvent::SamplesCollected { count: 0 },
    ]);
    assert_eq!(o.unwrap().unwrap_err().message(), "No audio recorded");
    assert!(matches!(a.last(), Some(Action::ClearTrayTitle)));
    let (_, o) = run(vec![
        TranscribeEvent::RecordingTaken { present: true },
        TranscribeEvent::SamplesCollected { count: 2 },
        TranscribeEvent::WavEncoded { result: Ok(vec![1]), api_key: String::new() },
    ]);
    assert_eq!(o.unwrap().unwrap_err().message(), "API key not configured. Open Settings from the tray.");
    let (_, o) = run(vec![
        TranscribeEvent::RecordingTaken { present: true },
        TranscribeEvent::SamplesCollected { count: 2 },
        TranscribeEvent::WavEncoded { result: Ok(vec![1]), api_key: "k".to_string() },
        TranscribeEvent::Replied { result: Ok(reply(Some("{\"code\":401}"), None)), play_sound: true, show_notification: true },
    ]);
    assert_eq!(o.unwrap().unwrap_err().message(), "API error: {\"code\":401}");
    let (_, o) = run(vec![
        TranscribeEvent::RecordingTaken { present: true },
        TranscribeEvent::SamplesCollected { count: 2 },
        TranscribeEvent::WavEncoded { result: Ok(vec![1]), api_key: "k".to_string() },
        TranscribeEvent::Replied { result: Err("connection refused".to_string()), play_sound: true, show_notification: true },
    ]);
    assert_eq!(o.unwrap().unwrap_err().message(), "connection refused");
    let (_, o) = run(vec![
        TranscribeEvent::RecordingTaken { present: true },
        TranscribeEvent::SamplesCollected { count: 2 },
        TranscribeEvent::WavEncoded { result: Err("wav".to_string()), api_key: "k".to_string() },
    ]);
    assert_eq!(o.unwrap().unwrap_err().message(), "wav");
}

#[test]
fn chat_start_and_cancel() {
    let b = start_begin();
    let s = start_step(b.stage, StartEvent::SlotChecked { recording: false });
    let s = start_step(s.stage, StartEvent::DeviceOpened { result: Ok(()) });
    assert!(matches!(s.actions.as_slice(), [Action::StartCapture, Action::StoreRecording]));
    let s = start_step(s.stage, StartEvent::RecordingStored { play_sound: true });
    assert!(matches!(s.actions.as_slice(), [Action::PlayCue, Action::SetTrayTitle(TrayTitle::Recording)]));
    assert!(matches!(s.outcome, Some(Ok(()))));
    let r = start_step(StartStage::CheckSlot, StartEvent::SlotChecked { recording: true });
    assert_eq!(r.outcome.unwrap().unwrap_err().message(), "Already recording");
    let d = start_step(StartStage::OpenDevice, StartEvent::DeviceOpened { result: Err(DeviceError::NoInputDevice) });
    assert_eq!(d.outcome.unwrap().unwrap_err().message(), "No input device available");

    let c = cancel_begin();
    assert!(matches!(c.actions.as_slice(), [Action::ClearTrayTitle, Action::TakeRecording]));
    let c = cancel_step(c.stage, true);
    assert!(matches!(c.actions.as_slice(), [Action::SignalStop, Action::AwaitCapture]));
    assert!(matches!(c.outcome, Some(Ok(()))));
    let n = cancel_step(CancelStage::TakeRecording, false);
    assert_eq!(n.outcome.unwrap().unwrap_err().message(), "Not currently recording");
    let _ = TranscribeStage::Finished;
}

#[test]
fn ordinary_recordings_can_be_encoded() {
    let e = TranscribeEvent::WavEncoded { result: Ok(vec![0; 1000]), api_key: "k".to_string() };
    assert!(can_encode(&e));
    assert!(can_encode(&TranscribeEvent::SamplesCollected { count: 3 }));
}

fn apply_slot(slot: &mut bool, actions: &[Action]) {
    for a in actions {
        match a {
            Action::StoreRecording => *slot = true,
            Action::TakeRecording => *slot = false,
            _ => {}
        }
    }
}

#[test]
fn chat_slot_is_filled_by_start_and_emptied_by_stop_and_cancel() {
    let mut slot = false;
    let b = start_begin();
    apply_slot(&mut slot, &b.actions);
    let s = start_step(b.stage, StartEvent::SlotChecked { recording: slot });
    apply_slot(&mut slot, &s.actions);
    let s = start_step(s.stage, StartEvent::DeviceOpened { result: Ok(()) });
    apply_slot(&mut slot, &s.actions);
    assert!(slot);
    let s = start_step(s.stage, StartEvent::RecordingStored { play_sound: false });
    apply_slot(&mut slot, &s.actions);
    assert!(matches!(s.outcome, Some(Ok(()))));
    assert!(slot);

    let present = slot;
    let b = transcribe_begin();
    apply_slot(&mut slot, &b.actions);
    let t = transcribe_step(b.stage, TranscribeEvent::RecordingTaken { present });
    apply_slot(&mut slot, &t.actions);
    let t = transcribe_step(t.stage, TranscribeEvent::SamplesCollected { count: 0 });
    apply_slot(&mut slot, &t.actions);
    assert!(t.outcome.is_some());
    assert!(!slot);

    let c = cancel_begin();
    apply_slot(&mut slot, &c.actions);
    let c = cancel_step(c.stage, slot);
    assert_eq!(c.outcome.map(|r| r.map_err(|e| e.message())), Some(Err("Not currently recording".to_string())));
    assert!(!slot);
}
