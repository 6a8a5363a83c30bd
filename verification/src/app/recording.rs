//! The recording commands of the tray process, written as step functions:
//! each takes the stage a command has reached and what the outside world
//! just reported, and gives the next stage, the outside work to do next, and
//! the command's result once it has one. The runner performs the actions in
//! order and reports back.
use vstd::prelude::*;
use crate::audio::SoundEffect;

verus! {

/// Texts the tray shows while a command runs.
pub enum TrayTitle {
    Recording,
    Transcribing,
}

impl TrayTitle {
    /// The text shown in the menu bar.
    pub fn text(&self) -> (s: &'static str)
        ensures
            s@ == match self {
                TrayTitle::Recording => "Recording..."@,
                TrayTitle::Transcribing => "Transcribing..."@,
            },
    {
        match self {
            TrayTitle::Recording => "Recording...",
            TrayTitle::Transcribing => "Transcribing...",
        }
    }
}

/// Why a recording command failed.
pub enum RecordingError {
    AlreadyRecording,
    NoInputDevice,
    /// The input device's configuration could not be read.
    DeviceConfig(String),
    NotRecording,
    NoAudioCaptured,
    /// The captured audio could not be encoded.
    Encoding(String),
    /// The transcription endpoint failed.
    Transcription(String),
    TranscriptionTimedOut,
    /// The transcript could not be put on the clipboard.
    Clipboard(String),
}

/// The message that the runner reports for `e`.
pub open spec fn error_message(e: RecordingError) -> Seq<char> {
    match e {
        RecordingError::AlreadyRecording => "Already recording"@,
        RecordingError::NoInputDevice => "No input device available"@,
        RecordingError::DeviceConfig(m) => m@,
        RecordingError::NotRecording => "Not currently recording"@,
        RecordingError::NoAudioCaptured => "No audio captured"@,
        RecordingError::Encoding(m) => m@,
        RecordingError::Transcription(m) => m@,
        RecordingError::TranscriptionTimedOut => "Transcription timed out"@,
        RecordingError::Clipboard(m) => m@,
    }
}

impl RecordingError {
    /// The message that the runner reports.
    pub fn message(&self) -> (m: String)
        ensures
            m@ == error_message(*self),
    {
        match self {
            RecordingError::AlreadyRecording => String::from_str("Already recording"),
            RecordingError::NoInputDevice => String::from_str("No input device available"),
            RecordingError::DeviceConfig(m) => String::from_str(m.as_str()),
            RecordingError::NotRecording => String::from_str("Not currently recording"),
            RecordingError::NoAudioCaptured => String::from_str("No audio captured"),
            RecordingError::Encoding(m) => String::from_str(m.as_str()),
            RecordingError::Transcription(m) => String::from_str(m.as_str()),
            RecordingError::TranscriptionTimedOut => String::from_str("Transcription timed out"),
            RecordingError::Clipboard(m) => String::from_str(m.as_str()),
        }
    }
}

/// Outside work that a command asks the runner to do, in order.
pub enum Action {
    /// Check whether a recording is in progress.
    CheckRecording,
    /// Open the default input device and read its configuration.
    OpenInputDevice,
    /// Start capturing; chunks go through [`on_audio_chunk`] with this
    /// `play_sound` setting.
    StartCapture { play_sound: bool },
    /// Keep the capture as the recording in progress.
    StoreRecording,
    /// Take the recording in progress out of its slot.
    TakeRecording,
    /// Tell the capture to drop further audio.
    MarkCancelled,
    /// Tell the capture to stop.
    SignalStop,
    /// Wait (a bounded time) for the capture to end.
    AwaitCapture,
    /// Gather the captured samples.
    CollectSamples,
    /// Encode the samples for transcription.
    EncodeAudio,
    /// Send the encoded audio to the transcription model (bounded in time).
    Transcribe,
    CopyToClipboard(String),
    /// Paste the clipboard into the focused application.
    PasteClipboard,
    PlaySound(SoundEffect),
    SetTrayTitle(TrayTitle),
    /// Put back the tray's idle title.
    RestoreTrayTitle,
}

/// Where a command stands after a step.
pub struct Step<S, T> {
    pub stage: S,
    pub actions: Vec<Action>,
    /// The command's result, once it is over.
    pub outcome: Option<Result<T, RecordingError>>,
}

/// The actions `[a]`, or none.
pub open spec fn only_if(c: bool, a: Action) -> Seq<Action> {
    if c {
        seq![a]
    } else {
        Seq::empty()
    }
}

// ---------------------------------------------------------------------------
// Starting a recording
// ---------------------------------------------------------------------------

/// Stages of the start command.
pub enum StartStage {
    CheckSlot,
    OpenDevice,
    Finished,
}

/// Why the input device could not be used.
pub enum DeviceError {
    NoInputDevice,
    Config(String),
}

/// What the runner reports to the start command.
pub enum StartEvent {
    SlotChecked { recording: bool },
    /// The device was opened (or not); `play_sound` is the setting read then.
    DeviceOpened { outcome: Result<(), DeviceError>, play_sound: bool },
}

/// The start command's transitions.
pub open spec fn start_next(stage: StartStage, event: StartEvent) -> (
    StartStage,
    Seq<Action>,
    Option<Result<(), RecordingError>>,
) {
    match (stage, event) {
        (StartStage::CheckSlot, StartEvent::SlotChecked { recording }) => if recording {
            (StartStage::Finished, Seq::empty(), Some(Err(RecordingError::AlreadyRecording)))
        } else {
            (StartStage::OpenDevice, seq![Action::OpenInputDevice], None)
        },
        (StartStage::OpenDevice, StartEvent::DeviceOpened { outcome, play_sound }) => match outcome {
            Err(DeviceError::NoInputDevice) => (
                StartStage::Finished,
                Seq::empty(),
                Some(Err(RecordingError::NoInputDevice)),
            ),
            Err(DeviceError::Config(m)) => (
                StartStage::Finished,
                Seq::empty(),
                Some(Err(RecordingError::DeviceConfig(m))),
            ),
            Ok(()) => (
                StartStage::Finished,
                seq![
                    Action::StartCapture { play_sound },
                    Action::StoreRecording,
                    Action::SetTrayTitle(TrayTitle::Recording),
                ],
                Some(Ok(())),
            ),
        },
        (s, _) => (s, Seq::empty(), None),
    }
}

/// The start command begins by checking whether a recording is in progress.
pub fn start_begin() -> (r: Step<StartStage, ()>)
    ensures
        r.stage == StartStage::CheckSlot,
        r.actions@ == seq![Action::CheckRecording],
        r.outcome is None,
{
    let mut actions = Vec::new();
    actions.push(Action::CheckRecording);
    Step { stage: StartStage::CheckSlot, actions, outcome: None }
}

/// One step of the start command.
pub fn start_step(stage: StartStage, event: StartEvent) -> (r: Step<StartStage, ()>)
    ensures
        (r.stage, r.actions@, r.outcome) == start_next(stage, event),
{
    let mut actions: Vec<Action> = Vec::new();
    match stage {
        StartStage::CheckSlot => match event {
            StartEvent::SlotChecked { recording } => {
                if recording {
                    Step {
                        stage: StartStage::Finished,
                        actions,
                        outcome: Some(Err(RecordingError::AlreadyRecording)),
                    }
                } else {
                    actions.push(Action::OpenInputDevice);
                    Step { stage: StartStage::OpenDevice, actions, outcome: None }
                }
            },
            _ => Step { stage: StartStage::CheckSlot, actions, outcome: None },
        },
        StartStage::OpenDevice => match event {
            StartEvent::DeviceOpened { outcome, play_sound } => match outcome {
                Err(DeviceError::NoInputDevice) => Step {
                    stage: StartStage::Finished,
                    actions,
                    outcome: Some(Err(RecordingError::NoInputDevice)),
                },
                Err(DeviceError::Config(m)) => Step {
                    stage: StartStage::Finished,
                    actions,
                    outcome: Some(Err(RecordingError::DeviceConfig(m))),
                },
                Ok(()) => {
                    actions.push(Action::StartCapture { play_sound });
                    actions.push(Action::StoreRecording);
                    actions.push(Action::SetTrayTitle(TrayTitle::Recording));
                    Step { stage: StartStage::Finished, actions, outcome: Some(Ok(())) }
                },
            },
            _ => Step { stage: StartStage::OpenDevice, actions, outcome: None },
        },
        StartStage::Finished => Step { stage: StartStage::Finished, actions, outcome: None },
    }
}

// ---------------------------------------------------------------------------
// Stopping a recording and transcribing it
// ---------------------------------------------------------------------------

/// Stages of the stop-and-transcribe command. The settings read before the
/// transcription travel with the last two stages.
pub enum TranscribeStage {
    TakeRecording,
    StopCapture,
    Collect,
    Encode,
    Transcribe { play_sound: bool, auto_paste: bool },
    Copy { play_sound: bool, auto_paste: bool },
    Finished,
}

/// What the transcription endpoint gave.
pub enum TranscriptionOutcome {
    Text(String),
    Failed(String),
    TimedOut,
}

/// What the runner reports to the stop-and-transcribe command.
pub enum TranscribeEvent {
    RecordingTaken { present: bool },
    /// The capture ended (or the wait for it timed out); `play_sound` is the
    /// setting read then.
    CaptureStopped { play_sound: bool },
    SamplesCollected { count: usize },
    /// Encoding finished; the flags are the settings read afterwards.
    Encoded { outcome: Result<(), String>, play_sound: bool, auto_paste: bool },
    Transcribed { outcome: TranscriptionOutcome },
    Copied { outcome: Result<(), String> },
}

/// The stop-and-transcribe command's transitions. Every way out restores
/// the tray title, as a title guard does when the command returns.
pub open spec fn transcribe_next(stage: TranscribeStage, event: TranscribeEvent) -> (
    TranscribeStage,
    Seq<Action>,
    Option<Result<(), RecordingError>>,
) {
    let fail = |e: RecordingError|
        (TranscribeStage::Finished, seq![Action::RestoreTrayTitle], Some(Err::<(), RecordingError>(e)));
    match (stage, event) {
        (TranscribeStage::TakeRecording, TranscribeEvent::RecordingTaken { present }) => if present {
            (
                TranscribeStage::StopCapture,
                seq![
                    Action::SetTrayTitle(TrayTitle::Transcribing),
                    Action::SignalStop,
                    Action::AwaitCapture,
                ],
                None,
            )
        } else {
            fail(RecordingError::NotRecording)
        },
        (TranscribeStage::StopCapture, TranscribeEvent::CaptureStopped { play_sound }) => (
            TranscribeStage::Collect,
            only_if(play_sound, Action::PlaySound(SoundEffect::TranscribeStart)).push(
                Action::CollectSamples,
            ),
            None,
        ),
        (TranscribeStage::Collect, TranscribeEvent::SamplesCollected { count }) => if count == 0 {
            fail(RecordingError::NoAudioCaptured)
        } else {
            (TranscribeStage::Encode, seq![Action::EncodeAudio], None)
        },
        (
            TranscribeStage::Encode,
            TranscribeEvent::Encoded { outcome, play_sound, auto_paste },
        ) => match outcome {
            Err(m) => fail(RecordingError::Encoding(m)),
            Ok(()) => (
                TranscribeStage::Transcribe { play_sound, auto_paste },
                seq![Action::Transcribe],
                None,
            ),
        },
        (
            TranscribeStage::Transcribe { play_sound, auto_paste },
            TranscribeEvent::Transcribed { outcome },
        ) => match outcome {
            TranscriptionOutcome::Text(t) => (
                TranscribeStage::Copy { play_sound, auto_paste },
                seq![Action::CopyToClipboard(t)],
                None,
            ),
            TranscriptionOutcome::Failed(m) => fail(RecordingError::Transcription(m)),
            TranscriptionOutcome::TimedOut => fail(RecordingError::TranscriptionTimedOut),
        },
        (TranscribeStage::Copy { play_sound, auto_paste }, TranscribeEvent::Copied { outcome }) =>
        match outcome {
            Err(m) => fail(RecordingError::Clipboard(m)),
            Ok(()) => (
                TranscribeStage::Finished,
                only_if(auto_paste, Action::PasteClipboard) + only_if(
                    play_sound,
                    Action::PlaySound(SoundEffect::Transcribe),
                ) + seq![Action::RestoreTrayTitle],
                Some(Ok(())),
            ),
        },
        (s, _) => (s, Seq::empty(), None),
    }
}

/// The stop-and-transcribe command begins by taking the recording out of
/// its slot.
pub fn transcribe_begin() -> (r: Step<TranscribeStage, ()>)
    ensures
        r.stage == TranscribeStage::TakeRecording,
        r.actions@ == seq![Action::TakeRecording],
        r.outcome is None,
{
    let mut actions = Vec::new();
    actions.push(Action::TakeRecording);
    Step { stage: TranscribeStage::TakeRecording, actions, outcome: None }
}

/// The command ends with `e`, restoring the tray title.
fn transcribe_fail(e: RecordingError) -> (r: Step<TranscribeStage, ()>)
    ensures
        r.stage == TranscribeStage::Finished,
        r.actions@ == seq![Action::RestoreTrayTitle],
        r.outcome == Some(Err::<(), RecordingError>(e)),
{
    let mut actions = Vec::new();
    actions.push(Action::RestoreTrayTitle);
    Step { stage: TranscribeStage::Finished, actions, outcome: Some(Err(e)) }
}

/// One step of the stop-and-transcribe command.
pub fn transcribe_step(stage: TranscribeStage, event: TranscribeEvent) -> (r: Step<
    TranscribeStage,
    (),
>)
    ensures
        (r.stage, r.actions@, r.outcome) == transcribe_next(stage, event),
{
    let mut actions: Vec<Action> = Vec::new();
    match stage {
        TranscribeStage::TakeRecording => match event {
            TranscribeEvent::RecordingTaken { present } => {
                if present {
                    actions.push(Action::SetTrayTitle(TrayTitle::Transcribing));
                    actions.push(Action::SignalStop);
                    actions.push(Action::AwaitCapture);
                    Step { stage: TranscribeStage::StopCapture, actions, outcome: None }
                } else {
                    transcribe_fail(RecordingError::NotRecording)
                }
            },
            _ => Step { stage: TranscribeStage::TakeRecording, actions, outcome: None },
        },
        TranscribeStage::StopCapture => match event {
            TranscribeEvent::CaptureStopped { play_sound } => {
                if play_sound {
                    actions.push(Action::PlaySound(SoundEffect::TranscribeStart));
                }
                actions.push(Action::CollectSamples);
                proof {
                    assert(actions@ =~= only_if(
                        play_sound,
                        Action::PlaySound(SoundEffect::TranscribeStart),
                    ).push(Action::CollectSamples));
                }
                Step { stage: TranscribeStage::Collect, actions, outcome: None }
            },
            _ => Step { stage: TranscribeStage::StopCapture, actions, outcome: None },
        },
        TranscribeStage::Collect => match event {
            TranscribeEvent::SamplesCollected { count } => {
                if count == 0 {
                    transcribe_fail(RecordingError::NoAudioCaptured)
                } else {
                    actions.push(Action::EncodeAudio);
                    Step { stage: TranscribeStage::Encode, actions, outcome: None }
                }
            },
            _ => Step { stage: TranscribeStage::Collect, actions, outcome: None },
        },
        TranscribeStage::Encode => match event {
            TranscribeEvent::Encoded { outcome, play_sound, auto_paste } => match outcome {
                Err(m) => transcribe_fail(RecordingError::Encoding(m)),
                Ok(()) => {
                    actions.push(Action::Transcribe);
                    Step {
                        stage: TranscribeStage::Transcribe { play_sound, auto_paste },
                        actions,
                        outcome: None,
                    }
                },
            },
            _ => Step { stage: TranscribeStage::Encode, actions, outcome: None },
        },
        TranscribeStage::Transcribe { play_sound, auto_paste } => match event {
            TranscribeEvent::Transcribed { outcome } => match outcome {
                TranscriptionOutcome::Text(t) => {
                    actions.push(Action::CopyToClipboard(t));
                    Step {
                        stage: TranscribeStage::Copy { play_sound, auto_paste },
                        actions,
                        outcome: None,
                    }
                },
                TranscriptionOutcome::Failed(m) => transcribe_fail(
                    RecordingError::Transcription(m),
                ),
                TranscriptionOutcome::TimedOut => transcribe_fail(
                    RecordingError::TranscriptionTimedOut,
                ),
            },
            _ => Step {
                stage: TranscribeStage::Transcribe { play_sound, auto_paste },
                actions,
                outcome: None,
            },
        },
        TranscribeStage::Copy { play_sound, auto_paste } => match event {
            TranscribeEvent::Copied { outcome } => match outcome {
                Err(m) => transcribe_fail(RecordingError::Clipboard(m)),
                Ok(()) => {
                    if auto_paste {
                        actions.push(Action::PasteClipboard);
                    }
                    if play_sound {
                        actions.push(Action::PlaySound(SoundEffect::Transcribe));
                    }
                    actions.push(Action::RestoreTrayTitle);
                    proof {
                        assert(actions@ =~= only_if(auto_paste, Action::PasteClipboard) + only_if(
                            play_sound,
                            Action::PlaySound(SoundEffect::Transcribe),
                        ) + seq![Action::RestoreTrayTitle]);
                    }
                    Step { stage: TranscribeStage::Finished, actions, outcome: Some(Ok(())) }
                },
            },
            _ => Step {
                stage: TranscribeStage::Copy { play_sound, auto_paste },
                actions,
                outcome: None,
            },
        },
        TranscribeStage::Finished => Step { stage: TranscribeStage::Finished, actions, outcome: None },
    }
}

// ---------------------------------------------------------------------------
// Cancelling a recording
// ---------------------------------------------------------------------------

/// Stages of the cancel command.
pub enum CancelStage {
    TakeRecording,
    StopCapture,
    Finished,
}

/// What the runner reports to the cancel command.
pub enum CancelEvent {
    RecordingTaken { present: bool },
    /// The capture ended (or the wait timed out); `play_sound` is the setting
    /// read then.
    CaptureStopped { play_sound: bool },
}

/// The cancel command's transitions; both ways out restore the tray title.
pub open spec fn cancel_next(stage: CancelStage, event: CancelEvent) -> (
    CancelStage,
    Seq<Action>,
    Option<Result<(), RecordingError>>,
) {
    match (stage, event) {
        (CancelStage::TakeRecording, CancelEvent::RecordingTaken { present }) => if present {
            (
                CancelStage::StopCapture,
                seq![Action::MarkCancelled, Action::SignalStop, Action::AwaitCapture],
                None,
            )
        } else {
            (
                CancelStage::Finished,
                seq![Action::RestoreTrayTitle],
                Some(Err(RecordingError::NotRecording)),
            )
        },
        (CancelStage::StopCapture, CancelEvent::CaptureStopped { play_sound }) => (
            CancelStage::Finished,
            only_if(play_sound, Action::PlaySound(SoundEffect::Cancel)).push(Action::RestoreTrayTitle),
            Some(Ok(())),
        ),
        (s, _) => (s, Seq::empty(), None),
    }
}

/// The cancel command begins by taking the recording out of its slot.
pub fn cancel_begin() -> (r: Step<CancelStage, ()>)
    ensures
        r.stage == CancelStage::TakeRecording,
        r.actions@ == seq![Action::TakeRecording],
        r.outcome is None,
{
    let mut actions = Vec::new();
    actions.push(Action::TakeRecording);
    Step { stage: CancelStage::TakeRecording, actions, outcome: None }
}

/// One step of the cancel command.
pub fn cancel_step(stage: CancelStage, event: CancelEvent) -> (r: Step<CancelStage, ()>)
    ensures
        (r.stage, r.actions@, r.outcome) == cancel_next(stage, event),
{
    let mut actions: Vec<Action> = Vec::new();
    match stage {
        CancelStage::TakeRecording => match event {
            CancelEvent::RecordingTaken { present } => {
                if present {
                    actions.push(Action::MarkCancelled);
                    actions.push(Action::SignalStop);
                    actions.push(Action::AwaitCapture);
                    Step { stage: CancelStage::StopCapture, actions, outcome: None }
                } else {
                    actions.push(Action::RestoreTrayTitle);
                    Step {
                        stage: CancelStage::Finished,
                        actions,
                        outcome: Some(Err(RecordingError::NotRecording)),
                    }
                }
            },
            _ => Step { stage: CancelStage::TakeRecording, actions, outcome: None },
        },
        CancelStage::StopCapture => match event {
            CancelEvent::CaptureStopped { play_sound } => {
                if play_sound {
                    actions.push(Action::PlaySound(SoundEffect::Cancel));
                }
                actions.push(Action::RestoreTrayTitle);
                proof {
                    assert(actions@ =~= only_if(play_sound, Action::PlaySound(SoundEffect::Cancel)).push(
                        Action::RestoreTrayTitle,
                    ));
                }
                Step { stage: CancelStage::Finished, actions, outcome: Some(Ok(())) }
            },
            _ => Step { stage: CancelStage::StopCapture, actions, outcome: None },
        },
        CancelStage::Finished => Step { stage: CancelStage::Finished, actions, outcome: None },
    }
}

// ---------------------------------------------------------------------------
// Toggling, and the capture callback
// ---------------------------------------------------------------------------

/// Which command the record / transcribe shortcut runs.
pub enum Command {
    StartRecording,
    StopAndTranscribe,
}

/// The command that the record / transcribe shortcut runs when a recording
/// is (or is not) in progress.
pub open spec fn toggle_command(recording: bool) -> Command {
    if recording {
        Command::StopAndTranscribe
    } else {
        Command::StartRecording
    }
}

/// The record / transcribe shortcut stops and transcribes when a recording
/// is in progress, and starts one otherwise.
pub fn record_or_transcribe(recording: bool) -> (c: Command)
    ensures
        c == toggle_command(recording),
        recording ==> c == Command::StopAndTranscribe,
        !recording ==> c == Command::StartRecording,
{
    if recording {
        Command::StopAndTranscribe
    } else {
        Command::StartRecording
    }
}

/// What the capture does with one chunk of input.
pub struct ChunkDecision {
    /// Pass the chunk on to the recording.
    pub forward: bool,
    /// Play the record cue now.
    pub play_record_cue: bool,
    /// Whether speech has been heard, after this chunk.
    pub warmed_up: bool,
}

/// The capture callback's rule. Nothing is kept after a cancel. Until the
/// first chunk loud enough to be speech (`voiced`), chunks are dropped; that
/// chunk plays the record cue (when sounds are on) and is kept, as is every
/// chunk after it.
pub open spec fn chunk_rule(cancelled: bool, warmed_up: bool, voiced: bool, play_sound: bool) -> ChunkDecision {
    if cancelled {
        ChunkDecision { forward: false, play_record_cue: false, warmed_up }
    } else if warmed_up {
        ChunkDecision { forward: true, play_record_cue: false, warmed_up: true }
    } else if !voiced {
        ChunkDecision { forward: false, play_record_cue: false, warmed_up: false }
    } else {
        ChunkDecision { forward: true, play_record_cue: play_sound, warmed_up: true }
    }
}

/// Decides what happens to one captured chunk; see [`chunk_rule`].
pub fn on_audio_chunk(cancelled: bool, warmed_up: bool, voiced: bool, play_sound: bool) -> (d:
    ChunkDecision)
    ensures
        d == chunk_rule(cancelled, warmed_up, voiced, play_sound),
{
    if cancelled {
        return ChunkDecision { forward: false, play_record_cue: false, warmed_up };
    }
    if !warmed_up {
        if !voiced {
            return ChunkDecision { forward: false, play_record_cue: false, warmed_up: false };
        }
        return ChunkDecision { forward: true, play_record_cue: play_sound, warmed_up: true };
    }
    ChunkDecision { forward: true, play_record_cue: false, warmed_up: true }
}

/// The modifier that pastes.
pub enum PasteModifier {
    /// Command, on macOS.
    Meta,
    Control,
}

/// Command on macOS, Control elsewhere.
pub fn paste_modifier(on_macos: bool) -> (m: PasteModifier)
    ensures
        m == (if on_macos {
            PasteModifier::Meta
        } else {
            PasteModifier::Control
        }),
{
    if on_macos {
        PasteModifier::Meta
    } else {
        PasteModifier::Control
    }
}

/// The result of a paste once the modifier was pressed: the `v` click and
/// the modifier's release are both attempted; the click's failure is reported
/// first, then the release's.
pub fn paste_outcome(click: Result<(), String>, release: Result<(), String>) -> (r: Result<
    (),
    String,
>)
    ensures
        r == match click {
            Err(e) => Err::<(), String>(e),
            Ok(()) => release,
        },
{
    match click {
        Err(e) => Err(e),
        Ok(()) => release,
    }
}

} // verus!
