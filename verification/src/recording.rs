//! The recording commands of the chat-completion tray variant, which sends
//! the recording to a chat-completion endpoint, written as step functions in
//! the same way as [`crate::app::recording`].
use vstd::prelude::*;
use base64::Engine;
use crate::app::recording::TrayTitle;
use crate::text::{trim, trimmed};

verus! {

/// The chat-completion endpoint that transcribes.
pub const TRANSCRIPTION_ENDPOINT: &'static str = "https://openrouter.ai/api/v1/chat/completions";

/// The model asked to transcribe.
pub const TRANSCRIPTION_MODEL: &'static str = "google/gemini-3.1-flash-lite-preview";

/// The instruction sent with the audio.
pub const TRANSCRIPTION_PROMPT: &'static str = "Transcribe this audio exactly. Output only the spoken words, with no extra commentary, labels, or formatting. If no voice is audible, output exactly: don't hear";

/// The character of the standard Base64 alphabet for the six-bit value `v`:
/// `A`-`Z`, `a`-`z`, `0`-`9`, `+`, `/`.
pub open spec fn base64_char(v: int) -> char {
    if v < 26 {
        ('A' as int + v) as char
    } else if v < 52 {
        ('a' as int + (v - 26)) as char
    } else if v < 62 {
        ('0' as int + (v - 52)) as char
    } else if v == 62 {
        '+'
    } else {
        '/'
    }
}

/// The padded standard Base64 encoding (RFC 4648, section 4) of `bytes`:
/// every three bytes become four characters of six bits each; a last group
/// of one or two bytes is filled up with zero bits and padded with `=` to
/// four characters.
pub open spec fn base64_standard(bytes: Seq<u8>) -> Seq<char>
    decreases bytes.len(),
{
    if bytes.len() == 0 {
        Seq::empty()
    } else if bytes.len() == 1 {
        let b0 = bytes[0] as int;
        seq![base64_char(b0 / 4), base64_char((b0 % 4) * 16), '=', '=']
    } else if bytes.len() == 2 {
        let b0 = bytes[0] as int;
        let b1 = bytes[1] as int;
        seq![base64_char(b0 / 4), base64_char((b0 % 4) * 16 + b1 / 16), base64_char((b1 % 16) * 4), '=']
    } else {
        let b0 = bytes[0] as int;
        let b1 = bytes[1] as int;
        let b2 = bytes[2] as int;
        seq![
            base64_char(b0 / 4),
            base64_char((b0 % 4) * 16 + b1 / 16),
            base64_char((b1 % 16) * 4 + b2 / 64),
            base64_char(b2 % 64),
        ] + base64_standard(bytes.skip(3))
    }
}

/// The length of the padded Base64 encoding of `n` bytes.
pub open spec fn base64_len(n: nat) -> nat {
    if n % 3 == 0 {
        (n / 3) * 4
    } else {
        (n / 3) * 4 + 4
    }
}

/// `base64::Engine::encode` with the `STANDARD` engine: the padded standard
/// Base64 text of `bytes`, as [`base64_standard`] states it, whose length is
/// `4 * ceil(n / 3)`. The crate panics when that length overflows `usize`,
/// which `requires` leaves out.
#[verifier::external_body]
pub(crate) fn base64_encode(bytes: &[u8]) -> (s: String)
    requires
        base64_len(bytes@.len()) <= usize::MAX,
    ensures
        s@ == base64_standard(bytes@),
        s@.len() == base64_len(bytes@.len()),
{
    base64::engine::general_purpose::STANDARD.encode(bytes)
}

/// Outside work that a command asks the runner to do, in order.
pub enum Action {
    CheckRecording,
    OpenInputDevice,
    /// Start capturing every chunk into the recording.
    StartCapture,
    StoreRecording,
    TakeRecording,
    SignalStop,
    AwaitCapture,
    CollectSamples,
    /// Encode the samples as WAV at their own rate and channel count.
    EncodeWav,
    /// POST the audio to [`TRANSCRIPTION_ENDPOINT`] with this `Authorization`
    /// header value, asking [`TRANSCRIPTION_MODEL`] with
    /// [`TRANSCRIPTION_PROMPT`].
    PostTranscription { authorization: String, audio_base64: String },
    CopyToClipboard(String),
    /// Show a "Transcribed" notification with this body.
    Notify(String),
    PlayCue,
    SetTrayTitle(TrayTitle),
    ClearTrayTitle,
}

/// An action with its texts as character sequences.
pub enum ActionView {
    CheckRecording,
    OpenInputDevice,
    StartCapture,
    StoreRecording,
    TakeRecording,
    SignalStop,
    AwaitCapture,
    CollectSamples,
    EncodeWav,
    PostTranscription { authorization: Seq<char>, audio_base64: Seq<char> },
    CopyToClipboard(Seq<char>),
    Notify(Seq<char>),
    PlayCue,
    SetTrayTitle(TrayTitle),
    ClearTrayTitle,
}

impl View for Action {
    type V = ActionView;

    open spec fn view(&self) -> ActionView {
        match self {
            Action::CheckRecording => ActionView::CheckRecording,
            Action::OpenInputDevice => ActionView::OpenInputDevice,
            Action::StartCapture => ActionView::StartCapture,
            Action::StoreRecording => ActionView::StoreRecording,
            Action::TakeRecording => ActionView::TakeRecording,
            Action::SignalStop => ActionView::SignalStop,
            Action::AwaitCapture => ActionView::AwaitCapture,
            Action::CollectSamples => ActionView::CollectSamples,
            Action::EncodeWav => ActionView::EncodeWav,
            Action::PostTranscription { authorization, audio_base64 } =>
                ActionView::PostTranscription {
                authorization: authorization@,
                audio_base64: audio_base64@,
            },
            Action::CopyToClipboard(t) => ActionView::CopyToClipboard(t@),
            Action::Notify(t) => ActionView::Notify(t@),
            Action::PlayCue => ActionView::PlayCue,
            Action::SetTrayTitle(t) => ActionView::SetTrayTitle(*t),
            Action::ClearTrayTitle => ActionView::ClearTrayTitle,
        }
    }
}

/// The views of `actions`.
pub open spec fn actions_view(actions: Seq<Action>) -> Seq<ActionView> {
    actions.map_values(|a: Action| a@)
}

/// Why a command failed.
pub enum CommandError {
    AlreadyRecording,
    NoInputDevice,
    /// The input device's configuration could not be read.
    DeviceConfig(String),
    NotRecording,
    NoAudioRecorded,
    /// The recording could not be encoded.
    Encoding(String),
    MissingApiKey,
    /// The request or its reply failed.
    Request(String),
    /// The endpoint answered with this error object.
    Api(String),
}

/// The message that the runner reports for `e`.
pub open spec fn command_error_message(e: CommandError) -> Seq<char> {
    match e {
        CommandError::AlreadyRecording => "Already recording"@,
        CommandError::NoInputDevice => "No input device available"@,
        CommandError::DeviceConfig(m) => m@,
        CommandError::NotRecording => "Not currently recording"@,
        CommandError::NoAudioRecorded => "No audio recorded"@,
        CommandError::Encoding(m) => m@,
        CommandError::MissingApiKey => "API key not configured. Open Settings from the tray."@,
        CommandError::Request(m) => m@,
        CommandError::Api(m) => "API error: "@ + m@,
    }
}

impl CommandError {
    /// The message that the runner reports.
    pub fn message(&self) -> (m: String)
        ensures
            m@ == command_error_message(*self),
    {
        match self {
            CommandError::AlreadyRecording => String::from_str("Already recording"),
            CommandError::NoInputDevice => String::from_str("No input device available"),
            CommandError::DeviceConfig(m) => String::from_str(m.as_str()),
            CommandError::NotRecording => String::from_str("Not currently recording"),
            CommandError::NoAudioRecorded => String::from_str("No audio recorded"),
            CommandError::Encoding(m) => String::from_str(m.as_str()),
            CommandError::MissingApiKey => String::from_str(
                "API key not configured. Open Settings from the tray.",
            ),
            CommandError::Request(m) => String::from_str(m.as_str()),
            CommandError::Api(m) => String::from_str("API error: ").concat(m.as_str()),
        }
    }
}

/// A command's result as the runner reports it: `Ok` with the value, or
/// `Err` with the error's message.
pub open spec fn result_view<T, V>(r: Result<T, CommandError>, value: spec_fn(T) -> V) -> Result<
    V,
    Seq<char>,
> {
    match r {
        Ok(t) => Ok(value(t)),
        Err(e) => Err(command_error_message(e)),
    }
}

/// Where a command stands after a step.
pub struct Step<S, T> {
    pub stage: S,
    pub actions: Vec<Action>,
    /// The command's result, once it is over.
    pub outcome: Option<Result<T, CommandError>>,
}

/// A unit-valued command's result as reported.
pub open spec fn unit_outcome(o: Option<Result<(), CommandError>>) -> Option<Result<(), Seq<char>>> {
    match o {
        Some(r) => Some(result_view(r, |u: ()| u)),
        None => None,
    }
}

/// A text-valued command's result as reported.
pub open spec fn text_outcome(o: Option<Result<String, CommandError>>) -> Option<
    Result<Seq<char>, Seq<char>>,
> {
    match o {
        Some(r) => Some(result_view(r, |t: String| t@)),
        None => None,
    }
}

/// The actions `[a]`, or none.
pub open spec fn only_if(c: bool, a: ActionView) -> Seq<ActionView> {
    if c {
        seq![a]
    } else {
        Seq::empty()
    }
}

/// The message of a refused command.
pub open spec fn fails<T>(e: CommandError) -> Option<Result<T, Seq<char>>> {
    Some(Err(command_error_message(e)))
}

// ---------------------------------------------------------------------------
// Starting
// ---------------------------------------------------------------------------

/// Stages of the start command.
pub enum StartStage {
    CheckSlot,
    OpenDevice,
    Store,
    Finished,
}

/// Why the input device could not be used.
pub enum DeviceError {
    NoInputDevice,
    Config(String),
}

/// What the runner reports to the start command.
pub enum StartEvent {
    SlotChecked { recording: bool },
    DeviceOpened { result: Result<(), DeviceError> },
    /// The capture is stored; `play_sound` is the setting read then.
    RecordingStored { play_sound: bool },
}

/// The start command's transitions.
pub open spec fn start_next(stage: StartStage, event: StartEvent) -> (
    StartStage,
    Seq<ActionView>,
    Option<Result<(), Seq<char>>>,
) {
    match (stage, event) {
        (StartStage::CheckSlot, StartEvent::SlotChecked { recording }) => if recording {
            (StartStage::Finished, Seq::empty(), fails(CommandError::AlreadyRecording))
        } else {
            (StartStage::OpenDevice, seq![ActionView::OpenInputDevice], None)
        },
        (StartStage::OpenDevice, StartEvent::DeviceOpened { result }) => match result {
            Err(DeviceError::NoInputDevice) => (
                StartStage::Finished,
                Seq::empty(),
                fails(CommandError::NoInputDevice),
            ),
            Err(DeviceError::Config(m)) => (StartStage::Finished, Seq::empty(), Some(Err(m@))),
            Ok(()) => (
                StartStage::Store,
                seq![ActionView::StartCapture, ActionView::StoreRecording],
                None,
            ),
        },
        (StartStage::Store, StartEvent::RecordingStored { play_sound }) => (
            StartStage::Finished,
            only_if(play_sound, ActionView::PlayCue).push(ActionView::SetTrayTitle(TrayTitle::Recording)),
            Some(Ok(())),
        ),
        (s, _) => (s, Seq::empty(), None),
    }
}

/// The start command begins by checking whether a recording is in progress.
pub fn start_begin() -> (r: Step<StartStage, ()>)
    ensures
        r.stage == StartStage::CheckSlot,
        actions_view(r.actions@) == seq![ActionView::CheckRecording],
        r.outcome is None,
{
    let mut actions = Vec::new();
    actions.push(Action::CheckRecording);
    assert(actions_view(actions@) =~= seq![ActionView::CheckRecording]);
    Step { stage: StartStage::CheckSlot, actions, outcome: None }
}

/// One step of the start command.
pub fn start_step(stage: StartStage, event: StartEvent) -> (r: Step<StartStage, ()>)
    ensures
        (r.stage, actions_view(r.actions@), unit_outcome(r.outcome)) == start_next(stage, event),
{
    let mut actions: Vec<Action> = Vec::new();
    let r = match stage {
        StartStage::CheckSlot => match event {
            StartEvent::SlotChecked { recording } => {
                if recording {
                    Step {
                        stage: StartStage::Finished,
                        actions,
                        outcome: Some(Err(CommandError::AlreadyRecording)),
                    }
                } else {
                    actions.push(Action::OpenInputDevice);
                    Step { stage: StartStage::OpenDevice, actions, outcome: None }
                }
            },
            _ => Step { stage: StartStage::CheckSlot, actions, outcome: None },
        },
        StartStage::OpenDevice => match event {
            StartEvent::DeviceOpened { result } => match result {
                Err(DeviceError::NoInputDevice) => Step {
                    stage: StartStage::Finished,
                    actions,
                    outcome: Some(Err(CommandError::NoInputDevice)),
                },
                Err(DeviceError::Config(m)) => Step {
                    stage: StartStage::Finished,
                    actions,
                    outcome: Some(Err(CommandError::DeviceConfig(m))),
                },
                Ok(()) => {
                    actions.push(Action::StartCapture);
                    actions.push(Action::StoreRecording);
                    Step { stage: StartStage::Store, actions, outcome: None }
                },
            },
            _ => Step { stage: StartStage::OpenDevice, actions, outcome: None },
        },
        StartStage::Store => match event {
            StartEvent::RecordingStored { play_sound } => {
                if play_sound {
                    actions.push(Action::PlayCue);
                }
                actions.push(Action::SetTrayTitle(TrayTitle::Recording));
                Step { stage: StartStage::Finished, actions, outcome: Some(Ok(())) }
            },
            _ => Step { stage: StartStage::Store, actions, outcome: None },
        },
        StartStage::Finished => Step { stage: StartStage::Finished, actions, outcome: None },
    };
    assert(actions_view(r.actions@) =~= start_next(stage, event).1);
    r
}

// ---------------------------------------------------------------------------
// Stopping and transcribing
// ---------------------------------------------------------------------------

/// Stages of the stop-and-transcribe command.
pub enum TranscribeStage {
    TakeRecording,
    Collect,
    Encode,
    AwaitReply,
    Finished,
}

/// What the runner read out of the endpoint's JSON reply.
pub struct ChatReply {
    /// The reply's `error` member, as JSON text, when it has one.
    pub error: Option<String>,
    /// `choices[0].message.content`, when that is a string.
    pub content: Option<String>,
}

/// What the runner reports to the stop-and-transcribe command.
pub enum TranscribeEvent {
    RecordingTaken { present: bool },
    SamplesCollected { count: usize },
    /// The WAV encoding, and the API key read afterwards.
    WavEncoded { result: Result<Vec<u8>, String>, api_key: String },
    /// The endpoint's reply; the flags are the settings read afterwards.
    Replied { result: Result<ChatReply, String>, play_sound: bool, show_notification: bool },
}

/// The value of the `Authorization` header for `api_key`.
pub open spec fn bearer(api_key: Seq<char>) -> Seq<char> {
    "Bearer "@ + api_key
}

/// The transcript that a reply's content stands for: the content, or
/// nothing when it is missing, trimmed of white space.
pub open spec fn reply_transcript(content: Option<String>) -> Seq<char> {
    match content {
        Some(c) => trim(c@),
        None => Seq::empty(),
    }
}

/// What the end of a successful command does with transcript `t`: copy it,
/// notify when asked and it is not empty, play the cue when asked, clear the
/// tray title.
pub open spec fn success_actions(t: Seq<char>, play_sound: bool, show_notification: bool) -> Seq<
    ActionView,
> {
    seq![ActionView::CopyToClipboard(t)] + only_if(
        show_notification && t.len() > 0,
        ActionView::Notify(t),
    ) + only_if(play_sound, ActionView::PlayCue) + seq![ActionView::ClearTrayTitle]
}

/// The stop-and-transcribe command's transitions.
pub open spec fn transcribe_next(stage: TranscribeStage, event: TranscribeEvent) -> (
    TranscribeStage,
    Seq<ActionView>,
    Option<Result<Seq<char>, Seq<char>>>,
) {
    match (stage, event) {
        (TranscribeStage::TakeRecording, TranscribeEvent::RecordingTaken { present }) => if present {
            (
                TranscribeStage::Collect,
                seq![ActionView::SignalStop, ActionView::AwaitCapture, ActionView::CollectSamples],
                None,
            )
        } else {
            (TranscribeStage::Finished, Seq::empty(), fails(CommandError::NotRecording))
        },
        (TranscribeStage::Collect, TranscribeEvent::SamplesCollected { count }) => if count == 0 {
            (
                TranscribeStage::Finished,
                seq![ActionView::ClearTrayTitle],
                fails(CommandError::NoAudioRecorded),
            )
        } else {
            (TranscribeStage::Encode, seq![ActionView::EncodeWav], None)
        },
        (TranscribeStage::Encode, TranscribeEvent::WavEncoded { result, api_key }) => match result {
            Err(m) => (TranscribeStage::Finished, Seq::empty(), Some(Err(m@))),
            Ok(wav) => if api_key@.len() == 0 {
                (
                    TranscribeStage::Finished,
                    seq![ActionView::ClearTrayTitle],
                    fails(CommandError::MissingApiKey),
                )
            } else {
                (
                    TranscribeStage::AwaitReply,
                    seq![
                        ActionView::PostTranscription {
                            authorization: bearer(api_key@),
                            audio_base64: base64_standard(wav@),
                        },
                    ],
                    None,
                )
            },
        },
        (
            TranscribeStage::AwaitReply,
            TranscribeEvent::Replied { result, play_sound, show_notification },
        ) => match result {
            Err(m) => (TranscribeStage::Finished, Seq::empty(), Some(Err(m@))),
            Ok(reply) => match reply.error {
                Some(err) => (
                    TranscribeStage::Finished,
                    seq![ActionView::ClearTrayTitle],
                    Some(Err("API error: "@ + err@)),
                ),
                None => (
                    TranscribeStage::Finished,
                    success_actions(reply_transcript(reply.content), play_sound, show_notification),
                    Some(Ok(reply_transcript(reply.content))),
                ),
            },
        },
        (s, _) => (s, Seq::empty(), None),
    }
}

/// The event can be handled without the Base64 encoding overflowing.
pub open spec fn encodable(event: TranscribeEvent) -> bool {
    match event {
        TranscribeEvent::WavEncoded { result: Ok(wav), .. } => base64_len(wav@.len()) <= usize::MAX,
        _ => true,
    }
}

/// Whether [`transcribe_step`] can take `event`: its WAV, if any, is small
/// enough for its Base64 text to fit in memory.
pub fn can_encode(event: &TranscribeEvent) -> (b: bool)
    ensures
        b == encodable(*event),
{
    match event {
        TranscribeEvent::WavEncoded { result: Ok(wav), .. } => {
            let n = wav.len();
            let chunks = n / 3;
            if chunks > usize::MAX / 4 {
                return false;
            }
            let full = chunks * 4;
            if n % 3 == 0 {
                true
            } else {
                full <= usize::MAX - 4
            }
        },
        _ => true,
    }
}

/// The stop-and-transcribe command begins by showing the transcribing title
/// and taking the recording out of its slot.
pub fn transcribe_begin() -> (r: Step<TranscribeStage, String>)
    ensures
        r.stage == TranscribeStage::TakeRecording,
        actions_view(r.actions@) == seq![
            ActionView::SetTrayTitle(TrayTitle::Transcribing),
            ActionView::TakeRecording,
        ],
        r.outcome is None,
{
    let mut actions = Vec::new();
    actions.push(Action::SetTrayTitle(TrayTitle::Transcribing));
    actions.push(Action::TakeRecording);
    assert(actions_view(actions@) =~= seq![
        ActionView::SetTrayTitle(TrayTitle::Transcribing),
        ActionView::TakeRecording,
    ]);
    Step { stage: TranscribeStage::TakeRecording, actions, outcome: None }
}

/// One step of the stop-and-transcribe command.
pub fn transcribe_step(stage: TranscribeStage, event: TranscribeEvent) -> (r: Step<
    TranscribeStage,
    String,
>)
    requires
        encodable(event),
    ensures
        (r.stage, actions_view(r.actions@), text_outcome(r.outcome)) == transcribe_next(
            stage,
            event,
        ),
{
    let mut actions: Vec<Action> = Vec::new();
    let r = match stage {
        TranscribeStage::TakeRecording => match event {
            TranscribeEvent::RecordingTaken { present } => {
                if present {
                    actions.push(Action::SignalStop);
                    actions.push(Action::AwaitCapture);
                    actions.push(Action::CollectSamples);
                    Step { stage: TranscribeStage::Collect, actions, outcome: None }
                } else {
                    Step {
                        stage: TranscribeStage::Finished,
                        actions,
                        outcome: Some(Err(CommandError::NotRecording)),
                    }
                }
            },
            _ => Step { stage: TranscribeStage::TakeRecording, actions, outcome: None },
        },
        TranscribeStage::Collect => match event {
            TranscribeEvent::SamplesCollected { count } => {
                if count == 0 {
                    actions.push(Action::ClearTrayTitle);
                    Step {
                        stage: TranscribeStage::Finished,
                        actions,
                        outcome: Some(Err(CommandError::NoAudioRecorded)),
                    }
                } else {
                    actions.push(Action::EncodeWav);
                    Step { stage: TranscribeStage::Encode, actions, outcome: None }
                }
            },
            _ => Step { stage: TranscribeStage::Collect, actions, outcome: None },
        },
        TranscribeStage::Encode => match event {
            TranscribeEvent::WavEncoded { result, api_key } => match result {
                Err(m) => Step {
                    stage: TranscribeStage::Finished,
                    actions,
                    outcome: Some(Err(CommandError::Encoding(m))),
                },
                Ok(wav) => {
                    let audio_base64 = base64_encode(wav.as_slice());
                    if api_key.as_str().is_empty() {
                        actions.push(Action::ClearTrayTitle);
                        Step {
                            stage: TranscribeStage::Finished,
                            actions,
                            outcome: Some(Err(CommandError::MissingApiKey)),
                        }
                    } else {
                        let authorization = String::from_str("Bearer ").concat(api_key.as_str());
                        actions.push(Action::PostTranscription { authorization, audio_base64 });
                        Step { stage: TranscribeStage::AwaitReply, actions, outcome: None }
                    }
                },
            },
            _ => Step { stage: TranscribeStage::Encode, actions, outcome: None },
        },
        TranscribeStage::AwaitReply => match event {
            TranscribeEvent::Replied { result, play_sound, show_notification } => match result {
                Err(m) => Step {
                    stage: TranscribeStage::Finished,
                    actions,
                    outcome: Some(Err(CommandError::Request(m))),
                },
                Ok(reply) => match reply.error {
                    Some(err) => {
                        actions.push(Action::ClearTrayTitle);
                        Step {
                            stage: TranscribeStage::Finished,
                            actions,
                            outcome: Some(Err(CommandError::Api(err))),
                        }
                    },
                    None => {
                        let transcript = match &reply.content {
                            Some(c) => String::from_str(trimmed(c.as_str())),
                            None => String::new(),
                        };
                        actions.push(Action::CopyToClipboard(transcript.clone()));
                        if show_notification && !transcript.as_str().is_empty() {
                            actions.push(Action::Notify(transcript.clone()));
                        }
                        if play_sound {
                            actions.push(Action::PlayCue);
                        }
                        actions.push(Action::ClearTrayTitle);
                        Step { stage: TranscribeStage::Finished, actions, outcome: Some(Ok(transcript)) }
                    },
                },
            },
            _ => Step { stage: TranscribeStage::AwaitReply, actions, outcome: None },
        },
        TranscribeStage::Finished => Step { stage: TranscribeStage::Finished, actions, outcome: None },
    };
    assert(actions_view(r.actions@) =~= transcribe_next(stage, event).1);
    r
}

// ---------------------------------------------------------------------------
// Cancelling
// ---------------------------------------------------------------------------

/// Stages of the cancel command.
pub enum CancelStage {
    TakeRecording,
    Finished,
}

/// The cancel command begins by clearing the tray title and taking the
/// recording out of its slot.
pub fn cancel_begin() -> (r: Step<CancelStage, ()>)
    ensures
        r.stage == CancelStage::TakeRecording,
        actions_view(r.actions@) == seq![ActionView::ClearTrayTitle, ActionView::TakeRecording],
        r.outcome is None,
{
    let mut actions = Vec::new();
    actions.push(Action::ClearTrayTitle);
    actions.push(Action::TakeRecording);
    assert(actions_view(actions@) =~= seq![ActionView::ClearTrayTitle, ActionView::TakeRecording]);
    Step { stage: CancelStage::TakeRecording, actions, outcome: None }
}

/// The cancel command's transition once it knows whether a recording was
/// taken.
pub open spec fn cancel_next(stage: CancelStage, present: bool) -> (
    CancelStage,
    Seq<ActionView>,
    Option<Result<(), Seq<char>>>,
) {
    match stage {
        CancelStage::TakeRecording => if present {
            (CancelStage::Finished, seq![ActionView::SignalStop, ActionView::AwaitCapture], Some(Ok(())))
        } else {
            (CancelStage::Finished, Seq::empty(), fails(CommandError::NotRecording))
        },
        CancelStage::Finished => (CancelStage::Finished, Seq::empty(), None),
    }
}

/// One step of the cancel command: `present` tells whether a recording was
/// taken.
pub fn cancel_step(stage: CancelStage, present: bool) -> (r: Step<CancelStage, ()>)
    ensures
        (r.stage, actions_view(r.actions@), unit_outcome(r.outcome)) == cancel_next(stage, present),
{
    let mut actions: Vec<Action> = Vec::new();
    let r = match stage {
        CancelStage::TakeRecording => {
            if present {
                actions.push(Action::SignalStop);
                actions.push(Action::AwaitCapture);
                Step { stage: CancelStage::Finished, actions, outcome: Some(Ok(())) }
            } else {
                Step {
                    stage: CancelStage::Finished,
                    actions,
                    outcome: Some(Err(CommandError::NotRecording)),
                }
            }
        },
        CancelStage::Finished => Step { stage: CancelStage::Finished, actions, outcome: None },
    };
    assert(actions_view(r.actions@) =~= cancel_next(stage, present).1);
    r
}

} // verus!
