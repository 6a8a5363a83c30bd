//! The transcription model: which OpenAI-compatible endpoint and model are
//! asked, the chat-completion request with audio input that asks them, and
//! how the returned text is cleaned up.
use vstd::prelude::*;
use crate::app::settings::AppSettings;
use crate::recording::{base64_encode, base64_len, base64_standard, TRANSCRIPTION_PROMPT};
use crate::text::{chars_of, find, find_first, occurs_at, trim, trim_bounds};

verus! {

/// The tag after which speech-recognition models put the recognised text.
pub open spec fn asr_marker() -> Seq<char> {
    seq!['<', 'a', 's', 'r', '_', 't', 'e', 'x', 't', '>']
}

/// The transcript with everything up to and including the first `<asr_text>`
/// tag removed (when there is one), then trimmed of white space.
pub open spec fn pruned_transcript(t: Seq<char>) -> Seq<char> {
    match find(t, asr_marker()) {
        Some(i) => trim(t.skip(i + asr_marker().len())),
        None => trim(t),
    }
}

/// Cleans up a model's transcript: drops what precedes the `<asr_text>` tag
/// (and the tag), then trims white space.
pub fn prune_transcript(transcript: &str) -> (r: &str)
    ensures
        r@ == pruned_transcript(transcript@),
{
    let chars = chars_of(transcript);
    let marker_text = "<asr_text>";
    proof {
        reveal_strlit("<asr_text>");
    }
    let marker = chars_of(marker_text);
    assert(marker@ =~= asr_marker());
    let found = find_first(&chars, &marker);
    let start: usize = match found {
        Some(i) => {
            assert(occurs_at(chars@, marker@, i as int));
            assert(i + marker@.len() <= chars.len());
            i + marker.len()
        },
        None => 0,
    };
    let tail: Vec<char> = suffix_of(&chars, start);
    let (a, b) = trim_bounds(&tail);
    proof {
        assert(chars@.subrange(start + a, start + b) =~= tail@.subrange(a as int, b as int));
        if find(chars@, asr_marker()) is None {
            assert(chars@.skip(0) =~= chars@);
        }
    }
    transcript.substring_char(start + a, start + b)
}

/// The characters of `v` from index `start` on.
fn suffix_of(v: &Vec<char>, start: usize) -> (r: Vec<char>)
    requires
        start <= v.len(),
    ensures
        r@ == v@.skip(start as int),
{
    let mut r: Vec<char> = Vec::new();
    let mut i = start;
    while i < v.len()
        invariant
            start <= i <= v.len(),
            r@ == v@.subrange(start as int, i as int),
        decreases v.len() - i,
    {
        r.push(v[i]);
        i = i + 1;
        assert(r@ =~= v@.subrange(start as int, i as int));
    }
    assert(v@.subrange(start as int, v.len() as int) =~= v@.skip(start as int));
    r
}

/// The containers in which audio can be handed to the model.
pub enum AudioFormat {
    Wav,
    Mp3,
}

/// The name of `format` in a chat-completion `input_audio` part.
pub open spec fn audio_format_name(format: AudioFormat) -> Seq<char> {
    match format {
        AudioFormat::Wav => "wav"@,
        AudioFormat::Mp3 => "mp3"@,
    }
}

/// The chat-completions endpoint under an OpenAI-compatible base URL: the
/// path is appended to the base as it stands.
pub open spec fn chat_completions_url(api_base: Seq<char>) -> Seq<char> {
    api_base + "/chat/completions"@
}

/// A chat-completion request that transcribes audio: one user message whose
/// content is the instruction as a text part followed by the audio as an
/// `input_audio` part.
pub struct TranscriptionRequest {
    /// Where the request is posted.
    pub url: String,
    /// The model that is asked.
    pub model: String,
    /// The text part: what the model is told to do with the audio.
    pub prompt: String,
    /// The audio, Base64-encoded.
    pub audio_base64: String,
    /// The audio's container, as `input_audio` names it.
    pub audio_format: String,
}

/// A client of an OpenAI-compatible endpoint that takes chat completions
/// with audio input.
#[derive(Clone)]
pub struct AiModel {
    /// The endpoint's base URL.
    pub api_base: String,
    /// The model that transcribes.
    pub model: String,
}

impl AiModel {
    /// The endpoint and model that a fresh install uses.
    pub fn new() -> (r: Self)
        ensures
            r.api_base@ == "https://henry.gooseread.com/v1"@,
            r.model@ == "Qwen/Qwen3-ASR-1.7B"@,
    {
        AiModel {
            api_base: String::from_str("https://henry.gooseread.com/v1"),
            model: String::from_str("Qwen/Qwen3-ASR-1.7B"),
        }
    }

    /// The endpoint and model that the settings name.
    pub fn from_settings(settings: &AppSettings) -> (r: Self)
        ensures
            r.api_base@ == settings.model.base_url@,
            r.model@ == settings.model.model@,
    {
        AiModel {
            api_base: String::from_str(settings.model.base_url.as_str()),
            model: String::from_str(settings.model.model.as_str()),
        }
    }

    /// The chat-completion request that asks this model, at this endpoint,
    /// to transcribe `audio`, which is held in `format`.
    pub fn transcription_request(&self, audio: &[u8], format: AudioFormat) -> (r:
        TranscriptionRequest)
        requires
            base64_len(audio@.len()) <= usize::MAX,
        ensures
            r.url@ == chat_completions_url(self.api_base@),
            r.model@ == self.model@,
            r.prompt@ == TRANSCRIPTION_PROMPT@,
            r.audio_base64@ == base64_standard(audio@),
            r.audio_format@ == audio_format_name(format),
    {
        let mut url = String::from_str(self.api_base.as_str());
        url.append("/chat/completions");
        let audio_format = match format {
            AudioFormat::Wav => String::from_str("wav"),
            AudioFormat::Mp3 => String::from_str("mp3"),
        };
        TranscriptionRequest {
            url,
            model: String::from_str(self.model.as_str()),
            prompt: String::from_str(TRANSCRIPTION_PROMPT),
            audio_base64: base64_encode(audio),
            audio_format,
        }
    }

    /// The transcript that the endpoint's reply text stands for.
    pub fn transcript_from_reply(reply_text: &str) -> (r: String)
        ensures
            r@ == pruned_transcript(reply_text@),
    {
        String::from_str(prune_transcript(reply_text))
    }
}

} // verus!
