use henry_whisper::ai::{prune_transcript, AiModel, AudioFormat};
use henry_whisper::recording::TRANSCRIPTION_PROMPT;
use henry_whisper::app::settings::AppSettings;

#[test]
fn prune_drops_everything_up_to_the_asr_tag() {
    assert_eq!(prune_transcript("language English<asr_text>  Hello there. \n"), "Hello there.");
}

#[test]
fn prune_trims_text_without_tag() {
    assert_eq!(prune_transcript("  plain words\t\n"), "plain words");
    assert_eq!(prune_transcript(""), "");
    assert_eq!(prune_transcript(" \n\t "), "");
}

#[test]
fn prune_uses_the_first_tag_only() {
    assert_eq!(prune_transcript("a<asr_text>b <asr_text> c"), "b <asr_text> c");
    assert_eq!(prune_transcript("<asr_text>"), "");
}

#[test]
fn prune_strips_unicode_white_space() {
    assert_eq!(prune_transcript("\u{3000}héllo wörld\u{a0}\u{2009}"), "héllo wörld");
    assert_eq!(prune_transcript("日本<asr_text>\u{85}こんにちは "), "こんにちは");
}

#[test]
fn model_defaults_and_request() {
    let m = AiModel::new();
    assert_eq!(m.api_base, "https://henry.gooseread.com/v1");
    assert_eq!(m.model, "Qwen/Qwen3-ASR-1.7B");
    let r = m.transcription_request(&[1, 2, 3], AudioFormat::Mp3);
    assert_eq!(r.url, "https://henry.gooseread.com/v1/chat/completions");
    assert_eq!(r.model, "Qwen/Qwen3-ASR-1.7B");
    assert_eq!(r.prompt, TRANSCRIPTION_PROMPT);
    assert_eq!(r.audio_base64, "AQID");
    assert_eq!(r.audio_format, "mp3");
    assert_eq!(AiModel::transcript_from_reply("x<asr_text> ok "), "ok");
}

#[test]
fn request_is_a_chat_completion_with_audio_input() {
    let m = AiModel { api_base: "http://localhost:8080/v1/".to_string(), model: "m".to_string() };
    let r = m.transcription_request(b"hello", AudioFormat::Wav);
    assert_eq!(r.url, "http://localhost:8080/v1//chat/completions");
    assert_eq!(r.audio_base64, "aGVsbG8=");
    assert_eq!(r.audio_format, "wav");
    let empty = m.transcription_request(&[], AudioFormat::Mp3);
    assert_eq!(empty.audio_base64, "");
}

#[test]
fn model_follows_settings() {
    let s = AppSettings::default();
    let m = AiModel::from_settings(&s);
    assert_eq!(m.api_base, "https://gemini.gooseread.com/v1");
    assert_eq!(m.model, "google/gemma-4-E4B-it");
}
