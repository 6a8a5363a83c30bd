//! Cue sounds, the player that plays them, and the sizes of the audio that
//! is prepared for transcription.
use vstd::prelude::*;
use std::sync::mpsc::Sender;

verus! {

/// The rate at which audio is sent for transcription.
pub const TRANSCRIPTION_SAMPLE_RATE: u32 = 16_000;

/// The number of channels of audio sent for transcription.
pub const TRANSCRIPTION_CHANNELS: u16 = 1;

/// The cue sounds.
pub enum SoundEffect {
    Record,
    TranscribeStart,
    Transcribe,
    Cancel,
}

/// The encoded sound files, one per cue, as the program carries them.
pub struct SoundAssets {
    pub record: Vec<u8>,
    pub transcribe_start: Vec<u8>,
    pub transcribe: Vec<u8>,
    pub cancel: Vec<u8>,
}

/// The file that belongs to `effect`.
pub open spec fn asset_for(assets: SoundAssets, effect: SoundEffect) -> Seq<u8> {
    match effect {
        SoundEffect::Record => assets.record@,
        SoundEffect::TranscribeStart => assets.transcribe_start@,
        SoundEffect::Transcribe => assets.transcribe@,
        SoundEffect::Cancel => assets.cancel@,
    }
}

impl SoundEffect {
    /// The encoded file of this cue.
    pub fn bytes<'a>(&self, assets: &'a SoundAssets) -> (b: &'a [u8])
        ensures
            b@ == asset_for(*assets, *self),
    {
        match self {
            SoundEffect::Record => assets.record.as_slice(),
            SoundEffect::TranscribeStart => assets.transcribe_start.as_slice(),
            SoundEffect::Transcribe => assets.transcribe.as_slice(),
            SoundEffect::Cancel => assets.cancel.as_slice(),
        }
    }
}

#[verifier::external_type_specification]
#[verifier::external_body]
#[verifier::reject_recursive_types(T)]
pub struct ExSender<T>(Sender<T>);

/// `std::sync::mpsc::Sender::send`: hands `effect` to the player thread.
/// Whether it arrives depends on that thread still running, so nothing is
/// claimed of the outcome, which is `true` when the channel took it.
#[verifier::external_body]
fn send_effect(tx: &Sender<SoundEffect>, effect: SoundEffect) -> (taken: bool) {
    tx.send(effect).is_ok()
}

/// `std::sync::mpsc::Sender::clone`: another sender into the same channel.
/// A sender is a handle on the channel and the clone refers to that same
/// channel, so the contract claims the clone equals the original.
#[verifier::external_body]
fn clone_sender(tx: &Sender<SoundEffect>) -> (c: Sender<SoundEffect>)
    ensures
        c == *tx,
{
    tx.clone()
}

/// Plays cue sounds one after another on a thread of its own.
pub struct AudioPlayer {
    tx: Sender<SoundEffect>,
}

impl AudioPlayer {
    /// The sender through which this player hands cues to its thread.
    pub closed spec fn channel(&self) -> Sender<SoundEffect> {
        self.tx
    }

    /// A player that feeds the thread at the other end of `tx`.
    pub fn from_sender(tx: Sender<SoundEffect>) -> (p: Self)
        ensures
            p.channel() == tx,
    {
        AudioPlayer { tx }
    }

    /// Another handle that feeds the same player thread.
    pub fn handle(&self) -> (p: Self)
        ensures
            p.channel() == self.channel(),
    {
        AudioPlayer { tx: clone_sender(&self.tx) }
    }

    /// Queues `effect`; a player whose thread has stopped drops it silently.
    pub fn play(&self, effect: SoundEffect) {
        let _ = send_effect(&self.tx, effect);
    }
}

/// The number of samples that linear resampling of `input_len` samples from
/// `source_rate` to `target_rate` gives: unchanged when there is nothing to
/// resample, when the source rate is unknown (0) or when the rates agree;
/// otherwise `input_len * target_rate / source_rate`, rounded up.
pub open spec fn resampled_len_spec(input_len: nat, source_rate: nat, target_rate: nat) -> nat {
    if input_len == 0 || source_rate == 0 || source_rate == target_rate {
        input_len
    } else {
        ((input_len * target_rate + source_rate - 1) / source_rate as int) as nat
    }
}

/// The length of the resampled signal; see [`resampled_len_spec`].
pub fn resampled_len(input_len: usize, source_rate: u32, target_rate: u32) -> (r: usize)
    requires
        input_len * target_rate <= u64::MAX,
        resampled_len_spec(input_len as nat, source_rate as nat, target_rate as nat)
            <= usize::MAX,
    ensures
        r == resampled_len_spec(input_len as nat, source_rate as nat, target_rate as nat),
{
    if input_len == 0 || source_rate == 0 || source_rate == target_rate {
        return input_len;
    }
    let total: u64 = input_len as u64 * target_rate as u64;
    let src: u64 = source_rate as u64;
    let q: u64 = total / src;
    let rem: u64 = total % src;
    proof {
        let t = total as int;
        let s = src as int;
        assert(rem != 0 ==> q < u64::MAX) by (nonlinear_arith)
            requires s > 0, q == t / s, rem == t % s, 0 <= t <= u64::MAX;
    }
    let up: u64 = if rem != 0 { q + 1 } else { q };
    proof {
        let t = total as int;
        let s = src as int;
        assert(t == q * s + rem) by (nonlinear_arith)
            requires s > 0, q == t / s, rem == t % s;
        assert(up == (t + s - 1) / s) by (nonlinear_arith)
            requires s > 0, t == q * s + rem, 0 <= rem < s,
                rem != 0 ==> up == q + 1, rem == 0 ==> up == q;
    }
    up as usize
}

/// The number of frames that averaging `input_len` interleaved samples over
/// `channels` channels gives: a count of 0 or 1 leaves the samples as they
/// are; otherwise one frame per whole group, an incomplete last group dropped.
pub open spec fn downmixed_len_spec(input_len: nat, channels: nat) -> nat {
    if channels <= 1 {
        input_len
    } else {
        input_len / channels
    }
}

/// The length of the mono signal; see [`downmixed_len_spec`].
pub fn downmixed_len(input_len: usize, channels: u16) -> (r: usize)
    ensures
        r == downmixed_len_spec(input_len as nat, channels as nat),
{
    if channels <= 1 {
        input_len
    } else {
        input_len / (channels as usize)
    }
}

} // verus!
