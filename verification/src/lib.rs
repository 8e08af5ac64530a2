//! Retro tone synthesis in integer arithmetic.
//!
//! A song is a sequence of notes, each a periodic waveform with a frequency,
//! a duration and a volume. The crate renders songs to 16-bit PCM, encodes
//! them as WAVE files, and decides what a playback worker does with the
//! commands it is sent. Every quantity is an integer in a fixed unit:
//! millihertz, microseconds, thousandths of full volume. Square, sawtooth
//! and triangle are computed without rounding; the sine is summed from its
//! power series in fixed point and rounded to the nearest amplitude step.

use vstd::prelude::*;

pub mod advancedplayer;
pub mod assets;
pub mod legacyplayer;
pub mod misc;
pub mod note;
pub mod player;
pub mod wav;
pub mod waveform;

pub use legacyplayer::BasicSong;
pub use note::Note;
pub use player::{AudioManager, Song};
pub use waveform::WaveForm;

verus! {

/// The tempo of a song, in beats per minute. It is carried with the song and
/// read by nothing that schedules or renders it.
#[derive(Debug, Clone, Copy, PartialEq, Eq, Structural)]
pub enum BPMChoice {
    /// The conventional tempo, 120 beats per minute.
    Default,
    /// A tempo chosen by the caller.
    Custom(u32),
}

} // verus!
