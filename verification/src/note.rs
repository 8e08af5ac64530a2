//! A note: one tone of a song.

use crate::waveform::WaveForm;
use vstd::prelude::*;

verus! {

/// One tone: a waveform held at a frequency for a duration, at a volume.
#[derive(Debug, Clone, Copy, PartialEq, Eq, Structural)]
pub struct Note {
    /// Frequency, in millihertz.
    pub freq: u32,
    /// Duration, in microseconds.
    pub dur: u64,
    /// Volume, in thousandths of full amplitude. Values above 1000 are kept
    /// as they are; what they push out of range is clipped when quantized.
    pub vol: u32,
    /// The shape of the tone.
    pub wave: WaveForm,
}

/// By how many thousandths the frequency of a sine is scaled so that it
/// stands in for `wave` on an engine that can only play sines: the brighter
/// the waveform, the higher the sine. A rest is a sine that does not move.
pub open spec fn approx_sine_scale(wave: WaveForm) -> int {
    match wave {
        WaveForm::Sine => 1_000,
        WaveForm::Square => 1_270,
        WaveForm::Sawtooth => 1_500,
        WaveForm::Triangle => 1_160,
        WaveForm::Rest => 0,
    }
}

impl Default for Note {
    /// The concert pitch A, 440 Hz, as a sine, for three seconds at a fifth
    /// of full volume.
    fn default() -> (note: Note)
        ensures
            note == (Note { freq: 440_000, dur: 3_000_000, vol: 200, wave: WaveForm::Sine }),
    {
        Note { freq: 440_000, dur: 3_000_000, vol: 200, wave: WaveForm::Sine }
    }
}

impl Note {
    /// A silence of `dur` microseconds.
    pub fn rest(dur: u64) -> (note: Note)
        ensures
            note == (Note { freq: 0, dur, vol: 0, wave: WaveForm::Rest }),
    {
        Note { freq: 0, dur, vol: 0, wave: WaveForm::Rest }
    }

    /// The frequency, in microhertz, of the sine that stands in for this
    /// note where only sines can be played.
    pub open spec fn approx_sine(self) -> int {
        self.freq * approx_sine_scale(self.wave)
    }

    /// Computes the frequency of the stand-in sine, in microhertz.
    pub fn to_approx_sine(&self) -> (microhertz: u64)
        ensures
            microhertz == self.approx_sine(),
    {
        let scale: u64 = match self.wave {
            WaveForm::Sine => 1_000,
            WaveForm::Square => 1_270,
            WaveForm::Sawtooth => 1_500,
            WaveForm::Triangle => 1_160,
            WaveForm::Rest => 0,
        };
        assert(self.freq * scale <= 0xffff_ffff * 1_500) by (nonlinear_arith)
            requires
                self.freq <= 0xffff_ffff,
                scale <= 1_500,
        ;
        (self.freq as u64) * scale
    }
}

} // verus!
