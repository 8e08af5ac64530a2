//! The waveform synthesizer: from a waveform and a phase to an amplitude.
//!
//! A phase counts ticks, `CYCLE` of them to one period. An amplitude counts
//! steps, `FULL_SCALE` of them to +1. Square, sawtooth and triangle are
//! written in steps without any rounding. The sine is summed from its power
//! series in fixed point and rounded to the nearest step.

use vstd::arithmetic::div_mod::lemma_mod_add_multiples_vanish;
use vstd::prelude::*;

verus! {

/// Samples per second of every rendered stream.
pub const SAMPLE_RATE: u32 = 44_100;

/// Phase ticks in one period: one tick is what a tone of one millihertz
/// advances in one sample.
pub const CYCLE: u64 = 44_100_000;

/// Half a period, in ticks.
pub const HALF_CYCLE: u64 = 22_050_000;

/// A quarter of a period, in ticks.
pub const QUARTER_CYCLE: u64 = 11_025_000;

/// An eighth of a period, in ticks.
pub const EIGHTH_CYCLE: u64 = 5_512_500;

/// Amplitude steps to one tick of a sawtooth's rise.
pub const STEPS_PER_TICK: i64 = 1_048_576;

/// The amplitude that stands for +1: `CYCLE` times `STEPS_PER_TICK`.
pub const FULL_SCALE: i64 = 46_242_201_600_000;

/// The largest value of a 16-bit sample, which full scale at full volume
/// is quantized to.
pub const PCM_MAX: i16 = 32_767;

/// Volume is counted in thousandths: this is a volume of one.
pub const FULL_VOLUME: u32 = 1_000;

/// One, in the fixed point in which angles and the series are held:
/// two to the power of 60.
pub const ONE: u64 = 1_152_921_504_606_846_976;

/// Two pi in that fixed point, to the nearest.
pub const TWO_PI: u64 = 7_244_019_458_077_122_842;

/// The shape of one period of a tone.
#[derive(Clone, Copy, Debug, PartialEq, Eq, Structural)]
pub enum WaveForm {
    Sine,
    Square,
    Sawtooth,
    Triangle,
    /// Silence.
    Rest,
}

/// The angle of `ticks`, in radians and in fixed point, rounded down.
pub open spec fn angle(ticks: int) -> int {
    TWO_PI * ticks / (CYCLE as int)
}

/// The square of an angle, in fixed point.
pub open spec fn squared(theta: int) -> int {
    theta * theta / (ONE as int)
}

/// The power series of the sine and of the cosine, from the divisor
/// `m (m + 1)` on: `1 - x2 / (m (m + 1)) * (1 - x2 / ((m + 2) (m + 3)) * ...)`,
/// where `x2` is the square of the angle. From `m == 1` it is the cosine;
/// from `m == 2` it is the sine divided by the angle. It is cut after the
/// divisor 18 times 19: up to an eighth of a period what is cut off is less
/// than one part in ten to the power of 19.
pub open spec fn series(x2: int, m: int) -> int
    decreases 20 - m,
{
    if m > 18 {
        ONE as int
    } else {
        ONE - (x2 * series(x2, m + 2) / (ONE as int)) / (m * (m + 1))
    }
}

/// A value in fixed point as an amplitude, to the nearest step.
pub open spec fn to_amplitude(value: int) -> int {
    (value * FULL_SCALE + ONE / 2) / (ONE as int)
}

/// The sine of `ticks`, for no more than an eighth of a period.
pub open spec fn sine_of_octant(ticks: int) -> int {
    to_amplitude(angle(ticks) * series(squared(angle(ticks)), 2) / (ONE as int))
}

/// The cosine of `ticks`, for no more than an eighth of a period.
pub open spec fn cosine_of_octant(ticks: int) -> int {
    to_amplitude(series(squared(angle(ticks)), 1))
}

/// The sine over its first half period, `p` ticks into it. The second
/// quarter mirrors the first; within a quarter, the first eighth is summed
/// as a sine and the second as the cosine of what is left to the quarter.
/// The result agrees with the sine to within one amplitude step.
pub open spec fn sine_arch(p: int) -> int {
    let q = if p > QUARTER_CYCLE {
        HALF_CYCLE - p
    } else {
        p
    };
    if q <= EIGHTH_CYCLE {
        sine_of_octant(q)
    } else {
        cosine_of_octant(QUARTER_CYCLE - q)
    }
}

/// The amplitude of `kind` at `phase`, for any phase: only the position
/// within the period counts.
pub open spec fn sample(kind: WaveForm, phase: int) -> int {
    let p = phase % (CYCLE as int);
    match kind {
        WaveForm::Sine => if p < HALF_CYCLE {
            sine_arch(p)
        } else {
            -sine_arch(p - HALF_CYCLE)
        },
        WaveForm::Square => if p < HALF_CYCLE {
            FULL_SCALE as int
        } else {
            -(FULL_SCALE as int)
        },
        WaveForm::Sawtooth => (2 * p - CYCLE) * STEPS_PER_TICK,
        WaveForm::Triangle => if p < HALF_CYCLE {
            (4 * p - CYCLE) * STEPS_PER_TICK
        } else {
            (3 * CYCLE - 4 * p) * STEPS_PER_TICK
        },
        WaveForm::Rest => 0,
    }
}

/// The series stays between zero and one.
pub proof fn series_bounds(x2: int, m: int)
    requires
        0 <= x2 <= ONE,
        1 <= m,
    ensures
        0 <= series(x2, m) <= ONE,
    decreases 20 - m,
{
    if m <= 18 {
        series_bounds(x2, m + 2);
        let t = series(x2, m + 2);
        let one = ONE as int;
        assert(0 <= x2 * t <= one * one) by (nonlinear_arith)
            requires
                0 <= x2 <= one,
                0 <= t <= one,
        ;
        assert(0 <= x2 * t / one <= one) by (nonlinear_arith)
            requires
                0 <= x2 * t <= one * one,
                one > 0,
        ;
        let d = m * (m + 1);
        assert(d >= 1) by (nonlinear_arith)
            requires
                d == m * (m + 1),
                m >= 1,
        ;
        assert(0 <= (x2 * t / one) / d <= one) by (nonlinear_arith)
            requires
                0 <= x2 * t / one <= one,
                d >= 1,
        ;
    }
}

/// The angle of up to an eighth of a period is less than one radian, and
/// so is its square.
pub proof fn angle_bounds(ticks: int)
    requires
        0 <= ticks <= EIGHTH_CYCLE,
    ensures
        0 <= angle(ticks) <= ONE,
        0 <= squared(angle(ticks)) <= ONE,
        0 <= TWO_PI * ticks <= 39_932_657_262_650_139_666_525_000,
{
    let one = ONE as int;
    let two_pi = TWO_PI as int;
    let cycle = CYCLE as int;
    assert(0 <= two_pi * ticks <= 39_932_657_262_650_139_666_525_000) by (nonlinear_arith)
        requires
            two_pi == 7_244_019_458_077_122_842,
            0 <= ticks <= 5_512_500,
    ;
    assert(0 <= (two_pi * ticks) / cycle <= one) by (nonlinear_arith)
        requires
            0 <= two_pi * ticks <= 39_932_657_262_650_139_666_525_000,
            cycle == 44_100_000,
            one == 1_152_921_504_606_846_976,
    ;
    let theta = angle(ticks);
    assert(0 <= theta * theta <= one * one) by (nonlinear_arith)
        requires
            0 <= theta <= one,
    ;
    assert(0 <= theta * theta / one <= one) by (nonlinear_arith)
        requires
            0 <= theta * theta <= one * one,
            one > 0,
    ;
}

/// A value between zero and one is an amplitude between zero and full
/// scale.
pub proof fn to_amplitude_bounds(value: int)
    requires
        0 <= value <= ONE,
    ensures
        0 <= to_amplitude(value) <= FULL_SCALE,
        0 <= value * FULL_SCALE + ONE / 2 <= ONE * FULL_SCALE + ONE / 2,
{
    let one = ONE as int;
    let full = FULL_SCALE as int;
    assert(0 <= value * full <= one * full) by (nonlinear_arith)
        requires
            0 <= value <= one,
            full >= 0,
    ;
    assert(0 <= (value * full + one / 2) / one <= full) by (nonlinear_arith)
        requires
            0 <= value * full <= one * full,
            one == 1_152_921_504_606_846_976,
    ;
}

/// The arch of the sine stays between zero and full scale.
pub proof fn sine_arch_bounds(p: int)
    requires
        0 <= p <= HALF_CYCLE,
    ensures
        0 <= sine_arch(p) <= FULL_SCALE,
{
    let q = if p > QUARTER_CYCLE {
        HALF_CYCLE - p
    } else {
        p
    };
    let one = ONE as int;
    if q <= EIGHTH_CYCLE {
        angle_bounds(q);
        let theta = angle(q);
        let t = series(squared(theta), 2);
        series_bounds(squared(theta), 2);
        assert(0 <= theta * t <= one * one) by (nonlinear_arith)
            requires
                0 <= theta <= one,
                0 <= t <= one,
        ;
        assert(0 <= theta * t / one <= one) by (nonlinear_arith)
            requires
                0 <= theta * t <= one * one,
                one > 0,
        ;
        to_amplitude_bounds(theta * t / one);
    } else {
        angle_bounds(QUARTER_CYCLE - q);
        series_bounds(squared(angle(QUARTER_CYCLE - q)), 1);
        to_amplitude_bounds(series(squared(angle(QUARTER_CYCLE - q)), 1));
    }
}

/// Every waveform repeats after one period: a phase and the phase one whole
/// period later give the same amplitude.
pub proof fn sample_is_periodic(kind: WaveForm, phase: int)
    ensures
        sample(kind, phase) == sample(kind, phase + CYCLE),
{
    lemma_mod_add_multiples_vanish(phase, CYCLE as int);
}

/// A rest is silent at every phase.
pub proof fn rest_is_silent(phase: int)
    ensures
        sample(WaveForm::Rest, phase) == 0,
{
}

/// At exactly half a period the square wave has already fallen to -1 and the
/// triangle stands at its peak, +1: both take their second branch, with
/// nothing lost to rounding.
pub proof fn half_period_values()
    ensures
        sample(WaveForm::Square, HALF_CYCLE as int) == -(FULL_SCALE as int),
        sample(WaveForm::Triangle, HALF_CYCLE as int) == FULL_SCALE as int,
{
}

/// The sine passes through its landmarks exactly: zero at the start and at
/// half a period, +1 at the first quarter and -1 at the third.
pub proof fn sine_landmarks()
    ensures
        sample(WaveForm::Sine, 0) == 0,
        sample(WaveForm::Sine, QUARTER_CYCLE as int) == FULL_SCALE,
        sample(WaveForm::Sine, HALF_CYCLE as int) == 0,
        sample(WaveForm::Sine, 3 * QUARTER_CYCLE) == -(FULL_SCALE as int),
{
    let one = ONE as int;
    let full = FULL_SCALE as int;
    assert(angle(0) == 0);
    assert(squared(0) == 0);
    assert(series(0, 1) == one) by {
        reveal_with_fuel(series, 10);
    }
    assert(0 * series(0, 2) / one == 0);
    assert(to_amplitude(0) == 0);
    assert(to_amplitude(one) == full) by (nonlinear_arith)
        requires
            to_amplitude(one) == (one * full + one / 2) / one,
            one == 1_152_921_504_606_846_976,
            full >= 0,
    ;
    assert(sine_arch(0) == 0);
    assert(sine_arch(QUARTER_CYCLE as int) == full);
}

/// No waveform leaves the range from -1 to +1.
pub proof fn sample_in_range(kind: WaveForm, phase: int)
    ensures
        -(FULL_SCALE as int) <= sample(kind, phase) <= FULL_SCALE,
{
    let p = phase % (CYCLE as int);
    if p < HALF_CYCLE {
        sine_arch_bounds(p);
    } else {
        sine_arch_bounds(p - HALF_CYCLE);
    }
}

/// Integer division that rounds toward zero.
pub open spec fn div_toward_zero(x: int, d: int) -> int {
    if x >= 0 {
        x / d
    } else {
        -((-x) / d)
    }
}

/// The nearest value that a 16-bit sample can hold.
pub open spec fn clip_pcm(x: int) -> int {
    if x > i16::MAX {
        i16::MAX as int
    } else if x < i16::MIN {
        i16::MIN as int
    } else {
        x
    }
}

/// The 16-bit sample for amplitude `amp` played at volume `vol`: the
/// amplitude times the volume times `PCM_MAX`, rounded toward zero and
/// clipped to what a sample can hold.
pub open spec fn quantized(amp: int, vol: int) -> int {
    clip_pcm(div_toward_zero(amp * vol * PCM_MAX, FULL_SCALE * FULL_VOLUME))
}

/// Scales an amplitude by a volume and quantizes it to a 16-bit sample.
pub fn quantize(amp: i64, vol: u32) -> (pcm: i16)
    ensures
        pcm == quantized(amp as int, vol as int),
{
    let negative: bool = amp < 0;
    let magnitude: u128 = if negative {
        (-(amp as i128)) as u128
    } else {
        amp as u128
    };
    assert(magnitude * vol * 32_767 <= 0x8000_0000_0000_0000 * 0xffff_ffff * 32_767)
        by (nonlinear_arith)
        requires
            magnitude <= 0x8000_0000_0000_0000,
            vol <= 0xffff_ffff,
    ;
    let scaled: u128 = magnitude * (vol as u128) * 32_767;
    let q: u128 = scaled / 46_242_201_600_000_000;
    proof {
        let x = amp as int * vol as int * 32_767;
        if negative {
            assert(-x == scaled) by (nonlinear_arith)
                requires
                    x == amp as int * vol as int * 32_767,
                    scaled == (-(amp as int)) * vol as int * 32_767,
            ;
            assert(x <= 0) by (nonlinear_arith)
                requires
                    -x == scaled,
                    scaled >= 0,
            ;
            if x == 0 {
                assert(div_toward_zero(x, 46_242_201_600_000_000) == -(q as int));
            }
        } else {
            assert(x == scaled);
        }
    }
    if negative {
        if q > 32_768 {
            -32_768
        } else {
            -(q as i32) as i16
        }
    } else {
        if q > 32_767 {
            32_767
        } else {
            q as i16
        }
    }
}

/// Computes the amplitude of `waveform` at `phase`.
pub fn generate_sample(waveform: &WaveForm, phase: u64) -> (amp: i64)
    ensures
        amp == sample(*waveform, phase as int),
        -(FULL_SCALE as int) <= amp <= FULL_SCALE,
{
    let p: u64 = phase % CYCLE;
    match waveform {
        WaveForm::Sine => {
            if p < HALF_CYCLE {
                half_sine(p)
            } else {
                -half_sine(p - HALF_CYCLE)
            }
        },
        WaveForm::Square => {
            if p < HALF_CYCLE {
                FULL_SCALE
            } else {
                -FULL_SCALE
            }
        },
        WaveForm::Sawtooth => (2 * (p as i64) - 44_100_000) * STEPS_PER_TICK,
        WaveForm::Triangle => {
            if p < HALF_CYCLE {
                (4 * (p as i64) - 44_100_000) * STEPS_PER_TICK
            } else {
                (132_300_000 - 4 * (p as i64)) * STEPS_PER_TICK
            }
        },
        WaveForm::Rest => 0,
    }
}

/// Sums the series from the divisor `start (start + 1)` on.
fn sum_series(x2: u64, start: u64) -> (t: u64)
    requires
        x2 <= ONE,
        start == 1 || start == 2,
    ensures
        t == series(x2 as int, start as int),
        t <= ONE,
{
    let mut t: u64 = ONE;
    let mut k: u64 = 9;
    while k > 0
        invariant
            k <= 9,
            x2 <= ONE,
            start == 1 || start == 2,
            t <= ONE,
            t == series(x2 as int, start + 2 * k),
        decreases k,
    {
        let m: u64 = start + 2 * (k - 1);
        proof {
            series_bounds(x2 as int, m as int);
            assert(x2 * t <= ONE * ONE) by (nonlinear_arith)
                requires
                    x2 <= ONE,
                    t <= ONE,
            ;
            assert(1 <= m * (m + 1) <= 342) by (nonlinear_arith)
                requires
                    1 <= m <= 18,
            ;
        }
        let product: u128 = (x2 as u128) * (t as u128);
        let term: u128 = (product / (ONE as u128)) / ((m * (m + 1)) as u128);
        t = (ONE as u128 - term) as u64;
        k = k - 1;
    }
    t
}

/// A value in fixed point as an amplitude, to the nearest step.
fn amplitude_of(value: u64) -> (amp: i64)
    requires
        value <= ONE,
    ensures
        amp == to_amplitude(value as int),
        0 <= amp <= FULL_SCALE,
{
    proof {
        to_amplitude_bounds(value as int);
    }
    let scaled: u128 = (value as u128) * (FULL_SCALE as u128) + (ONE as u128) / 2;
    (scaled / (ONE as u128)) as i64
}

/// The sine's arch at `p` ticks into a half period.
fn half_sine(p: u64) -> (amp: i64)
    requires
        p <= HALF_CYCLE,
    ensures
        amp == sine_arch(p as int),
        0 <= amp <= FULL_SCALE,
{
    let q: u64 = if p > QUARTER_CYCLE {
        HALF_CYCLE - p
    } else {
        p
    };
    let ticks: u64 = if q <= EIGHTH_CYCLE {
        q
    } else {
        QUARTER_CYCLE - q
    };
    proof {
        angle_bounds(ticks as int);
        sine_arch_bounds(p as int);
    }
    let theta: u64 = (((TWO_PI as u128) * (ticks as u128)) / (CYCLE as u128)) as u64;
    assert(theta * theta <= ONE * ONE) by (nonlinear_arith)
        requires
            theta <= ONE,
    ;
    let x2: u64 = (((theta as u128) * (theta as u128)) / (ONE as u128)) as u64;
    if q <= EIGHTH_CYCLE {
        let t: u64 = sum_series(x2, 2);
        assert(theta * t <= ONE * ONE) by (nonlinear_arith)
            requires
                theta <= ONE,
                t <= ONE,
        ;
        assert(theta * t / (ONE as int) <= ONE) by (nonlinear_arith)
            requires
                theta * t <= ONE * ONE,
        ;
        amplitude_of((((theta as u128) * (t as u128)) / (ONE as u128)) as u64)
    } else {
        amplitude_of(sum_series(x2, 1))
    }
}

} // verus!
