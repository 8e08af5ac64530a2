//! Effects: new songs made from the notes of a song.

use crate::note::Note;
use crate::player::Song;
use vstd::prelude::*;

verus! {

/// A volume scaled by `decay` thousandths, rounded down; what passes the
/// largest volume that can be written stays at that.
pub open spec fn faded(vol: u32, decay: u32) -> u32 {
    if vol * decay / 1000 > u32::MAX {
        u32::MAX
    } else {
        (vol * decay / 1000) as u32
    }
}

/// The echo of a note that is longer than `delay`: the same tone, shorter
/// by the delay and fainter by the decay.
pub open spec fn echo_of(note: Note, delay: u64, decay: u32) -> Note {
    Note { vol: faded(note.vol, decay), dur: (note.dur - delay) as u64, ..note }
}

/// What a note becomes under the echo: itself, and its echo after it if it
/// is longer than the delay.
pub open spec fn with_echo(note: Note, delay: u64, decay: u32) -> Seq<Note> {
    if note.dur > delay {
        seq![note, echo_of(note, delay, decay)]
    } else {
        seq![note]
    }
}

/// The notes with their echoes.
pub open spec fn echoed(notes: Seq<Note>, delay: u64, decay: u32) -> Seq<Note>
    decreases notes.len(),
{
    if notes.len() == 0 {
        Seq::empty()
    } else {
        echoed(notes.drop_last(), delay, decay) + with_echo(notes.last(), delay, decay)
    }
}

/// A duration divided by a speed of `factor` thousandths, rounded down; what
/// passes the longest duration that can be written stays at that.
pub open spec fn hastened(dur: u64, factor: u32) -> u64 {
    if dur * 1000 / (factor as int) > u64::MAX {
        u64::MAX
    } else {
        (dur * 1000 / (factor as int)) as u64
    }
}

/// A song in which every note longer than `delay` microseconds is followed
/// by its echo, `decay` thousandths as loud.
pub fn echo(song: &Song, delay: u64, decay: u32) -> (out: Song)
    ensures
        out.bpm == song.bpm,
        out.notes@ == echoed(song.notes@, delay, decay),
{
    let mut notes: Vec<Note> = Vec::new();
    let mut i: usize = 0;
    assert(song.notes@.take(0) =~= Seq::<Note>::empty());
    while i < song.notes.len()
        invariant
            i <= song.notes.len(),
            notes@ == echoed(song.notes@.take(i as int), delay, decay),
        decreases song.notes.len() - i,
    {
        let note: Note = song.notes[i];
        let ghost before = notes@;
        notes.push(note);
        if note.dur > delay {
            assert(note.vol * decay <= 0xffff_ffff * 0xffff_ffff) by (nonlinear_arith)
                requires
                    note.vol <= 0xffff_ffff,
                    decay <= 0xffff_ffff,
            ;
            let scaled: u64 = (note.vol as u64) * (decay as u64) / 1000;
            let vol: u32 = if scaled > 0xffff_ffff {
                0xffff_ffff
            } else {
                scaled as u32
            };
            notes.push(Note { freq: note.freq, dur: note.dur - delay, vol, wave: note.wave });
        }
        proof {
            assert(song.notes@.take(i + 1).drop_last() =~= song.notes@.take(i as int));
            assert(notes@ =~= before + with_echo(note, delay, decay));
        }
        i = i + 1;
    }
    assert(song.notes@.take(i as int) =~= song.notes@);
    Song { bpm: song.bpm, notes }
}

/// A song with the same notes, last to first.
pub fn reverse(song: &Song) -> (out: Song)
    ensures
        out.bpm == song.bpm,
        out.notes@ == song.notes@.reverse(),
{
    let n: usize = song.notes.len();
    let mut notes: Vec<Note> = Vec::new();
    let mut i: usize = 0;
    while i < n
        invariant
            i <= n,
            n == song.notes@.len(),
            notes@.len() == i,
            forall|k: int| 0 <= k < i ==> notes@[k] == song.notes@[n - 1 - k],
        decreases n - i,
    {
        notes.push(song.notes[n - 1 - i]);
        i = i + 1;
    }
    assert(notes@ =~= song.notes@.reverse());
    Song { bpm: song.bpm, notes }
}

/// A song played `factor` thousandths as fast: every note keeps its tone
/// and lasts its duration divided by the factor. The factor is not zero.
pub fn speed_up(song: &Song, factor: u32) -> (out: Song)
    requires
        factor > 0,
    ensures
        out.bpm == song.bpm,
        out.notes@.len() == song.notes@.len(),
        forall|i: int|
            0 <= i < song.notes@.len() ==> #[trigger] out.notes@[i] == (Note {
                dur: hastened(song.notes@[i].dur, factor),
                ..song.notes@[i]
            }),
{
    let mut notes: Vec<Note> = Vec::new();
    let mut i: usize = 0;
    while i < song.notes.len()
        invariant
            i <= song.notes.len(),
            factor > 0,
            notes@.len() == i,
            forall|k: int|
                0 <= k < i ==> #[trigger] notes@[k] == (Note {
                    dur: hastened(song.notes@[k].dur, factor),
                    ..song.notes@[k]
                }),
        decreases song.notes.len() - i,
    {
        let note: Note = song.notes[i];
        let scaled: u128 = (note.dur as u128) * 1000 / (factor as u128);
        let dur: u64 = if scaled > 0xffff_ffff_ffff_ffff {
            0xffff_ffff_ffff_ffff
        } else {
            scaled as u64
        };
        notes.push(Note { freq: note.freq, dur, vol: note.vol, wave: note.wave });
        i = i + 1;
    }
    Song { bpm: song.bpm, notes }
}

} // verus!
