//! The old player, which plays one song at a time on the caller's own
//! thread. It is kept for the programs that still use it.
//!
//! Before it plays a sine louder than `DEFAULT_VOLUME`, the old player warns
//! and asks how to go on. What it asks once, for which note, and what each
//! answer does to the song, is decided here.

use crate::note::Note;
use crate::player::Tone;
use crate::waveform::WaveForm;
use crate::BPMChoice;
use vstd::prelude::*;

verus! {

/// The volume, in thousandths, above which a sine is warned of, and which a
/// loud note is set to when the default is chosen.
pub const DEFAULT_VOLUME: u32 = 200;

/// A song for the old player.
pub struct BasicSong {
    pub notes: Vec<Note>,
    pub bpm: BPMChoice,
}

/// What was answered to the warning.
#[derive(Debug, Clone, Copy, PartialEq, Eq, Structural)]
pub enum Answer {
    /// Play the note as loud as it is.
    Continue,
    /// Do not play; leave the program.
    Abort,
    /// Play the note at `DEFAULT_VOLUME`.
    UseDefault,
    /// None of the answers that are offered.
    Invalid,
}

/// How a call of `BasicSong::play` ends.
#[derive(Debug)]
pub enum Playback {
    /// The song is played to its end: these are the tones that follow the
    /// opening, first to last.
    Played { tones: Vec<Tone> },
    /// Nothing more is played, and the program ends with this code.
    Exit { code: i32 },
}

/// Whether a character is white space, as Unicode lists it.
pub open spec fn is_whitespace(c: char) -> bool {
    let u = c as u32;
    ||| 0x09 <= u <= 0x0d
    ||| u == 0x20
    ||| u == 0x85
    ||| u == 0xa0
    ||| u == 0x1680
    ||| 0x2000 <= u <= 0x200a
    ||| u == 0x2028
    ||| u == 0x2029
    ||| u == 0x202f
    ||| u == 0x205f
    ||| u == 0x3000
}

/// Where the first character at or after `from` stands that is no white
/// space; the length of the text if there is none.
pub open spec fn first_mark(text: Seq<char>, from: int) -> int
    decreases text.len() - from,
{
    if from < 0 || from >= text.len() {
        text.len() as int
    } else if !is_whitespace(text[from]) {
        from
    } else {
        first_mark(text, from + 1)
    }
}

/// How a line of input answers the warning. White space around it does not
/// count, and only its first letter does: `c` continues, `a` aborts, `d`
/// chooses the default, and so does a line with nothing on it.
pub open spec fn answer_to(text: Seq<char>) -> Answer {
    let at = first_mark(text, 0);
    if at >= text.len() {
        Answer::UseDefault
    } else if text[at] == 'c' {
        Answer::Continue
    } else if text[at] == 'a' {
        Answer::Abort
    } else if text[at] == 'd' {
        Answer::UseDefault
    } else {
        Answer::Invalid
    }
}

/// Whether a note is warned of: a sine above the default volume.
pub open spec fn is_loud_sine(note: Note) -> bool {
    note.vol > DEFAULT_VOLUME && note.wave is Sine
}

/// Where the first loud sine at or after `from` stands; the number of notes
/// if there is none.
pub open spec fn first_loud(notes: Seq<Note>, from: int) -> int
    decreases notes.len() - from,
{
    if from < 0 || from >= notes.len() {
        notes.len() as int
    } else if is_loud_sine(notes[from]) {
        from
    } else {
        first_loud(notes, from + 1)
    }
}

/// The tone that the old player plays for a note: the sine that stands in
/// for it. A rest is played as a sine that does not move.
pub open spec fn legacy_tone(note: Note) -> Tone {
    Tone { freq: note.approx_sine() as u64, dur: note.dur, vol: note.vol }
}

/// The tones of a run of notes.
pub open spec fn legacy_tones(notes: Seq<Note>) -> Seq<Tone> {
    Seq::new(notes.len(), |i: int| legacy_tone(notes[i]))
}

/// The notes once the warning is answered: the first loud sine is set to
/// the default volume if that was the answer, and nothing else changes.
pub open spec fn notes_after_answer(notes: Seq<Note>, answer: Answer) -> Seq<Note> {
    let at = first_loud(notes, 0);
    if at < notes.len() && answer == Answer::UseDefault {
        notes.update(at, Note { vol: DEFAULT_VOLUME, ..notes[at] })
    } else {
        notes
    }
}

/// The code with which the program ends, if the answer ends it: 0 when the
/// warning was answered with abort, 1 when the answer was none of those
/// offered. Without a loud sine nothing is asked and no answer counts.
pub open spec fn exit_code_of(notes: Seq<Note>, answer: Answer) -> Option<i32> {
    if first_loud(notes, 0) >= notes.len() {
        None
    } else if answer == Answer::Abort {
        Some(0i32)
    } else if answer == Answer::Invalid {
        Some(1i32)
    } else {
        None
    }
}

/// `first_loud` finds the first loud sine: no note before it is one, and
/// the note there is one unless the notes have run out.
pub proof fn first_loud_is_first(notes: Seq<Note>, from: int)
    requires
        0 <= from <= notes.len(),
    ensures
        from <= first_loud(notes, from) <= notes.len(),
        first_loud(notes, from) < notes.len() ==> is_loud_sine(notes[first_loud(notes, from)]),
        forall|k: int| from <= k < first_loud(notes, from) ==> !is_loud_sine(#[trigger] notes[k]),
    decreases notes.len() - from,
{
    if from < notes.len() && !is_loud_sine(notes[from]) {
        first_loud_is_first(notes, from + 1);
    }
}

/// Tells white space from other characters.
pub fn char_is_whitespace(c: char) -> (yes: bool)
    ensures
        yes == is_whitespace(c),
{
    let u: u32 = c as u32;
    (0x09 <= u && u <= 0x0d) || u == 0x20 || u == 0x85 || u == 0xa0 || u == 0x1680 || (0x2000 <= u
        && u <= 0x200a) || u == 0x2028 || u == 0x2029 || u == 0x202f || u == 0x205f || u == 0x3000
}

/// Reads the answer to the warning from a line of input.
pub fn read_answer(input: &str) -> (answer: Answer)
    ensures
        answer == answer_to(input@),
{
    let n: usize = input.unicode_len();
    let mut at: usize = 0;
    while at < n && char_is_whitespace(input.get_char(at))
        invariant
            at <= n,
            n == input@.len(),
            first_mark(input@, 0) == first_mark(input@, at as int),
        decreases n - at,
    {
        at = at + 1;
    }
    if at >= n {
        return Answer::UseDefault;
    }
    let letter: char = input.get_char(at);
    if letter == 'c' {
        Answer::Continue
    } else if letter == 'a' {
        Answer::Abort
    } else if letter == 'd' {
        Answer::UseDefault
    } else {
        Answer::Invalid
    }
}

impl Default for BasicSong {
    /// One default note at the default tempo.
    fn default() -> (song: BasicSong)
        ensures
            song.bpm == BPMChoice::Default,
            song.notes@ == seq![
                (Note { freq: 440_000, dur: 3_000_000, vol: 200, wave: WaveForm::Sine }),
            ],
    {
        let mut notes: Vec<Note> = Vec::new();
        notes.push(Note::default());
        BasicSong { notes, bpm: BPMChoice::Default }
    }
}

impl BasicSong {
    /// A song of `notes` at the tempo `bpm`.
    pub fn new(notes: Vec<Note>, bpm: BPMChoice) -> (song: BasicSong)
        ensures
            song.notes == notes,
            song.bpm == bpm,
    {
        BasicSong { notes, bpm }
    }

    /// The note that is warned of before the song plays: the first sine
    /// above the default volume, if the song has one.
    pub fn warned_note(&self) -> (found: Option<usize>)
        ensures
            match found {
                Some(at) => at == first_loud(self.notes@, 0) && at < self.notes@.len(),
                None => first_loud(self.notes@, 0) == self.notes@.len(),
            },
    {
        let mut at: usize = 0;
        while at < self.notes.len()
            invariant
                at <= self.notes.len(),
                first_loud(self.notes@, 0) == first_loud(self.notes@, at as int),
            decreases self.notes.len() - at,
        {
            let note: Note = self.notes[at];
            let is_sine: bool = match note.wave {
                WaveForm::Sine => true,
                _ => false,
            };
            if note.vol > DEFAULT_VOLUME && is_sine {
                return Some(at);
            }
            at = at + 1;
        }
        None
    }

    /// The tones of the notes from `from` up to `to`.
    fn tones_between(&self, from: usize, to: usize) -> (tones: Vec<Tone>)
        requires
            from <= to <= self.notes@.len(),
        ensures
            tones@ == legacy_tones(self.notes@).subrange(from as int, to as int),
    {
        let mut tones: Vec<Tone> = Vec::new();
        let mut i: usize = from;
        while i < to
            invariant
                from <= i <= to,
                to <= self.notes@.len(),
                tones@ == legacy_tones(self.notes@).subrange(from as int, i as int),
            decreases to - i,
        {
            let note: Note = self.notes[i];
            tones.push(Tone { freq: note.to_approx_sine(), dur: note.dur, vol: note.vol });
            i = i + 1;
            assert(tones@ =~= legacy_tones(self.notes@).subrange(from as int, i as int));
        }
        tones
    }

    /// The tones of the song as it stands.
    pub fn tones(&self) -> (tones: Vec<Tone>)
        ensures
            tones@ == legacy_tones(self.notes@),
    {
        let tones: Vec<Tone> = self.tones_between(0, self.notes.len());
        assert(tones@ =~= legacy_tones(self.notes@));
        tones
    }

    /// The tones that are played before anything is asked: those of the
    /// notes before the note that is warned of, and of all the notes if
    /// none is.
    pub fn opening(&self) -> (tones: Vec<Tone>)
        ensures
            tones@ == legacy_tones(self.notes@).take(first_loud(self.notes@, 0)),
    {
        let until: usize = match self.warned_note() {
            Some(at) => at,
            None => self.notes.len(),
        };
        self.tones_between(0, until)
    }

    /// Plays the rest of the song, from the note that is warned of, given
    /// what was answered to the warning; `opening` has the tones before it.
    /// A song without such a note has no rest, and no answer counts. The
    /// default volume, where it is chosen, is written into the song.
    pub fn play(&mut self, answer: Answer) -> (outcome: Playback)
        ensures
            final(self).bpm == old(self).bpm,
            final(self).notes@ == notes_after_answer(old(self).notes@, answer),
            match outcome {
                Playback::Played { tones } => {
                    &&& exit_code_of(old(self).notes@, answer) is None
                    &&& tones@ == legacy_tones(final(self).notes@).skip(
                        first_loud(old(self).notes@, 0),
                    )
                },
                Playback::Exit { code } => exit_code_of(old(self).notes@, answer) == Some(code),
            },
    {
        let from: usize = match self.warned_note() {
            None => self.notes.len(),
            Some(at) => {
                match answer {
                    Answer::Continue => {},
                    Answer::Abort => {
                        return Playback::Exit { code: 0 };
                    },
                    Answer::UseDefault => {
                        let loud: Note = self.notes[at];
                        self.notes.set(
                            at,
                            Note { freq: loud.freq, dur: loud.dur, vol: DEFAULT_VOLUME, wave: loud.wave },
                        );
                    },
                    Answer::Invalid => {
                        return Playback::Exit { code: 1 };
                    },
                }
                at
            },
        };
        Playback::Played { tones: self.tones_between(from, self.notes.len()) }
    }
}

} // verus!
