use rs_audio::legacyplayer::{char_is_whitespace, read_answer, Answer, Playback, DEFAULT_VOLUME};
use rs_audio::player::Tone;
use rs_audio::{BPMChoice, BasicSong, Note, WaveForm};

fn sine(vol: u32) -> Note {
    Note { freq: 440_000, dur: 1_000_000, vol, wave: WaveForm::Sine }
}

fn square(vol: u32) -> Note {
    Note { freq: 440_000, dur: 1_000_000, vol, wave: WaveForm::Square }
}

fn tone_of(note: &Note) -> Tone {
    Tone { freq: note.to_approx_sine(), dur: note.dur, vol: note.vol }
}

fn played(outcome: Playback) -> Vec<Tone> {
    match outcome {
        Playback::Played { tones } => tones,
        Playback::Exit { code } => panic!("exit {}", code),
    }
}

fn exit_code(outcome: Playback) -> i32 {
    match outcome {
        Playback::Exit { code } => code,
        Playback::Played { .. } => panic!("played"),
    }
}

#[test]
fn white_space_is_what_std_calls_white_space() {
    for code in 0u32..=0x10ffff {
        if let Some(c) = char::from_u32(code) {
            assert_eq!(char_is_whitespace(c), c.is_whitespace(), "U+{:04X}", code);
        }
    }
}

#[test]
fn answers_are_read_from_the_first_letter() {
    assert_eq!(read_answer("c"), Answer::Continue);
    assert_eq!(read_answer("continue\n"), Answer::Continue);
    assert_eq!(read_answer("  \t c \r\n"), Answer::Continue);
    assert_eq!(read_answer("a\n"), Answer::Abort);
    assert_eq!(read_answer("abort"), Answer::Abort);
    assert_eq!(read_answer("d\n"), Answer::UseDefault);
    assert_eq!(read_answer("\u{2003}default"), Answer::UseDefault);
}

#[test]
fn an_empty_line_chooses_the_default() {
    assert_eq!(read_answer(""), Answer::UseDefault);
    assert_eq!(read_answer("\n"), Answer::UseDefault);
    assert_eq!(read_answer(" \t \u{a0}\r\n"), Answer::UseDefault);
}

#[test]
fn anything_else_is_invalid() {
    assert_eq!(read_answer("x"), Answer::Invalid);
    assert_eq!(read_answer("C"), Answer::Invalid);
    assert_eq!(read_answer(" yes\n"), Answer::Invalid);
    assert_eq!(read_answer("1"), Answer::Invalid);
    assert_eq!(read_answer("\u{e9}c"), Answer::Invalid);
}

#[test]
fn the_first_loud_sine_is_warned_of() {
    let song = BasicSong::new(
        vec![sine(200), square(900), sine(201), sine(900)],
        BPMChoice::Default,
    );
    assert_eq!(song.warned_note(), Some(2));
    assert_eq!(BasicSong::default().warned_note(), None);
    assert_eq!(BasicSong::new(vec![], BPMChoice::Default).warned_note(), None);
    assert_eq!(BasicSong::new(vec![square(1_000)], BPMChoice::Default).warned_note(), None);
    assert_eq!(DEFAULT_VOLUME, 200);
}

#[test]
fn a_quiet_song_plays_whatever_is_answered() {
    for answer in [Answer::Continue, Answer::Abort, Answer::UseDefault, Answer::Invalid] {
        let mut song = BasicSong::default();
        assert_eq!(song.opening(), vec![Tone { freq: 440_000_000, dur: 3_000_000, vol: 200 }]);
        assert_eq!(played(song.play(answer)), vec![]);
        assert_eq!(song.notes, vec![Note::default()]);
    }
}

#[test]
fn the_opening_ends_before_the_note_that_is_warned_of() {
    let notes = vec![square(500), sine(100), sine(800), sine(900)];
    let song = BasicSong::new(notes.clone(), BPMChoice::Default);
    assert_eq!(song.opening(), vec![tone_of(&notes[0]), tone_of(&notes[1])]);
    let song = BasicSong::new(vec![sine(201), square(1)], BPMChoice::Default);
    assert_eq!(song.opening(), vec![]);
    assert_eq!(BasicSong::new(vec![], BPMChoice::Default).opening(), vec![]);
}

#[test]
fn continue_plays_the_song_as_it_is() {
    let notes = vec![square(500), sine(800), Note::rest(100), sine(900)];
    let mut song = BasicSong::new(notes.clone(), BPMChoice::Custom(90));
    let opening = song.opening();
    let tones = played(song.play(Answer::Continue));
    assert_eq!(opening, vec![tone_of(&notes[0])]);
    assert_eq!(tones, notes[1..].iter().map(tone_of).collect::<Vec<_>>());
    assert_eq!(tones[1], Tone { freq: 0, dur: 100, vol: 0 });
    assert_eq!(song.notes, notes);
    assert_eq!(song.bpm, BPMChoice::Custom(90));
    assert_eq!(song.tones(), notes.iter().map(tone_of).collect::<Vec<_>>());
}

#[test]
fn default_quiets_only_the_first_loud_sine() {
    let mut song = BasicSong::new(vec![square(500), sine(800), sine(900)], BPMChoice::Default);
    let opening = song.opening();
    let tones = played(song.play(Answer::UseDefault));
    assert_eq!(song.notes, vec![square(500), sine(200), sine(900)]);
    assert_eq!(opening, vec![tone_of(&square(500))]);
    assert_eq!(tones, vec![tone_of(&sine(200)), tone_of(&sine(900))]);
    assert_eq!(song.tones(), [opening, tones].concat());
}

#[test]
fn abort_exits_with_zero_and_invalid_with_one() {
    let notes = vec![sine(201)];
    let mut song = BasicSong::new(notes.clone(), BPMChoice::Default);
    assert_eq!(exit_code(song.play(Answer::Abort)), 0);
    assert_eq!(song.notes, notes);
    assert_eq!(exit_code(song.play(Answer::Invalid)), 1);
    assert_eq!(song.notes, notes);
}
