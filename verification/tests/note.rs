use rs_audio::{BPMChoice, Note, Song, WaveForm};

#[test]
fn default_note_is_a_sine_at_concert_pitch() {
    let note = Note::default();
    assert_eq!(note, Note { freq: 440_000, dur: 3_000_000, vol: 200, wave: WaveForm::Sine });
}

#[test]
fn rest_is_silent_for_its_duration() {
    assert_eq!(Note::rest(2_000_000), Note { freq: 0, dur: 2_000_000, vol: 0, wave: WaveForm::Rest });
    assert_eq!(Note::rest(0).dur, 0);
}

#[test]
fn approximate_sine_scales_the_frequency_by_waveform() {
    let at = |wave| Note { freq: 440_000, dur: 1_000_000, vol: 200, wave }.to_approx_sine();
    assert_eq!(at(WaveForm::Sine), 440_000_000);
    assert_eq!(at(WaveForm::Square), 558_800_000);
    assert_eq!(at(WaveForm::Sawtooth), 660_000_000);
    assert_eq!(at(WaveForm::Triangle), 510_400_000);
    assert_eq!(at(WaveForm::Rest), 0);
}

#[test]
fn approximate_sine_of_the_highest_frequency_fits() {
    let note = Note { freq: u32::MAX, dur: 1, vol: 1, wave: WaveForm::Sawtooth };
    assert_eq!(note.to_approx_sine(), 4_294_967_295u64 * 1_500);
}

#[test]
fn default_song_is_one_default_note_at_the_default_tempo() {
    let song = Song::default();
    assert_eq!(song.bpm, BPMChoice::Default);
    assert_eq!(song.notes, vec![Note::default()]);
}

#[test]
fn new_song_keeps_notes_and_tempo() {
    let notes = vec![
        Note { freq: 880_000, dur: 1_000_000, vol: 200, wave: WaveForm::Sine },
        Note { freq: 220_000, dur: 1_000_000, vol: 200, wave: WaveForm::Square },
        Note { freq: 880_000, dur: 1_000_000, vol: 200, wave: WaveForm::Sine },
        Note { freq: 220_000, dur: 1_000_000, vol: 200, wave: WaveForm::Triangle },
    ];
    let song = Song::new(notes.clone(), BPMChoice::Custom(140));
    assert_eq!(song.notes, notes);
    assert_eq!(song.bpm, BPMChoice::Custom(140));
}
