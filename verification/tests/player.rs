use rs_audio::player::{Action, AudioCommand, Tone, Track, Worker};
use rs_audio::{AudioManager, BPMChoice, Note, Song, WaveForm};

fn song_of(notes: Vec<Note>) -> Song {
    Song::new(notes, BPMChoice::Default)
}

fn describe(commands: &[AudioCommand]) -> Vec<String> {
    commands.iter().map(|c| format!("{:?}", c)).collect()
}

#[test]
fn two_plays_on_a_fresh_manager_return_zero_then_one() {
    let mut manager = AudioManager::new();
    assert_eq!(manager.play(Song::default()), 0);
    assert_eq!(manager.play(Song::default()), 1);
    assert_eq!(manager.next_track_id(), 2);
}

#[test]
fn default_manager_is_a_new_manager() {
    let mut manager = AudioManager::default();
    assert_eq!(manager.next_track_id(), 0);
    assert!(manager.take_pending().is_empty());
}

#[test]
fn commands_are_queued_in_the_order_of_the_calls() {
    let mut manager = AudioManager::new();
    let id = manager.play(Song::default());
    manager.set_volume(id, 500);
    manager.stop(id);
    manager.stop_all();
    let pending = manager.take_pending();
    assert_eq!(
        describe(&pending),
        describe(&[
            AudioCommand::PlayTrack { id: 0, song: Song::default() },
            AudioCommand::SetVolume(0, 500),
            AudioCommand::StopTrack(0),
            AudioCommand::StopAll,
        ])
    );
    assert!(manager.take_pending().is_empty());
    assert_eq!(manager.play(Song::default()), 1);
}

#[test]
fn stop_and_volume_do_not_use_up_ids() {
    let mut manager = AudioManager::new();
    manager.stop(7);
    manager.set_volume(7, 1);
    manager.stop_all();
    assert_eq!(manager.play(Song::default()), 0);
}

#[test]
fn playing_opens_appends_and_registers() {
    let mut worker = Worker::new();
    let song = song_of(vec![
        Note { freq: 440_000, dur: 1_000_000, vol: 200, wave: WaveForm::Sine },
        Note::rest(250_000),
        Note { freq: 220_000, dur: 500_000, vol: 300, wave: WaveForm::Square },
        Note { freq: 100_000, dur: 10, vol: 1_000, wave: WaveForm::Sawtooth },
        Note { freq: 100_000, dur: 20, vol: 0, wave: WaveForm::Triangle },
    ]);
    let actions = worker.handle(&AudioCommand::PlayTrack { id: 3, song });
    assert_eq!(
        actions,
        vec![
            Action::Open { id: 3 },
            Action::Append { id: 3, tone: Tone { freq: 440_000_000, dur: 1_000_000, vol: 200 } },
            Action::Pause { micros: 250_000 },
            Action::Append { id: 3, tone: Tone { freq: 279_400_000, dur: 500_000, vol: 300 } },
            Action::Append { id: 3, tone: Tone { freq: 150_000_000, dur: 10, vol: 1_000 } },
            Action::Append { id: 3, tone: Tone { freq: 116_000_000, dur: 20, vol: 0 } },
            Action::Register { id: 3 },
        ]
    );
    assert_eq!(worker.track(3), Some(Track { id: 3, gain: 1_000 }));
    assert_eq!(worker.len(), 1);
}

#[test]
fn playing_an_empty_song_still_registers_the_track() {
    let mut worker = Worker::new();
    let actions = worker.handle(&AudioCommand::PlayTrack { id: 0, song: song_of(vec![]) });
    assert_eq!(actions, vec![Action::Open { id: 0 }, Action::Register { id: 0 }]);
    assert_eq!(worker.track(0), Some(Track { id: 0, gain: 1_000 }));
}

#[test]
fn stopping_one_track_leaves_the_other() {
    let mut manager = AudioManager::new();
    let a = manager.play(Song::default());
    let b = manager.play(Song::default());
    manager.set_volume(b, 700);
    let mut worker = Worker::new();
    worker.run(&manager.take_pending());
    let before = worker.track(b);
    assert_eq!(before, Some(Track { id: b, gain: 700 }));

    manager.stop(a);
    let actions = worker.run(&manager.take_pending());
    assert_eq!(actions, vec![Action::Halt { id: a }]);
    assert_eq!(worker.track(a), None);
    assert_eq!(worker.track(b), before);
    assert_eq!(worker.len(), 1);
}

#[test]
fn after_stop_all_volume_and_stop_do_nothing() {
    let mut worker = Worker::new();
    worker.handle(&AudioCommand::PlayTrack { id: 0, song: Song::default() });
    worker.handle(&AudioCommand::PlayTrack { id: 1, song: Song::default() });
    assert_eq!(worker.handle(&AudioCommand::StopAll), vec![Action::HaltAll]);
    assert_eq!(worker.len(), 0);
    for id in [0usize, 1, 2, usize::MAX] {
        assert_eq!(worker.handle(&AudioCommand::SetVolume(id, 500)), vec![]);
        assert_eq!(worker.handle(&AudioCommand::StopTrack(id)), vec![]);
        assert_eq!(worker.track(id), None);
    }
    assert_eq!(worker.len(), 0);
    assert_eq!(worker.handle(&AudioCommand::StopAll), vec![Action::HaltAll]);
    assert_eq!(worker.len(), 0);
}

#[test]
fn unknown_track_is_ignored() {
    let mut worker = Worker::new();
    worker.handle(&AudioCommand::PlayTrack { id: 5, song: Song::default() });
    assert_eq!(worker.handle(&AudioCommand::StopTrack(6)), vec![]);
    assert_eq!(worker.handle(&AudioCommand::SetVolume(6, 10)), vec![]);
    assert_eq!(worker.track(5), Some(Track { id: 5, gain: 1_000 }));
    assert_eq!(worker.len(), 1);
}

#[test]
fn volume_is_set_in_place() {
    let mut worker = Worker::new();
    worker.handle(&AudioCommand::PlayTrack { id: 5, song: Song::default() });
    assert_eq!(
        worker.handle(&AudioCommand::SetVolume(5, 2_500)),
        vec![Action::SetGain { id: 5, gain: 2_500 }]
    );
    assert_eq!(worker.track(5), Some(Track { id: 5, gain: 2_500 }));
    assert_eq!(
        worker.handle(&AudioCommand::SetVolume(5, 0)),
        vec![Action::SetGain { id: 5, gain: 0 }]
    );
    assert_eq!(worker.track(5), Some(Track { id: 5, gain: 0 }));
}

#[test]
fn a_finished_track_stays_until_it_is_stopped() {
    let mut worker = Worker::new();
    worker.handle(&AudioCommand::PlayTrack { id: 0, song: song_of(vec![Note::rest(0)]) });
    worker.handle(&AudioCommand::PlayTrack { id: 1, song: Song::default() });
    worker.handle(&AudioCommand::SetVolume(1, 1));
    assert_eq!(worker.len(), 2);
    assert_eq!(worker.handle(&AudioCommand::StopTrack(0)), vec![Action::Halt { id: 0 }]);
    assert_eq!(worker.handle(&AudioCommand::StopTrack(0)), vec![]);
    assert_eq!(worker.len(), 1);
}

#[test]
fn playing_under_a_kept_id_replaces_the_track() {
    let mut worker = Worker::new();
    worker.handle(&AudioCommand::PlayTrack { id: 2, song: Song::default() });
    worker.handle(&AudioCommand::SetVolume(2, 300));
    let actions = worker.handle(&AudioCommand::PlayTrack { id: 2, song: song_of(vec![]) });
    assert_eq!(actions, vec![Action::Open { id: 2 }, Action::Register { id: 2 }]);
    assert_eq!(worker.track(2), Some(Track { id: 2, gain: 1_000 }));
    assert_eq!(worker.len(), 1);
}

#[test]
fn run_handles_commands_first_to_last() {
    let commands = vec![
        AudioCommand::SetVolume(0, 100),
        AudioCommand::PlayTrack { id: 0, song: song_of(vec![Note::rest(5)]) },
        AudioCommand::SetVolume(0, 200),
        AudioCommand::StopTrack(0),
        AudioCommand::SetVolume(0, 300),
    ];
    let mut worker = Worker::new();
    let actions = worker.run(&commands);
    assert_eq!(
        actions,
        vec![
            Action::Open { id: 0 },
            Action::Pause { micros: 5 },
            Action::Register { id: 0 },
            Action::SetGain { id: 0, gain: 200 },
            Action::Halt { id: 0 },
        ]
    );
    assert_eq!(worker.len(), 0);

    let mut one_by_one = Worker::new();
    let mut collected = Vec::new();
    for command in commands.iter() {
        collected.extend(one_by_one.handle(command));
    }
    assert_eq!(collected, actions);
}

#[test]
fn every_kept_track_has_an_id_that_was_given_out() {
    let mut manager = AudioManager::new();
    let mut worker = Worker::new();
    for round in 0..5usize {
        manager.stop(round + 100);
        manager.set_volume(usize::MAX, 1);
        let id = manager.play(Song::default());
        assert_eq!(id, round);
        if round == 3 {
            manager.stop(1);
        }
        worker.run(&manager.take_pending());
        for probe in 0..200usize {
            if worker.track(probe).is_some() {
                assert!(probe < manager.next_track_id());
            }
        }
        assert_eq!(worker.track(usize::MAX), None);
    }
    assert_eq!(worker.len(), 4);
}
