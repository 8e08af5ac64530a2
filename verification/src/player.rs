//! Songs, and the manager of the tracks that play them.

use crate::note::Note;
use crate::waveform::{WaveForm, FULL_VOLUME};
use crate::BPMChoice;
use std::collections::HashMap;
use vstd::prelude::*;

verus! {

/// A song: notes played one after another, and a tempo that is carried
/// along with them.
#[derive(Debug, Clone)]
pub struct Song {
    pub bpm: BPMChoice,
    pub notes: Vec<Note>,
}

impl Song {
    /// A song of `notes` at the tempo `bpm`.
    pub fn new(notes: Vec<Note>, bpm: BPMChoice) -> (song: Song)
        ensures
            song.notes == notes,
            song.bpm == bpm,
    {
        Song { bpm, notes }
    }
}

impl Default for Song {
    /// One default note at the default tempo.
    fn default() -> (song: Song)
        ensures
            song.bpm == BPMChoice::Default,
            song.notes@ == seq![
                (Note { freq: 440_000, dur: 3_000_000, vol: 200, wave: WaveForm::Sine }),
            ],
    {
        let mut notes: Vec<Note> = Vec::new();
        notes.push(Note::default());
        Song { bpm: BPMChoice::Default, notes }
    }
}

/// What a caller asks of the worker that owns the output device.
#[derive(Debug, Clone)]
pub enum AudioCommand {
    /// Play `song` as the track `id`.
    PlayTrack { id: usize, song: Song },
    /// Stop the track of that id.
    StopTrack(usize),
    /// Set the gain of the track of that id, in thousandths.
    SetVolume(usize, u32),
    /// Stop every track.
    StopAll,
}

/// A sine tone as the output device plays it.
#[derive(Debug, Clone, Copy, PartialEq, Eq, Structural)]
pub struct Tone {
    /// Frequency, in microhertz.
    pub freq: u64,
    /// Duration, in microseconds.
    pub dur: u64,
    /// Volume, in thousandths of full amplitude.
    pub vol: u32,
}

/// One thing that the worker does with the output device. The worker goes
/// through the actions of a command in order, and finishes them before it
/// takes the next command.
#[derive(Debug, Clone, Copy, PartialEq, Eq, Structural)]
pub enum Action {
    /// Allocate a fresh output resource for the track `id`.
    Open { id: usize },
    /// Append `tone` to the resource that was opened for `id`.
    Append { id: usize, tone: Tone },
    /// Sleep. Nothing else is done meanwhile, for any track.
    Pause { micros: u64 },
    /// Keep the opened resource under `id`, in place of any that was kept
    /// under that id before.
    Register { id: usize },
    /// Halt the resource kept under `id` and let go of it.
    Halt { id: usize },
    /// Set the gain of the resource kept under `id`.
    SetGain { id: usize, gain: u32 },
    /// Halt every resource that is kept and let go of them all.
    HaltAll,
}

/// A track that the worker keeps.
#[derive(Debug, Clone, Copy, PartialEq, Eq, Structural)]
pub struct Track {
    /// The id under which it is kept.
    pub id: usize,
    /// Its gain, in thousandths.
    pub gain: u32,
}

/// What the worker does for one note of a track: it sleeps through a rest,
/// and appends to the track the sine that stands in for any other note.
pub open spec fn note_action(id: usize, note: Note) -> Action {
    if note.wave is Rest {
        Action::Pause { micros: note.dur }
    } else {
        Action::Append {
            id,
            tone: Tone { freq: note.approx_sine() as u64, dur: note.dur, vol: note.vol },
        }
    }
}

/// What the worker does to play `notes` as the track `id`.
pub open spec fn play_actions(id: usize, notes: Seq<Note>) -> Seq<Action> {
    seq![Action::Open { id }] + Seq::new(notes.len(), |i: int| note_action(id, notes[i]))
        + seq![Action::Register { id }]
}

/// The tracks that are kept once `command` is handled.
pub open spec fn tracks_after(tracks: Map<usize, Track>, command: AudioCommand) -> Map<
    usize,
    Track,
> {
    match command {
        AudioCommand::PlayTrack { id, song } => tracks.insert(
            id,
            Track { id, gain: FULL_VOLUME },
        ),
        AudioCommand::StopTrack(id) => tracks.remove(id),
        AudioCommand::SetVolume(id, gain) => if tracks.contains_key(id) {
            tracks.insert(id, Track { id: tracks[id].id, gain })
        } else {
            tracks
        },
        AudioCommand::StopAll => Map::empty(),
    }
}

/// What the worker does to handle `command` while it keeps `tracks`.
pub open spec fn actions_for(tracks: Map<usize, Track>, command: AudioCommand) -> Seq<Action> {
    match command {
        AudioCommand::PlayTrack { id, song } => play_actions(id, song.notes@),
        AudioCommand::StopTrack(id) => if tracks.contains_key(id) {
            seq![Action::Halt { id }]
        } else {
            Seq::empty()
        },
        AudioCommand::SetVolume(id, gain) => if tracks.contains_key(id) {
            seq![Action::SetGain { id, gain }]
        } else {
            Seq::empty()
        },
        AudioCommand::StopAll => seq![Action::HaltAll],
    }
}

/// The tracks that are kept once `commands` are handled, first to last.
pub open spec fn tracks_after_all(tracks: Map<usize, Track>, commands: Seq<AudioCommand>) -> Map<
    usize,
    Track,
>
    decreases commands.len(),
{
    if commands.len() == 0 {
        tracks
    } else {
        tracks_after(tracks_after_all(tracks, commands.drop_last()), commands.last())
    }
}

/// What the worker does to handle `commands`, first to last.
pub open spec fn actions_for_all(tracks: Map<usize, Track>, commands: Seq<AudioCommand>) -> Seq<
    Action,
>
    decreases commands.len(),
{
    if commands.len() == 0 {
        Seq::empty()
    } else {
        actions_for_all(tracks, commands.drop_last()) + actions_for(
            tracks_after_all(tracks, commands.drop_last()),
            commands.last(),
        )
    }
}

/// Whether every track that `commands` play has an id below `bound`.
pub open spec fn ids_below(commands: Seq<AudioCommand>, bound: int) -> bool {
    forall|i: int|
        0 <= i < commands.len() ==> (#[trigger] commands[i] matches AudioCommand::PlayTrack {
            id,
            ..
        } ==> id < bound)
}

/// The decisions of the worker: which tracks it keeps, and what it does
/// with the output device for each command.
pub struct Worker {
    tracks: HashMap<usize, Track>,
}

impl Worker {
    /// Every track is kept under its own id.
    #[verifier::type_invariant]
    spec fn keyed_by_id(self) -> bool {
        forall|id: usize| #[trigger]
            self.tracks@.contains_key(id) ==> self.tracks@[id].id == id
    }

    /// The tracks that are kept, by id.
    pub closed spec fn view(&self) -> Map<usize, Track> {
        self.tracks@
    }

    /// A worker that keeps no track.
    pub fn new() -> (worker: Worker)
        ensures
            worker@ == Map::<usize, Track>::empty(),
    {
        Worker { tracks: HashMap::new() }
    }

    /// The track kept under `id`, if there is one.
    pub fn track(&self, id: usize) -> (found: Option<Track>)
        ensures
            found == if self@.contains_key(id) {
                Some(self@[id])
            } else {
                None
            },
            found matches Some(track) ==> track.id == id,
    {
        proof {
            use_type_invariant(self);
        }
        match self.tracks.get(&id) {
            Some(track) => Some(*track),
            None => None,
        }
    }

    /// How many tracks are kept.
    pub fn len(&self) -> (n: usize)
        ensures
            n == self@.len(),
    {
        self.tracks.len()
    }

    /// Takes the tracks out of the worker, which keeps none meanwhile.
    fn take_tracks(&mut self) -> (tracks: HashMap<usize, Track>)
        ensures
            tracks@ == old(self)@,
            final(self)@ == Map::<usize, Track>::empty(),
            forall|id: usize| #[trigger] tracks@.contains_key(id) ==> tracks@[id].id == id,
    {
        proof {
            use_type_invariant(&*self);
        }
        let mut tracks: HashMap<usize, Track> = HashMap::new();
        std::mem::swap(&mut self.tracks, &mut tracks);
        tracks
    }

    /// Handles one command: updates the tracks that are kept, and returns
    /// what is to be done with the output device, in order.
    pub fn handle(&mut self, command: &AudioCommand) -> (actions: Vec<Action>)
        ensures
            final(self)@ == tracks_after(old(self)@, *command),
            actions@ == actions_for(old(self)@, *command),
    {
        let mut tracks: HashMap<usize, Track> = self.take_tracks();
        let mut actions: Vec<Action> = Vec::new();
        match command {
            AudioCommand::PlayTrack { id, song } => {
                let id: usize = *id;
                actions.push(Action::Open { id });
                let mut i: usize = 0;
                while i < song.notes.len()
                    invariant
                        i <= song.notes.len(),
                        actions@ == seq![Action::Open { id }] + Seq::new(
                            i as nat,
                            |k: int| note_action(id, song.notes@[k]),
                        ),
                    decreases song.notes.len() - i,
                {
                    let note: Note = song.notes[i];
                    let action: Action = match note.wave {
                        WaveForm::Rest => Action::Pause { micros: note.dur },
                        _ => Action::Append {
                            id,
                            tone: Tone {
                                freq: note.to_approx_sine(),
                                dur: note.dur,
                                vol: note.vol,
                            },
                        },
                    };
                    actions.push(action);
                    i = i + 1;
                    assert(actions@ =~= seq![Action::Open { id }] + Seq::new(
                        i as nat,
                        |k: int| note_action(id, song.notes@[k]),
                    ));
                }
                actions.push(Action::Register { id });
                tracks.insert(id, Track { id, gain: FULL_VOLUME });
                assert(actions@ =~= play_actions(id, song.notes@));
            },
            AudioCommand::StopTrack(id) => {
                let id: usize = *id;
                if tracks.remove(&id).is_some() {
                    actions.push(Action::Halt { id });
                    assert(actions@ =~= seq![Action::Halt { id }]);
                }
            },
            AudioCommand::SetVolume(id, gain) => {
                let id: usize = *id;
                let gain: u32 = *gain;
                if tracks.contains_key(&id) {
                    tracks.insert(id, Track { id, gain });
                    actions.push(Action::SetGain { id, gain });
                    assert(actions@ =~= seq![Action::SetGain { id, gain }]);
                }
            },
            AudioCommand::StopAll => {
                tracks.clear();
                actions.push(Action::HaltAll);
                assert(actions@ =~= seq![Action::HaltAll]);
            },
        }
        self.tracks = tracks;
        actions
    }

    /// Handles `commands` in the order in which they were sent, each one
    /// to its end before the next, and returns all that is to be done with
    /// the output device.
    pub fn run(&mut self, commands: &Vec<AudioCommand>) -> (actions: Vec<Action>)
        ensures
            final(self)@ == tracks_after_all(old(self)@, commands@),
            actions@ == actions_for_all(old(self)@, commands@),
    {
        let ghost before = self@;
        let mut actions: Vec<Action> = Vec::new();
        let mut i: usize = 0;
        assert(commands@.take(0) =~= Seq::<AudioCommand>::empty());
        while i < commands.len()
            invariant
                i <= commands.len(),
                self@ == tracks_after_all(before, commands@.take(i as int)),
                actions@ == actions_for_all(before, commands@.take(i as int)),
            decreases commands.len() - i,
        {
            let mut step: Vec<Action> = self.handle(&commands[i]);
            actions.append(&mut step);
            proof {
                assert(commands@.take(i + 1).drop_last() =~= commands@.take(i as int));
            }
            i = i + 1;
        }
        assert(commands@.take(i as int) =~= commands@);
        actions
    }
}

/// The caller's handle on the worker: it gives out track ids and queues the
/// commands, in the order of the calls, until they are taken to the worker.
/// No call waits for the worker.
pub struct AudioManager {
    next_track_id: usize,
    pending: Vec<AudioCommand>,
}

impl AudioManager {
    /// Every track that a queued command plays has an id that was given
    /// out.
    #[verifier::type_invariant]
    spec fn queued_ids_were_given(self) -> bool {
        ids_below(self.pending@, self.next_track_id as int)
    }

    /// The id that the next track gets. The ids below it are those that
    /// were given out.
    pub closed spec fn next_id(&self) -> usize {
        self.next_track_id
    }

    /// The commands that wait to be taken to the worker, oldest first.
    pub closed spec fn pending(&self) -> Seq<AudioCommand> {
        self.pending@
    }

    /// A manager that has given out no id and queued no command.
    pub fn new() -> (manager: AudioManager)
        ensures
            manager.next_id() == 0,
            manager.pending() == Seq::<AudioCommand>::empty(),
    {
        AudioManager { next_track_id: 0, pending: Vec::new() }
    }

    /// The id that the next call of `play` returns.
    pub fn next_track_id(&self) -> (id: usize)
        ensures
            id == self.next_id(),
    {
        self.next_track_id
    }

    /// Takes the queue out of the manager, which has none meanwhile.
    fn take_queue(&mut self) -> (commands: Vec<AudioCommand>)
        ensures
            commands@ == old(self).pending(),
            final(self).pending() == Seq::<AudioCommand>::empty(),
            final(self).next_id() == old(self).next_id(),
            ids_below(commands@, old(self).next_id() as int),
    {
        proof {
            use_type_invariant(&*self);
        }
        let mut commands: Vec<AudioCommand> = Vec::new();
        std::mem::swap(&mut self.pending, &mut commands);
        commands
    }

    /// Queues a command that plays no track.
    fn queue(&mut self, command: AudioCommand)
        requires
            !(command is PlayTrack),
        ensures
            final(self).next_id() == old(self).next_id(),
            final(self).pending() == old(self).pending().push(command),
            ids_below(final(self).pending(), final(self).next_id() as int),
    {
        let mut commands: Vec<AudioCommand> = self.take_queue();
        commands.push(command);
        self.pending = commands;
    }

    /// What `play` does: `self` is the manager after `before` has queued
    /// `song` as the track `track_id`.
    pub open spec fn has_played(
        self,
        before: AudioManager,
        song: Song,
        track_id: usize,
    ) -> bool {
        &&& track_id == before.next_id()
        &&& self.next_id() == track_id + 1
        &&& self.pending() == before.pending().push(
            AudioCommand::PlayTrack { id: track_id, song },
        )
    }

    /// Queues `song` to be played as a new track and returns the id of the
    /// track at once. Ids count up from zero, so that none is given twice.
    /// The last id that there is, `usize::MAX`, is never given out.
    pub fn play(&mut self, song: Song) -> (track_id: usize)
        requires
            old(self).next_id() < usize::MAX,
        ensures
            final(self).has_played(*old(self), song, track_id),
            ids_below(final(self).pending(), final(self).next_id() as int),
    {
        let track_id: usize = self.next_track_id;
        let mut commands: Vec<AudioCommand> = self.take_queue();
        commands.push(AudioCommand::PlayTrack { id: track_id, song });
        self.next_track_id = track_id + 1;
        self.pending = commands;
        track_id
    }

    /// Queues the stop of one track.
    pub fn stop(&mut self, track_id: usize)
        ensures
            final(self).next_id() == old(self).next_id(),
            final(self).pending() == old(self).pending().push(AudioCommand::StopTrack(track_id)),
            ids_below(final(self).pending(), final(self).next_id() as int),
    {
        self.queue(AudioCommand::StopTrack(track_id));
    }

    /// Queues a new gain, in thousandths, for one track.
    pub fn set_volume(&mut self, track_id: usize, volume: u32)
        ensures
            final(self).next_id() == old(self).next_id(),
            final(self).pending() == old(self).pending().push(
                AudioCommand::SetVolume(track_id, volume),
            ),
            ids_below(final(self).pending(), final(self).next_id() as int),
    {
        self.queue(AudioCommand::SetVolume(track_id, volume));
    }

    /// Queues the stop of every track.
    pub fn stop_all(&mut self)
        ensures
            final(self).next_id() == old(self).next_id(),
            final(self).pending() == old(self).pending().push(AudioCommand::StopAll),
            ids_below(final(self).pending(), final(self).next_id() as int),
    {
        self.queue(AudioCommand::StopAll);
    }

    /// Takes the queued commands, oldest first, to be sent to the worker.
    /// Every track that they play has an id that was given out.
    pub fn take_pending(&mut self) -> (commands: Vec<AudioCommand>)
        ensures
            commands@ == old(self).pending(),
            final(self).pending() == Seq::<AudioCommand>::empty(),
            final(self).next_id() == old(self).next_id(),
            ids_below(commands@, old(self).next_id() as int),
    {
        self.take_queue()
    }
}

impl Default for AudioManager {
    /// The same as `AudioManager::new`.
    fn default() -> (manager: AudioManager)
        ensures
            manager.next_id() == 0,
            manager.pending() == Seq::<AudioCommand>::empty(),
    {
        AudioManager::new()
    }
}

/// Tracks do not disturb each other: to stop one track changes no other
/// track that is kept, and nothing is done with the device but to halt the
/// one that was stopped.
pub proof fn stop_spares_other_tracks(tracks: Map<usize, Track>, stopped: usize, other: usize)
    requires
        stopped != other,
    ensures
        tracks_after(tracks, AudioCommand::StopTrack(stopped)).contains_key(other)
            == tracks.contains_key(other),
        tracks.contains_key(other) ==> tracks_after(tracks, AudioCommand::StopTrack(stopped))[other]
            == tracks[other],
        actions_for(tracks, AudioCommand::StopTrack(stopped)) == if tracks.contains_key(stopped) {
            seq![Action::Halt { id: stopped }]
        } else {
            Seq::<Action>::empty()
        },
{
}

/// No id is given twice: of two calls of `play` on one manager, with any
/// other calls between them that give out no id, the later returns the
/// greater id.
pub proof fn ids_count_up(
    start: AudioManager,
    earlier: AudioManager,
    between: AudioManager,
    later: AudioManager,
    earlier_song: Song,
    later_song: Song,
    earlier_id: usize,
    later_id: usize,
)
    requires
        earlier.has_played(start, earlier_song, earlier_id),
        between.next_id() == earlier.next_id(),
        later.has_played(between, later_song, later_id),
    ensures
        earlier_id < later_id,
{
}

/// Two songs played one after the other on a manager with nothing queued
/// are two tracks of a worker that takes the queue, whatever it kept
/// before. When the first is then stopped, the second is kept as it was
/// and nothing is done with the device but to halt the first.
pub proof fn played_tracks_are_isolated(
    tracks: Map<usize, Track>,
    start: AudioManager,
    once: AudioManager,
    twice: AudioManager,
    first_song: Song,
    second_song: Song,
    first: usize,
    second: usize,
)
    requires
        start.pending() == Seq::<AudioCommand>::empty(),
        once.has_played(start, first_song, first),
        twice.has_played(once, second_song, second),
    ensures
        first != second,
        ({
            let playing = tracks_after_all(tracks, twice.pending());
            let stop = AudioCommand::StopTrack(first);
            &&& playing.contains_key(first)
            &&& playing.contains_key(second)
            &&& !tracks_after(playing, stop).contains_key(first)
            &&& tracks_after(playing, stop).contains_key(second)
            &&& tracks_after(playing, stop)[second] == playing[second]
            &&& actions_for(playing, stop) == seq![Action::Halt { id: first }]
        }),
{
    let play_first = AudioCommand::PlayTrack { id: first, song: first_song };
    let play_second = AudioCommand::PlayTrack { id: second, song: second_song };
    let both = twice.pending();
    assert(both =~= seq![play_first, play_second]);
    assert(both.drop_last() =~= seq![play_first]);
    assert(both.drop_last().drop_last() =~= Seq::<AudioCommand>::empty());
    assert(tracks_after_all(tracks, both.drop_last().drop_last()) == tracks);
    assert(tracks_after_all(tracks, both.drop_last()) == tracks_after(tracks, play_first));
    assert(tracks_after_all(tracks, both) == tracks_after(
        tracks_after(tracks, play_first),
        play_second,
    ));
}

/// Every track that is kept was played under its id: if the tracks kept
/// before and the tracks that `commands` play all have ids below `bound`,
/// so have the tracks kept afterwards. A worker that starts with no track
/// and takes its commands from one manager, in any number of calls of
/// `take_pending`, therefore keeps tracks only under ids that the manager
/// has given out.
pub proof fn kept_ids_were_given(tracks: Map<usize, Track>, commands: Seq<AudioCommand>, bound: int)
    requires
        forall|id: usize| tracks.contains_key(id) ==> id < bound,
        ids_below(commands, bound),
    ensures
        forall|id: usize| tracks_after_all(tracks, commands).contains_key(id) ==> id < bound,
    decreases commands.len(),
{
    if commands.len() > 0 {
        let earlier = commands.drop_last();
        assert(ids_below(earlier, bound)) by {
            assert forall|i: int| 0 <= i < earlier.len() implies (#[trigger] earlier[i] matches AudioCommand::PlayTrack {
                id,
                ..
            } ==> id < bound) by {
                assert(earlier[i] == commands[i]);
            }
        }
        kept_ids_were_given(tracks, earlier, bound);
        let before = tracks_after_all(tracks, earlier);
        let last = commands[commands.len() - 1];
        let after = tracks_after(before, last);
        assert(tracks_after_all(tracks, commands) == after);
        assert forall|id: usize| after.contains_key(id) implies id < bound by {
            match last {
                AudioCommand::PlayTrack { id: played, song } => {
                    if id != played {
                        assert(before.contains_key(id));
                    }
                },
                AudioCommand::StopTrack(stopped) => {
                    assert(before.contains_key(id));
                },
                AudioCommand::SetVolume(track, gain) => {
                    assert(before.contains_key(id));
                },
                AudioCommand::StopAll => {},
            }
        }
    }
}

/// A track is kept until it is stopped: whatever command is handled, a
/// track that was kept is kept afterwards, unless the command stops that
/// track or stops them all. Nothing else lets go of a track, however long
/// ago its tones have ended.
pub proof fn tracks_stay_until_stopped(tracks: Map<usize, Track>, command: AudioCommand, id: usize)
    requires
        tracks.contains_key(id),
        command != AudioCommand::StopTrack(id),
        command != AudioCommand::StopAll,
    ensures
        tracks_after(tracks, command).contains_key(id),
{
}

/// A command for a track that is not kept does nothing: no track changes
/// and nothing is done with the device.
pub proof fn unknown_track_is_ignored(tracks: Map<usize, Track>, id: usize, gain: u32)
    requires
        !tracks.contains_key(id),
    ensures
        tracks_after(tracks, AudioCommand::StopTrack(id)) == tracks,
        actions_for(tracks, AudioCommand::StopTrack(id)) == Seq::<Action>::empty(),
        tracks_after(tracks, AudioCommand::SetVolume(id, gain)) == tracks,
        actions_for(tracks, AudioCommand::SetVolume(id, gain)) == Seq::<Action>::empty(),
{
    assert(tracks.remove(id) =~= tracks);
}

/// Once every track has been stopped, no track is kept, and a new gain or
/// a stop for any id does nothing.
pub proof fn stop_all_is_final(tracks: Map<usize, Track>, id: usize, gain: u32)
    ensures
        ({
            let stopped = tracks_after(tracks, AudioCommand::StopAll);
            &&& stopped == Map::<usize, Track>::empty()
            &&& tracks_after(stopped, AudioCommand::SetVolume(id, gain)) == stopped
            &&& actions_for(stopped, AudioCommand::SetVolume(id, gain)) == Seq::<Action>::empty()
            &&& tracks_after(stopped, AudioCommand::StopTrack(id)) == stopped
            &&& actions_for(stopped, AudioCommand::StopTrack(id)) == Seq::<Action>::empty()
            &&& tracks_after(stopped, AudioCommand::StopAll) == stopped
        }),
{
    unknown_track_is_ignored(Map::<usize, Track>::empty(), id, gain);
}

} // verus!
