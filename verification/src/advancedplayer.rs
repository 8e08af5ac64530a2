//! A manager of one output that plays one run of notes at a time.

use crate::legacyplayer::legacy_tone;
use crate::note::Note;
use crate::player::Tone;
use vstd::prelude::*;

verus! {

/// What a caller asks of the worker that owns the output.
#[derive(Debug, Clone)]
pub enum AudioCommand {
    /// Play these notes in place of what is playing.
    Play(Vec<Note>),
    /// Stop what is playing.
    Stop,
    /// Set the gain of the output, in thousandths.
    SetVolume(u32),
}

/// One thing that the worker does with its output.
#[derive(Debug, Clone, Copy, PartialEq, Eq, Structural)]
pub enum SinkAction {
    /// Stop what is playing and forget what was queued.
    Stop,
    /// Queue a tone.
    Append { tone: Tone },
    /// Set the gain.
    SetGain { gain: u32 },
}

/// What the worker does with its output for `command`: to play, it stops
/// what is playing and queues the sine that stands in for each note.
pub open spec fn sink_actions(command: AudioCommand) -> Seq<SinkAction> {
    match command {
        AudioCommand::Play(notes) => seq![SinkAction::Stop] + Seq::new(
            notes@.len(),
            |i: int| SinkAction::Append { tone: legacy_tone(notes@[i]) },
        ),
        AudioCommand::Stop => seq![SinkAction::Stop],
        AudioCommand::SetVolume(gain) => seq![SinkAction::SetGain { gain }],
    }
}

/// Decides what the worker does with its output for `command`.
pub fn handle(command: &AudioCommand) -> (actions: Vec<SinkAction>)
    ensures
        actions@ == sink_actions(*command),
{
    let mut actions: Vec<SinkAction> = Vec::new();
    match command {
        AudioCommand::Play(notes) => {
            actions.push(SinkAction::Stop);
            let mut i: usize = 0;
            while i < notes.len()
                invariant
                    i <= notes.len(),
                    actions@ == seq![SinkAction::Stop] + Seq::new(
                        i as nat,
                        |k: int| SinkAction::Append { tone: legacy_tone(notes@[k]) },
                    ),
                decreases notes.len() - i,
            {
                let note: Note = notes[i];
                let tone = Tone { freq: note.to_approx_sine(), dur: note.dur, vol: note.vol };
                actions.push(SinkAction::Append { tone });
                i = i + 1;
                assert(actions@ =~= seq![SinkAction::Stop] + Seq::new(
                    i as nat,
                    |k: int| SinkAction::Append { tone: legacy_tone(notes@[k]) },
                ));
            }
            assert(actions@ =~= sink_actions(*command));
        },
        AudioCommand::Stop => {
            actions.push(SinkAction::Stop);
            assert(actions@ =~= seq![SinkAction::Stop]);
        },
        AudioCommand::SetVolume(gain) => {
            actions.push(SinkAction::SetGain { gain: *gain });
            assert(actions@ =~= seq![SinkAction::SetGain { gain: *gain }]);
        },
    }
    actions
}

/// The caller's handle on the worker: it queues the commands, in the order
/// of the calls, until they are taken to the worker.
pub struct AudioManager {
    pending: Vec<AudioCommand>,
}

impl AudioManager {
    /// The commands that wait to be taken to the worker, oldest first.
    pub closed spec fn pending(&self) -> Seq<AudioCommand> {
        self.pending@
    }

    /// A manager with no command queued.
    pub fn new() -> (manager: AudioManager)
        ensures
            manager.pending() == Seq::<AudioCommand>::empty(),
    {
        AudioManager { pending: Vec::new() }
    }

    /// Queues `notes` to be played in place of what is playing.
    pub fn play(&mut self, notes: Vec<Note>)
        ensures
            final(self).pending() == old(self).pending().push(AudioCommand::Play(notes)),
    {
        self.pending.push(AudioCommand::Play(notes));
    }

    /// Queues a stop.
    pub fn stop(&mut self)
        ensures
            final(self).pending() == old(self).pending().push(AudioCommand::Stop),
    {
        self.pending.push(AudioCommand::Stop);
    }

    /// Takes the queued commands, oldest first, to be sent to the worker.
    pub fn take_pending(&mut self) -> (commands: Vec<AudioCommand>)
        ensures
            commands@ == old(self).pending(),
            final(self).pending() == Seq::<AudioCommand>::empty(),
    {
        let mut commands: Vec<AudioCommand> = Vec::new();
        std::mem::swap(&mut self.pending, &mut commands);
        commands
    }
}

} // verus!
