//! Control of the tone: the audio stream plays exactly while the
//! interpreter's sound timer is active.

use vstd::prelude::*;

verus! {

/// What the host tells the audio stream.
#[derive(Clone, Copy, Debug, PartialEq, Eq, Structural)]
pub enum StreamCommand {
    /// Let the stream play.
    Resume,
    /// Keep the stream silent.
    Pause,
}

/// The command that brings the stream to the given level.
pub open spec fn command_for(emitting: bool) -> StreamCommand {
    if emitting {
        StreamCommand::Resume
    } else {
        StreamCommand::Pause
    }
}

/// Follows the level of the sound timer. The model is whether the stream is
/// emitting. Nothing of the past is kept but that level, and every call gives
/// the command for the level it sets, so a repeated call repeats its command.
#[derive(Clone, Copy, Debug)]
pub struct AudioGate {
    emitting: bool,
}

impl View for AudioGate {
    type V = bool;

    closed spec fn view(&self) -> bool {
        self.emitting
    }
}

impl AudioGate {
    /// The control of a stream that has just been opened: it is silent.
    pub fn new() -> (g: AudioGate)
        ensures
            !g@,
    {
        AudioGate { emitting: false }
    }

    /// Whether the stream is emitting.
    pub fn is_active(&self) -> (emitting: bool)
        ensures
            emitting == self@,
    {
        self.emitting
    }

    /// Lets the stream play, whether or not it already does.
    pub fn activate(&mut self) -> (command: StreamCommand)
        ensures
            final(self)@,
            command == StreamCommand::Resume,
    {
        self.emitting = true;
        StreamCommand::Resume
    }

    /// Silences the stream, whether or not it already is silent.
    pub fn silence(&mut self) -> (command: StreamCommand)
        ensures
            !final(self)@,
            command == StreamCommand::Pause,
    {
        self.emitting = false;
        StreamCommand::Pause
    }

    /// Sets the stream to the level of the sound timer, as read after an
    /// interpreter step: playing while the timer is active, silent otherwise.
    pub fn follow(&mut self, sound_timer_active: bool) -> (command: StreamCommand)
        ensures
            final(self)@ == sound_timer_active,
            command == command_for(sound_timer_active),
    {
        if sound_timer_active {
            self.activate()
        } else {
            self.silence()
        }
    }
}

} // verus!
