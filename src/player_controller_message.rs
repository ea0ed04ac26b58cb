//! Events sent from the audio worker to the controller.
use crate::player::PlayerState;
use vstd::prelude::*;

verus! {

/// The kind of an event from the audio worker.
#[derive(Clone, Copy, PartialEq, Eq, Structural, Debug)]
pub enum ControllerCommand {
    /// The worker's playback state changed; the event carries the new state.
    UpdateState,
    /// The front track ended, naturally or by a skip.
    PopQueue,
}

/// An event from the audio worker.
#[derive(Clone, Copy, PartialEq, Eq, Structural, Debug)]
pub struct PlayerControllerCommand {
    pub command: ControllerCommand,
    pub state: Option<PlayerState>,
}

impl PlayerControllerCommand {
    /// An event of the given kind, with the state that `UpdateState` carries.
    pub fn new(command: ControllerCommand, state: Option<PlayerState>) -> (m: PlayerControllerCommand)
        ensures
            m.command == command,
            m.state == state,
    {
        PlayerControllerCommand { command, state }
    }

    /// The kind of event.
    pub fn get_command(&self) -> (c: ControllerCommand)
        ensures
            c == self.command,
    {
        self.command
    }

    /// The state carried, if any.
    pub fn get_state(&self) -> (s: Option<PlayerState>)
        ensures
            s == self.state,
    {
        self.state
    }
}

} // verus!
