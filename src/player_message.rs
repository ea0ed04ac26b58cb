//! Commands sent from the controller to the audio worker.
use crate::player::PlayerCommand;
use vstd::prelude::*;

verus! {

/// A command for the audio worker, with the track handle that `Play` carries.
#[derive(Clone)]
pub struct PlayerMessage {
    command: PlayerCommand,
    message: Option<String>,
}

/// What a `PlayerMessage` holds: the command and the track handle, if any.
pub struct MessageView {
    pub command: PlayerCommand,
    pub track: Option<Seq<char>>,
}

impl View for PlayerMessage {
    type V = MessageView;

    closed spec fn view(&self) -> MessageView {
        MessageView {
            command: self.command,
            track: match self.message {
                Some(s) => Some(s@),
                None => None,
            },
        }
    }
}

impl PlayerMessage {
    /// A command with an optional track handle.
    pub fn new(command: PlayerCommand, message: Option<String>) -> (m: PlayerMessage)
        ensures
            m@.command == command,
            message is None ==> m@.track is None,
            message is Some ==> m@.track == Some(message->Some_0@),
    {
        PlayerMessage { command, message }
    }

    /// The command.
    pub fn get_command(&self) -> (c: PlayerCommand)
        ensures
            c == self@.command,
    {
        self.command
    }

    /// The track handle, if any.
    pub fn get_message(&self) -> (r: Option<String>)
        ensures
            self@.track is None ==> r is None,
            self@.track is Some ==> r is Some && r->Some_0@ == self@.track->Some_0,
    {
        match &self.message {
            Some(s) => Some(s.clone()),
            None => None,
        }
    }
}

} // verus!
