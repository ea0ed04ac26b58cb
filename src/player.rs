//! The audio worker's state machine. The worker owns the output device; this
//! type decides, for each command, what the device must do and which state
//! the worker reports back. The device calls themselves are made by the
//! caller, which hands in whether the track could be decoded.
use crate::player_controller_message::{ControllerCommand, PlayerControllerCommand};
use crate::player_message::{MessageView, PlayerMessage};
use vstd::prelude::*;

verus! {

/// The playback state visible to the controller.
#[derive(Clone, Copy, PartialEq, Eq, Structural, Debug)]
pub enum PlayerState {
    Playing,
    Paused,
}

/// A command from the controller to the audio worker.
#[derive(Clone, Copy, PartialEq, Eq, Structural, Debug)]
pub enum PlayerCommand {
    Play,
    PlayPause,
    Skip,
    Stop,
}

/// What the output device must do in answer to a command.
#[derive(Clone, PartialEq, Eq, Debug)]
pub enum DeviceAction {
    /// Append the decoded track, start rendering and arm the completion signal.
    Append(String),
    Pause,
    Resume,
    /// End the current track now, through the usual completion signal.
    SkipOne,
    /// Halt rendering and discard every loaded track.
    Halt,
    Nothing,
}

/// What a `DeviceAction` asks for, with the track as a sequence of characters.
pub enum ActionView {
    Append(Seq<char>),
    Pause,
    Resume,
    SkipOne,
    Halt,
    Nothing,
}

impl View for DeviceAction {
    type V = ActionView;

    open spec fn view(&self) -> ActionView {
        match self {
            DeviceAction::Append(t) => ActionView::Append(t@),
            DeviceAction::Pause => ActionView::Pause,
            DeviceAction::Resume => ActionView::Resume,
            DeviceAction::SkipOne => ActionView::SkipOne,
            DeviceAction::Halt => ActionView::Halt,
            DeviceAction::Nothing => ActionView::Nothing,
        }
    }
}

/// What the worker holds: its reported state and whether a track was ever
/// loaded since the last stop.
pub struct PlayerView {
    pub state: PlayerState,
    pub loaded: bool,
}

/// The worker's state machine.
pub struct Player {
    player_state: PlayerState,
    loaded: bool,
}

impl View for Player {
    type V = PlayerView;

    closed spec fn view(&self) -> PlayerView {
        PlayerView { state: self.player_state, loaded: self.loaded }
    }
}

/// The state reported for a state of the worker.
pub open spec fn reported(p: PlayerView) -> PlayerControllerCommand {
    PlayerControllerCommand { command: ControllerCommand::UpdateState, state: Some(p.state) }
}

/// The worker after a command, given whether a `Play` track could be decoded.
pub open spec fn next_player(p: PlayerView, m: MessageView, decoded: bool) -> PlayerView {
    match m.command {
        PlayerCommand::Play => if m.track is Some && decoded {
            PlayerView { state: PlayerState::Playing, loaded: true }
        } else {
            p
        },
        PlayerCommand::PlayPause => if !p.loaded {
            p
        } else if p.state == PlayerState::Playing {
            PlayerView { state: PlayerState::Paused, loaded: true }
        } else {
            PlayerView { state: PlayerState::Playing, loaded: true }
        },
        PlayerCommand::Skip => p,
        PlayerCommand::Stop => PlayerView { state: PlayerState::Paused, loaded: false },
    }
}

/// The device action for a command, given whether a `Play` track could be decoded.
pub open spec fn device_action(p: PlayerView, m: MessageView, decoded: bool) -> ActionView {
    match m.command {
        PlayerCommand::Play => match m.track {
            Some(t) => if decoded {
                ActionView::Append(t)
            } else {
                ActionView::Nothing
            },
            None => ActionView::Nothing,
        },
        PlayerCommand::PlayPause => if !p.loaded {
            ActionView::Nothing
        } else if p.state == PlayerState::Playing {
            ActionView::Pause
        } else {
            ActionView::Resume
        },
        PlayerCommand::Skip => if p.loaded {
            ActionView::SkipOne
        } else {
            ActionView::Nothing
        },
        PlayerCommand::Stop => ActionView::Halt,
    }
}

impl Player {
    /// A worker with nothing loaded, reporting `Paused`.
    pub fn new() -> (p: Player)
        ensures
            p@ == (PlayerView { state: PlayerState::Paused, loaded: false }),
    {
        Player { player_state: PlayerState::Paused, loaded: false }
    }

    /// The state the worker reports.
    pub fn get_player_state(&self) -> (s: PlayerState)
        ensures
            s == self@.state,
    {
        self.player_state
    }

    /// Overwrites the reported state.
    pub fn set_player_state(&mut self, state: PlayerState)
        ensures
            final(self)@ == (PlayerView { state, loaded: old(self)@.loaded }),
    {
        self.player_state = state;
    }

    /// Pauses a playing track or resumes a paused one; with nothing loaded,
    /// nothing happens.
    pub fn play_pause(&mut self) -> (a: DeviceAction)
        ensures
            final(self)@ == next_player(
                old(self)@,
                MessageView { command: PlayerCommand::PlayPause, track: None },
                false,
            ),
            a@ == device_action(
                old(self)@,
                MessageView { command: PlayerCommand::PlayPause, track: None },
                false,
            ),
    {
        if !self.loaded {
            DeviceAction::Nothing
        } else if self.player_state == PlayerState::Playing {
            self.set_player_state(PlayerState::Paused);
            DeviceAction::Pause
        } else {
            self.set_player_state(PlayerState::Playing);
            DeviceAction::Resume
        }
    }

    /// Loads a track: when it could be decoded it is appended and played,
    /// otherwise nothing changes.
    pub fn add_to_queue(&mut self, song: String, decoded: bool) -> (a: DeviceAction)
        ensures
            final(self)@ == next_player(
                old(self)@,
                MessageView { command: PlayerCommand::Play, track: Some(song@) },
                decoded,
            ),
            a@ == device_action(
                old(self)@,
                MessageView { command: PlayerCommand::Play, track: Some(song@) },
                decoded,
            ),
    {
        if decoded {
            self.loaded = true;
            self.set_player_state(PlayerState::Playing);
            DeviceAction::Append(song)
        } else {
            DeviceAction::Nothing
        }
    }

    /// Ends the current track, when one was loaded.
    pub fn skip(&self) -> (a: DeviceAction)
        ensures
            a@ == device_action(
                self@,
                MessageView { command: PlayerCommand::Skip, track: None },
                false,
            ),
    {
        if self.loaded {
            DeviceAction::SkipOne
        } else {
            DeviceAction::Nothing
        }
    }

    /// Halts rendering and forgets every loaded track.
    pub fn stop(&mut self) -> (a: DeviceAction)
        ensures
            final(self)@ == next_player(
                old(self)@,
                MessageView { command: PlayerCommand::Stop, track: None },
                false,
            ),
            a@ == device_action(
                old(self)@,
                MessageView { command: PlayerCommand::Stop, track: None },
                false,
            ),
    {
        self.loaded = false;
        self.set_player_state(PlayerState::Paused);
        DeviceAction::Halt
    }

    /// Executes one command: the new state, the device action to perform and
    /// the state event to send back. `decoded` says whether the track of a
    /// `Play` could be opened and decoded; a track that could not leaves the
    /// worker as it was, and the loop goes on.
    pub fn handle(&mut self, message: &PlayerMessage, decoded: bool) -> (r: (
        DeviceAction,
        PlayerControllerCommand,
    ))
        ensures
            final(self)@ == next_player(old(self)@, message@, decoded),
            r.0@ == device_action(old(self)@, message@, decoded),
            r.1 == reported(final(self)@),
    {
        let action = match message.get_command() {
            PlayerCommand::Play => match message.get_message() {
                Some(song) => self.add_to_queue(song, decoded),
                None => DeviceAction::Nothing,
            },
            PlayerCommand::PlayPause => self.play_pause(),
            PlayerCommand::Skip => self.skip(),
            PlayerCommand::Stop => self.stop(),
        };
        let event = PlayerControllerCommand::new(
            ControllerCommand::UpdateState,
            Some(self.get_player_state()),
        );
        (action, event)
    }
}

} // verus!
