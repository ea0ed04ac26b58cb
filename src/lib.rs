//! Playback coordination for a terminal music player: the track queue, the
//! command and event vocabulary exchanged with the audio worker, the worker's
//! state machine and the controller that keeps the queue and the cached
//! playback state consistent with the worker's events.
use vstd::prelude::*;

pub mod player;
pub mod player_controller_message;
pub mod player_message;
pub mod player_controller;
pub mod queue;
pub mod song;
pub mod ui;

verus! {

} // verus!
