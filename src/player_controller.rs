//! The controller: the public face of playback. It sends commands to the
//! audio worker, keeps the track queue in the order the commands were issued,
//! and applies the worker's events to its cached state and to the queue.
use crate::player::{next_player, reported, PlayerCommand, PlayerState, PlayerView};
use crate::player_controller_message::{ControllerCommand, PlayerControllerCommand};
use crate::player_message::{MessageView, PlayerMessage};
use crate::queue::Queue;
use std::sync::mpsc::{Receiver, Sender, TryRecvError};
use vstd::prelude::*;
use vstd::string::*;

verus! {

#[verifier::external_type_specification]
#[verifier::external_body]
#[verifier::reject_recursive_types(T)]
pub struct ExSender<T>(Sender<T>);

#[verifier::external_type_specification]
#[verifier::external_body]
#[verifier::reject_recursive_types(T)]
pub struct ExReceiver<T>(Receiver<T>);

/// The audio worker can no longer be reached: one half of a channel is gone.
/// The playback subsystem has to be restarted.
#[derive(Clone, Copy, PartialEq, Eq, Structural, Debug)]
pub enum ControllerError {
    Disconnected,
}

/// Relies on std::sync::mpsc::Sender::send: it hands the command to the
/// worker's channel, and fails only when the receiving half is gone.
#[verifier::external_body]
fn send_to_worker(sender: &Sender<PlayerMessage>, message: PlayerMessage) -> (r: Result<
    (),
    ControllerError,
>) {
    match sender.send(message) {
        Ok(()) => Ok(()),
        Err(_) => Err(ControllerError::Disconnected),
    }
}

/// Relies on std::sync::mpsc::Receiver::try_recv: without waiting, the next
/// event if one is there, none if the channel is empty, an error once the
/// sending half is gone.
#[verifier::external_body]
fn receive_from_worker(receiver: &Receiver<PlayerControllerCommand>) -> (r: Result<
    Option<PlayerControllerCommand>,
    ControllerError,
>) {
    match receiver.try_recv() {
        Ok(event) => Ok(Some(event)),
        Err(TryRecvError::Empty) => Ok(None),
        Err(TryRecvError::Disconnected) => Err(ControllerError::Disconnected),
    }
}

/// Where the last segment of a path begins: just after its last `/`, or at 0.
pub open spec fn segment_start(s: Seq<char>) -> int
    decreases s.len(),
{
    if s.len() == 0 {
        0
    } else if s.last() == '/' {
        s.len() as int
    } else {
        segment_start(s.drop_last())
    }
}

/// The text after the last `/` of a path (the whole path when it has none).
pub open spec fn last_segment(s: Seq<char>) -> Seq<char> {
    s.subrange(segment_start(s), s.len() as int)
}

/// The identifier under which a track handle stands in the queue: the last
/// segment of its path.
pub fn track_title(path: &str) -> (r: String)
    ensures
        r@ == last_segment(path@),
{
    let n = path.unicode_len();
    let mut i: usize = n;
    assert(path@.subrange(0, n as int) =~= path@);
    while i > 0 && path.get_char(i - 1) != '/'
        invariant
            n == path@.len(),
            i <= n,
            segment_start(path@) == segment_start(path@.subrange(0, i as int)),
        decreases i,
    {
        assert(path@.subrange(0, i as int).drop_last() =~= path@.subrange(0, i - 1));
        i = i - 1;
    }
    proof {
        if i > 0 {
            assert(path@.subrange(0, i as int).last() == path@[i - 1]);
        }
    }
    String::from_str(path.substring_char(i, n))
}

/// What the controller holds: the cached playback state and the queue.
pub struct ControllerView {
    pub state: PlayerState,
    pub queue: Seq<Seq<char>>,
}

/// The controller after it has sent a command: `Play` appends its track,
/// `Stop` empties the queue, the others change nothing here.
pub open spec fn after_command(c: ControllerView, m: MessageView) -> ControllerView {
    match m.command {
        PlayerCommand::Play => match m.track {
            Some(t) => ControllerView { state: c.state, queue: c.queue.push(last_segment(t)) },
            None => c,
        },
        PlayerCommand::Stop => ControllerView { state: c.state, queue: Seq::empty() },
        _ => c,
    }
}

/// The state that an `UpdateState` event sets: `Playing` only when it says so.
pub open spec fn state_of_event(e: PlayerControllerCommand) -> PlayerState {
    if e.state == Some(PlayerState::Playing) {
        PlayerState::Playing
    } else {
        PlayerState::Paused
    }
}

/// The controller after one event: `UpdateState` overwrites the cached state,
/// `PopQueue` drops the front track, and does nothing on an empty queue.
pub open spec fn after_event(c: ControllerView, e: PlayerControllerCommand) -> ControllerView {
    match e.command {
        ControllerCommand::UpdateState => ControllerView { state: state_of_event(e), queue: c.queue },
        ControllerCommand::PopQueue => ControllerView {
            state: c.state,
            queue: if c.queue.len() == 0 {
                c.queue
            } else {
                c.queue.drop_first()
            },
        },
    }
}

/// The name shown for a playback state.
pub open spec fn state_name(s: PlayerState) -> Seq<char> {
    match s {
        PlayerState::Playing => "Playing"@,
        PlayerState::Paused => "Paused"@,
    }
}

/// The controller, holding the two channel halves that connect it to the
/// audio worker.
pub struct PlayerController {
    sender: Sender<PlayerMessage>,
    receiver: Receiver<PlayerControllerCommand>,
    player_state: PlayerState,
    pub queue: Queue,
}

impl View for PlayerController {
    type V = ControllerView;

    closed spec fn view(&self) -> ControllerView {
        ControllerView { state: self.player_state, queue: self.queue@ }
    }
}

impl PlayerController {
    /// A controller over a channel to a running worker and a channel from
    /// it, with an empty queue and `Paused` as its state.
    pub fn new(sender: Sender<PlayerMessage>, receiver: Receiver<PlayerControllerCommand>) -> (pc:
        PlayerController)
        ensures
            pc@ == (ControllerView { state: PlayerState::Paused, queue: Seq::empty() }),
    {
        PlayerController { sender, receiver, player_state: PlayerState::Paused, queue: Queue::new() }
    }

    /// Sends a command to the worker without waiting for it. On success the
    /// queue is updated at once (see `after_command`); when the worker cannot
    /// be reached nothing changes and the error comes back.
    pub fn send_command(&mut self, command: PlayerMessage) -> (r: Result<(), ControllerError>)
        ensures
            r is Ok ==> final(self)@ == after_command(old(self)@, command@),
            r is Err ==> final(self)@ == old(self)@,
    {
        let kind = command.get_command();
        let track = command.get_message();
        let sent = send_to_worker(&self.sender, command);
        if sent.is_err() {
            return Err(ControllerError::Disconnected);
        }
        match kind {
            PlayerCommand::Play => {
                if let Some(path) = track {
                    self.queue.add(track_title(path.as_str()));
                }
            },
            PlayerCommand::Stop => self.queue.clear(),
            _ => {},
        }
        Ok(())
    }

    /// Applies one event from the worker (see `after_event`).
    pub fn apply_message(&mut self, event: PlayerControllerCommand)
        ensures
            final(self)@ == after_event(old(self)@, event),
    {
        match event.get_command() {
            ControllerCommand::UpdateState => {
                if event.get_state() == Some(PlayerState::Playing) {
                    self.player_state = PlayerState::Playing;
                } else {
                    self.player_state = PlayerState::Paused;
                }
            },
            ControllerCommand::PopQueue => {
                self.queue.pop();
            },
        }
    }

    /// Takes the next event from the worker, if one is there, without
    /// waiting, and applies it. `Ok(false)`: there was none, nothing changed.
    /// An error: the worker is gone, nothing changed.
    pub fn check_for_message(&mut self) -> (r: Result<bool, ControllerError>)
        ensures
            r == Ok::<bool, ControllerError>(true) ==> exists|e: PlayerControllerCommand|
                final(self)@ == after_event(old(self)@, e),
            r != Ok::<bool, ControllerError>(true) ==> final(self)@ == old(self)@,
    {
        match receive_from_worker(&self.receiver) {
            Ok(Some(event)) => {
                self.apply_message(event);
                Ok(true)
            },
            Ok(None) => Ok(false),
            Err(e) => Err(e),
        }
    }

    /// The cached playback state.
    pub fn get_player_state(&self) -> (s: PlayerState)
        ensures
            s == self@.state,
    {
        self.player_state
    }

    /// The cached playback state as a word.
    pub fn get_player_state_as_string(&self) -> (s: String)
        ensures
            s@ == state_name(self@.state),
    {
        match self.player_state {
            PlayerState::Playing => String::from_str("Playing"),
            PlayerState::Paused => String::from_str("Paused"),
        }
    }

    /// The track at the front of the queue, the current one, if any.
    pub fn current_track(&self) -> (r: Option<String>)
        ensures
            self@.queue.len() > 0 ==> r is Some && r->Some_0@ == self@.queue[0],
            self@.queue.len() == 0 ==> r is None,
    {
        self.queue.get_current_song()
    }

    /// The queued tracks, front first.
    pub fn queue_snapshot(&self) -> (v: Vec<String>)
        ensures
            v@.map_values(|s: String| s@) == self@.queue,
    {
        self.queue.get_queue()
    }

    /// Sends `Play` with a track handle.
    pub fn play(&mut self, path: String) -> (r: Result<(), ControllerError>)
        ensures
            r is Ok ==> final(self)@ == after_command(
                old(self)@,
                MessageView { command: PlayerCommand::Play, track: Some(path@) },
            ),
            r is Err ==> final(self)@ == old(self)@,
    {
        self.send_command(PlayerMessage::new(PlayerCommand::Play, Some(path)))
    }

    /// Sends `PlayPause`.
    pub fn toggle(&mut self) -> (r: Result<(), ControllerError>)
        ensures
            final(self)@ == old(self)@,
    {
        self.send_command(PlayerMessage::new(PlayerCommand::PlayPause, None))
    }

    /// Sends `Skip`; the queue moves on when the worker reports the end of
    /// the track.
    pub fn skip(&mut self) -> (r: Result<(), ControllerError>)
        ensures
            final(self)@ == old(self)@,
    {
        self.send_command(PlayerMessage::new(PlayerCommand::Skip, None))
    }

    /// Sends `Stop` and, once it is sent, empties the queue.
    pub fn stop(&mut self) -> (r: Result<(), ControllerError>)
        ensures
            r is Ok ==> final(self)@ == (ControllerView {
                state: old(self)@.state,
                queue: Seq::empty(),
            }),
            r is Err ==> final(self)@ == old(self)@,
    {
        self.send_command(PlayerMessage::new(PlayerCommand::Stop, None))
    }
}

/// The controller after a run of events, applied in order.
pub open spec fn after_events(c: ControllerView, es: Seq<PlayerControllerCommand>) -> ControllerView
    decreases es.len(),
{
    if es.len() == 0 {
        c
    } else {
        after_event(after_events(c, es.drop_last()), es.last())
    }
}

/// The command without a track handle.
pub open spec fn bare(command: PlayerCommand) -> MessageView {
    MessageView { command, track: None }
}

/// The completion event of a track.
pub open spec fn finished() -> PlayerControllerCommand {
    PlayerControllerCommand { command: ControllerCommand::PopQueue, state: None }
}

/// Events never add to the queue: whatever arrives, the queue that follows is
/// a suffix of the queue before.
pub proof fn lemma_events_only_shrink(c: ControllerView, es: Seq<PlayerControllerCommand>)
    ensures
        after_events(c, es).queue.len() <= c.queue.len(),
        after_events(c, es).queue == c.queue.subrange(
            c.queue.len() - after_events(c, es).queue.len(),
            c.queue.len() as int,
        ),
    decreases es.len(),
{
    if es.len() > 0 {
        lemma_events_only_shrink(c, es.drop_last());
        let before = after_events(c, es.drop_last());
        let n = c.queue.len();
        if es.last().command == ControllerCommand::PopQueue && before.queue.len() > 0 {
            assert(before.queue.drop_first() =~= c.queue.subrange(
                n - (before.queue.len() - 1),
                n as int,
            ));
        }
    }
}

/// A stop empties the queue at once, the worker then reports `Paused`, and
/// the controller is `Paused` with an empty queue once that report is
/// applied. Completion events that arrive late, or any other events, can only
/// leave the queue empty.
pub proof fn lemma_stop_resets(
    c: ControllerView,
    p: PlayerView,
    decoded: bool,
    late: Seq<PlayerControllerCommand>,
)
    ensures
        after_command(c, bare(PlayerCommand::Stop)).queue.len() == 0,
        reported(next_player(p, bare(PlayerCommand::Stop), decoded)).state == Some(
            PlayerState::Paused,
        ),
        after_event(
            after_command(c, bare(PlayerCommand::Stop)),
            reported(next_player(p, bare(PlayerCommand::Stop), decoded)),
        ) == (ControllerView { state: PlayerState::Paused, queue: Seq::empty() }),
        after_events(after_command(c, bare(PlayerCommand::Stop)), late).queue.len() == 0,
{
    lemma_events_only_shrink(after_command(c, bare(PlayerCommand::Stop)), late);
}

/// Issuing `PlayPause` twice to a worker that has a track loaded brings back
/// its state, and the controller's cached state after both reports is the
/// state the worker had before.
pub proof fn lemma_toggle_twice(c: ControllerView, p: PlayerView, decoded1: bool, decoded2: bool)
    requires
        p.loaded,
    ensures
        next_player(
            next_player(p, bare(PlayerCommand::PlayPause), decoded1),
            bare(PlayerCommand::PlayPause),
            decoded2,
        ) == p,
        after_event(
            after_event(c, reported(next_player(p, bare(PlayerCommand::PlayPause), decoded1))),
            reported(
                next_player(
                    next_player(p, bare(PlayerCommand::PlayPause), decoded1),
                    bare(PlayerCommand::PlayPause),
                    decoded2,
                ),
            ),
        ).state == p.state,
{
}

/// Three tracks played on an empty queue, then three completion events: the
/// queue ends empty, each event taking off one track, front first.
pub proof fn lemma_three_plays_three_finishes(c: ControllerView, a: Seq<char>, b: Seq<char>, t: Seq<char>)
    requires
        c.queue.len() == 0,
    ensures
        ({
            let played = after_command(
                after_command(
                    after_command(c, MessageView { command: PlayerCommand::Play, track: Some(a) }),
                    MessageView { command: PlayerCommand::Play, track: Some(b) },
                ),
                MessageView { command: PlayerCommand::Play, track: Some(t) },
            );
            &&& played.queue == seq![last_segment(a), last_segment(b), last_segment(t)]
            &&& after_event(played, finished()).queue == seq![last_segment(b), last_segment(t)]
            &&& after_event(after_event(played, finished()), finished()).queue == seq![
                last_segment(t),
            ]
            &&& after_event(after_event(after_event(played, finished()), finished()), finished()).queue.len() == 0
        }),
{
    let played = after_command(
        after_command(
            after_command(c, MessageView { command: PlayerCommand::Play, track: Some(a) }),
            MessageView { command: PlayerCommand::Play, track: Some(b) },
        ),
        MessageView { command: PlayerCommand::Play, track: Some(t) },
    );
    assert(played.queue =~= seq![last_segment(a), last_segment(b), last_segment(t)]);
    assert(after_event(played, finished()).queue =~= seq![last_segment(b), last_segment(t)]);
    assert(after_event(after_event(played, finished()), finished()).queue =~= seq![
        last_segment(t),
    ]);
}

} // verus!
