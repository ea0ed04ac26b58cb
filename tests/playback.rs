use std::sync::mpsc;
use tui_music_player::player::{DeviceAction, Player, PlayerCommand, PlayerState};
use tui_music_player::player_controller::{track_title, ControllerError, PlayerController};
use tui_music_player::player_controller_message::{ControllerCommand, PlayerControllerCommand};
use tui_music_player::player_message::PlayerMessage;
use tui_music_player::queue::Queue;
use tui_music_player::song::Song;
use tui_music_player::ui::{Ui, Window};

struct Harness {
    controller: PlayerController,
    commands: mpsc::Receiver<PlayerMessage>,
    events: mpsc::Sender<PlayerControllerCommand>,
}

fn harness() -> Harness {
    let (cmd_tx, cmd_rx) = mpsc::channel::<PlayerMessage>();
    let (ev_tx, ev_rx) = mpsc::channel::<PlayerControllerCommand>();
    Harness {
        controller: PlayerController::new(cmd_tx, ev_rx),
        commands: cmd_rx,
        events: ev_tx,
    }
}

fn drain(controller: &mut PlayerController) {
    while controller.check_for_message().unwrap() {}
}

fn state_event(state: PlayerState) -> PlayerControllerCommand {
    PlayerControllerCommand::new(ControllerCommand::UpdateState, Some(state))
}

fn finished_event() -> PlayerControllerCommand {
    PlayerControllerCommand::new(ControllerCommand::PopQueue, None)
}

fn play(path: &str) -> PlayerMessage {
    PlayerMessage::new(PlayerCommand::Play, Some(path.to_string()))
}

#[test]
fn queue_keeps_append_order() {
    let mut q = Queue::new();
    let items = ["one", "two", "three", "four"];
    for (i, item) in items.iter().enumerate() {
        q.add(item.to_string());
        let expected: Vec<String> = items[..=i].iter().map(|s| s.to_string()).collect();
        assert_eq!(q.get_queue(), expected);
    }
    assert_eq!(q.get_current_song(), Some("one".to_string()));
    assert_eq!(q.get_next_song(), Some("two".to_string()));
    assert_eq!(q.len(), 4);
}

#[test]
fn pop_on_empty_queue_is_a_no_op() {
    let mut q = Queue::new();
    assert_eq!(q.pop(), None);
    assert!(q.is_empty());
    assert_eq!(q.get_current_song(), None);
    assert_eq!(q.get_next_song(), None);
    q.add("a".to_string());
    assert_eq!(q.pop(), Some("a".to_string()));
    assert_eq!(q.pop(), None);
    assert_eq!(q.get_queue(), Vec::<String>::new());
}

#[test]
fn queue_clear_empties() {
    let mut q = Queue::new();
    q.add("a".to_string());
    q.add("b".to_string());
    q.clear();
    assert!(q.is_empty());
    assert_eq!(q.get(0), None);
}

#[test]
fn play_then_events_end_to_end() {
    let mut h = harness();
    h.controller.send_command(play("a.mp3")).unwrap();
    h.controller.send_command(play("b.flac")).unwrap();
    assert_eq!(
        h.controller.queue_snapshot(),
        vec!["a.mp3".to_string(), "b.flac".to_string()]
    );
    assert_eq!(h.controller.get_player_state(), PlayerState::Paused);
    h.events.send(state_event(PlayerState::Playing)).unwrap();
    h.events.send(finished_event()).unwrap();
    drain(&mut h.controller);
    assert_eq!(h.controller.queue_snapshot(), vec!["b.flac".to_string()]);
    assert_eq!(h.controller.get_player_state(), PlayerState::Playing);
    assert_eq!(h.controller.current_track(), Some("b.flac".to_string()));
    let sent: Vec<PlayerMessage> = h.commands.try_iter().collect();
    assert_eq!(sent.len(), 2);
    assert_eq!(sent[0].get_message(), Some("a.mp3".to_string()));
    assert_eq!(sent[1].get_message(), Some("b.flac".to_string()));
}

#[test]
fn stop_with_two_entries_end_to_end() {
    let mut h = harness();
    h.controller.play("a.mp3".to_string()).unwrap();
    h.controller.play("b.flac".to_string()).unwrap();
    h.events.send(state_event(PlayerState::Playing)).unwrap();
    drain(&mut h.controller);
    assert_eq!(h.controller.get_player_state(), PlayerState::Playing);
    h.controller.stop().unwrap();
    assert_eq!(h.controller.queue_snapshot(), Vec::<String>::new());
    assert_eq!(h.controller.get_player_state(), PlayerState::Playing);
    h.events.send(state_event(PlayerState::Paused)).unwrap();
    drain(&mut h.controller);
    assert_eq!(h.controller.get_player_state(), PlayerState::Paused);
    assert_eq!(h.controller.get_player_state_as_string(), "Paused".to_string());
}

#[test]
fn late_finish_after_stop_pops_nothing() {
    let mut h = harness();
    h.controller.play("a.mp3".to_string()).unwrap();
    h.controller.stop().unwrap();
    h.events.send(finished_event()).unwrap();
    h.events.send(finished_event()).unwrap();
    drain(&mut h.controller);
    assert_eq!(h.controller.queue_snapshot(), Vec::<String>::new());
    assert_eq!(h.controller.current_track(), None);
}

#[test]
fn three_plays_three_finishes_empty_the_queue() {
    let mut h = harness();
    for path in ["A", "B", "C"] {
        h.controller.play(path.to_string()).unwrap();
    }
    assert_eq!(h.controller.queue_snapshot().len(), 3);
    for expected in [vec!["B", "C"], vec!["C"], vec![]] {
        h.events.send(finished_event()).unwrap();
        assert_eq!(h.controller.check_for_message(), Ok(true));
        let expected: Vec<String> = expected.iter().map(|s| s.to_string()).collect();
        assert_eq!(h.controller.queue_snapshot(), expected);
    }
    assert_eq!(h.controller.check_for_message(), Ok(false));
}

#[test]
fn queue_holds_the_last_path_segment() {
    let mut h = harness();
    h.controller.play("/home/me/Music/album/01 intro.flac".to_string()).unwrap();
    assert_eq!(h.controller.queue_snapshot(), vec!["01 intro.flac".to_string()]);
    assert_eq!(track_title("/a/b/c.mp3"), "c.mp3".to_string());
    assert_eq!(track_title("plain.mp3"), "plain.mp3".to_string());
    assert_eq!(track_title("dir/"), "".to_string());
}

#[test]
fn toggle_skip_do_not_touch_the_queue() {
    let mut h = harness();
    h.controller.play("a.mp3".to_string()).unwrap();
    h.controller.toggle().unwrap();
    h.controller.skip().unwrap();
    assert_eq!(h.controller.queue_snapshot(), vec!["a.mp3".to_string()]);
    let kinds: Vec<PlayerCommand> = h.commands.try_iter().map(|m| m.get_command()).collect();
    assert_eq!(
        kinds,
        vec![PlayerCommand::Play, PlayerCommand::PlayPause, PlayerCommand::Skip]
    );
}

#[test]
fn play_without_a_track_is_not_queued() {
    let mut h = harness();
    h.controller
        .send_command(PlayerMessage::new(PlayerCommand::Play, None))
        .unwrap();
    assert_eq!(h.controller.queue_snapshot(), Vec::<String>::new());
}

#[test]
fn gone_worker_is_reported() {
    let mut h = harness();
    h.controller.play("a.mp3".to_string()).unwrap();
    drop(h.commands);
    assert_eq!(
        h.controller.play("b.mp3".to_string()),
        Err(ControllerError::Disconnected)
    );
    assert_eq!(h.controller.stop(), Err(ControllerError::Disconnected));
    assert_eq!(h.controller.queue_snapshot(), vec!["a.mp3".to_string()]);
    assert_eq!(h.controller.check_for_message(), Ok(false));
    drop(h.events);
    assert_eq!(
        h.controller.check_for_message(),
        Err(ControllerError::Disconnected)
    );
}

#[test]
fn state_event_without_state_means_paused() {
    let mut h = harness();
    h.events.send(state_event(PlayerState::Playing)).unwrap();
    drain(&mut h.controller);
    assert_eq!(h.controller.get_player_state_as_string(), "Playing".to_string());
    h.controller
        .apply_message(PlayerControllerCommand::new(ControllerCommand::UpdateState, None));
    assert_eq!(h.controller.get_player_state(), PlayerState::Paused);
}

#[test]
fn worker_toggle_twice_restores_state() {
    let mut p = Player::new();
    let (a, e) = p.handle(&play("a.mp3"), true);
    assert_eq!(a, DeviceAction::Append("a.mp3".to_string()));
    assert_eq!(e, state_event(PlayerState::Playing));
    let toggle = PlayerMessage::new(PlayerCommand::PlayPause, None);
    let (a, e) = p.handle(&toggle, false);
    assert_eq!(a, DeviceAction::Pause);
    assert_eq!(e, state_event(PlayerState::Paused));
    let (a, e) = p.handle(&toggle, false);
    assert_eq!(a, DeviceAction::Resume);
    assert_eq!(e, state_event(PlayerState::Playing));
    assert_eq!(p.get_player_state(), PlayerState::Playing);
}

#[test]
fn worker_toggle_with_nothing_loaded_stays_paused() {
    let mut p = Player::new();
    let (a, e) = p.handle(&PlayerMessage::new(PlayerCommand::PlayPause, None), false);
    assert_eq!(a, DeviceAction::Nothing);
    assert_eq!(e, state_event(PlayerState::Paused));
    assert_eq!(p.skip(), DeviceAction::Nothing);
}

#[test]
fn worker_failed_decode_leaves_state() {
    let mut p = Player::new();
    let (a, e) = p.handle(&play("broken.mp3"), false);
    assert_eq!(a, DeviceAction::Nothing);
    assert_eq!(e, state_event(PlayerState::Paused));
    p.handle(&play("good.mp3"), true);
    let (a, e) = p.handle(&play("broken.mp3"), false);
    assert_eq!(a, DeviceAction::Nothing);
    assert_eq!(e, state_event(PlayerState::Playing));
}

#[test]
fn worker_stop_reports_paused() {
    let mut p = Player::new();
    p.handle(&play("a.mp3"), true);
    assert_eq!(
        p.handle(&PlayerMessage::new(PlayerCommand::Skip, None), false).0,
        DeviceAction::SkipOne
    );
    let (a, e) = p.handle(&PlayerMessage::new(PlayerCommand::Stop, None), false);
    assert_eq!(a, DeviceAction::Halt);
    assert_eq!(e, state_event(PlayerState::Paused));
    assert_eq!(p.skip(), DeviceAction::Nothing);
    p.set_player_state(PlayerState::Playing);
    assert_eq!(p.get_player_state(), PlayerState::Playing);
}

#[test]
fn messages_keep_their_fields() {
    let m = PlayerMessage::new(PlayerCommand::Skip, None);
    assert_eq!(m.get_command(), PlayerCommand::Skip);
    assert_eq!(m.get_message(), None);
    let e = finished_event();
    assert_eq!(e.get_command(), ControllerCommand::PopQueue);
    assert_eq!(e.get_state(), None);
}

#[test]
fn song_title_strips_the_extension() {
    let s = Song::new("/music/x/song.name.flac".to_string(), Some("Band".to_string()));
    assert_eq!(s.get_title(), Some("song.name".to_string()));
    assert_eq!(s.get_artist(), Some("Band".to_string()));
    assert_eq!(s.get_path(), "/music/x/song.name.flac".to_string());
    let s = Song::new("/music/no_extension".to_string(), None);
    assert_eq!(s.get_title(), None);
    assert_eq!(s.get_artist(), None);
    let s = Song::new("dir.v2/.hidden".to_string(), None);
    assert_eq!(s.get_title(), Some("".to_string()));
}

#[test]
fn ui_switches_windows() {
    let mut ui = Ui::new();
    assert_eq!(ui.get_current_window(), Window::Home);
    ui.set_current_window(Window::Queue);
    assert_eq!(ui.get_current_window(), Window::Queue);
}
