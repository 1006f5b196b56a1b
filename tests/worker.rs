use click_replay::{drifted, Action, Event, Phase, Position, ReplayCommand, ReplayState, Worker};
use click_replay::{DEFAULT_INTERVAL_MS, IDLE_POLL_MS};

fn pos(x: i32, y: i32) -> Position {
    Position { x, y }
}

/// Drives a fresh worker through a record at `p` and ends its tick.
fn recorded_at(p: Position) -> Worker {
    let mut w = Worker::new();
    assert_eq!(w.step(Event::Command(Some(ReplayCommand::Record))), Action::QueryLocation);
    assert_eq!(w.step(Event::Location(Some(p))), Action::Sleep(IDLE_POLL_MS));
    assert_eq!(w.step(Event::Slept), Action::Receive);
    w
}

/// A worker replaying towards `p` with interval `ms`, waiting on the drift check.
fn replaying_at(p: Position, ms: u64) -> Worker {
    let mut w = recorded_at(p);
    assert_eq!(w.step(Event::Command(Some(ReplayCommand::Start { wait_time_ms: ms }))), Action::MoveTo(p));
    assert_eq!(w.step(Event::Moved(true)), Action::QueryLocation);
    w
}

#[test]
fn new_worker_is_idle_and_receiving() {
    let w = Worker::new();
    assert_eq!(w.phase, Phase::Receiving);
    assert_eq!(w.state.recorded_position, None);
    assert!(!w.state.is_replaying);
    assert_eq!(w.state.interval_ms, DEFAULT_INTERVAL_MS);
    assert_eq!(w.pending_action(), Action::Receive);
}

#[test]
fn empty_channel_idle_sleeps_idle_poll() {
    let mut w = Worker::new();
    assert_eq!(w.step(Event::Command(None)), Action::Sleep(50));
    assert_eq!(w.step(Event::Slept), Action::Receive);
}

#[test]
fn record_then_start_clicks_at_target() {
    let target = pos(100, 200);
    let mut w = recorded_at(target);
    assert_eq!(w.state.recorded_position, Some(target));
    assert!(!w.state.is_replaying);
    assert_eq!(w.step(Event::Command(Some(ReplayCommand::Start { wait_time_ms: 50 }))), Action::MoveTo(target));
    assert_eq!(w.step(Event::Moved(true)), Action::QueryLocation);
    assert!(w.state.is_replaying);
    assert_eq!(w.state.interval_ms, 50);
    assert_eq!(w.step(Event::Location(Some(target))), Action::MoveTo(target));
    assert_eq!(w.step(Event::Moved(true)), Action::Click);
    assert_eq!(w.step(Event::Clicked(true)), Action::Sleep(50));
    assert_eq!(w.step(Event::Slept), Action::Receive);
    // the next tick clicks again without a new command
    assert_eq!(w.step(Event::Command(None)), Action::QueryLocation);
    assert_eq!(w.step(Event::Location(Some(target))), Action::MoveTo(target));
    assert_eq!(w.step(Event::Moved(true)), Action::Click);
    assert_eq!(w.step(Event::Clicked(true)), Action::Sleep(50));
}

#[test]
fn manual_move_stops_without_click() {
    let mut w = replaying_at(pos(100, 200), 50);
    assert_eq!(w.step(Event::Location(Some(pos(110, 200)))), Action::Sleep(IDLE_POLL_MS));
    assert!(!w.state.is_replaying);
    assert_eq!(w.phase, Phase::Sleeping);
    assert_eq!(w.state.recorded_position, Some(pos(100, 200)));
}

#[test]
fn manual_move_uses_idle_poll_even_with_long_interval() {
    let mut w = replaying_at(pos(100, 200), 750);
    assert_eq!(w.step(Event::Location(Some(pos(100, 194)))), Action::Sleep(50));
    assert!(!w.state.is_replaying);
}

#[test]
fn start_without_record_stays_idle() {
    let mut w = Worker::new();
    assert_eq!(w.step(Event::Command(Some(ReplayCommand::Start { wait_time_ms: 30 }))), Action::Sleep(50));
    assert!(!w.state.is_replaying);
    assert_eq!(w.state.interval_ms, DEFAULT_INTERVAL_MS);
}

#[test]
fn stop_while_idle_changes_nothing() {
    let mut w = recorded_at(pos(3, 4));
    let before = w.state;
    assert_eq!(w.step(Event::Command(Some(ReplayCommand::Stop))), Action::Sleep(50));
    assert_eq!(w.state, before);
}

#[test]
fn stop_while_replaying_goes_idle() {
    let mut w = replaying_at(pos(1, 1), 40);
    assert_eq!(w.step(Event::Location(Some(pos(1, 1)))), Action::MoveTo(pos(1, 1)));
    assert_eq!(w.step(Event::Moved(true)), Action::Click);
    assert_eq!(w.step(Event::Clicked(true)), Action::Sleep(40));
    assert_eq!(w.step(Event::Slept), Action::Receive);
    assert_eq!(w.step(Event::Command(Some(ReplayCommand::Stop))), Action::Sleep(50));
    assert!(!w.state.is_replaying);
    assert_eq!(w.state.recorded_position, Some(pos(1, 1)));
}

#[test]
fn start_while_replaying_keeps_target_and_interval() {
    let mut w = replaying_at(pos(100, 200), 50);
    assert_eq!(w.step(Event::Location(Some(pos(100, 200)))), Action::MoveTo(pos(100, 200)));
    assert_eq!(w.step(Event::Moved(true)), Action::Click);
    assert_eq!(w.step(Event::Clicked(true)), Action::Sleep(50));
    assert_eq!(w.step(Event::Slept), Action::Receive);
    let before = w.state;
    assert_eq!(w.step(Event::Command(Some(ReplayCommand::Start { wait_time_ms: 999 }))), Action::QueryLocation);
    assert_eq!(w.state, before);
    assert_eq!(w.state.interval_ms, 50);
}

#[test]
fn failed_first_move_does_not_start() {
    let mut w = recorded_at(pos(7, 8));
    assert_eq!(w.step(Event::Command(Some(ReplayCommand::Start { wait_time_ms: 20 }))), Action::MoveTo(pos(7, 8)));
    assert_eq!(w.step(Event::Moved(false)), Action::Sleep(50));
    assert!(!w.state.is_replaying);
    assert_eq!(w.state.interval_ms, DEFAULT_INTERVAL_MS);
}

#[test]
fn failed_query_during_record_keeps_previous_position() {
    let mut w = recorded_at(pos(5, 6));
    assert_eq!(w.step(Event::Command(Some(ReplayCommand::Record))), Action::QueryLocation);
    assert_eq!(w.step(Event::Location(None)), Action::Sleep(50));
    assert_eq!(w.state.recorded_position, Some(pos(5, 6)));
}

#[test]
fn record_while_replaying_retargets() {
    let mut w = replaying_at(pos(10, 10), 60);
    assert_eq!(w.step(Event::Location(Some(pos(10, 10)))), Action::MoveTo(pos(10, 10)));
    assert_eq!(w.step(Event::Moved(true)), Action::Click);
    assert_eq!(w.step(Event::Clicked(true)), Action::Sleep(60));
    assert_eq!(w.step(Event::Slept), Action::Receive);
    assert_eq!(w.step(Event::Command(Some(ReplayCommand::Record))), Action::QueryLocation);
    assert_eq!(w.step(Event::Location(Some(pos(40, 50)))), Action::QueryLocation);
    assert_eq!(w.state.recorded_position, Some(pos(40, 50)));
    assert_eq!(w.step(Event::Location(Some(pos(40, 50)))), Action::MoveTo(pos(40, 50)));
}

#[test]
fn failed_query_during_check_stops() {
    let mut w = replaying_at(pos(100, 200), 50);
    assert_eq!(w.step(Event::Location(None)), Action::Sleep(50));
    assert!(!w.state.is_replaying);
}

#[test]
fn failed_corrective_move_stops() {
    let mut w = replaying_at(pos(100, 200), 80);
    assert_eq!(w.step(Event::Location(Some(pos(102, 198)))), Action::MoveTo(pos(100, 200)));
    assert_eq!(w.step(Event::Moved(false)), Action::Sleep(50));
    assert!(!w.state.is_replaying);
}

#[test]
fn failed_click_stops() {
    let mut w = replaying_at(pos(100, 200), 80);
    assert_eq!(w.step(Event::Location(Some(pos(100, 200)))), Action::MoveTo(pos(100, 200)));
    assert_eq!(w.step(Event::Moved(true)), Action::Click);
    assert_eq!(w.step(Event::Clicked(false)), Action::Sleep(50));
    assert!(!w.state.is_replaying);
}

#[test]
fn unexpected_outcome_leaves_worker_unchanged() {
    let mut w = Worker::new();
    let before = w;
    assert_eq!(w.step(Event::Clicked(true)), Action::Receive);
    assert_eq!(w, before);
    let mut r = replaying_at(pos(1, 2), 10);
    let before = r;
    assert_eq!(r.step(Event::Slept), Action::QueryLocation);
    assert_eq!(r, before);
}

#[test]
fn deviation_of_exactly_tolerance_is_no_drift() {
    let t = pos(100, 200);
    assert!(!drifted(t, pos(105, 205)));
    assert!(!drifted(t, pos(95, 195)));
    assert!(!drifted(t, t));
}

#[test]
fn deviation_of_tolerance_plus_one_is_drift() {
    let t = pos(100, 200);
    assert!(drifted(t, pos(106, 200)));
    assert!(drifted(t, pos(100, 194)));
    assert!(drifted(t, pos(94, 206)));
}

#[test]
fn drift_at_coordinate_extremes_does_not_overflow() {
    assert!(drifted(pos(i32::MIN, 0), pos(i32::MAX, 0)));
    assert!(drifted(pos(0, i32::MAX), pos(0, i32::MIN)));
    assert!(!drifted(pos(i32::MAX, i32::MIN), pos(i32::MAX - 5, i32::MIN + 5)));
}

#[test]
fn sleep_follows_replay_flag() {
    let idle = ReplayState::new();
    assert_eq!(idle.sleep_ms(), 50);
    let active = ReplayState { recorded_position: Some(pos(0, 0)), is_replaying: true, interval_ms: 250 };
    assert_eq!(active.sleep_ms(), 250);
}
