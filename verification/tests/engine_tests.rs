use pomodoro_tray::engine::{Effect, Engine, Message};
use pomodoro_tray::phase::TimedState;
use pomodoro_tray::state::State;

#[test]
fn fresh_engine_is_halted() {
    let e = Engine::new();
    assert_eq!(e.state, State::Halted);
    assert_eq!(e.numberOfBreaks, 1);
    assert!(!e.windowVisible);
}

#[test]
fn start_from_halted_begins_working() {
    let mut e = Engine::new();
    let eff = e.handleMessage(Message::Start, 50);
    assert_eq!(e.state, State::Timed(50, TimedState::Working));
    assert_eq!(e.numberOfBreaks, 1);
    assert_eq!(eff, Effect::Refresh);
}

#[test]
fn start_twice_resets_instant_keeps_phase() {
    let mut e = Engine::new();
    e.handleMessage(Message::Start, 50);
    e.handleMessage(Message::Skip, 60);
    assert_eq!(e.state, State::Timed(60, TimedState::Break));
    let counter = e.numberOfBreaks;
    e.handleMessage(Message::Start, 70);
    assert_eq!(e.state, State::Timed(70, TimedState::Break));
    e.handleMessage(Message::Start, 80);
    assert_eq!(e.state, State::Timed(80, TimedState::Break));
    assert_eq!(e.numberOfBreaks, counter);
}

#[test]
fn skip_increments_counter_only_into_breaks() {
    let mut e = Engine::new();
    e.handleMessage(Message::Start, 0);
    assert_eq!(e.numberOfBreaks, 1);
    e.handleMessage(Message::Skip, 1); // Working -> Break
    assert_eq!(e.numberOfBreaks, 2);
    e.handleMessage(Message::Skip, 2); // Break -> Working: no increment
    assert_eq!(e.state, State::Timed(2, TimedState::Working));
    assert_eq!(e.numberOfBreaks, 2);
}

#[test]
fn fourth_break_is_the_longer_one() {
    // The scenario from the every-fourth-break rule: the skip that makes
    // the counter a multiple of four makes the next work phase end in the
    // longer break.
    let mut e = Engine::new();
    e.handleMessage(Message::Start, 0);
    assert_eq!(e.state, State::Timed(0, TimedState::Working));

    let eff = e.handleMessage(Message::Skip, 1);
    assert_eq!(e.state, State::Timed(1, TimedState::Break));
    assert_eq!(e.numberOfBreaks, 2);
    assert_eq!(eff, Effect::Refresh);

    e.handleMessage(Message::Skip, 2);
    assert_eq!(e.state, State::Timed(2, TimedState::Working));

    e.handleMessage(Message::Skip, 3);
    assert_eq!(e.state, State::Timed(3, TimedState::Break));
    assert_eq!(e.numberOfBreaks, 3);

    e.handleMessage(Message::Skip, 4);
    assert_eq!(e.state, State::Timed(4, TimedState::Working));

    e.handleMessage(Message::Skip, 5);
    assert_eq!(e.state, State::Timed(5, TimedState::Break));
    assert_eq!(e.numberOfBreaks, 4);

    e.handleMessage(Message::Skip, 6);
    assert_eq!(e.state, State::Timed(6, TimedState::Working));

    // Counter is 4 now, so this work phase skips into the longer break.
    e.handleMessage(Message::Skip, 7);
    assert_eq!(e.state, State::Timed(7, TimedState::LongerBreak));
    assert_eq!(e.numberOfBreaks, 5);
}

#[test]
fn skip_and_timecheck_while_halted_change_nothing() {
    let mut e = Engine::new();
    let eff = e.handleMessage(Message::Skip, 100);
    assert_eq!(eff, Effect::ReportHalted);
    assert_eq!(e.state, State::Halted);
    assert_eq!(e.numberOfBreaks, 1);

    let eff = e.handleMessage(Message::TimeCheck, 200);
    assert_eq!(eff, Effect::ReportHalted);
    assert_eq!(e.state, State::Halted);
    assert_eq!(e.numberOfBreaks, 1);
}

#[test]
fn auto_expiry_advances_working_into_a_break() {
    // Simulated clock: a work phase started at 1000 has run out once the
    // reading reaches 1000 + 1500, and the self-injected Skip moves the
    // engine into a break without any outside command.
    let mut e = Engine::new();
    e.handleMessage(Message::Start, 1000);
    assert!(!e.checkExpiry(1000));
    assert!(!e.checkExpiry(2499));
    assert!(e.checkExpiry(2500));
    assert!(e.checkExpiry(2600));

    e.handleMessage(Message::Skip, 2500);
    assert_eq!(e.state, State::Timed(2500, TimedState::Break));
}

#[test]
fn expiry_never_fires_while_halted() {
    let e = Engine::new();
    assert!(!e.checkExpiry(0));
    assert!(!e.checkExpiry(1_000_000));
}

#[test]
fn timecheck_right_after_start_reports_25() {
    // One tick after Start on a work phase the report reads 25 minutes:
    // floor(1499 / 60) = 24, plus the one-minute reporting offset.
    let mut e = Engine::new();
    e.handleMessage(Message::Start, 0);
    let eff = e.handleMessage(Message::TimeCheck, 1);
    assert_eq!(eff, Effect::ReportMinutes(25));
}

#[test]
fn timecheck_offset_convention() {
    let mut e = Engine::new();
    e.handleMessage(Message::Start, 0);
    // 4:59 left reads as 5: elapsed 1201 of 1500 leaves 299 seconds.
    let eff = e.handleMessage(Message::TimeCheck, 1201);
    assert_eq!(eff, Effect::ReportMinutes(5));
    // A whole minute boundary: 300 seconds left reads as 6.
    let eff = e.handleMessage(Message::TimeCheck, 1200);
    assert_eq!(eff, Effect::ReportMinutes(6));
}

#[test]
fn timecheck_clamps_when_overrun() {
    // Elapsed may pass the length for under one tick before auto-expiry
    // fires; the report clamps to 1 instead of wrapping.
    let mut e = Engine::new();
    e.handleMessage(Message::Start, 0);
    let eff = e.handleMessage(Message::TimeCheck, 1500);
    assert_eq!(eff, Effect::ReportMinutes(1));
    let eff = e.handleMessage(Message::TimeCheck, 1501);
    assert_eq!(eff, Effect::ReportMinutes(1));
}

#[test]
fn stop_always_halts_and_keeps_counter() {
    let mut e = Engine::new();
    e.handleMessage(Message::Start, 0);
    e.handleMessage(Message::Skip, 1);
    e.handleMessage(Message::Skip, 2);
    e.handleMessage(Message::Skip, 3);
    let counter = e.numberOfBreaks;
    assert_eq!(counter, 3);
    let eff = e.handleMessage(Message::Stop, 4);
    assert_eq!(e.state, State::Halted);
    assert_eq!(e.numberOfBreaks, counter);
    assert_eq!(eff, Effect::Refresh);

    // Stop while already halted stays halted.
    let eff = e.handleMessage(Message::Stop, 5);
    assert_eq!(e.state, State::Halted);
    assert_eq!(eff, Effect::Refresh);
}

#[test]
fn debug_toggles_window_visibility() {
    let mut e = Engine::new();
    let eff = e.handleMessage(Message::Debug, 0);
    assert_eq!(eff, Effect::SetWindow(true));
    assert!(e.windowVisible);
    let eff = e.handleMessage(Message::Debug, 1);
    assert_eq!(eff, Effect::SetWindow(false));
    assert!(!e.windowVisible);
    assert_eq!(e.state, State::Halted);
    assert_eq!(e.numberOfBreaks, 1);
}

#[test]
fn quit_leaves_state_alone() {
    let mut e = Engine::new();
    e.handleMessage(Message::Start, 9);
    let eff = e.handleMessage(Message::Quit, 10);
    assert_eq!(eff, Effect::Quit);
    assert_eq!(e.state, State::Timed(9, TimedState::Working));
}
