//! The timer engine: the decision step of the command loop.
//!
//! The loop itself (the bounded queue, the tray menu, notifications, the
//! wall clock) lives outside the library. Each iteration the caller reads
//! the monotonic clock as whole seconds, asks `checkExpiry` whether the
//! running phase has run out (and if so feeds a Skip through its queue),
//! then hands the next command to `handleMessage` and performs the side
//! effect the returned `Effect` asks for.

use vstd::prelude::*;

use crate::phase::TimedState;
use crate::state::State;

verus! {

/// A user command, one per tray menu entry.
#[derive(Clone, Copy, PartialEq, Eq, Debug, Structural)]
pub enum Message {
    Start,
    Stop,
    Skip,
    TimeCheck,
    Quit,
    Debug,
}

/// The side effect a step asks its caller to perform.
#[derive(Clone, Copy, PartialEq, Eq, Debug, Structural)]
pub enum Effect {
    /// The run state changed: update the tray label and icon from the new
    /// state's display data and send its notification text.
    Refresh,
    /// Skip or TimeCheck arrived while halted: report "currently halted"
    /// and change nothing.
    ReportHalted,
    /// TimeCheck while running: report this many minutes left.
    ReportMinutes(u64),
    /// The debug flag was toggled: show or hide the diagnostic window.
    SetWindow(bool),
    /// Quit: leave the command loop.
    Quit,
}

/// The engine's whole state: the run state, the break counter (starts at 1,
/// incremented on every transition into a break, never reset) and the debug
/// flag.
#[derive(Clone, Copy, PartialEq, Eq, Debug, Structural)]
pub struct Engine {
    pub state: State,
    pub numberOfBreaks: i32,
    pub windowVisible: bool,
}

/// Minutes reported by TimeCheck: one more than the whole minutes still to
/// run, so 4:59 left reads as 5. An overrun phase (elapsed past the length,
/// possible for under one tick before auto-expiry fires) clamps to 1 rather
/// than wrapping.
pub open spec fn spec_minutes_left(technique: TimedState, elapsedSecs: u64) -> u64 {
    if elapsedSecs >= technique.spec_length_secs() {
        1
    } else {
        ((technique.spec_length_secs() - elapsedSecs) / 60 + 1) as u64
    }
}

/// One step of the state machine: the next engine state and the side
/// effect, for a command arriving at clock reading `nowSecs`.
pub open spec fn spec_handle(e: Engine, msg: Message, nowSecs: u64) -> (Engine, Effect) {
    match msg {
        Message::Start => {
            let technique = match e.state {
                State::Timed(_, t) => t,
                State::Halted => TimedState::Working,
            };
            (
                Engine {
                    state: State::Timed(nowSecs, technique),
                    numberOfBreaks: e.numberOfBreaks,
                    windowVisible: e.windowVisible,
                },
                Effect::Refresh,
            )
        },
        Message::Stop => (
            Engine {
                state: State::Halted,
                numberOfBreaks: e.numberOfBreaks,
                windowVisible: e.windowVisible,
            },
            Effect::Refresh,
        ),
        Message::Skip => match e.state {
            State::Timed(_, t) => {
                let next = t.spec_next(e.numberOfBreaks % 4 == 0);
                let counter = if next is Break || next is LongerBreak {
                    (e.numberOfBreaks + 1) as i32
                } else {
                    e.numberOfBreaks
                };
                (
                    Engine {
                        state: State::Timed(nowSecs, next),
                        numberOfBreaks: counter,
                        windowVisible: e.windowVisible,
                    },
                    Effect::Refresh,
                )
            },
            State::Halted => (e, Effect::ReportHalted),
        },
        Message::TimeCheck => match e.state {
            State::Timed(start, t) => (
                e,
                Effect::ReportMinutes(spec_minutes_left(t, (nowSecs - start) as u64)),
            ),
            State::Halted => (e, Effect::ReportHalted),
        },
        Message::Debug => (
            Engine {
                state: e.state,
                numberOfBreaks: e.numberOfBreaks,
                windowVisible: !e.windowVisible,
            },
            Effect::SetWindow(!e.windowVisible),
        ),
        Message::Quit => (e, Effect::Quit),
    }
}

/// Whether the running phase's elapsed time has reached its length, so
/// that the caller must feed a Skip through its queue. Never true while
/// halted.
pub open spec fn spec_expired(e: Engine, nowSecs: u64) -> bool {
    e.state matches State::Timed(start, technique)
        && nowSecs - start >= technique.spec_length_secs()
}

impl Engine {
    /// The break counter never leaves 1 behind.
    pub open spec fn wf(self) -> bool {
        1 <= self.numberOfBreaks
    }

    /// A fresh engine: halted, counter at 1, diagnostic window hidden.
    pub fn new() -> (e: Engine)
        ensures
            e.wf(),
            e.state is Halted,
            e.numberOfBreaks == 1,
            !e.windowVisible,
    {
        Engine { state: State::Halted, numberOfBreaks: 1, windowVisible: false }
    }

    /// Whether the running phase has run out at reading `nowSecs`.
    pub fn checkExpiry(&self, nowSecs: u64) -> (r: bool)
        requires
            self.state.started_by(nowSecs),
        ensures
            r == spec_expired(*self, nowSecs),
    {
        match &self.state {
            State::Timed(startTime, technique) => nowSecs - *startTime >= technique.getLength(),
            State::Halted => false,
        }
    }

    /// Process one command at clock reading `nowSecs`: step the state
    /// machine exactly as `spec_handle` says and return the side effect
    /// the caller must perform.
    pub fn handleMessage(&mut self, msg: Message, nowSecs: u64) -> (eff: Effect)
        requires
            old(self).wf(),
            old(self).state.started_by(nowSecs),
            old(self).numberOfBreaks < i32::MAX,
        ensures
            final(self).wf(),
            (*final(self), eff) == spec_handle(*old(self), msg, nowSecs),
    {
        match msg {
            Message::Quit => Effect::Quit,
            Message::TimeCheck => {
                let elapsed: u64;
                if let Some(e) = self.state.getElapsed(nowSecs) {
                    elapsed = e;
                } else {
                    return Effect::ReportHalted;
                }
                let technique = self.state.getTechnique().unwrap();
                let len = technique.getLength();
                let minutesLeft: u64 = if elapsed >= len {
                    1
                } else {
                    (len - elapsed) / 60 + 1
                };
                Effect::ReportMinutes(minutesLeft)
            },
            Message::Skip => {
                let nextState = match &self.state {
                    State::Timed(_, t) => t.nextState(self.numberOfBreaks % 4 == 0),
                    State::Halted => { return Effect::ReportHalted; },
                };
                if nextState == TimedState::Break || nextState == TimedState::LongerBreak {
                    self.numberOfBreaks = self.numberOfBreaks + 1;
                }
                self.state = State::Timed(nowSecs, nextState);
                Effect::Refresh
            },
            Message::Start => {
                let nextState = match &self.state {
                    State::Timed(_, t) => *t,
                    State::Halted => TimedState::Working,
                };
                self.state = State::Timed(nowSecs, nextState);
                Effect::Refresh
            },
            Message::Stop => {
                self.state = State::Halted;
                Effect::Refresh
            },
            Message::Debug => {
                self.windowVisible = !self.windowVisible;
                Effect::SetWindow(self.windowVisible)
            },
        }
    }
}

/// A Skip while running restarts the clock at `nowSecs` and moves the
/// counter by exactly one when the phase it advances to is a break, and
/// not at all when the next phase is work.
pub proof fn lemma_skip_counts_breaks(e: Engine, nowSecs: u64)
    requires
        e.wf(),
        e.numberOfBreaks < i32::MAX,
        e.state matches State::Timed(_, _),
    ensures
        ({
            let (e2, eff) = spec_handle(e, Message::Skip, nowSecs);
            &&& eff == Effect::Refresh
            &&& e2.state matches State::Timed(s, _) && s == nowSecs
            &&& (e2.state matches State::Timed(_, next) && (next is Break || next is LongerBreak)
                ==> e2.numberOfBreaks == e.numberOfBreaks + 1)
            &&& (e2.state matches State::Timed(_, next) && next is Working
                ==> e2.numberOfBreaks == e.numberOfBreaks)
        }),
{
}

/// No command but Skip ever moves the break counter.
pub proof fn lemma_only_skip_counts(e: Engine, msg: Message, nowSecs: u64)
    requires
        !(msg is Skip),
    ensures
        spec_handle(e, msg, nowSecs).0.numberOfBreaks == e.numberOfBreaks,
{
}

/// Once the counter stands at a multiple of four, the next Skip out of a
/// work phase chooses the longer break.
pub proof fn lemma_fourth_break_goes_longer(e: Engine, nowSecs: u64)
    requires
        e.wf(),
        e.numberOfBreaks < i32::MAX,
        e.state matches State::Timed(_, TimedState::Working),
        e.numberOfBreaks % 4 == 0,
    ensures
        ({
            let (e2, _) = spec_handle(e, Message::Skip, nowSecs);
            &&& e2.state == State::Timed(nowSecs, TimedState::LongerBreak)
            &&& e2.numberOfBreaks == e.numberOfBreaks + 1
        }),
{
}

/// Two Starts in a row while running reset the start instant to the later
/// reading and change neither the phase nor the counter.
pub proof fn lemma_start_twice_keeps_phase(e: Engine, t1: u64, t2: u64)
    requires
        e.state matches State::Timed(_, _),
    ensures
        ({
            let (e1, _) = spec_handle(e, Message::Start, t1);
            let (e2, _) = spec_handle(e1, Message::Start, t2);
            &&& (e.state matches State::Timed(_, p)
                ==> e1.state == State::Timed(t1, p) && e2.state == State::Timed(t2, p))
            &&& e2.numberOfBreaks == e.numberOfBreaks
            &&& e2.windowVisible == e.windowVisible
        }),
{
}

/// Skip and TimeCheck while halted change nothing at all; both only ask
/// for the halted diagnostic.
pub proof fn lemma_halted_is_inert(e: Engine, msg: Message, nowSecs: u64)
    requires
        e.state is Halted,
        msg is Skip || msg is TimeCheck,
    ensures
        spec_handle(e, msg, nowSecs).0 == e,
        spec_handle(e, msg, nowSecs).1 == Effect::ReportHalted,
{
}

/// A work phase whose elapsed time has reached 25 minutes counts as
/// expired, and the Skip the caller then feeds back moves the engine into
/// a break phase starting at `nowSecs` — no outside command needed.
pub proof fn lemma_auto_expiry_reaches_break(e: Engine, t0: u64, nowSecs: u64)
    requires
        e.wf(),
        e.numberOfBreaks < i32::MAX,
        e.state == State::Timed(t0, TimedState::Working),
        t0 <= nowSecs,
        nowSecs - t0 >= 1500,
    ensures
        spec_expired(e, nowSecs),
        ({
            let (e2, _) = spec_handle(e, Message::Skip, nowSecs);
            e2.state matches State::Timed(s, next) && s == nowSecs && (next is Break
                || next is LongerBreak)
        }),
{
}

/// Stop halts the timer from any state and never touches the break
/// counter.
pub proof fn lemma_stop_halts(e: Engine, nowSecs: u64)
    ensures
        ({
            let (e2, eff) = spec_handle(e, Message::Stop, nowSecs);
            &&& e2.state is Halted
            &&& e2.numberOfBreaks == e.numberOfBreaks
            &&& eff == Effect::Refresh
        }),
{
}

} // verus!
