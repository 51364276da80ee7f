//! The timer's run state: halted, or running in a phase since a clock
//! reading. Instants are whole seconds of a monotonic clock, handed in by
//! the caller; the library never reads a clock itself.

use vstd::prelude::*;

use crate::phase::TimedState;

verus! {

/// Either the timer is halted, or it runs in one phase and carries the
/// clock reading (whole seconds) taken when that phase began.
#[derive(Clone, Copy, PartialEq, Eq, Debug, Structural)]
pub enum State {
    Timed(u64, TimedState),
    Halted,
}

impl State {
    /// Whether `nowSecs` is no earlier than the start reading, so that the
    /// elapsed time is non-negative. Holds trivially of a halted timer.
    pub open spec fn started_by(self, nowSecs: u64) -> bool {
        self matches State::Timed(start, _) ==> start <= nowSecs
    }

    /// Seconds elapsed in the current phase at reading `nowSecs`;
    /// nothing when halted.
    pub open spec fn spec_elapsed(self, nowSecs: u64) -> Option<u64> {
        match self {
            State::Timed(start, _) => Some((nowSecs - start) as u64),
            State::Halted => None,
        }
    }

    /// The phase the timer runs in; nothing when halted.
    pub open spec fn spec_technique(self) -> Option<TimedState> {
        match self {
            State::Timed(_, technique) => Some(technique),
            State::Halted => None,
        }
    }

    /// The display data of a state: icon identifier, tray label and
    /// notification text, one fixed triple per phase and one for the
    /// halted state.
    pub open spec fn spec_data(self) -> (Seq<char>, Seq<char>, Seq<char>) {
        match self {
            State::Timed(_, TimedState::Working) => (
                "working"@,
                "working"@,
                "time to start working!"@,
            ),
            State::Timed(_, TimedState::Break) => (
                "break"@,
                "Break Time!"@,
                "short break time!"@,
            ),
            State::Timed(_, TimedState::LongerBreak) => (
                "longer-break"@,
                "Longer Break Time!"@,
                "longer break time! have fun!"@,
            ),
            State::Halted => ("default"@, "halted"@, "halted timer"@),
        }
    }

    /// Seconds elapsed since the current phase began, at clock reading
    /// `nowSecs`; `None` when the timer is halted.
    pub fn getElapsed(&self, nowSecs: u64) -> (r: Option<u64>)
        requires
            self.started_by(nowSecs),
        ensures
            r == self.spec_elapsed(nowSecs),
    {
        let startTime: u64 = match self {
            State::Halted => { return None; },
            State::Timed(s, _) => *s,
        };
        Some(nowSecs - startTime)
    }

    /// The running phase, or `None` when halted.
    pub fn getTechnique(&self) -> (r: Option<TimedState>)
        ensures
            r == self.spec_technique(),
    {
        let technique = match self {
            State::Halted => { return None; },
            State::Timed(_, t) => t,
        };
        Some(*technique)
    }

    /// Icon identifier, tray label and notification text for this state.
    pub fn getData(&self) -> (r: (&'static str, &'static str, &'static str))
        ensures
            (r.0@, r.1@, r.2@) == self.spec_data(),
    {
        match self {
            State::Timed(_, TimedState::Working) => (
                "working",
                "working",
                "time to start working!",
            ),
            State::Timed(_, TimedState::Break) => (
                "break",
                "Break Time!",
                "short break time!",
            ),
            State::Timed(_, TimedState::LongerBreak) => (
                "longer-break",
                "Longer Break Time!",
                "longer break time! have fun!",
            ),
            State::Halted => ("default", "halted", "halted timer"),
        }
    }
}

} // verus!
