//! The three timer phases and the rules that belong to them alone:
//! each phase's fixed length and the next-phase table.

use vstd::prelude::*;

verus! {

/// A phase of the timer cycle: a work interval, a short break, or the
/// longer break that follows every fourth break.
#[derive(Clone, Copy, PartialEq, Eq, Debug, Structural)]
pub enum TimedState {
    Working,
    Break,
    LongerBreak,
}

impl TimedState {
    /// The fixed length of each phase, in whole seconds:
    /// 25 minutes of work, 5 minutes of break, 15 minutes of longer break.
    pub open spec fn spec_length_secs(self) -> u64 {
        match self {
            TimedState::Working => 1500,
            TimedState::Break => 300,
            TimedState::LongerBreak => 900,
        }
    }

    /// The phase that follows `self`: a work phase is followed by a break
    /// (the longer one exactly when `isFourthBreak` holds), and either kind
    /// of break is followed by work.
    pub open spec fn spec_next(self, isFourthBreak: bool) -> TimedState {
        match self {
            TimedState::Working => if isFourthBreak {
                TimedState::LongerBreak
            } else {
                TimedState::Break
            },
            TimedState::Break => TimedState::Working,
            TimedState::LongerBreak => TimedState::Working,
        }
    }

    /// Length of this phase in whole seconds.
    pub fn getLength(&self) -> (r: u64)
        ensures
            r == self.spec_length_secs(),
            *self is Working ==> r == 1500,
            *self is Break ==> r == 300,
            *self is LongerBreak ==> r == 900,
    {
        let minLength: u64 = match self {
            TimedState::Working => 25,
            TimedState::Break => 5,
            TimedState::LongerBreak => 15,
        };
        minLength * 60
    }

    /// The phase the timer advances to when this one ends or is skipped.
    /// Total on every phase and either flag value.
    pub fn nextState(&self, isFourthBreak: bool) -> (r: TimedState)
        ensures
            r == self.spec_next(isFourthBreak),
            *self is Working && isFourthBreak ==> r is LongerBreak,
            *self is Working && !isFourthBreak ==> r is Break,
            *self is Break || *self is LongerBreak ==> r is Working,
    {
        match self {
            TimedState::Working => {
                if isFourthBreak {
                    TimedState::LongerBreak
                } else {
                    TimedState::Break
                }
            },
            TimedState::Break | TimedState::LongerBreak => TimedState::Working,
        }
    }
}

} // verus!
