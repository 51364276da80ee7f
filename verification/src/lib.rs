//! Core of a cyclic work/break ("pomodoro") interval timer.
//!
//! The library holds the timer's logic: the three phases and their fixed
//! lengths, the run state (halted, or running in a phase since some instant),
//! the break counter with its every-fourth-break rule, and the engine step
//! that turns a user command into the next state and a requested side effect.
//! Clock readings enter as whole seconds of a monotonic clock; the tray icon,
//! notifications and the command queue live outside the library.

#![allow(non_snake_case)]

pub mod engine;
pub mod phase;
pub mod state;
