//! What can go wrong while the game is set up.

use vstd::prelude::*;

verus! {

/// Why a scheduler cannot be made.
#[derive(Clone, Copy, Debug, PartialEq, Eq, Structural)]
pub enum SchedulerError {
    /// The ticks per second are below 1.
    BadTps,
    /// The maximum frame skip is below 1.
    BadFrameSkip,
}

/// Why the game cannot start.
#[derive(Clone, Copy, Debug, PartialEq, Eq, Structural)]
pub enum MyError {
    /// No input port of the controller was found.
    NoMidiInFound,
    /// The scheduler refused its configuration.
    GameLoopE(SchedulerError),
}

} // verus!
