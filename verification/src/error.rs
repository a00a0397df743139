//! What can go wrong, and what the process reports of it.

use crate::terminal::TerminalOp;
use vstd::prelude::*;

verus! {

/// A fatal error of the game.
#[derive(Clone, Copy, Debug, PartialEq, Eq, Structural)]
pub enum GameError {
    /// The terminal refused this setup operation.
    Terminal(TerminalOp),
    /// A sound clip could not be loaded.
    Asset,
    /// A clip was to be played under a name that was never registered.
    UnknownClip,
    /// Polling for input or reading it failed.
    Input,
}

/// The exit code of the process for a given end of the game.
pub open spec fn exit_code_of(outcome: Result<(), GameError>) -> u8 {
    if outcome is Ok {
        0
    } else {
        1
    }
}

/// The exit code: 0 after a clean quit, 1 after any fatal error.
pub fn exit_code(outcome: Result<(), GameError>) -> (code: u8)
    ensures
        code == exit_code_of(outcome),
{
    match outcome {
        Ok(_) => 0,
        Err(_) => 1,
    }
}

} // verus!
