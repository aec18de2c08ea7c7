//! What the engine asks its host to show.

use vstd::prelude::*;

verus! {

/// One thing for the host to do on the display. The engine decides what is
/// said and with which numbers; the host chooses the words.
#[derive(Clone, Copy, Debug, PartialEq, Eq, Structural)]
pub enum Output {
    /// Greet the player: name the interval and the number of attempts, and
    /// ask for a line of input to begin.
    Welcome { lowest: u32, highest: u32, max_attempts: u32 },
    /// Clear the display.
    ClearDisplay,
    /// The player's answers leave no number: name both bounds.
    Contradiction { lowest: u32, highest: u32 },
    /// Announce the attempt with this number, counted from one.
    Attempt { number: u32 },
    /// Warn that this attempt is the last one.
    FinalAttempt,
    /// Show the guess.
    Guess { number: u32 },
    /// Show the four answers the player may give.
    Options,
    /// The line of input was none of the four answers.
    InvalidOption,
    /// The attempts are used up.
    Loss,
    /// The number was found: reveal it.
    Win { answer: u32 },
}

} // verus!
