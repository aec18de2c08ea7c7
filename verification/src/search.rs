//! The bisection step and the bounds of a game.

use vstd::prelude::*;

verus! {

/// Lowest number the player may think of.
pub const START_LOWEST: u32 = 1;

/// Highest number the player may think of.
pub const START_HIGHEST: u32 = 100;

/// Number of guesses the engine allows itself.
pub const MAX_ATTEMPTS: u32 = 7;

/// The number to guess for the inclusive interval from `lowest` to `highest`:
/// the average of the two bounds, rounded down.
pub open spec fn midpoint(lowest: int, highest: int) -> int {
    (lowest + highest) / 2
}

/// The most numbers that can still be in question after `rounds` wrong
/// guesses, when there were `count` to begin with: every wrong guess leaves at
/// most half of them, rounded down.
pub open spec fn candidates_left(count: int, rounds: int) -> int
    decreases rounds,
{
    if rounds <= 0 {
        count
    } else {
        candidates_left(count, rounds - 1) / 2
    }
}

/// Computes the guess for the interval from `lowest` to `highest`.
///
/// The sum of the bounds is formed in 64 bits, so every pair of bounds is
/// accepted.
pub fn predict_num(lowest: u32, highest: u32) -> (guess: u32)
    ensures
        guess == midpoint(lowest as int, highest as int),
        lowest == highest ==> guess == lowest,
        lowest <= highest ==> lowest <= guess <= highest,
{
    if lowest == highest {
        return lowest;
    }
    let sum: u64 = lowest as u64 + highest as u64;
    (sum / 2) as u32
}

} // verus!
