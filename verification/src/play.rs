//! Whole games: the course of play under a series of answers, and what holds
//! of every such course.

use crate::engine::{lemma_begin_valid, lemma_initial_valid, lemma_respond_valid, Phase, State};
use crate::output::Output;
use crate::response::Response;
use crate::search::{candidates_left, MAX_ATTEMPTS, START_HIGHEST, START_LOWEST};
use vstd::prelude::*;

verus! {

/// The state in which the first guess is shown: the game has started and the
/// player has acknowledged the greeting.
pub open spec fn opening() -> State {
    State::initial().begin()
}

/// The state that the answers `responses`, given one after the other, lead to
/// from the state `s`.
pub open spec fn play(s: State, responses: Seq<Response>) -> State
    decreases responses.len(),
{
    if responses.len() == 0 {
        s
    } else {
        play(s, responses.drop_last()).respond(responses.last())
    }
}

/// The truthful answer to `guess` of a player who thinks of `secret`.
pub open spec fn honest(secret: int, guess: int) -> Response {
    if guess < secret {
        Response::TooLow
    } else if guess > secret {
        Response::TooHigh
    } else {
        Response::Correct
    }
}

/// The state in which the game ends when the player, thinking of `secret`,
/// answers every guess truthfully from the state `s` on.
pub open spec fn play_honestly(s: State, secret: int) -> State
    decreases MAX_ATTEMPTS - s.attempts,
{
    if s.phase == Phase::Guessing && s.attempts < MAX_ATTEMPTS {
        play_honestly(s.respond(honest(secret, s.guess())), secret)
    } else {
        s
    }
}

/// The first guess is shown in a valid state, for the whole interval and with
/// no attempt made.
pub proof fn lemma_opening()
    ensures
        opening().valid(),
        opening().phase == Phase::Guessing,
        opening().lowest == START_LOWEST,
        opening().highest == START_HIGHEST,
        opening().attempts == 0,
{
    lemma_initial_valid();
    lemma_begin_valid(State::initial());
}

/// Whatever the player answers, the game stays in a valid state.
pub proof fn lemma_play_valid(s: State, responses: Seq<Response>)
    requires
        s.valid(),
    ensures
        play(s, responses).valid(),
    decreases responses.len(),
{
    if responses.len() > 0 {
        lemma_play_valid(s, responses.drop_last());
        lemma_respond_valid(play(s, responses.drop_last()), responses.last());
    }
}

/// One round more: the state after the first `k + 1` answers is the state
/// after the first `k`, answered with the next one.
pub proof fn lemma_play_step(s: State, responses: Seq<Response>, k: int)
    requires
        0 <= k < responses.len(),
    ensures
        play(s, responses.take(k + 1)) == play(s, responses.take(k)).respond(responses[k]),
{
    assert(responses.take(k + 1).drop_last() == responses.take(k));
}

/// An answer of "too low" or "too high" to a guess strictly narrows the range
/// of numbers in question, and the new range lies within the old one.
pub proof fn lemma_respond_narrows(s: State, response: Response)
    requires
        s.valid(),
        s.phase == Phase::Guessing,
        response == Response::TooLow || response == Response::TooHigh,
    ensures
        s.lowest <= s.respond(response).lowest,
        s.respond(response).highest <= s.highest,
        s.respond(response).highest - s.respond(response).lowest < s.highest - s.lowest,
{
}

/// In every game, each round that is answered with "too low" or "too high"
/// strictly narrows the range, and the new range lies within the old one:
/// this holds of round `k` of any series of answers under which the game is
/// still in its guessing phase when that round begins.
pub proof fn lemma_every_round_narrows(responses: Seq<Response>, k: int)
    requires
        0 <= k < responses.len(),
        play(opening(), responses.take(k)).phase == Phase::Guessing,
        responses[k] == Response::TooLow || responses[k] == Response::TooHigh,
    ensures
        ({
            let before = play(opening(), responses.take(k));
            let after = play(opening(), responses.take(k + 1));
            &&& before.lowest <= after.lowest
            &&& after.highest <= before.highest
            &&& after.highest - after.lowest < before.highest - before.lowest
        }),
{
    lemma_opening();
    lemma_play_valid(opening(), responses.take(k));
    lemma_play_step(opening(), responses, k);
    lemma_respond_narrows(play(opening(), responses.take(k)), responses[k]);
}

/// No answer ever widens the range.
pub proof fn lemma_range_never_widens(s: State, response: Response)
    requires
        s.valid(),
    ensures
        s.lowest <= s.respond(response).lowest,
        s.respond(response).highest <= s.highest,
{
}

/// The attempts are enough for the starting interval: after all but one of
/// them were wrong, at most one number is left, and after as many wrong
/// guesses as there are attempts, none.
pub proof fn lemma_attempts_suffice()
    ensures
        candidates_left(START_HIGHEST - START_LOWEST + 1, MAX_ATTEMPTS - 1) == 1,
        candidates_left(START_HIGHEST - START_LOWEST + 1, MAX_ATTEMPTS as int) == 0,
{
    reveal_with_fuel(candidates_left, 8);
}

/// From any state of the guessing phase whose range holds `secret`, truthful
/// answers end the game won, with `secret` as the answer, within the allowed
/// attempts.
pub proof fn lemma_honest_play_wins_from(s: State, secret: int)
    requires
        s.valid(),
        s.phase == Phase::Guessing,
        s.lowest <= secret <= s.highest,
    ensures
        play_honestly(s, secret).phase == Phase::Won,
        play_honestly(s, secret).answer == Some(secret),
        play_honestly(s, secret).attempts <= MAX_ATTEMPTS,
        play_honestly(s, secret).valid(),
    decreases MAX_ATTEMPTS - s.attempts,
{
    let response = honest(secret, s.guess());
    let next = s.respond(response);
    lemma_respond_valid(s, response);
    if response != Response::Correct {
        assert(next.lowest <= secret <= next.highest);
        assert(next.attempts < MAX_ATTEMPTS) by {
            lemma_attempts_suffice();
        }
        lemma_honest_play_wins_from(next, secret);
    }
}

/// Given truthful answers for a number of the starting interval, the engine
/// finds that number within the allowed attempts.
pub proof fn lemma_honest_play_wins(secret: int)
    requires
        START_LOWEST <= secret <= START_HIGHEST,
    ensures
        play_honestly(opening(), secret).phase == Phase::Won,
        play_honestly(opening(), secret).answer == Some(secret),
        play_honestly(opening(), secret).attempts <= MAX_ATTEMPTS,
{
    lemma_opening();
    lemma_honest_play_wins_from(opening(), secret);
}

/// Leaving the game at a guess ends it at once with exit code 0 and with
/// nothing more shown, whatever is typed afterwards.
pub proof fn lemma_quit_ends_game(s: State, later: Seq<char>)
    requires
        s.phase == Phase::Guessing,
    ensures
        s.respond(Response::Quit).phase == Phase::Quit,
        s.respond(Response::Quit).phase.exit_status() == Some(0i32),
        s.reply_to(Response::Quit) == Seq::<Output>::empty(),
        s.respond(Response::Quit).feed(later) == s.respond(Response::Quit),
        s.respond(Response::Quit).reply(later) == Seq::<Output>::empty(),
{
}

/// When an answer makes the bounds cross while attempts are left, the game
/// ends as a contradiction with exit code 1, and both bounds are shown.
pub proof fn lemma_crossed_bounds_end_game(s: State, response: Response)
    requires
        s.valid(),
        s.phase == Phase::Guessing,
        s.respond(response).lowest > s.respond(response).highest,
        s.respond(response).attempts < MAX_ATTEMPTS,
    ensures
        s.respond(response).phase == Phase::Cheated,
        s.respond(response).phase.exit_status() == Some(1i32),
        s.reply_to(response) == seq![
            Output::ClearDisplay,
            (Output::Contradiction {
                lowest: s.respond(response).lowest as u32,
                highest: s.respond(response).highest as u32,
            }),
        ],
{
}

/// A game ends as a contradiction only with crossed bounds.
pub proof fn lemma_contradiction_means_crossed_bounds(s: State)
    requires
        s.valid(),
    ensures
        s.phase == Phase::Cheated ==> s.lowest == s.highest + 1,
        s.phase == Phase::Guessing ==> s.lowest <= s.highest,
{
}

/// As long as no answer confirms a guess, the game has no answer.
pub proof fn lemma_no_answer_without_confirmation(s: State, responses: Seq<Response>)
    requires
        s.answer is None,
        forall|i: int| 0 <= i < responses.len() ==> responses[i] != Response::Correct,
    ensures
        play(s, responses).answer is None,
    decreases responses.len(),
{
    if responses.len() > 0 {
        lemma_no_answer_without_confirmation(s, responses.drop_last());
    }
}

/// A game in which all attempts are used and no guess is confirmed is lost:
/// the loss is shown, the exit code is 0, and at no point of the game was
/// there an answer.
pub proof fn lemma_exhausted_attempts_lose(responses: Seq<Response>)
    requires
        forall|i: int| 0 <= i < responses.len() ==> responses[i] != Response::Correct,
        play(opening(), responses).attempts == MAX_ATTEMPTS,
    ensures
        play(opening(), responses).phase == Phase::Lost,
        play(opening(), responses).phase.exit_status() == Some(0i32),
        play(opening(), responses).announcement() == seq![Output::ClearDisplay, Output::Loss],
        forall|k: int|
            0 <= k <= responses.len() ==> (#[trigger] play(
                opening(),
                responses.take(k),
            )).answer is None,
{
    lemma_opening();
    lemma_play_valid(opening(), responses);
    lemma_no_answer_without_confirmation(opening(), responses);
    assert forall|k: int| 0 <= k <= responses.len() implies (#[trigger] play(
        opening(),
        responses.take(k),
    )).answer is None by {
        lemma_no_answer_without_confirmation(opening(), responses.take(k));
    }
}

/// A game is lost only by answers that leave no number in question: the
/// engine does not lose to a player whose answers fit some number.
pub proof fn lemma_lost_means_crossed_bounds(s: State)
    requires
        s.valid(),
        s.phase == Phase::Lost,
    ensures
        s.lowest > s.highest,
{
    lemma_attempts_suffice();
}

/// A line that is none of the four answers leaves the game as it is, the
/// attempts included, and is answered with a notice and the options.
pub proof fn lemma_invalid_line_is_no_attempt(s: State, line: Seq<char>)
    requires
        s.phase == Phase::Guessing,
        Response::of_line(line) is None,
    ensures
        s.feed(line) == s,
        s.reply(line) == seq![Output::InvalidOption, Output::Options],
{
}

} // verus!
