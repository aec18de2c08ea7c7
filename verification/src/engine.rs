//! The guessing engine: its mathematical model and the executable machine.

use crate::output::Output;
use crate::response::Response;
use crate::search::{
    candidates_left, midpoint, predict_num, MAX_ATTEMPTS, START_HIGHEST, START_LOWEST,
};
use vstd::prelude::*;

verus! {

/// Where a game stands.
#[derive(Clone, Copy, Debug, PartialEq, Eq, Structural)]
pub enum Phase {
    /// The player has been greeted and has not yet started the game.
    Init,
    /// A guess is shown and the engine waits for the player's answer.
    Guessing,
    /// The player confirmed a guess.
    Won,
    /// The attempts are used up and no guess was confirmed.
    Lost,
    /// The player's answers contradict each other.
    Cheated,
    /// The player left the game.
    Quit,
}

impl Phase {
    /// The exit code of the process once the game is in this phase, or `None`
    /// while the game goes on.
    pub open spec fn exit_status(self) -> Option<i32> {
        match self {
            Phase::Init | Phase::Guessing => None,
            Phase::Won | Phase::Lost | Phase::Quit => Some(0i32),
            Phase::Cheated => Some(1i32),
        }
    }

    /// Whether the game is over in this phase.
    pub open spec fn is_final(self) -> bool {
        self.exit_status() is Some
    }

    /// Computes the exit code of the process once the game is in this phase.
    pub fn exit_code(self) -> (code: Option<i32>)
        ensures
            code == self.exit_status(),
    {
        match self {
            Phase::Init | Phase::Guessing => None,
            Phase::Won | Phase::Lost | Phase::Quit => Some(0),
            Phase::Cheated => Some(1),
        }
    }
}

/// The mathematical model of an engine.
pub struct State {
    /// Where the game stands.
    pub phase: Phase,
    /// Lowest number still in question.
    pub lowest: int,
    /// Highest number still in question.
    pub highest: int,
    /// Guesses the player has answered so far.
    pub attempts: int,
    /// The guess the player confirmed.
    pub answer: Option<int>,
}

impl State {
    /// The state in which every game starts.
    pub open spec fn initial() -> State {
        State {
            phase: Phase::Init,
            lowest: START_LOWEST as int,
            highest: START_HIGHEST as int,
            attempts: 0,
            answer: None,
        }
    }

    /// The guess for the numbers still in question.
    pub open spec fn guess(self) -> int {
        midpoint(self.lowest, self.highest)
    }

    /// How many guesses were answered with "too low" or "too high".
    pub open spec fn wrong_guesses(self) -> int {
        if self.answer is Some {
            self.attempts - 1
        } else {
            self.attempts
        }
    }

    /// What holds of every state a game can reach.
    pub open spec fn valid(self) -> bool {
        &&& START_LOWEST <= self.lowest <= self.highest + 1
        &&& self.highest <= START_HIGHEST
        &&& 0 <= self.wrong_guesses() <= self.attempts <= MAX_ATTEMPTS
        &&& self.highest - self.lowest + 1 <= candidates_left(
            START_HIGHEST - START_LOWEST + 1,
            self.wrong_guesses(),
        )
        &&& match self.phase {
            Phase::Init => self == State::initial(),
            Phase::Guessing | Phase::Quit => {
                &&& self.lowest <= self.highest
                &&& self.attempts < MAX_ATTEMPTS
                &&& self.answer is None
            },
            Phase::Cheated => {
                &&& self.lowest > self.highest
                &&& self.attempts < MAX_ATTEMPTS
                &&& self.answer is None
            },
            Phase::Lost => self.attempts == MAX_ATTEMPTS && self.answer is None,
            Phase::Won => self.lowest <= self.highest && self.answer == Some(self.guess()),
        }
    }

    /// The state with its phase decided anew from the rest: a confirmed guess
    /// wins; failing that, used-up attempts lose; failing that, crossed bounds
    /// are a contradiction; otherwise the next round begins.
    pub open spec fn settled(self) -> State {
        let phase = if self.answer is Some {
            Phase::Won
        } else if self.attempts >= MAX_ATTEMPTS {
            Phase::Lost
        } else if self.lowest > self.highest {
            Phase::Cheated
        } else {
            Phase::Guessing
        };
        State { phase, ..self }
    }

    /// The state after the player has acknowledged the greeting.
    pub open spec fn begin(self) -> State {
        if self.phase == Phase::Init {
            self.settled()
        } else {
            self
        }
    }

    /// The state after the player has answered the guess with `response`.
    /// Outside the guessing phase an answer changes nothing.
    pub open spec fn respond(self, response: Response) -> State {
        if self.phase != Phase::Guessing {
            self
        } else {
            match response {
                Response::Quit => State { phase: Phase::Quit, ..self },
                Response::TooLow => State {
                    lowest: self.guess() + 1,
                    attempts: self.attempts + 1,
                    ..self
                }.settled(),
                Response::TooHigh => State {
                    highest: self.guess() - 1,
                    attempts: self.attempts + 1,
                    ..self
                }.settled(),
                Response::Correct => State {
                    answer: Some(self.guess()),
                    attempts: self.attempts + 1,
                    ..self
                }.settled(),
            }
        }
    }

    /// The state after a line of input: in the initial phase any line begins
    /// the game; in the guessing phase the line is read as a response, and one
    /// that is none changes nothing; a finished game stays as it is.
    pub open spec fn feed(self, line: Seq<char>) -> State {
        match self.phase {
            Phase::Init => self.begin(),
            Phase::Guessing => match Response::of_line(line) {
                Some(response) => self.respond(response),
                None => self,
            },
            _ => self,
        }
    }

    /// What is shown when the game enters this state.
    pub open spec fn announcement(self) -> Seq<Output> {
        match self.phase {
            Phase::Init => seq![
                Output::Welcome {
                    lowest: START_LOWEST,
                    highest: START_HIGHEST,
                    max_attempts: MAX_ATTEMPTS,
                },
            ],
            Phase::Guessing => {
                let head = seq![
                    Output::ClearDisplay,
                    Output::Attempt { number: (self.attempts + 1) as u32 },
                ];
                let warning = if self.attempts == MAX_ATTEMPTS - 1 {
                    seq![Output::FinalAttempt]
                } else {
                    Seq::<Output>::empty()
                };
                head + warning + seq![
                    Output::Guess { number: self.guess() as u32 },
                    Output::Options,
                ]
            },
            Phase::Cheated => seq![
                Output::ClearDisplay,
                Output::Contradiction {
                    lowest: self.lowest as u32,
                    highest: self.highest as u32,
                },
            ],
            Phase::Lost => seq![Output::ClearDisplay, Output::Loss],
            Phase::Won => seq![
                Output::ClearDisplay,
                Output::Win { answer: self.answer.unwrap() as u32 },
            ],
            Phase::Quit => Seq::<Output>::empty(),
        }
    }

    /// What is shown in answer to `response`: the announcement of the state
    /// that the response leads to, and nothing outside the guessing phase.
    pub open spec fn reply_to(self, response: Response) -> Seq<Output> {
        if self.phase == Phase::Guessing {
            self.respond(response).announcement()
        } else {
            Seq::<Output>::empty()
        }
    }

    /// What is shown in answer to a line of input. A line that is no response
    /// is answered with a notice and the options once more.
    pub open spec fn reply(self, line: Seq<char>) -> Seq<Output> {
        match self.phase {
            Phase::Init => self.begin().announcement(),
            Phase::Guessing => match Response::of_line(line) {
                Some(response) => self.reply_to(response),
                None => seq![Output::InvalidOption, Output::Options],
            },
            _ => Seq::<Output>::empty(),
        }
    }
}

/// The guessing engine. It is driven by lines of input and answers each with
/// what to show; its host reads the lines, shows the answers and leaves with
/// the exit code once there is one.
#[derive(Clone, Copy, Debug)]
pub struct Engine {
    phase: Phase,
    lowest: u32,
    highest: u32,
    attempts: u32,
    answer: Option<u32>,
}

impl View for Engine {
    type V = State;

    closed spec fn view(&self) -> State {
        model(self.phase, self.lowest, self.highest, self.attempts, self.answer)
    }
}

/// The state that the given machine values stand for.
spec fn model(
    phase: Phase,
    lowest: u32,
    highest: u32,
    attempts: u32,
    answer: Option<u32>,
) -> State {
    State {
        phase,
        lowest: lowest as int,
        highest: highest as int,
        attempts: attempts as int,
        answer: match answer {
            Some(number) => Some(number as int),
            None => None,
        },
    }
}

impl Engine {
    #[verifier::type_invariant]
    spec fn well_formed(self) -> bool {
        self@.valid()
    }

    /// An engine at the start of a game.
    pub fn new() -> (engine: Engine)
        ensures
            engine@ == State::initial(),
            engine@.valid(),
    {
        proof {
            lemma_initial_valid();
        }
        Engine {
            phase: Phase::Init,
            lowest: START_LOWEST,
            highest: START_HIGHEST,
            attempts: 0,
            answer: None,
        }
    }

    /// The phase the game is in.
    pub fn phase(&self) -> (phase: Phase)
        ensures
            phase == self@.phase,
    {
        self.phase
    }

    /// The lowest number still in question.
    pub fn lowest(&self) -> (lowest: u32)
        ensures
            lowest == self@.lowest,
    {
        self.lowest
    }

    /// The highest number still in question.
    pub fn highest(&self) -> (highest: u32)
        ensures
            highest == self@.highest,
    {
        self.highest
    }

    /// The number of guesses the player has answered.
    pub fn attempts(&self) -> (attempts: u32)
        ensures
            attempts == self@.attempts,
    {
        self.attempts
    }

    /// The guess the player confirmed: there is one exactly when the game is
    /// won.
    pub fn answer(&self) -> (answer: Option<u32>)
        ensures
            answer is Some <==> self@.answer is Some,
            answer is Some <==> self@.phase == Phase::Won,
            answer matches Some(number) ==> self@.answer == Some(number as int),
    {
        proof {
            use_type_invariant(self);
        }
        self.answer
    }

    /// The guess that is shown, while the engine waits for an answer to it.
    pub fn guess(&self) -> (guess: Option<u32>)
        ensures
            guess is Some <==> self@.phase == Phase::Guessing,
            guess matches Some(number) ==> number == self@.guess(),
    {
        if self.phase == Phase::Guessing {
            Some(predict_num(self.lowest, self.highest))
        } else {
            None
        }
    }

    /// The exit code of the process once the game is over, and `None` while
    /// it goes on.
    pub fn exit_code(&self) -> (code: Option<i32>)
        ensures
            code == self@.phase.exit_status(),
    {
        self.phase.exit_code()
    }

    /// What is shown when the game enters the state it is in. For a new
    /// engine this is the greeting.
    pub fn announcement(&self) -> (out: Vec<Output>)
        ensures
            out@ == self@.announcement(),
    {
        proof {
            use_type_invariant(self);
        }
        let mut out: Vec<Output> = Vec::new();
        match self.phase {
            Phase::Init => {
                out.push(
                    Output::Welcome {
                        lowest: START_LOWEST,
                        highest: START_HIGHEST,
                        max_attempts: MAX_ATTEMPTS,
                    },
                );
            },
            Phase::Guessing => {
                out.push(Output::ClearDisplay);
                out.push(Output::Attempt { number: self.attempts + 1 });
                if self.attempts == MAX_ATTEMPTS - 1 {
                    out.push(Output::FinalAttempt);
                }
                out.push(Output::Guess { number: predict_num(self.lowest, self.highest) });
                out.push(Output::Options);
            },
            Phase::Cheated => {
                out.push(Output::ClearDisplay);
                out.push(Output::Contradiction { lowest: self.lowest, highest: self.highest });
            },
            Phase::Lost => {
                out.push(Output::ClearDisplay);
                out.push(Output::Loss);
            },
            Phase::Won => {
                out.push(Output::ClearDisplay);
                match self.answer {
                    Some(answer) => out.push(Output::Win { answer }),
                    None => {},
                }
            },
            Phase::Quit => {},
        }
        assert(out@ =~= self@.announcement());
        out
    }

    /// An engine with the given bounds, attempts and answer, in the phase that
    /// they call for.
    fn settle(lowest: u32, highest: u32, attempts: u32, answer: Option<u32>) -> (engine: Engine)
        requires
            model(Phase::Guessing, lowest, highest, attempts, answer).settled().valid(),
        ensures
            engine@ == model(Phase::Guessing, lowest, highest, attempts, answer).settled(),
    {
        let phase = if answer.is_some() {
            Phase::Won
        } else if attempts >= MAX_ATTEMPTS {
            Phase::Lost
        } else if lowest > highest {
            Phase::Cheated
        } else {
            Phase::Guessing
        };
        Engine { phase, lowest, highest, attempts, answer }
    }

    /// Begins the game once the player has acknowledged the greeting, and
    /// returns what to show. In any other phase nothing happens.
    pub fn begin(&mut self) -> (out: Vec<Output>)
        ensures
            final(self)@ == old(self)@.begin(),
            final(self)@.valid(),
            old(self)@.phase == Phase::Init ==> out@ == final(self)@.announcement(),
            old(self)@.phase != Phase::Init ==> out@.len() == 0,
    {
        proof {
            use_type_invariant(&*self);
            lemma_begin_valid(self@);
        }
        if self.phase == Phase::Init {
            *self = Engine::settle(self.lowest, self.highest, self.attempts, self.answer);
            self.announcement()
        } else {
            Vec::new()
        }
    }

    /// Takes the player's answer to the guess that is shown, and returns what
    /// to show next. Outside the guessing phase nothing happens.
    ///
    /// "Too low" raises the lower bound to one above the guess, "too high"
    /// lowers the upper bound to one below it. A guess is never below the
    /// lowest number of the game, so neither bound can leave the numbers from
    /// 0 to one above the highest number of the game.
    pub fn respond(&mut self, response: Response) -> (out: Vec<Output>)
        ensures
            final(self)@ == old(self)@.respond(response),
            final(self)@.valid(),
            out@ == old(self)@.reply_to(response),
            old(self)@.lowest <= final(self)@.lowest,
            final(self)@.highest <= old(self)@.highest,
            old(self)@.phase == Phase::Guessing && (response == Response::TooLow
                || response == Response::TooHigh)
                ==> final(self)@.highest - final(self)@.lowest
                    < old(self)@.highest - old(self)@.lowest,
            old(self)@.phase == Phase::Guessing && response == Response::Quit
                ==> final(self)@.phase == Phase::Quit
                    && final(self)@.phase.exit_status() == Some(0i32)
                    && out@.len() == 0,
    {
        proof {
            use_type_invariant(&*self);
            lemma_respond_valid(self@, response);
        }
        if self.phase != Phase::Guessing {
            return Vec::new();
        }
        let guess: u32 = predict_num(self.lowest, self.highest);
        match response {
            Response::Quit => {
                self.phase = Phase::Quit;
            },
            Response::TooLow => {
                *self = Engine::settle(guess + 1, self.highest, self.attempts + 1, None);
            },
            Response::TooHigh => {
                *self = Engine::settle(self.lowest, guess - 1, self.attempts + 1, None);
            },
            Response::Correct => {
                *self = Engine::settle(
                    self.lowest,
                    self.highest,
                    self.attempts + 1,
                    Some(guess),
                );
            },
        }
        self.announcement()
    }

    /// Takes a line of input and returns what to show in answer. The first
    /// line begins the game, whatever it holds. While a guess is shown the
    /// line is read as the player's answer to it; a line that is none of the
    /// four answers leaves the game as it is, and does not count as an
    /// attempt. Once the game is over nothing happens.
    pub fn step(&mut self, line: &str) -> (out: Vec<Output>)
        ensures
            final(self)@ == old(self)@.feed(line@),
            final(self)@.valid(),
            out@ == old(self)@.reply(line@),
            old(self)@.phase == Phase::Guessing && Response::of_line(line@) is None
                ==> final(self)@ == old(self)@
                    && out@ == seq![Output::InvalidOption, Output::Options],
            old(self)@.phase == Phase::Guessing
                && Response::of_line(line@) == Some(Response::Quit)
                ==> final(self)@.phase == Phase::Quit
                    && final(self)@.phase.exit_status() == Some(0i32)
                    && out@.len() == 0,
            old(self)@.phase.is_final() ==> final(self)@ == old(self)@ && out@.len() == 0,
    {
        proof {
            use_type_invariant(&*self);
        }
        match self.phase {
            Phase::Init => self.begin(),
            Phase::Guessing => match Response::parse(line) {
                Some(response) => self.respond(response),
                None => {
                    let mut out: Vec<Output> = Vec::new();
                    out.push(Output::InvalidOption);
                    out.push(Output::Options);
                    assert(out@ =~= seq![Output::InvalidOption, Output::Options]);
                    out
                },
            },
            _ => Vec::new(),
        }
    }
}

/// A game starts in a valid state.
pub proof fn lemma_initial_valid()
    ensures
        State::initial().valid(),
{
}

/// Beginning the game keeps the state valid.
pub proof fn lemma_begin_valid(s: State)
    requires
        s.valid(),
    ensures
        s.begin().valid(),
{
}

/// An answer keeps the state valid.
pub proof fn lemma_respond_valid(s: State, response: Response)
    requires
        s.valid(),
    ensures
        s.respond(response).valid(),
{
}

/// A line of input keeps the state valid.
pub proof fn lemma_feed_valid(s: State, line: Seq<char>)
    requires
        s.valid(),
    ensures
        s.feed(line).valid(),
{
    lemma_begin_valid(s);
    match Response::of_line(line) {
        Some(response) => lemma_respond_valid(s, response),
        None => {},
    }
}

} // verus!
