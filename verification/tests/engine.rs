use number_guesser::{Engine, Output, Phase, Response};

fn round(number: u32, guess: u32) -> Vec<Output> {
    let mut out = vec![Output::ClearDisplay, Output::Attempt { number }];
    if number == 7 {
        out.push(Output::FinalAttempt);
    }
    out.push(Output::Guess { number: guess });
    out.push(Output::Options);
    out
}

fn started() -> Engine {
    let mut engine = Engine::new();
    engine.step("\n");
    engine
}

fn run(lines: &[&str]) -> (Vec<Output>, Option<i32>, usize) {
    let mut engine = Engine::new();
    let mut shown = engine.announcement();
    let mut read = 0;
    while engine.exit_code().is_none() && read < lines.len() {
        shown.extend(engine.step(lines[read]));
        read += 1;
    }
    (shown, engine.exit_code(), read)
}

fn honest(secret: u32, guess: u32) -> Response {
    if guess < secret {
        Response::TooLow
    } else if guess > secret {
        Response::TooHigh
    } else {
        Response::Correct
    }
}

#[test]
fn new_engine_waits_in_the_initial_phase() {
    let engine = Engine::new();
    assert_eq!(engine.phase(), Phase::Init);
    assert_eq!(engine.lowest(), 1);
    assert_eq!(engine.highest(), 100);
    assert_eq!(engine.attempts(), 0);
    assert_eq!(engine.answer(), None);
    assert_eq!(engine.guess(), None);
    assert_eq!(engine.exit_code(), None);
    assert_eq!(
        engine.announcement(),
        vec![Output::Welcome { lowest: 1, highest: 100, max_attempts: 7 }]
    );
}

#[test]
fn any_line_begins_the_game() {
    for line in ["\n", "", "q\n", "<\n", "go ahead\n", "="] {
        let mut engine = Engine::new();
        let out = engine.step(line);
        assert_eq!(out, round(1, 50));
        assert_eq!(engine.phase(), Phase::Guessing);
        assert_eq!((engine.lowest(), engine.highest()), (1, 100));
        assert_eq!(engine.attempts(), 0);
        assert_eq!(engine.answer(), None);
        assert_eq!(engine.guess(), Some(50));
        assert_eq!(engine.exit_code(), None);
    }
}

#[test]
fn begin_acts_only_in_the_initial_phase() {
    let mut engine = Engine::new();
    assert_eq!(engine.begin(), round(1, 50));
    assert_eq!(engine.phase(), Phase::Guessing);
    engine.respond(Response::TooLow);
    assert_eq!(engine.begin(), vec![]);
    assert_eq!(engine.phase(), Phase::Guessing);
    assert_eq!((engine.lowest(), engine.highest(), engine.attempts()), (51, 100, 1));
}

#[test]
fn respond_acts_only_in_the_guessing_phase() {
    let mut engine = Engine::new();
    assert_eq!(engine.respond(Response::TooLow), vec![]);
    assert_eq!(engine.phase(), Phase::Init);
    assert_eq!((engine.lowest(), engine.highest(), engine.attempts()), (1, 100, 0));
    assert_eq!(engine.respond(Response::Quit), vec![]);
    assert_eq!(engine.phase(), Phase::Init);
    assert_eq!(engine.exit_code(), None);
}

#[test]
fn too_low_raises_the_lower_bound_past_the_guess() {
    let mut engine = started();
    let out = engine.step("<\n");
    assert_eq!((engine.lowest(), engine.highest()), (51, 100));
    assert_eq!(engine.attempts(), 1);
    assert_eq!(out, round(2, 75));
}

#[test]
fn too_high_lowers_the_upper_bound_below_the_guess() {
    let mut engine = started();
    let out = engine.step(">\n");
    assert_eq!((engine.lowest(), engine.highest()), (1, 49));
    assert_eq!(engine.attempts(), 1);
    assert_eq!(out, round(2, 25));
}

#[test]
fn correct_at_the_first_guess_wins_at_once() {
    let mut engine = started();
    let out = engine.step("=\n");
    assert_eq!(out, vec![Output::ClearDisplay, Output::Win { answer: 50 }]);
    assert_eq!(engine.phase(), Phase::Won);
    assert_eq!(engine.answer(), Some(50));
    assert_eq!(engine.attempts(), 1);
    assert_eq!((engine.lowest(), engine.highest()), (1, 100));
    assert_eq!(engine.guess(), None);
    assert_eq!(engine.exit_code(), Some(0));
    assert_eq!(engine.announcement(), out);
}

#[test]
fn secret_42_is_found_in_the_seventh_round() {
    let mut engine = Engine::new();
    assert_eq!(engine.step("\n"), round(1, 50));
    assert_eq!(engine.step(">\n"), round(2, 25));
    assert_eq!((engine.lowest(), engine.highest()), (1, 49));
    assert_eq!(engine.step("<\n"), round(3, 37));
    assert_eq!((engine.lowest(), engine.highest()), (26, 49));
    assert_eq!(engine.step("<\n"), round(4, 43));
    assert_eq!((engine.lowest(), engine.highest()), (38, 49));
    assert_eq!(engine.step(">\n"), round(5, 40));
    assert_eq!((engine.lowest(), engine.highest()), (38, 42));
    assert_eq!(engine.step("<\n"), round(6, 41));
    assert_eq!((engine.lowest(), engine.highest()), (41, 42));
    let last = engine.step("<\n");
    assert_eq!(
        last,
        vec![
            Output::ClearDisplay,
            Output::Attempt { number: 7 },
            Output::FinalAttempt,
            Output::Guess { number: 42 },
            Output::Options,
        ]
    );
    assert_eq!((engine.lowest(), engine.highest()), (42, 42));
    assert_eq!(engine.attempts(), 6);
    assert_eq!(engine.answer(), None);
    assert_eq!(engine.step("=\n"), vec![Output::ClearDisplay, Output::Win { answer: 42 }]);
    assert_eq!(engine.phase(), Phase::Won);
    assert_eq!(engine.answer(), Some(42));
    assert_eq!(engine.attempts(), 7);
    assert_eq!(engine.exit_code(), Some(0));
}

#[test]
fn less_than_sign_at_the_first_guess_means_too_low() {
    let mut engine = started();
    engine.step("<");
    assert_eq!((engine.lowest(), engine.highest()), (51, 100));
    assert_eq!(engine.guess(), Some(75));
}

#[test]
fn honest_answers_find_every_secret_within_seven_attempts() {
    for secret in 1..=100u32 {
        let mut engine = started();
        let mut rounds = 0;
        while let Some(guess) = engine.guess() {
            assert!(engine.lowest() <= secret && secret <= engine.highest());
            engine.respond(honest(secret, guess));
            rounds += 1;
            assert!(rounds <= 7);
        }
        assert_eq!(engine.phase(), Phase::Won, "secret {}", secret);
        assert_eq!(engine.answer(), Some(secret));
        assert_eq!(engine.attempts(), rounds);
        assert!(engine.attempts() <= 7);
        assert_eq!(engine.exit_code(), Some(0));
    }
}

#[test]
fn some_secrets_need_all_seven_attempts() {
    let mut worst = 0;
    for secret in 1..=100u32 {
        let mut engine = started();
        while let Some(guess) = engine.guess() {
            engine.respond(honest(secret, guess));
        }
        worst = worst.max(engine.attempts());
    }
    assert_eq!(worst, 7);
}

#[test]
fn every_round_strictly_narrows_the_range() {
    for pattern in 0..128u32 {
        let mut engine = started();
        for round in 0..7 {
            if engine.phase() != Phase::Guessing {
                break;
            }
            let (lowest, highest) = (engine.lowest(), engine.highest());
            let response =
                if pattern >> round & 1 == 0 { Response::TooLow } else { Response::TooHigh };
            engine.respond(response);
            assert!(lowest <= engine.lowest());
            assert!(engine.highest() <= highest);
            let before = i64::from(highest) - i64::from(lowest);
            let after = i64::from(engine.highest()) - i64::from(engine.lowest());
            assert!(after < before);
            assert_eq!(engine.attempts(), round + 1);
        }
        assert!(engine.phase() == Phase::Lost || engine.phase() == Phase::Cheated);
        assert_eq!(engine.answer(), None);
    }
}

#[test]
fn quit_ends_the_game_at_once_and_silently() {
    let mut engine = started();
    engine.step(">\n");
    let out = engine.step("q\n");
    assert_eq!(out, vec![]);
    assert_eq!(engine.phase(), Phase::Quit);
    assert_eq!(engine.exit_code(), Some(0));
    assert_eq!(engine.attempts(), 1);
    assert_eq!(engine.answer(), None);
    assert_eq!(engine.guess(), None);
    assert_eq!(engine.announcement(), vec![]);
    assert_eq!(engine.step("<\n"), vec![]);
    assert_eq!(engine.phase(), Phase::Quit);
    assert_eq!((engine.lowest(), engine.highest(), engine.attempts()), (1, 49, 1));
}

#[test]
fn quit_is_taken_at_every_round() {
    for rounds in 0..7 {
        let mut engine = started();
        for _ in 0..rounds {
            engine.step("<\n");
        }
        assert_eq!(engine.phase(), Phase::Guessing);
        assert_eq!(engine.step("q"), vec![]);
        assert_eq!(engine.phase(), Phase::Quit);
        assert_eq!(engine.exit_code(), Some(0));
        assert_eq!(engine.attempts(), rounds);
    }
}

#[test]
fn crossed_bounds_are_a_contradiction() {
    let mut engine = started();
    assert_eq!(engine.step(">"), round(2, 25));
    assert_eq!(engine.step(">"), round(3, 12));
    assert_eq!(engine.step(">"), round(4, 6));
    assert_eq!(engine.step(">"), round(5, 3));
    assert_eq!((engine.lowest(), engine.highest()), (1, 5));
    assert_eq!(engine.step("<"), round(6, 4));
    assert_eq!((engine.lowest(), engine.highest()), (4, 5));
    let out = engine.step(">");
    assert_eq!(
        out,
        vec![Output::ClearDisplay, Output::Contradiction { lowest: 4, highest: 3 }]
    );
    assert_eq!(engine.phase(), Phase::Cheated);
    assert_eq!(engine.exit_code(), Some(1));
    assert_eq!((engine.lowest(), engine.highest()), (4, 3));
    assert_eq!(engine.attempts(), 6);
    assert_eq!(engine.answer(), None);
    assert_eq!(engine.guess(), None);
    assert_eq!(engine.step("="), vec![]);
    assert_eq!(engine.phase(), Phase::Cheated);
}

#[test]
fn too_high_at_the_lowest_number_crosses_the_bounds_at_zero() {
    let mut engine = started();
    for _ in 0..5 {
        engine.step(">");
    }
    assert_eq!((engine.lowest(), engine.highest()), (1, 2));
    assert_eq!(engine.guess(), Some(1));
    let out = engine.step(">");
    assert_eq!(
        out,
        vec![Output::ClearDisplay, Output::Contradiction { lowest: 1, highest: 0 }]
    );
    assert_eq!(engine.phase(), Phase::Cheated);
    assert_eq!(engine.exit_code(), Some(1));
}

#[test]
fn too_low_at_the_highest_number_crosses_the_bounds_at_101() {
    let mut engine = started();
    for _ in 0..6 {
        engine.step("<");
    }
    assert_eq!((engine.lowest(), engine.highest()), (100, 100));
    assert_eq!(engine.guess(), Some(100));
    let out = engine.step("<");
    assert_eq!((engine.lowest(), engine.highest()), (101, 100));
    assert_eq!(out, vec![Output::ClearDisplay, Output::Loss]);
    assert_eq!(engine.phase(), Phase::Lost);
}

#[test]
fn seven_attempts_without_confirmation_lose() {
    let mut engine = started();
    let guesses = [50, 75, 88, 94, 97, 99];
    for (i, guess) in guesses.iter().enumerate() {
        assert_eq!(engine.guess(), Some(*guess));
        assert_eq!(engine.answer(), None);
        let out = engine.step("<\n");
        assert_eq!(engine.attempts(), i as u32 + 1);
        assert_eq!(engine.phase(), Phase::Guessing);
        assert_eq!(out[1], Output::Attempt { number: i as u32 + 2 });
    }
    assert_eq!(engine.guess(), Some(100));
    let out = engine.step(">\n");
    assert_eq!(out, vec![Output::ClearDisplay, Output::Loss]);
    assert_eq!(engine.phase(), Phase::Lost);
    assert_eq!(engine.exit_code(), Some(0));
    assert_eq!(engine.attempts(), 7);
    assert_eq!(engine.answer(), None);
    assert_eq!(engine.guess(), None);
    assert_eq!(engine.announcement(), vec![Output::ClearDisplay, Output::Loss]);
    assert_eq!(engine.step("=\n"), vec![]);
    assert_eq!(engine.phase(), Phase::Lost);
    assert_eq!(engine.answer(), None);
}

#[test]
fn final_attempt_is_announced_only_in_the_seventh_round() {
    let mut engine = started();
    for number in 2..=7u32 {
        let out = engine.step("<\n");
        assert_eq!(out.contains(&Output::FinalAttempt), number == 7);
        assert_eq!(out[1], Output::Attempt { number });
    }
}

#[test]
fn invalid_tokens_are_no_attempt() {
    let mut engine = started();
    engine.step("<\n");
    for line in ["", "y", "5", "\n", "y\n", "5\n", "  ", "<>", "Q", "too low"] {
        let out = engine.step(line);
        assert_eq!(out, vec![Output::InvalidOption, Output::Options], "{:?}", line);
        assert_eq!(engine.phase(), Phase::Guessing);
        assert_eq!(engine.attempts(), 1);
        assert_eq!((engine.lowest(), engine.highest()), (51, 100));
        assert_eq!(engine.guess(), Some(75));
        assert_eq!(engine.answer(), None);
        assert_eq!(engine.exit_code(), None);
    }
    assert_eq!(engine.step(">\n"), round(3, 62));
    assert_eq!(engine.attempts(), 2);
}

#[test]
fn invalid_tokens_do_not_use_up_the_last_attempt() {
    let mut engine = started();
    for _ in 0..6 {
        engine.step("<");
    }
    assert_eq!(engine.attempts(), 6);
    for _ in 0..20 {
        assert_eq!(engine.step("?"), vec![Output::InvalidOption, Output::Options]);
    }
    assert_eq!(engine.attempts(), 6);
    assert_eq!(engine.guess(), Some(100));
    assert_eq!(engine.step("="), vec![Output::ClearDisplay, Output::Win { answer: 100 }]);
    assert_eq!(engine.attempts(), 7);
}

#[test]
fn exit_codes_of_the_phases() {
    assert_eq!(Phase::Init.exit_code(), None);
    assert_eq!(Phase::Guessing.exit_code(), None);
    assert_eq!(Phase::Won.exit_code(), Some(0));
    assert_eq!(Phase::Lost.exit_code(), Some(0));
    assert_eq!(Phase::Quit.exit_code(), Some(0));
    assert_eq!(Phase::Cheated.exit_code(), Some(1));
}

#[test]
fn announcement_repeats_what_the_last_step_showed() {
    let mut engine = started();
    assert_eq!(engine.announcement(), round(1, 50));
    let out = engine.step(">");
    assert_eq!(engine.announcement(), out);
    engine.step("nonsense");
    assert_eq!(engine.announcement(), out);
}

#[test]
fn step_and_respond_agree() {
    let tokens = [("<", Response::TooLow), (">", Response::TooHigh), ("=", Response::Correct), ("q", Response::Quit)];
    for (first, first_response) in tokens {
        for (second, second_response) in tokens {
            let mut by_line = started();
            let mut by_response = started();
            assert_eq!(by_line.step(first), by_response.respond(first_response));
            assert_eq!(by_line.step(second), by_response.respond(second_response));
            assert_eq!(by_line.phase(), by_response.phase());
            assert_eq!(by_line.lowest(), by_response.lowest());
            assert_eq!(by_line.highest(), by_response.highest());
            assert_eq!(by_line.attempts(), by_response.attempts());
            assert_eq!(by_line.answer(), by_response.answer());
        }
    }
}

#[test]
fn scripted_game_that_is_won() {
    let (shown, code, read) = run(&["\n", ">\n", "what?\n", "=\n", "<\n"]);
    let mut expected = vec![Output::Welcome { lowest: 1, highest: 100, max_attempts: 7 }];
    expected.extend(round(1, 50));
    expected.extend(round(2, 25));
    expected.extend([Output::InvalidOption, Output::Options]);
    expected.extend([Output::ClearDisplay, Output::Win { answer: 25 }]);
    assert_eq!(shown, expected);
    assert_eq!(code, Some(0));
    assert_eq!(read, 4);
}

#[test]
fn scripted_game_that_is_quit() {
    let (shown, code, read) = run(&["ready\n", "q\n", "<\n", "<\n"]);
    let mut expected = vec![Output::Welcome { lowest: 1, highest: 100, max_attempts: 7 }];
    expected.extend(round(1, 50));
    assert_eq!(shown, expected);
    assert_eq!(code, Some(0));
    assert_eq!(read, 2);
}

#[test]
fn scripted_game_that_ends_in_contradiction() {
    let (shown, code, read) = run(&["\n", "<", ">", "<", ">", "<", ">", "<", "="]);
    let mut expected = vec![Output::Welcome { lowest: 1, highest: 100, max_attempts: 7 }];
    expected.extend(round(1, 50));
    expected.extend(round(2, 75));
    expected.extend(round(3, 62));
    expected.extend(round(4, 68));
    expected.extend(round(5, 65));
    expected.extend(round(6, 66));
    expected.extend([Output::ClearDisplay, Output::Contradiction { lowest: 66, highest: 65 }]);
    assert_eq!(shown, expected);
    assert_eq!(code, Some(1));
    assert_eq!(read, 7);
}

#[test]
fn scripted_game_that_is_lost() {
    let (shown, code, read) = run(&["\n", "<", "<", "<", "<", "<", "<", "<", "="]);
    let mut expected = vec![Output::Welcome { lowest: 1, highest: 100, max_attempts: 7 }];
    expected.extend(round(1, 50));
    expected.extend(round(2, 75));
    expected.extend(round(3, 88));
    expected.extend(round(4, 94));
    expected.extend(round(5, 97));
    expected.extend(round(6, 99));
    expected.extend(round(7, 100));
    expected.extend([Output::ClearDisplay, Output::Loss]);
    assert_eq!(shown, expected);
    assert_eq!(code, Some(0));
    assert_eq!(read, 8);
}

#[test]
fn scripted_game_that_runs_out_of_input() {
    let (shown, code, read) = run(&["\n", "<"]);
    let mut expected = vec![Output::Welcome { lowest: 1, highest: 100, max_attempts: 7 }];
    expected.extend(round(1, 50));
    expected.extend(round(2, 75));
    assert_eq!(shown, expected);
    assert_eq!(code, None);
    assert_eq!(read, 2);
}
