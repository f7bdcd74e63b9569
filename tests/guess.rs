use rust_basics::guess::{judge, parse_guess, reply_to, GuessGame, Reply, SessionEnd, DEFAULT_BOUND};

fn lines(items: &[&str]) -> Vec<String> {
    items.iter().map(|s| s.to_string()).collect()
}

#[test]
fn scenario_too_small_too_big_correct() {
    let game = GuessGame::with_secret(50, 100);
    let session = game.play(&lines(&["10", "90", "50"]));
    assert_eq!(session.replies, vec![Reply::TooSmall, Reply::TooBig, Reply::Correct]);
    assert_eq!(session.end, SessionEnd::Won);
}

#[test]
fn scenario_invalid_then_correct() {
    let game = GuessGame::with_secret(7, 100);
    let session = game.play(&lines(&["x", "7"]));
    assert_eq!(session.replies, vec![Reply::Invalid, Reply::Correct]);
    assert_eq!(session.end, SessionEnd::Won);
}

#[test]
fn scenario_input_closes_before_any_guess() {
    let session = GuessGame::with_secret(7, 100).play(&lines(&[]));
    assert!(session.replies.is_empty());
    assert_eq!(session.end, SessionEnd::InputClosed);

    let session = GuessGame::with_secret(7, 100).play(&lines(&["abc", "x"]));
    assert_eq!(session.replies, vec![Reply::Invalid, Reply::Invalid]);
    assert_eq!(session.end, SessionEnd::InputClosed);
}

#[test]
fn session_stops_at_first_matching_guess() {
    let session = GuessGame::with_secret(5, 10).play(&lines(&["3", " 5 ", "5", "9"]));
    assert_eq!(session.replies, vec![Reply::TooSmall, Reply::Correct]);
    assert_eq!(session.end, SessionEnd::Won);
}

#[test]
fn session_without_the_secret_answers_every_line() {
    let session = GuessGame::with_secret(5, 10).play(&lines(&["1", "9", "six", "4"]));
    assert_eq!(
        session.replies,
        vec![Reply::TooSmall, Reply::TooBig, Reply::Invalid, Reply::TooSmall]
    );
    assert_eq!(session.end, SessionEnd::InputClosed);
}

#[test]
fn guesses_outside_the_bound_never_win() {
    for secret in [1u32, 50, 100] {
        for line in ["0", "101", "4294967295", "-1", "4294967296"] {
            assert_ne!(reply_to(line, secret), Reply::Correct);
        }
    }
    let session = GuessGame::with_secret(1, 100).play(&lines(&["0", "101"]));
    assert_eq!(session.replies, vec![Reply::TooSmall, Reply::TooBig]);
    assert_eq!(session.end, SessionEnd::InputClosed);
}

#[test]
fn malformed_line_changes_nothing() {
    let mut game = GuessGame::with_secret(42, 100);
    assert_eq!(game.submit("abc"), Reply::Invalid);
    assert_eq!(game.secret(), 42);
    assert_eq!(game.bound(), 100);
    assert!(!game.is_won());
    assert_eq!(game.submit(""), Reply::Invalid);
    assert_eq!(game.submit("4 2"), Reply::Invalid);
    assert!(!game.is_won());
    assert_eq!(game.submit("42\n"), Reply::Correct);
    assert!(game.is_won());
    assert_eq!(game.secret(), 42);
}

#[test]
fn judge_compares_three_ways() {
    assert_eq!(judge(10, 50), Reply::TooSmall);
    assert_eq!(judge(90, 50), Reply::TooBig);
    assert_eq!(judge(50, 50), Reply::Correct);
    assert_eq!(judge(0, u32::MAX), Reply::TooSmall);
}

#[test]
fn reply_to_reads_then_compares() {
    assert_eq!(reply_to("  10\r\n", 50), Reply::TooSmall);
    assert_eq!(reply_to("+90", 50), Reply::TooBig);
    assert_eq!(reply_to("050", 50), Reply::Correct);
    assert_eq!(reply_to("fifty", 50), Reply::Invalid);
}

#[test]
fn parse_guess_reads_trimmed_numbers() {
    assert_eq!(parse_guess("50"), Some(50));
    assert_eq!(parse_guess(" \t50\n"), Some(50));
    assert_eq!(parse_guess("abc"), None);
    assert_eq!(parse_guess(""), None);
}

#[test]
fn random_secret_lies_in_bound() {
    for _ in 0..200 {
        let game = GuessGame::new(DEFAULT_BOUND);
        assert!(1 <= game.secret() && game.secret() <= 100);
        assert_eq!(game.bound(), 100);
        assert!(!game.is_won());
    }
    let game = GuessGame::new(1);
    assert_eq!(game.secret(), 1);
    let game = GuessGame::new(u32::MAX);
    assert!(game.secret() >= 1);
}

#[test]
fn random_secrets_vary() {
    let first = GuessGame::new(1_000_000).secret();
    let mut differs = false;
    for _ in 0..50 {
        if GuessGame::new(1_000_000).secret() != first {
            differs = true;
        }
    }
    assert!(differs);
}

#[test]
fn replies_have_messages() {
    assert_eq!(Reply::TooSmall.message(), "Too small!");
    assert_eq!(Reply::TooBig.message(), "Too big!");
    assert_eq!(Reply::Correct.message(), "You win!");
    assert_eq!(Reply::Invalid.message(), "Please enter a valid number!");
}
