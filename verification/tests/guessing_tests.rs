use primer::guessing::{evaluate_guess, new_secret, parse_guess, Hint};

#[test]
fn parses_a_plain_number() {
    assert_eq!(parse_guess("42"), Some(42));
}

#[test]
fn parses_with_surrounding_whitespace() {
    assert_eq!(parse_guess("  37\n"), Some(37));
}

#[test]
fn parses_a_leading_plus_sign() {
    assert_eq!(parse_guess("+7"), Some(7));
}

#[test]
fn rejects_words() {
    assert_eq!(parse_guess("forty"), None);
}

#[test]
fn rejects_an_empty_line() {
    assert_eq!(parse_guess("\n"), None);
}

#[test]
fn rejects_a_lone_plus_sign() {
    assert_eq!(parse_guess("+"), None);
}

#[test]
fn parses_the_largest_value() {
    assert_eq!(parse_guess("4294967295"), Some(u32::MAX));
}

#[test]
fn rejects_a_value_past_the_largest() {
    assert_eq!(parse_guess("4294967296"), None);
}

#[test]
fn rejects_a_negative_number() {
    assert_eq!(parse_guess("-3"), None);
}

#[test]
fn hints_follow_the_comparison() {
    assert_eq!(evaluate_guess(10, 50), Hint::TooSmall);
    assert_eq!(evaluate_guess(90, 50), Hint::TooBig);
    assert_eq!(evaluate_guess(50, 50), Hint::Correct);
}

#[test]
fn secrets_stay_between_one_and_a_hundred() {
    for _ in 0..200 {
        let s = new_secret();
        assert!((1..=100).contains(&s));
    }
}
