use card_validate::luhn;

#[test]
fn empty_string_is_valid() {
    // A sum of zero is divisible by ten; the validator's format stage keeps
    // empty input from ever reaching the engine.
    assert!(luhn::valid(""));
}

#[test]
fn single_zero_is_valid() {
    assert!(luhn::valid("0"));
}

#[test]
fn single_nonzero_digit_is_invalid() {
    assert!(!luhn::valid("7"));
}

#[test]
fn even_position_digit_is_doubled() {
    // rightmost 8 counts as 8; the 1 at position two doubles to 2; 8 + 2 = 10
    assert!(luhn::valid("18"));
}

#[test]
fn doubled_digit_above_nine_is_reduced() {
    // rightmost 1 counts as 1; the 9 at position two doubles to 18, reduced
    // to 9; 1 + 9 = 10
    assert!(luhn::valid("91"));
}

#[test]
fn known_valid_number() {
    assert!(luhn::valid("79927398713"));
}

#[test]
fn known_invalid_number() {
    assert!(!luhn::valid("79927398710"));
    assert!(!luhn::valid("79927398711"));
    assert!(!luhn::valid("79927398712"));
}

#[test]
fn append_check_digit_round_trip() {
    // Exactly one trailing digit completes a payload, and re-running the
    // engine on the completed string accepts it.
    let payload = "7992739871";
    let mut accepted: Option<u32> = None;
    let mut count = 0;
    for d in 0..10u32 {
        let candidate = format!("{}{}", payload, d);
        if luhn::valid(&candidate) {
            accepted = Some(d);
            count += 1;
        }
    }
    assert_eq!(count, 1);
    assert_eq!(accepted, Some(3));
    assert!(luhn::valid("79927398713"));
}

#[test]
fn append_check_digit_round_trip_card_payload() {
    let payload = "424242424242424";
    let mut accepted: Option<u32> = None;
    for d in 0..10u32 {
        let candidate = format!("{}{}", payload, d);
        if luhn::valid(&candidate) {
            accepted = Some(d);
        }
    }
    assert_eq!(accepted, Some(2));
    assert!(luhn::valid("4242424242424242"));
}
