use card_validate::Type;
use card_validate::Validate;
use card_validate::ValidateError;

fn brand_of(number: &str) -> String {
    Validate::from(number).unwrap().card_type.name()
}

#[test]
fn visa_sixteen_digits_is_valid() {
    assert_eq!(brand_of("4242424242424242"), "visa");
}

#[test]
fn visa_thirteen_digits_is_valid() {
    assert_eq!(brand_of("4222222222222"), "visa");
}

#[test]
fn visa_electron_is_detected_before_visa() {
    // 4026 is also a Visa prefix; the debit entry must win.
    assert_eq!(brand_of("4026000000000002"), "visaelectron");
}

#[test]
fn maestro_is_detected() {
    assert_eq!(brand_of("6759649826438453"), "maestro");
}

#[test]
fn maestro_accepts_twelve_digits() {
    assert_eq!(brand_of("501856789018"), "maestro");
}

#[test]
fn forbrugsforeningen_is_detected_before_discover() {
    // 600 is also a Discover prefix (60); the debit entry must win.
    assert_eq!(brand_of("6007220000000004"), "forbrugsforeningen");
}

#[test]
fn dankort_is_detected_before_maestro() {
    // 5019 is adjacent to Maestro's 5018 but belongs to Dankort alone.
    assert_eq!(brand_of("5019717010103742"), "dankort");
}

#[test]
fn mastercard_is_detected() {
    assert_eq!(brand_of("5555555555554444"), "mastercard");
}

#[test]
fn mastercard_two_series_is_detected() {
    assert_eq!(brand_of("2223003122003222"), "mastercard");
}

#[test]
fn amex_is_detected() {
    assert_eq!(brand_of("378282246310005"), "amex");
}

#[test]
fn diners_club_is_detected() {
    assert_eq!(brand_of("30569309025904"), "dinersclub");
}

#[test]
fn discover_is_detected() {
    assert_eq!(brand_of("6011111111111117"), "discover");
}

#[test]
fn discover_622_is_detected_before_unionpay() {
    // 622 belongs to Discover although 62 alone would be UnionPay.
    assert_eq!(brand_of("6222222222222225"), "discover");
}

#[test]
fn unionpay_is_detected() {
    assert_eq!(brand_of("6200000000000005"), "unionpay");
}

#[test]
fn jcb_is_detected() {
    assert_eq!(brand_of("3530111333300000"), "jcb");
}

#[test]
fn unionpay_accepts_nineteen_digits() {
    assert_eq!(brand_of("6234567890123456780"), "unionpay");
}

#[test]
fn maestro_accepts_nineteen_digits() {
    assert_eq!(brand_of("6799999999999999995"), "maestro");
}

#[test]
fn twenty_digits_is_invalid_length_for_every_brand() {
    assert!(Validate::from("42424242424242424242") == Err(ValidateError::InvalidLength));
}

#[test]
fn failing_checksum_is_invalid_luhn() {
    assert!(Validate::from("4242424242424241") == Err(ValidateError::InvalidLuhn));
}

#[test]
fn eleven_digit_visa_prefix_is_invalid_length() {
    assert!(Validate::from("42424242424") == Err(ValidateError::InvalidLength));
}

#[test]
fn wrong_length_is_rejected_even_when_checksum_passes() {
    // 11 digits with a Visa prefix and a passing checksum: the length stage
    // comes first.
    assert!(Validate::from("42424242420") == Err(ValidateError::InvalidLength));
}

#[test]
fn sixteen_digit_amex_prefix_is_invalid_length() {
    assert!(Validate::from("3782822463100050") == Err(ValidateError::InvalidLength));
}

#[test]
fn unrecognized_prefix_is_unknown_type() {
    assert!(Validate::from("1234567890123456") == Err(ValidateError::UnknownType));
}

#[test]
fn letters_are_invalid_format() {
    assert!(Validate::from("abcd") == Err(ValidateError::InvalidFormat));
}

#[test]
fn empty_string_is_invalid_format() {
    assert!(Validate::from("") == Err(ValidateError::InvalidFormat));
}

#[test]
fn separators_are_not_stripped() {
    assert!(Validate::from("4242 4242 4242 4242") == Err(ValidateError::InvalidFormat));
    assert!(Validate::from("4242-4242-4242-4242") == Err(ValidateError::InvalidFormat));
}

#[test]
fn validation_is_idempotent() {
    assert!(Validate::from("4242424242424242") == Validate::from("4242424242424242"));
    assert!(Validate::from("4242424242424241") == Validate::from("4242424242424241"));
    assert!(Validate::from("abcd") == Validate::from("abcd"));
    assert!(Validate::from("") == Validate::from(""));
}

#[test]
fn recognized_brands_are_valid_types() {
    assert!(Type::Visa.valid());
    assert!(Type::Maestro.valid());
    assert!(!Type::Other.valid());
}

#[test]
fn name_tokens_are_stable() {
    assert_eq!(Type::VisaElectron.name(), "visaelectron");
    assert_eq!(Type::Maestro.name(), "maestro");
    assert_eq!(Type::Forbrugsforeningen.name(), "forbrugsforeningen");
    assert_eq!(Type::Dankort.name(), "dankort");
    assert_eq!(Type::Visa.name(), "visa");
    assert_eq!(Type::MasterCard.name(), "mastercard");
    assert_eq!(Type::Amex.name(), "amex");
    assert_eq!(Type::DinersClub.name(), "dinersclub");
    assert_eq!(Type::Discover.name(), "discover");
    assert_eq!(Type::UnionPay.name(), "unionpay");
    assert_eq!(Type::JCB.name(), "jcb");
    assert_eq!(Type::Other.name(), "other");
}
