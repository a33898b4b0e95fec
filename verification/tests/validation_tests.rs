use travel_backend::validation::{
    validate_password_strength, validate_phone_number, ValidationFailure,
};

#[test]
fn strong_password_passes() {
    assert_eq!(validate_password_strength("Abcdefg1"), Ok(()));
    assert_eq!(validate_password_strength("correct Horse 7 battery"), Ok(()));
    assert_eq!(validate_password_strength("\u{c4}\u{e4}123456"), Ok(()));
}

#[test]
fn short_password_is_refused_first() {
    assert_eq!(validate_password_strength(""), Err(ValidationFailure::PasswordTooShort));
    assert_eq!(validate_password_strength("Abcdef1"), Err(ValidationFailure::PasswordTooShort));
    assert_eq!(validate_password_strength("abc"), Err(ValidationFailure::PasswordTooShort));
}

#[test]
fn password_length_counts_bytes() {
    // Four characters of two bytes each, with the three classes among them.
    assert_eq!(validate_password_strength("\u{c4}\u{e4}1\u{e9}"), Err(ValidationFailure::PasswordTooShort));
    assert_eq!(validate_password_strength("\u{c4}\u{e4}1\u{e9}\u{e9}"), Ok(()));
}

#[test]
fn password_without_a_class_is_weak() {
    assert_eq!(validate_password_strength("abcdefg1"), Err(ValidationFailure::PasswordTooWeak));
    assert_eq!(validate_password_strength("ABCDEFG1"), Err(ValidationFailure::PasswordTooWeak));
    assert_eq!(validate_password_strength("Abcdefgh"), Err(ValidationFailure::PasswordTooWeak));
    assert_eq!(validate_password_strength("12345678"), Err(ValidationFailure::PasswordTooWeak));
    assert_eq!(validate_password_strength("Abcdefg\u{663}"), Err(ValidationFailure::PasswordTooWeak));
}

#[test]
fn plain_phone_number_passes() {
    assert_eq!(validate_phone_number("0123456789"), Ok(()));
    assert_eq!(validate_phone_number("123456789012345"), Ok(()));
    assert_eq!(validate_phone_number("+49 (30) 1234-5678"), Ok(()));
    assert_eq!(validate_phone_number("+1 (555) 010-9999"), Ok(()));
}

#[test]
fn phone_number_length_is_taken_without_separators() {
    assert_eq!(validate_phone_number("123456789"), Err(ValidationFailure::PhoneLength));
    assert_eq!(validate_phone_number("1234567890123456"), Err(ValidationFailure::PhoneLength));
    assert_eq!(validate_phone_number("+-() 123456789"), Err(ValidationFailure::PhoneLength));
    assert_eq!(validate_phone_number(""), Err(ValidationFailure::PhoneLength));
    assert_eq!(validate_phone_number("(((((((((())))))))))"), Err(ValidationFailure::PhoneLength));
}

#[test]
fn phone_number_must_be_digits() {
    assert_eq!(validate_phone_number("12345abcde"), Err(ValidationFailure::PhoneNotDigits));
    assert_eq!(validate_phone_number("0123456789x"), Err(ValidationFailure::PhoneNotDigits));
    assert_eq!(validate_phone_number("0123.456.789"), Err(ValidationFailure::PhoneNotDigits));
    // Five full-width digits are fifteen bytes, and no decimal digits.
    assert_eq!(
        validate_phone_number("\u{ff11}\u{ff12}\u{ff13}\u{ff14}\u{ff15}"),
        Err(ValidationFailure::PhoneNotDigits)
    );
}

#[test]
fn each_failure_has_its_sentence() {
    assert_eq!(
        ValidationFailure::PasswordTooShort.code(),
        "Password must be at least 8 characters long"
    );
    assert_eq!(
        ValidationFailure::PasswordTooWeak.code(),
        "Password must contain uppercase, lowercase, and digit"
    );
    assert_eq!(ValidationFailure::PhoneLength.code(), "Invalid phone number length");
    assert_eq!(ValidationFailure::PhoneNotDigits.code(), "Phone number must contain only digits");
}
