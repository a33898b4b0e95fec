//! Rules for passwords and phone numbers.

use vstd::prelude::*;
use vstd::string::*;

verus! {

/// What `char::is_uppercase` answers: whether the character has the
/// Unicode property `Uppercase`.
pub uninterp spec fn char_is_uppercase(c: char) -> bool;

/// What `char::is_lowercase` answers: whether the character has the
/// Unicode property `Lowercase`.
pub uninterp spec fn char_is_lowercase(c: char) -> bool;

/// Calls `char::is_uppercase`. Trusted: the answer is what
/// `char_is_uppercase` names.
#[verifier::external_body]
fn is_uppercase(c: char) -> (r: bool)
    ensures
        r == char_is_uppercase(c),
{
    c.is_uppercase()
}

/// Calls `char::is_lowercase`. Trusted: the answer is what
/// `char_is_lowercase` names.
#[verifier::external_body]
fn is_lowercase(c: char) -> (r: bool)
    ensures
        r == char_is_lowercase(c),
{
    c.is_lowercase()
}

/// Calls `str::replace` with the five separators as the pattern and the
/// empty text as the replacement. Trusted: what comes back is the text with
/// every separator taken out and all else left in place.
#[verifier::external_body]
fn without_separators(phone: &str) -> (r: String)
    ensures
        r@ == strip_separators(phone@),
{
    phone.replace(&[' ', '-', '(', ')', '+'][..], "")
}

/// Whether a character is a decimal digit, `0` to `9`.
pub open spec fn is_decimal_digit(c: char) -> bool {
    '0' <= c && c <= '9'
}

/// Whether a character is one that a phone number may be set off with:
/// a space, a hyphen, a round bracket or a plus sign.
pub open spec fn is_separator(c: char) -> bool {
    c == ' ' || c == '-' || c == '(' || c == ')' || c == '+'
}

/// A text with its separators taken out.
pub open spec fn strip_separators(text: Seq<char>) -> Seq<char> {
    text.filter(|c: char| !is_separator(c))
}

/// The length of a text in bytes of UTF-8.
pub open spec fn byte_len(text: Seq<char>) -> nat {
    vstd::utf8::encode_utf8(text).len()
}

/// Whether a text holds an upper-case character.
pub open spec fn has_uppercase(text: Seq<char>) -> bool {
    exists|i: int| 0 <= i < text.len() && char_is_uppercase(#[trigger] text[i])
}

/// Whether a text holds a lower-case character.
pub open spec fn has_lowercase(text: Seq<char>) -> bool {
    exists|i: int| 0 <= i < text.len() && char_is_lowercase(#[trigger] text[i])
}

/// Whether a text holds a decimal digit.
pub open spec fn has_digit(text: Seq<char>) -> bool {
    exists|i: int| 0 <= i < text.len() && is_decimal_digit(#[trigger] text[i])
}

/// Whether a text is decimal digits throughout.
pub open spec fn all_digits(text: Seq<char>) -> bool {
    forall|i: int| 0 <= i < text.len() ==> is_decimal_digit(#[trigger] text[i])
}

/// The rule that a password or a phone number breaks.
#[derive(Clone, Copy, Debug, PartialEq, Eq, Structural)]
pub enum ValidationFailure {
    /// The password is shorter than 8 bytes.
    PasswordTooShort,
    /// The password lacks an upper-case character, a lower-case character
    /// or a digit.
    PasswordTooWeak,
    /// The phone number, separators apart, is shorter than 10 bytes or
    /// longer than 15.
    PhoneLength,
    /// The phone number, separators apart, holds something other than
    /// digits.
    PhoneNotDigits,
}

impl ValidationFailure {
    /// The sentence that tells the rule.
    pub fn code(&self) -> (r: &'static str)
        ensures
            r@ == (match *self {
                ValidationFailure::PasswordTooShort => "Password must be at least 8 characters long"@,
                ValidationFailure::PasswordTooWeak => "Password must contain uppercase, lowercase, and digit"@,
                ValidationFailure::PhoneLength => "Invalid phone number length"@,
                ValidationFailure::PhoneNotDigits => "Phone number must contain only digits"@,
            }),
    {
        match self {
            ValidationFailure::PasswordTooShort => "Password must be at least 8 characters long",
            ValidationFailure::PasswordTooWeak => "Password must contain uppercase, lowercase, and digit",
            ValidationFailure::PhoneLength => "Invalid phone number length",
            ValidationFailure::PhoneNotDigits => "Phone number must contain only digits",
        }
    }
}

/// What the password rule says of a text.
pub open spec fn password_strength(password: Seq<char>) -> Result<(), ValidationFailure> {
    if byte_len(password) < 8 {
        Err(ValidationFailure::PasswordTooShort)
    } else if !has_uppercase(password) || !has_lowercase(password) || !has_digit(password) {
        Err(ValidationFailure::PasswordTooWeak)
    } else {
        Ok(())
    }
}

/// What the phone rule says of a text.
pub open spec fn phone_number_rule(phone: Seq<char>) -> Result<(), ValidationFailure> {
    let cleaned = strip_separators(phone);
    if byte_len(cleaned) < 10 || byte_len(cleaned) > 15 {
        Err(ValidationFailure::PhoneLength)
    } else if !all_digits(cleaned) {
        Err(ValidationFailure::PhoneNotDigits)
    } else {
        Ok(())
    }
}

/// Checks that a password is at least 8 bytes long and holds an
/// upper-case character, a lower-case character and a digit.
pub fn validate_password_strength(password: &str) -> (r: Result<(), ValidationFailure>)
    ensures
        r == password_strength(password@),
{
    if password.as_bytes().len() < 8 {
        return Err(ValidationFailure::PasswordTooShort);
    }
    let n: usize = password.unicode_len();
    let mut upper: bool = false;
    let mut lower: bool = false;
    let mut digit: bool = false;
    let mut i: usize = 0;
    while i < n
        invariant
            n == password@.len(),
            i <= n,
            upper <==> has_uppercase(password@.subrange(0, i as int)),
            lower <==> has_lowercase(password@.subrange(0, i as int)),
            digit <==> has_digit(password@.subrange(0, i as int)),
        decreases n - i,
    {
        let c: char = password.get_char(i);
        let ghost before = password@.subrange(0, i as int);
        let ghost after = password@.subrange(0, i + 1);
        proof {
            assert(after[i as int] == c);
            assert(forall|j: int| 0 <= j < i ==> before[j] == after[j]);
        }
        if is_uppercase(c) {
            upper = true;
        }
        if is_lowercase(c) {
            lower = true;
        }
        if c >= '0' && c <= '9' {
            digit = true;
        }
        proof {
            if has_uppercase(before) {
                let j = choose|j: int| 0 <= j < before.len() && char_is_uppercase(#[trigger] before[j]);
                assert(char_is_uppercase(after[j]));
            }
            if has_lowercase(before) {
                let j = choose|j: int| 0 <= j < before.len() && char_is_lowercase(#[trigger] before[j]);
                assert(char_is_lowercase(after[j]));
            }
            if has_digit(before) {
                let j = choose|j: int| 0 <= j < before.len() && is_decimal_digit(#[trigger] before[j]);
                assert(is_decimal_digit(after[j]));
            }
            if has_uppercase(after) && !char_is_uppercase(c) {
                let j = choose|j: int| 0 <= j < after.len() && char_is_uppercase(#[trigger] after[j]);
                assert(char_is_uppercase(before[j]));
            }
            if has_lowercase(after) && !char_is_lowercase(c) {
                let j = choose|j: int| 0 <= j < after.len() && char_is_lowercase(#[trigger] after[j]);
                assert(char_is_lowercase(before[j]));
            }
            if has_digit(after) && !is_decimal_digit(c) {
                let j = choose|j: int| 0 <= j < after.len() && is_decimal_digit(#[trigger] after[j]);
                assert(is_decimal_digit(before[j]));
            }
        }
        i = i + 1;
    }
    proof {
        assert(password@.subrange(0, n as int) =~= password@);
    }
    if !upper || !lower || !digit {
        return Err(ValidationFailure::PasswordTooWeak);
    }
    Ok(())
}

/// Checks that a phone number, separators apart, is 10 to 15 bytes long
/// and digits throughout.
pub fn validate_phone_number(phone: &str) -> (r: Result<(), ValidationFailure>)
    ensures
        r == phone_number_rule(phone@),
{
    let cleaned = without_separators(phone);
    let text: &str = cleaned.as_str();
    let bytes: usize = text.as_bytes().len();
    if bytes < 10 || bytes > 15 {
        return Err(ValidationFailure::PhoneLength);
    }
    let n: usize = text.unicode_len();
    let mut i: usize = 0;
    while i < n
        invariant
            n == text@.len(),
            i <= n,
            text@ == strip_separators(phone@),
            10 <= byte_len(text@) <= 15,
            forall|j: int| 0 <= j < i ==> is_decimal_digit(#[trigger] text@[j]),
        decreases n - i,
    {
        let c: char = text.get_char(i);
        if !(c >= '0' && c <= '9') {
            assert(!is_decimal_digit(text@[i as int]));
            return Err(ValidationFailure::PhoneNotDigits);
        }
        i = i + 1;
    }
    assert(all_digits(text@));
    Ok(())
}

} // verus!
