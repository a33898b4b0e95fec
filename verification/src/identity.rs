//! User identifiers: 128-bit values with the textual form of a UUID.

use std::str::FromStr;
use vstd::prelude::*;

verus! {

/// What `uuid::Uuid::from_str` makes of a text: the 128 bits of the
/// identifier it reads, or `None` where the text is no UUID in any of the
/// forms that the `uuid` crate accepts.
pub uninterp spec fn uuid_parsed(text: Seq<char>) -> Option<u128>;

/// Sixteen to the power `e`.
pub open spec fn pow16(e: nat) -> nat
    decreases e,
{
    if e == 0 {
        1
    } else {
        16 * pow16((e - 1) as nat)
    }
}

/// The lower-case hexadecimal digit for a value below sixteen.
pub open spec fn hex_char(d: int) -> char {
    if d < 10 {
        ('0' as int + d) as char
    } else {
        ('a' as int + d - 10) as char
    }
}

/// The `k`-th hexadecimal digit of `value`, counted from the most
/// significant one (`k` from 0 to 31).
pub open spec fn hex_digit_at(value: u128, k: int) -> int {
    (value as int / pow16((31 - k) as nat) as int) % 16
}

/// How many hyphens the canonical text holds before position `i`.
pub open spec fn hyphens_before(i: int) -> int {
    (if i > 8 { 1int } else { 0 }) + (if i > 13 { 1int } else { 0 })
        + (if i > 18 { 1int } else { 0 }) + (if i > 23 { 1int } else { 0 })
}

/// The canonical text of an identifier: 32 lower-case hexadecimal digits,
/// most significant first, in groups of 8, 4, 4, 4 and 12 joined by hyphens.
pub open spec fn uuid_text(value: u128) -> Seq<char> {
    Seq::new(
        36,
        |i: int|
            if i == 8 || i == 13 || i == 18 || i == 23 {
                '-'
            } else {
                hex_char(hex_digit_at(value, i - hyphens_before(i)))
            },
    )
}

/// Calls `uuid::Uuid::from_str` and hands out the identifier's bits
/// (`Uuid::as_u128`). Trusted: the result is what `uuid_parsed` names.
#[verifier::external_body]
fn uuid_from_text(text: &str) -> (r: Option<u128>)
    ensures
        r == uuid_parsed(text@),
{
    match uuid::Uuid::from_str(text) {
        Ok(id) => Some(id.as_u128()),
        Err(_) => None,
    }
}

/// Calls `uuid::Uuid::from_u128` and formats the value with its `Display`
/// impl. Trusted: the text is the hyphenated lower-case form, and
/// `Uuid::from_str` reads that text back to the same bits.
#[verifier::external_body]
fn uuid_into_text(value: u128) -> (r: String)
    ensures
        r@ == uuid_text(value),
        uuid_parsed(r@) == Some(value),
{
    uuid::Uuid::from_u128(value).to_string()
}

/// The identifier of a user.
#[derive(Clone, Copy, Debug, PartialEq, Eq, Hash, Structural)]
pub struct UserId {
    pub value: u128,
}

impl UserId {
    /// The identifier with the given bits.
    pub fn from_u128(value: u128) -> (r: UserId)
        ensures
            r.value == value,
    {
        UserId { value }
    }

    /// The identifier's bits.
    pub fn as_u128(&self) -> (r: u128)
        ensures
            r == self.value,
    {
        self.value
    }

    /// The identifier that a text spells, if it spells one.
    pub open spec fn spelled_by(text: Seq<char>) -> Option<UserId> {
        match uuid_parsed(text) {
            Some(value) => Some(UserId { value }),
            None => None,
        }
    }

    /// Reads an identifier from its text.
    pub fn parse(text: &str) -> (r: Option<UserId>)
        ensures
            r == UserId::spelled_by(text@),
    {
        match uuid_from_text(text) {
            Some(value) => Some(UserId { value }),
            None => None,
        }
    }

    /// The canonical text of the identifier, which `parse` reads back.
    pub fn to_text(&self) -> (r: String)
        ensures
            r@ == uuid_text(self.value),
            UserId::spelled_by(r@) == Some(*self),
    {
        uuid_into_text(self.value)
    }
}

} // verus!
