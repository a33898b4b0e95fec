//! Password credentials: one-way hashing and verification.

use vstd::prelude::*;

verus! {

/// The `bcrypt` crate's error type, carried through unread.
#[verifier::external_type_specification]
#[verifier::external_body]
pub struct ExBcryptError(bcrypt::BcryptError);

/// What `bcrypt::verify` returns for a password and a stored hash:
/// `Some(true)` where the hash was made from the password, `Some(false)`
/// where it was not, `None` where the stored hash cannot be read.
pub uninterp spec fn bcrypt_verdict(password: Seq<char>, hash: Seq<char>) -> Option<bool>;

/// Whether a credential carries the default work factor: 60 characters
/// that start with the version `2b` and the cost `12`.
pub open spec fn has_default_cost(hash: Seq<char>) -> bool {
    hash.len() == 60 && hash.subrange(0, 7) == seq!['$', '2', 'b', '$', '1', '2', '$']
}

/// Calls `bcrypt::hash` with `bcrypt::DEFAULT_COST`. The salt is random, so
/// the text itself is not determined. Trusted: the text has the form that
/// `HashParts::format` gives it (version `2b`, cost 12, then 22 characters
/// of salt and 31 of digest), and `bcrypt::verify` accepts it for the same
/// password, since it recomputes the digest from the salt and cost that the
/// hash carries.
#[verifier::external_body]
fn bcrypt_hash(password: &str) -> (r: Result<String, bcrypt::BcryptError>)
    ensures
        r matches Ok(h) ==> bcrypt_verdict(password@, h@) == Some(true),
        r matches Ok(h) ==> has_default_cost(h@),
{
    bcrypt::hash(password, bcrypt::DEFAULT_COST)
}

/// Calls `bcrypt::verify`. Trusted: the answer is what `bcrypt_verdict`
/// names, and an error stands for a stored hash that cannot be read.
#[verifier::external_body]
fn bcrypt_check(password: &str, hash: &str) -> (r: Result<bool, bcrypt::BcryptError>)
    ensures
        r matches Ok(b) ==> bcrypt_verdict(password@, hash@) == Some(b),
        r is Err ==> bcrypt_verdict(password@, hash@) is None,
{
    bcrypt::verify(password, hash)
}

/// Why a credential operation failed. Both are faults of the system, not
/// of the person who typed the password.
#[derive(Clone, Copy, Debug, PartialEq, Eq, Structural)]
pub enum CredentialError {
    /// No hash could be produced.
    HashingFailed,
    /// The stored hash is not a well-formed credential.
    MalformedHash,
}

/// What verifying `password` against `hash` answers.
pub open spec fn password_verdict(password: Seq<char>, hash: Seq<char>) -> Result<
    bool,
    CredentialError,
> {
    match bcrypt_verdict(password, hash) {
        Some(b) => Ok(b),
        None => Err(CredentialError::MalformedHash),
    }
}

/// The answer for each outcome of the hashing call: the hash itself, or
/// `HashingFailed` in place of the outside error.
pub fn hashed_or_failed(made: Result<String, bcrypt::BcryptError>) -> (r: Result<
    String,
    CredentialError,
>)
    ensures
        match made {
            Ok(h) => r matches Ok(kept) && kept == h,
            Err(_) => r matches Err(e) && e == CredentialError::HashingFailed,
        },
{
    match made {
        Ok(h) => Ok(h),
        Err(_) => Err(CredentialError::HashingFailed),
    }
}

/// Derives a salted credential from a password at the default work factor.
/// Every credential it returns verifies against the same password.
pub fn hash_password(password: &str) -> (r: Result<String, CredentialError>)
    ensures
        r matches Ok(h) ==> password_verdict(password@, h@) == Ok::<bool, CredentialError>(true),
        r matches Ok(h) ==> has_default_cost(h@),
        r matches Err(e) ==> e == CredentialError::HashingFailed,
{
    hashed_or_failed(bcrypt_hash(password))
}

/// Checks a password against a stored credential. A mismatch is the
/// ordinary answer `Ok(false)`; only a stored hash that cannot be read is
/// an error.
pub fn verify_password(password: &str, hash: &str) -> (r: Result<bool, CredentialError>)
    ensures
        r == password_verdict(password@, hash@),
{
    match bcrypt_check(password, hash) {
        Ok(b) => Ok(b),
        Err(_) => Err(CredentialError::MalformedHash),
    }
}

/// What a login attempt comes to.
#[derive(Clone, Copy, Debug, PartialEq, Eq, Structural)]
pub enum LoginDecision {
    /// The password belongs to the account: a token is to be issued.
    Granted,
    /// No such active account, or the password is not its password. The
    /// caller is told the same in both cases.
    InvalidCredentials,
    /// The stored credential cannot be read: a fault of the system, not of
    /// the person who typed the password.
    InternalError,
}

impl LoginDecision {
    /// The HTTP status of the answer: 200 where the login is granted, 401
    /// for invalid credentials, 500 for a fault of the system.
    pub fn status_code(&self) -> (r: u16)
        ensures
            r == (match *self {
                LoginDecision::Granted => 200u16,
                LoginDecision::InvalidCredentials => 401u16,
                LoginDecision::InternalError => 500u16,
            }),
    {
        match self {
            LoginDecision::Granted => 200,
            LoginDecision::InvalidCredentials => 401,
            LoginDecision::InternalError => 500,
        }
    }
}

/// The decision for a password and the stored credential of the account
/// that the login names, if there is such an account.
pub open spec fn login_decision(password: Seq<char>, stored: Option<Seq<char>>) -> LoginDecision {
    match stored {
        None => LoginDecision::InvalidCredentials,
        Some(hash) => match password_verdict(password, hash) {
            Ok(true) => LoginDecision::Granted,
            Ok(false) => LoginDecision::InvalidCredentials,
            Err(_) => LoginDecision::InternalError,
        },
    }
}

/// Decides a login attempt.
pub fn decide_login(password: &str, stored: Option<&str>) -> (r: LoginDecision)
    ensures
        r == login_decision(
            password@,
            match stored {
                Some(hash) => Some(hash@),
                None => None,
            },
        ),
{
    match stored {
        None => LoginDecision::InvalidCredentials,
        Some(hash) => match verify_password(password, hash) {
            Ok(true) => LoginDecision::Granted,
            Ok(false) => LoginDecision::InvalidCredentials,
            Err(_) => LoginDecision::InternalError,
        },
    }
}

} // verus!
