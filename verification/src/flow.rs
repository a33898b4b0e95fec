//! The decisions of registration, login and token refresh, between the
//! steps that the user store performs.

use crate::credential::{
    decide_login, has_default_cost, hash_password, login_decision, password_verdict,
    CredentialError, LoginDecision,
};
use crate::identity::UserId;
use crate::token::{
    clock_in_range, create_jwt_at, current_timestamp, is_compact_token, issuance, issued_claims,
    jwt_decoded, jwt_header_algorithm, raw_of, DecodeFailure, RawClaimsView, SigningAlgorithm,
};
use vstd::prelude::*;

verus! {

/// Why an operation of the account routes ends without its result.
#[derive(Clone, Copy, Debug, PartialEq, Eq, Structural)]
pub enum Refusal {
    /// The request breaks the rules of its fields.
    ValidationFailed,
    /// An account with this e-mail address exists already.
    EmailTaken,
    /// The user store failed.
    StoreFailed,
    /// No credential could be derived from the password.
    HashingFailed,
    /// The user store did not create the account.
    UserNotCreated,
    /// No token could be issued.
    TokenNotIssued,
    /// No such active account, or the password is not its password.
    InvalidCredentials,
    /// The stored credential cannot be read.
    PasswordCheckFailed,
    /// The account of the token's subject is not there, or not active.
    UserNotFound,
}

impl Refusal {
    /// The HTTP status of the refusal.
    pub open spec fn status(&self) -> u16 {
        match *self {
            Refusal::ValidationFailed => 400,
            Refusal::EmailTaken => 409,
            Refusal::InvalidCredentials => 401,
            Refusal::UserNotFound => 404,
            Refusal::StoreFailed => 500,
            Refusal::HashingFailed => 500,
            Refusal::UserNotCreated => 500,
            Refusal::TokenNotIssued => 500,
            Refusal::PasswordCheckFailed => 500,
        }
    }

    /// The HTTP status of the refusal. A fault of the system is a server
    /// error, never a verdict on the credentials.
    pub fn status_code(&self) -> (r: u16)
        ensures
            r == self.status(),
    {
        match self {
            Refusal::ValidationFailed => 400,
            Refusal::EmailTaken => 409,
            Refusal::InvalidCredentials => 401,
            Refusal::UserNotFound => 404,
            Refusal::StoreFailed => 500,
            Refusal::HashingFailed => 500,
            Refusal::UserNotCreated => 500,
            Refusal::TokenNotIssued => 500,
            Refusal::PasswordCheckFailed => 500,
        }
    }

    /// The sentence that the caller is told.
    pub fn message(&self) -> (r: &'static str)
        ensures
            r@ == (match *self {
                Refusal::ValidationFailed => "Validation failed"@,
                Refusal::EmailTaken => "User with this email already exists"@,
                Refusal::StoreFailed => "Internal server error"@,
                Refusal::HashingFailed => "Failed to hash password"@,
                Refusal::UserNotCreated => "Failed to create user"@,
                Refusal::TokenNotIssued => "Failed to create token"@,
                Refusal::InvalidCredentials => "Invalid credentials"@,
                Refusal::PasswordCheckFailed => "Password verification failed"@,
                Refusal::UserNotFound => "User not found"@,
            }),
    {
        match self {
            Refusal::ValidationFailed => "Validation failed",
            Refusal::EmailTaken => "User with this email already exists",
            Refusal::StoreFailed => "Internal server error",
            Refusal::HashingFailed => "Failed to hash password",
            Refusal::UserNotCreated => "Failed to create user",
            Refusal::TokenNotIssued => "Failed to create token",
            Refusal::InvalidCredentials => "Invalid credentials",
            Refusal::PasswordCheckFailed => "Password verification failed",
            Refusal::UserNotFound => "User not found",
        }
    }
}

/// What the user store answers when asked whether an e-mail address is
/// taken.
#[derive(Clone, Copy, Debug, PartialEq, Eq, Structural)]
pub enum EmailLookup {
    Failed,
    Free,
    Taken,
}

/// What the user store answers when asked for the active account of an
/// e-mail address.
#[derive(Debug)]
pub enum AccountLookup {
    Failed,
    NotFound,
    Found { user_id: UserId, password_hash: String },
}

/// Whether `token` is one issued for `user_id` under `secret`: at some
/// moment with the clock in range, it decodes to the claims issued then.
pub open spec fn is_token_for(token: Seq<char>, user_id: UserId, secret: Seq<char>) -> bool {
    exists|now: i64|
        #![trigger clock_in_range(now)]
        clock_in_range(now) && jwt_decoded(token, secret) == Ok::<RawClaimsView, DecodeFailure>(
            raw_of(issued_claims(user_id, now)),
        )
}

/// The view of a step's result: the text of the token or credential, or
/// the refusal.
pub open spec fn text_or_refusal(r: Result<String, Refusal>) -> Result<Seq<char>, Refusal> {
    match r {
        Ok(t) => Ok(t@),
        Err(e) => Err(e),
    }
}

/// What issuing a token for an account at `now` answers: the token that
/// the codec issues, or `TokenNotIssued` where the clock is out of range.
pub open spec fn issue_outcome(user_id: UserId, secret: Seq<char>, now: i64) -> Result<
    Seq<char>,
    Refusal,
> {
    match issuance(user_id, secret, now) {
        Ok(token) => Ok(token),
        Err(_) => Err(Refusal::TokenNotIssued),
    }
}

/// Whether `token` carries the claims issued for `user_id` at `now`: it
/// has the compact form, its header names HS256, it decodes under `secret`
/// to those claims, and their subject spells `user_id`.
pub open spec fn is_token_at(token: Seq<char>, user_id: UserId, secret: Seq<char>, now: i64) -> bool {
    &&& is_compact_token(token)
    &&& jwt_header_algorithm(token) == Some(SigningAlgorithm::Hs256)
    &&& jwt_decoded(token, secret) == Ok::<RawClaimsView, DecodeFailure>(
        raw_of(issued_claims(user_id, now)),
    )
    &&& UserId::spelled_by(issued_claims(user_id, now).sub) == Some(user_id)
}

/// Issues a token for an account as of `now`: with the clock in range the
/// token of the claims issued at `now`, else `TokenNotIssued`.
pub fn issue_token_at(user_id: UserId, secret: &str, now: i64) -> (r: Result<String, Refusal>)
    ensures
        text_or_refusal(r) == issue_outcome(user_id, secret@, now),
        clock_in_range(now) <==> r is Ok,
        r matches Ok(t) ==> is_token_at(t@, user_id, secret@, now),
{
    match create_jwt_at(user_id, secret, now) {
        Ok(token) => Ok(token),
        Err(_) => Err(Refusal::TokenNotIssued),
    }
}

/// Issues a token for an account, as of the system clock. Whatever the
/// clock says, the answer is that of `issue_token_at` at some moment.
pub fn issue_token(user_id: UserId, secret: &str) -> (r: Result<String, Refusal>)
    ensures
        exists|now: i64| text_or_refusal(r) == #[trigger] issue_outcome(user_id, secret@, now),
        r matches Ok(t) ==> is_token_for(t@, user_id, secret@),
        r matches Err(e) ==> e == Refusal::TokenNotIssued,
{
    let now: i64 = current_timestamp();
    issue_token_at(user_id, secret, now)
}

/// Registration, once the store has said whether the address is taken:
/// refuses a taken address and a failed store; else derives the credential
/// to store with the new account.
pub fn register_after_lookup(existing: EmailLookup, password: &str) -> (r: Result<String, Refusal>)
    ensures
        existing == EmailLookup::Taken ==> (r matches Err(e) && e == Refusal::EmailTaken),
        existing == EmailLookup::Failed ==> (r matches Err(e) && e == Refusal::StoreFailed),
        existing == EmailLookup::Free ==> match r {
            Ok(hash) => password_verdict(password@, hash@) == Ok::<bool, CredentialError>(true)
                && has_default_cost(hash@),
            Err(e) => e == Refusal::HashingFailed,
        },
{
    match existing {
        EmailLookup::Taken => Err(Refusal::EmailTaken),
        EmailLookup::Failed => Err(Refusal::StoreFailed),
        EmailLookup::Free => match hash_password(password) {
            Ok(hash) => Ok(hash),
            Err(_) => Err(Refusal::HashingFailed),
        },
    }
}

/// What registration answers at `now`, once the store has created the
/// account or failed to: `UserNotCreated`, or what issuing a token for the
/// new account answers.
pub open spec fn register_outcome(created: Option<UserId>, secret: Seq<char>, now: i64) -> Result<
    Seq<char>,
    Refusal,
> {
    match created {
        None => Err(Refusal::UserNotCreated),
        Some(user_id) => issue_outcome(user_id, secret, now),
    }
}

/// Registration as of `now`, once the store has created the account or
/// failed to: a token for the new account, or the refusal.
pub fn register_after_insert_at(created: Option<UserId>, secret: &str, now: i64) -> (r: Result<
    String,
    Refusal,
>)
    ensures
        text_or_refusal(r) == register_outcome(created, secret@, now),
        r matches Ok(t) ==> created is Some && is_token_at(t@, created->0, secret@, now),
{
    match created {
        None => Err(Refusal::UserNotCreated),
        Some(user_id) => issue_token_at(user_id, secret, now),
    }
}

/// Registration, once the store has created the account or failed to, as
/// of the system clock. Whatever the clock says, the answer is that of
/// `register_after_insert_at` at some moment.
pub fn register_after_insert(created: Option<UserId>, secret: &str) -> (r: Result<String, Refusal>)
    ensures
        exists|now: i64| text_or_refusal(r) == #[trigger] register_outcome(created, secret@, now),
        created is None ==> (r matches Err(e) && e == Refusal::UserNotCreated),
        created matches Some(user_id) ==> match r {
            Ok(t) => is_token_for(t@, user_id, secret@),
            Err(e) => e == Refusal::TokenNotIssued,
        },
{
    let now: i64 = current_timestamp();
    register_after_insert_at(created, secret, now)
}

/// The refusal for a login that is not granted; `None` where it is.
pub open spec fn login_refusal(password: Seq<char>, account: AccountLookup) -> Option<Refusal> {
    match account {
        AccountLookup::Failed => Some(Refusal::StoreFailed),
        AccountLookup::NotFound => Some(Refusal::InvalidCredentials),
        AccountLookup::Found { user_id, password_hash } => match login_decision(
            password,
            Some(password_hash@),
        ) {
            LoginDecision::Granted => None,
            LoginDecision::InvalidCredentials => Some(Refusal::InvalidCredentials),
            LoginDecision::InternalError => Some(Refusal::PasswordCheckFailed),
        },
    }
}

/// What a login answers at `now`, once the store has answered for the
/// account: the refusal, or what issuing a token for the account answers.
pub open spec fn login_outcome(
    password: Seq<char>,
    account: AccountLookup,
    secret: Seq<char>,
    now: i64,
) -> Result<Seq<char>, Refusal> {
    match login_refusal(password, account) {
        Some(refusal) => Err(refusal),
        None => match account {
            AccountLookup::Found { user_id, password_hash } => issue_outcome(user_id, secret, now),
            _ => Err(Refusal::StoreFailed),
        },
    }
}

/// Login as of `now`, once the store has answered for the account: a
/// token for the account where the password is its password, else the
/// refusal. A wrong password and an unknown address are refused alike.
pub fn login_after_lookup_at(
    password: &str,
    account: &AccountLookup,
    secret: &str,
    now: i64,
) -> (r: Result<String, Refusal>)
    ensures
        text_or_refusal(r) == login_outcome(password@, *account, secret@, now),
        r matches Ok(t) ==> (*account matches AccountLookup::Found { user_id, password_hash }
            && is_token_at(t@, user_id, secret@, now)),
{
    match account {
        AccountLookup::Failed => Err(Refusal::StoreFailed),
        AccountLookup::NotFound => Err(Refusal::InvalidCredentials),
        AccountLookup::Found { user_id, password_hash } => {
            match decide_login(password, Some(password_hash.as_str())) {
                LoginDecision::Granted => issue_token_at(*user_id, secret, now),
                LoginDecision::InvalidCredentials => Err(Refusal::InvalidCredentials),
                LoginDecision::InternalError => Err(Refusal::PasswordCheckFailed),
            }
        },
    }
}

/// Login, once the store has answered for the account, as of the system
/// clock. Whatever the clock says, the answer is that of
/// `login_after_lookup_at` at some moment; so a refusal that the account and
/// the password force comes whatever the clock says.
pub fn login_after_lookup(password: &str, account: &AccountLookup, secret: &str) -> (r: Result<
    String,
    Refusal,
>)
    ensures
        exists|now: i64|
            text_or_refusal(r) == #[trigger] login_outcome(password@, *account, secret@, now),
        login_refusal(password@, *account) matches Some(refusal) ==> (r matches Err(e) && e
            == refusal),
        login_refusal(password@, *account) is None ==> match r {
            Ok(t) => *account matches AccountLookup::Found { user_id, password_hash }
                && is_token_for(t@, user_id, secret@),
            Err(e) => e == Refusal::TokenNotIssued,
        },
{
    let now: i64 = current_timestamp();
    login_after_lookup_at(password, account, secret, now)
}

/// A system fault is never reported as a verdict on the credentials, nor
/// the other way round: the refusals of a login that come from the store or
/// from an unreadable credential are server errors, and the refusal of a
/// wrong password or an unknown address is 401.
pub proof fn faults_are_not_bad_credentials(password: Seq<char>, account: AccountLookup)
    ensures
        login_refusal(password, account) matches Some(refusal) ==> (refusal.status() == 401
            <==> refusal == Refusal::InvalidCredentials),
        account is Failed ==> login_refusal(password, account) == Some(Refusal::StoreFailed),
        account matches AccountLookup::Found { user_id, password_hash } && password_verdict(
            password,
            password_hash@,
        ) is Err ==> login_refusal(password, account) == Some(Refusal::PasswordCheckFailed),
        Refusal::StoreFailed.status() == 500 && Refusal::PasswordCheckFailed.status() == 500,
{
}

} // verus!
