use travel_backend::credential::{hash_password, verify_password};
use travel_backend::flow::{
    issue_token, issue_token_at, login_after_lookup, login_after_lookup_at, register_after_insert,
    register_after_insert_at, register_after_lookup, AccountLookup, EmailLookup, Refusal,
};
use travel_backend::identity::UserId;
use travel_backend::token::{create_jwt_at, verify_jwt, verify_jwt_at, TokenError};

const SIGNING: &str = "a-signing-secret-for-the-tests";

fn someone() -> UserId {
    UserId::from_u128(0x2222_2222_2222_2222_2222_2222_2222_2222)
}

fn token_subject(token: &str) -> Option<UserId> {
    UserId::parse(&verify_jwt(token, SIGNING).unwrap().sub)
}

#[test]
fn each_refusal_has_its_status_and_sentence() {
    let table = [
        (Refusal::ValidationFailed, 400, "Validation failed"),
        (Refusal::EmailTaken, 409, "User with this email already exists"),
        (Refusal::StoreFailed, 500, "Internal server error"),
        (Refusal::HashingFailed, 500, "Failed to hash password"),
        (Refusal::UserNotCreated, 500, "Failed to create user"),
        (Refusal::TokenNotIssued, 500, "Failed to create token"),
        (Refusal::InvalidCredentials, 401, "Invalid credentials"),
        (Refusal::PasswordCheckFailed, 500, "Password verification failed"),
        (Refusal::UserNotFound, 404, "User not found"),
    ];
    for (refusal, status, sentence) in table {
        assert_eq!(refusal.status_code(), status);
        assert_eq!(refusal.message(), sentence);
    }
}

#[test]
fn issued_token_names_the_account() {
    let token = issue_token(someone(), SIGNING).unwrap();
    assert_eq!(token_subject(&token), Some(someone()));
}

#[test]
fn registration_stops_at_a_taken_address_or_a_failed_store() {
    assert_eq!(register_after_lookup(EmailLookup::Taken, "secret1"), Err(Refusal::EmailTaken));
    assert_eq!(register_after_lookup(EmailLookup::Failed, "secret1"), Err(Refusal::StoreFailed));
}

#[test]
fn registration_derives_the_credential() {
    let hash = register_after_lookup(EmailLookup::Free, "secret1").unwrap();
    assert_ne!(hash, "secret1");
    assert_eq!(verify_password("secret1", &hash), Ok(true));
    assert_eq!(verify_password("secret2", &hash), Ok(false));
}

#[test]
fn registration_ends_with_a_token_for_the_new_account() {
    assert_eq!(register_after_insert(None, SIGNING), Err(Refusal::UserNotCreated));
    let token = register_after_insert(Some(someone()), SIGNING).unwrap();
    assert_eq!(token_subject(&token), Some(someone()));
}

#[test]
fn login_grants_a_token_for_the_right_password() {
    let account = AccountLookup::Found {
        user_id: someone(),
        password_hash: hash_password("Tr4vel-more").unwrap(),
    };
    let token = login_after_lookup("Tr4vel-more", &account, SIGNING).unwrap();
    assert_eq!(token_subject(&token), Some(someone()));
}

#[test]
fn login_refuses_a_wrong_password_and_an_unknown_address_alike() {
    let account = AccountLookup::Found {
        user_id: someone(),
        password_hash: hash_password("Tr4vel-more").unwrap(),
    };
    let wrong = login_after_lookup("tr4vel-more", &account, SIGNING);
    let unknown = login_after_lookup("Tr4vel-more", &AccountLookup::NotFound, SIGNING);
    assert_eq!(wrong, Err(Refusal::InvalidCredentials));
    assert_eq!(unknown, wrong);
}

#[test]
fn login_reports_a_system_fault_as_a_server_error() {
    let broken = AccountLookup::Found {
        user_id: someone(),
        password_hash: String::from("not a credential"),
    };
    let unreadable = login_after_lookup("Tr4vel-more", &broken, SIGNING).unwrap_err();
    assert_eq!(unreadable, Refusal::PasswordCheckFailed);
    assert_eq!(unreadable.status_code(), 500);
    let failed = login_after_lookup("Tr4vel-more", &AccountLookup::Failed, SIGNING).unwrap_err();
    assert_eq!(failed, Refusal::StoreFailed);
    assert_eq!(failed.status_code(), 500);
}

const THEN: i64 = 1_700_000_000;

#[test]
fn token_issued_at_a_moment_carries_that_moment() {
    let token = issue_token_at(someone(), SIGNING, THEN).unwrap();
    assert_eq!(token, create_jwt_at(someone(), SIGNING, THEN).unwrap());
    let claims = verify_jwt_at(&token, SIGNING, THEN + 86_400).unwrap();
    assert_eq!(UserId::parse(&claims.sub), Some(someone()));
    assert_eq!(claims.iat, 1_700_000_000);
    assert_eq!(claims.exp, 1_700_086_400);
    assert_eq!(verify_jwt_at(&token, SIGNING, THEN + 86_401).unwrap_err(), TokenError::Expired);
}

#[test]
fn no_token_is_issued_with_the_clock_out_of_range() {
    assert_eq!(issue_token_at(someone(), SIGNING, -1), Err(Refusal::TokenNotIssued));
    assert_eq!(register_after_insert_at(Some(someone()), SIGNING, -1), Err(Refusal::TokenNotIssued));
    assert_eq!(register_after_insert_at(None, SIGNING, -1), Err(Refusal::UserNotCreated));
}

#[test]
fn registration_at_a_moment_ends_with_that_token() {
    assert_eq!(register_after_insert_at(None, SIGNING, THEN), Err(Refusal::UserNotCreated));
    let token = register_after_insert_at(Some(someone()), SIGNING, THEN).unwrap();
    assert_eq!(token, issue_token_at(someone(), SIGNING, THEN).unwrap());
}

#[test]
fn login_at_a_moment_is_decided_before_the_clock_counts() {
    let account = AccountLookup::Found {
        user_id: someone(),
        password_hash: hash_password("Tr4vel-more").unwrap(),
    };
    let token = login_after_lookup_at("Tr4vel-more", &account, SIGNING, THEN).unwrap();
    assert_eq!(token, issue_token_at(someone(), SIGNING, THEN).unwrap());
    assert_eq!(
        login_after_lookup_at("Tr4vel-more", &account, SIGNING, -1),
        Err(Refusal::TokenNotIssued)
    );
    assert_eq!(
        login_after_lookup_at("wrong", &account, SIGNING, -1),
        Err(Refusal::InvalidCredentials)
    );
    assert_eq!(
        login_after_lookup_at("wrong", &account, SIGNING, THEN),
        Err(Refusal::InvalidCredentials)
    );
    assert_eq!(
        login_after_lookup_at("Tr4vel-more", &AccountLookup::NotFound, SIGNING, THEN),
        Err(Refusal::InvalidCredentials)
    );
    assert_eq!(
        login_after_lookup_at("Tr4vel-more", &AccountLookup::Failed, SIGNING, THEN),
        Err(Refusal::StoreFailed)
    );
}
