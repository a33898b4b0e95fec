use travel_backend::credential::{
    hash_password, hashed_or_failed, verify_password, CredentialError,
};

#[test]
fn hashed_password_verifies() {
    let hash = hash_password("correct horse battery staple").unwrap();
    assert_eq!(verify_password("correct horse battery staple", &hash), Ok(true));
}

#[test]
fn another_password_does_not_verify() {
    let hash = hash_password("correct horse battery staple").unwrap();
    assert_eq!(verify_password("correct horse battery stapler", &hash), Ok(false));
    assert_eq!(verify_password("", &hash), Ok(false));
}

#[test]
fn empty_password_hashes_and_verifies() {
    let hash = hash_password("").unwrap();
    assert_eq!(verify_password("", &hash), Ok(true));
    assert_eq!(verify_password("x", &hash), Ok(false));
}

#[test]
fn hash_is_salted_and_carries_the_default_cost() {
    let first = hash_password("secret").unwrap();
    let second = hash_password("secret").unwrap();
    assert_ne!(first, second);
    assert_ne!(first, "secret");
    assert!(first.starts_with("$2b$12$"));
    assert_eq!(first.len(), 60);
}

#[test]
fn known_hash_verifies() {
    let hash = "$2a$04$UuTkLRZZ6QofpDOlMz32MuuxEHA43WOemOYHPz6.SjsVsyO1tDU96";
    assert_eq!(verify_password("password", hash), Ok(true));
    assert_eq!(verify_password("Password", hash), Ok(false));
}

#[test]
fn malformed_hash_is_an_error_not_a_mismatch() {
    assert_eq!(verify_password("password", ""), Err(CredentialError::MalformedHash));
    assert_eq!(verify_password("password", "password"), Err(CredentialError::MalformedHash));
    assert_eq!(
        verify_password("password", "$2a$04$tooshort"),
        Err(CredentialError::MalformedHash)
    );
    assert_eq!(
        verify_password("password", "$9z$04$UuTkLRZZ6QofpDOlMz32MuuxEHA43WOemOYHPz6.SjsVsyO1tDU96"),
        Err(CredentialError::MalformedHash)
    );
}

#[test]
fn hashed_or_failed_keeps_the_hash_and_names_the_failure() {
    assert_eq!(hashed_or_failed(Ok(String::from("$2b$12$x"))), Ok(String::from("$2b$12$x")));
    let failure = bcrypt::BcryptError::InvalidCost(String::from("x"));
    assert_eq!(hashed_or_failed(Err(failure)), Err(CredentialError::HashingFailed));
}
