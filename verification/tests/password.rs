use space_booking::error::ErrorKind;
use space_booking::password::{
    accept_password, hash_password, matched, password_matches, stored, HASH_COST,
};

// Hashes made elsewhere, at a low cost.
const STAPLER: &str = "$2b$04$EGdrhbKUv8Oc9vGiXX0HQOxSg445d458Muh7DAHskb6QbtCvdxcie";
const PASSWORD: &str = "$2a$04$UuTkLRZZ6QofpDOlMz32MuuxEHA43WOemOYHPz6.SjsVsyO1tDU96";

#[test]
fn a_password_matches_the_hash_made_of_it() {
    assert_eq!(HASH_COST, 12);
    let hash = hash_password("correct horse").unwrap();
    assert_eq!(hash.len(), 60);
    assert!(hash.starts_with("$2b$12$"));
    assert!(password_matches("correct horse", &hash));
}

#[test]
fn another_password_does_not_match_the_hash() {
    let hash = hash_password("correct horse").unwrap();
    assert!(!password_matches("correct horse ", &hash));
}

#[test]
fn two_hashes_of_one_password_differ() {
    let a = hash_password("pw").unwrap();
    let b = hash_password("pw").unwrap();
    assert_ne!(a, b);
    assert_eq!(a.len(), 60);
    assert_eq!(b.len(), 60);
    assert_eq!(&a[4..6], "12");
    assert_eq!(&b[4..6], "12");
}

#[test]
fn a_known_hash_is_recognised() {
    assert!(password_matches("correctbatteryhorsestapler", STAPLER));
    assert!(!password_matches("correctbatteryhorsestaple", STAPLER));
    assert!(password_matches("password", PASSWORD));
    assert!(!password_matches("", PASSWORD));
    assert!(!password_matches(PASSWORD, PASSWORD));
}

#[test]
fn a_hash_that_cannot_be_read_matches_nothing() {
    assert!(!password_matches("password", ""));
    assert!(!password_matches("password", "password"));
    assert!(!password_matches("password", &PASSWORD[..59]));
    assert!(!password_matches("password", &PASSWORD.replace("$2a$", "$9z$")));
}

#[test]
fn hashing_does_not_fail_on_ordinary_passwords() {
    match hash_password("") {
        Ok(hash) => assert!(password_matches("", &hash)),
        Err(e) => {
            assert_eq!(e.kind(), ErrorKind::BadRequest);
            assert_eq!(e.message(), "invalid password");
        }
    }
}

#[test]
fn only_a_comparison_that_was_made_and_agreed_is_a_match() {
    assert!(matched(Ok(true)));
    assert!(!matched(Ok(false)));
    assert!(!matched(Err(bcrypt::BcryptError::CostNotAllowed(99))));
    assert!(!matched(Err(bcrypt::BcryptError::InvalidHash("malformed"))));
}

#[test]
fn a_hashing_that_failed_turns_the_password_away() {
    assert_eq!(stored(Ok(String::from("$2b$12$x"))).unwrap(), "$2b$12$x");
    let e = stored(Err(bcrypt::BcryptError::CostNotAllowed(3))).unwrap_err();
    assert_eq!(e.kind(), ErrorKind::BadRequest);
    assert_eq!(e.message(), "invalid password");
}

#[test]
fn a_password_that_did_not_match_is_unauthorized() {
    assert!(accept_password(true).is_ok());
    let e = accept_password(false).unwrap_err();
    assert_eq!(e.kind(), ErrorKind::Unauthorized);
    assert_eq!(e.message(), "invalid credentials");
    assert_eq!(e.status_code(), 401);
}
