use isupipe::account::{
    authenticate, hash_password, hashing_outcome, judge_password, verify_password, BCRYPT_DEFAULT_COST,
};
use isupipe::error::Error;

// A hash of the password "password" at cost 4, made by another bcrypt.
const KNOWN_HASH: &str = "$2a$04$UuTkLRZZ6QofpDOlMz32MuuxEHA43WOemOYHPz6.SjsVsyO1tDU96";

fn wrong_password() -> Error {
    Error::Unauthorized("invalid username or password".to_owned())
}

#[test]
fn passwords_are_hashed_at_cost_four() {
    assert_eq!(BCRYPT_DEFAULT_COST, 4);
    let hashed = hash_password("isucon").unwrap();
    assert!(hashed.starts_with("$2b$04$"));
    assert_eq!(hashed.len(), 60);
    assert_ne!(hashed, "isucon");
}

#[test]
fn a_hashed_password_is_accepted() {
    let hashed = hash_password("isucon").unwrap();
    assert_eq!(verify_password("isucon", &hashed), Ok(()));
}

#[test]
fn another_password_is_unauthorized() {
    let hashed = hash_password("isucon").unwrap();
    assert_eq!(verify_password("isucon13", &hashed), Err(wrong_password()));
    assert_eq!(verify_password("", &hashed), Err(wrong_password()));
}

#[test]
fn a_known_hash_is_checked() {
    assert_eq!(verify_password("password", KNOWN_HASH), Ok(()));
    assert_eq!(verify_password("passwords", KNOWN_HASH), Err(wrong_password()));
}

#[test]
fn a_text_that_is_no_hash_is_a_failure_of_bcrypt() {
    let failed = verify_password("isucon", "isucon");
    assert_eq!(failed, Err(Error::Bcrypt("Invalid hash: isucon".to_owned())));
    assert_eq!(failed.unwrap_err().status_code(), 500);
}

#[test]
fn the_judgement_of_bcrypt_decides_a_login() {
    assert_eq!(judge_password(Ok(true)), Ok(()));
    assert_eq!(judge_password(Ok(false)), Err(wrong_password()));
    assert_eq!(
        judge_password(Err("Invalid Cost: x".to_owned())),
        Err(Error::Bcrypt("Invalid Cost: x".to_owned()))
    );
}

#[test]
fn a_long_password_is_accepted_for_its_hash() {
    let password = "p".repeat(100);
    let hashed = hash_password(&password).unwrap();
    assert_eq!(verify_password(&password, &hashed), Ok(()));
}

#[test]
fn two_hashes_of_one_password_differ_and_both_admit_it() {
    let first = hash_password("isucon").unwrap();
    let second = hash_password("isucon").unwrap();
    assert_ne!(first, second);
    assert_eq!(verify_password("isucon", &first), Ok(()));
    assert_eq!(verify_password("isucon", &second), Ok(()));
}

#[test]
fn the_answer_of_bcrypt_decides_what_is_stored() {
    assert_eq!(hashing_outcome(Ok("$2b$04$abc".to_owned())), Ok("$2b$04$abc".to_owned()));
    assert_eq!(
        hashing_outcome(Err("Rand error: no entropy".to_owned())),
        Err(Error::Bcrypt("Rand error: no entropy".to_owned()))
    );
}

#[test]
fn an_unknown_name_and_a_wrong_password_are_refused_alike() {
    let hashed = hash_password("isucon").unwrap();
    let unknown = authenticate("isucon", None);
    let wrong = authenticate("isucon13", Some(&hashed));
    assert_eq!(unknown, Err(wrong_password()));
    assert_eq!(wrong, unknown);
    assert_eq!(authenticate("isucon", Some(&hashed)), Ok(()));
    assert!(matches!(authenticate("isucon", Some("no hash")), Err(Error::Bcrypt(_))));
}
