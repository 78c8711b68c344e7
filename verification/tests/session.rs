use isupipe::error::Error;
use isupipe::session::{
    session_expiry, session_user_id, verify_user_session, SessionData, SESSION_LIFETIME,
};

#[test]
fn a_request_without_a_session_is_forbidden() {
    assert_eq!(verify_user_session(None, 100), Err(Error::Forbidden(String::new())));
}

#[test]
fn a_session_without_an_expiry_is_forbidden() {
    let session = SessionData { user_id: Some(7), expires: None };
    assert_eq!(verify_user_session(Some(session), 100), Err(Error::Forbidden(String::new())));
}

#[test]
fn an_expired_session_is_unauthorized() {
    let session = SessionData { user_id: Some(7), expires: Some(99) };
    assert_eq!(
        verify_user_session(Some(session), 100),
        Err(Error::Unauthorized("session has expired".to_owned()))
    );
}

#[test]
fn a_session_holds_until_its_last_second() {
    let session = SessionData { user_id: None, expires: Some(100) };
    assert_eq!(verify_user_session(Some(session), 100), Ok(()));
    assert_eq!(verify_user_session(Some(session), 99), Ok(()));
    assert!(verify_user_session(Some(session), 101).is_err());
}

#[test]
fn the_user_of_a_request_is_the_one_of_its_session() {
    let session = SessionData { user_id: Some(7), expires: None };
    assert_eq!(session_user_id(Some(session)), Ok(7));
}

#[test]
fn a_request_that_names_no_user_is_a_session_error() {
    assert_eq!(session_user_id(None), Err(Error::SessionError));
    let session = SessionData { user_id: None, expires: Some(100) };
    assert_eq!(session_user_id(Some(session)), Err(Error::SessionError));
}

#[test]
fn a_session_lasts_an_hour() {
    assert_eq!(SESSION_LIFETIME, 3600);
    assert_eq!(session_expiry(1_700_874_000), Some(1_700_877_600));
    assert_eq!(session_expiry(i64::MAX - 3600), Some(i64::MAX));
    assert_eq!(session_expiry(i64::MAX - 3599), None);
}
