use isupipe::error::Error;

#[test]
fn each_failure_has_its_status() {
    assert_eq!(Error::BadRequest("x".to_owned()).status_code(), 400);
    assert_eq!(Error::Unauthorized("x".to_owned()).status_code(), 401);
    assert_eq!(Error::SessionError.status_code(), 401);
    assert_eq!(Error::Forbidden("x".to_owned()).status_code(), 403);
    assert_eq!(Error::NotFound("x".to_owned()).status_code(), 404);
    assert_eq!(Error::Io("x".to_owned()).status_code(), 500);
    assert_eq!(Error::Sqlx("x".to_owned()).status_code(), 500);
    assert_eq!(Error::Bcrypt("x".to_owned()).status_code(), 500);
    assert_eq!(Error::AsyncSession("x".to_owned()).status_code(), 500);
    assert_eq!(Error::InternalServerError("x".to_owned()).status_code(), 500);
}

#[test]
fn each_failure_has_its_text() {
    assert_eq!(Error::Io("disk full".to_owned()).message(), "I/O error: disk full");
    assert_eq!(Error::Sqlx("pool timed out".to_owned()).message(), "SQLx error: pool timed out");
    assert_eq!(Error::Bcrypt("Invalid Cost: x".to_owned()).message(), "bcrypt error: Invalid Cost: x");
    assert_eq!(
        Error::AsyncSession("bad cookie".to_owned()).message(),
        "async-session error: bad cookie"
    );
    assert_eq!(Error::BadRequest("failed to parse limit".to_owned()).message(), "failed to parse limit");
    assert_eq!(Error::SessionError.message(), "session error");
    assert_eq!(
        Error::Unauthorized("session has expired".to_owned()).message(),
        "unauthorized: session has expired"
    );
    assert_eq!(Error::Forbidden("".to_owned()).message(), "forbidden: ");
    assert_eq!(Error::NotFound("user not found".to_owned()).message(), "not found: user not found");
    assert_eq!(Error::InternalServerError("init.sh failed".to_owned()).message(), "init.sh failed");
}

#[test]
fn failures_are_made_from_their_text() {
    assert_eq!(Error::bad_request("a"), Error::BadRequest("a".to_owned()));
    assert_eq!(Error::unauthorized("b"), Error::Unauthorized("b".to_owned()));
    assert_eq!(Error::forbidden("c"), Error::Forbidden("c".to_owned()));
    assert_eq!(Error::not_found("d"), Error::NotFound("d".to_owned()));
}
