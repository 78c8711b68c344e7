use isupipe::error::Error;
use isupipe::query::{limit_from, parse_limit, with_limit};

#[test]
fn an_empty_limit_is_no_limit() {
    assert_eq!(parse_limit("", "failed to parse limit"), Ok(None));
}

#[test]
fn a_number_is_a_limit() {
    assert_eq!(parse_limit("50", ""), Ok(Some(50)));
    assert_eq!(parse_limit("0", ""), Ok(Some(0)));
    assert_eq!(parse_limit("-3", ""), Ok(Some(-3)));
    assert_eq!(parse_limit("+7", ""), Ok(Some(7)));
    assert_eq!(parse_limit("9223372036854775807", ""), Ok(Some(i64::MAX)));
}

#[test]
fn anything_else_is_a_bad_request() {
    let complaint = Error::BadRequest("failed to parse limit".to_owned());
    assert_eq!(parse_limit("ten", "failed to parse limit"), Err(complaint.clone()));
    assert_eq!(parse_limit(" 5", "failed to parse limit"), Err(complaint.clone()));
    assert_eq!(parse_limit("5 ", "failed to parse limit"), Err(complaint.clone()));
    assert_eq!(parse_limit("9223372036854775808", "failed to parse limit"), Err(complaint));
    assert_eq!(parse_limit("1.5", ""), Err(Error::BadRequest(String::new())));
}

#[test]
fn a_limit_follows_from_what_its_text_parses_to() {
    assert_eq!(limit_from("", Some(5), "no"), Ok(None));
    assert_eq!(limit_from("5", Some(5), "no"), Ok(Some(5)));
    assert_eq!(limit_from("x", None, "no"), Err(Error::BadRequest("no".to_owned())));
}

#[test]
fn a_limit_is_written_behind_the_statement() {
    let statement = "SELECT * FROM livestreams ORDER BY id DESC";
    assert_eq!(with_limit(statement, None), statement);
    assert_eq!(
        with_limit(statement, Some(50)),
        "SELECT * FROM livestreams ORDER BY id DESC LIMIT 50"
    );
    assert_eq!(with_limit("SELECT 1", Some(-1)), "SELECT 1 LIMIT -1");
    assert_eq!(with_limit("SELECT 1", Some(0)), "SELECT 1 LIMIT 0");
    assert_eq!(with_limit("SELECT 1", Some(1_000_000)), "SELECT 1 LIMIT 1000000");
}

#[test]
fn only_a_sign_and_digits_are_a_number() {
    assert_eq!(parse_limit("007", ""), Ok(Some(7)));
    assert_eq!(parse_limit("-0", ""), Ok(Some(0)));
    assert_eq!(parse_limit("-9223372036854775808", ""), Ok(Some(i64::MIN)));
    for text in ["+", "-", "--1", "+-1", "1_000", "0x10", "\u{663}", "12a", "-9223372036854775809"] {
        assert_eq!(parse_limit(text, "no"), Err(Error::BadRequest("no".to_owned())));
    }
}
