//! The optional `limit` of a listing: read from the query string and written
//! into the statement that lists.

use vstd::prelude::*;
use vstd::string::*;
use crate::error::{Error, ErrorView};
use crate::text::{decimal, decimal_value, integer_text};

verus! {

/// The integer that `text` is the decimal notation of: an optional sign,
/// then digits and nothing else, for a number that 64 bits hold.
pub open spec fn parsed_integer(text: Seq<char>) -> Option<i64> {
    match decimal_value(text, true) {
        Some(value) => if i64::MIN <= value <= i64::MAX {
            Some(value as i64)
        } else {
            None
        },
        None => None,
    }
}

/// std's `str::parse` for `i64`, which reads an optional `+` or `-` and then
/// decimal digits only, and fails on any other text and on a number that an
/// `i64` does not hold.
#[verifier::external_body]
fn parse_integer(text: &str) -> (value: Option<i64>)
    ensures
        value == parsed_integer(text@),
{
    text.parse::<i64>().ok()
}

/// What the `limit` of a query string asks for, given what it parses to: no
/// limit where the text is empty, the number where it is one, and a bad
/// request with the text `complaint` where it is anything else.
pub open spec fn limit_of(
    limit: Seq<char>,
    parsed: Option<i64>,
    complaint: Seq<char>,
) -> Result<Option<i64>, ErrorView> {
    if limit.len() == 0 {
        Ok(None)
    } else {
        match parsed {
            Some(rows) => Ok(Some(rows)),
            None => Err(ErrorView::BadRequest(complaint)),
        }
    }
}

/// The value of a limit that was read.
pub open spec fn limit_value(limit: Result<Option<i64>, Error>) -> Result<Option<i64>, ErrorView> {
    match limit {
        Ok(rows) => Ok(rows),
        Err(error) => Err(error@),
    }
}

/// The limit that a listing was asked for, given what its text parses to.
pub fn limit_from(limit: &str, parsed: Option<i64>, complaint: &str) -> (rows: Result<
    Option<i64>,
    Error,
>)
    ensures
        limit_value(rows) == limit_of(limit@, parsed, complaint@),
{
    if limit.is_empty() {
        Ok(None)
    } else {
        match parsed {
            Some(rows) => Ok(Some(rows)),
            None => Err(Error::bad_request(complaint)),
        }
    }
}

/// The limit that a listing was asked for: none where `limit` is empty, the
/// number that it is the decimal notation of, or a bad request with the text
/// `complaint`.
pub fn parse_limit(limit: &str, complaint: &str) -> (rows: Result<Option<i64>, Error>)
    ensures
        limit_value(rows) == limit_of(limit@, parsed_integer(limit@), complaint@),
{
    let parsed = parse_integer(limit);
    limit_from(limit, parsed, complaint)
}

/// The text of `statement` with the limit written behind it, where there is
/// one.
pub open spec fn limited(statement: Seq<char>, limit: Option<i64>) -> Seq<char> {
    match limit {
        Some(rows) => statement + " LIMIT "@ + integer_text(rows as int),
        None => statement,
    }
}

/// The statement that lists at most `limit` rows of what `statement` lists.
pub fn with_limit(statement: &str, limit: Option<i64>) -> (text: String)
    ensures
        text@ == limited(statement@, limit),
{
    let mut text = String::from_str(statement);
    match limit {
        Some(rows) => {
            text.append(" LIMIT ");
            text.append(decimal(rows).as_str());
        },
        None => {},
    }
    text
}

} // verus!
