//! Passwords of accounts: hashed when an account is registered, checked
//! when its user logs in.
//! Hashing and checking are bcrypt's and are not proved here.

use vstd::prelude::*;
use crate::error::{Error, ErrorView};

verus! {

/// bcrypt's `BcryptError`. Nothing of what is inside it is visible here.
#[verifier::external_type_specification]
#[verifier::external_body]
pub struct ExBcryptError(bcrypt::BcryptError);

/// The cost at which passwords are hashed.
pub const BCRYPT_DEFAULT_COST: u32 = 4;

/// Whether bcrypt accepts `password` for `hash`; `None` where it cannot read `hash`.
pub uninterp spec fn bcrypt_accepts(password: Seq<char>, hash: Seq<char>) -> Option<bool>;

/// `bcrypt::hash`: a hash of `password` under a random salt, or an error.
/// The hash names its salt and cost as `bcrypt::verify` reads them, so that
/// `verify`, which hashes again under both, accepts `password` for it.
#[verifier::external_body]
fn bcrypt_hash(password: &str, cost: u32) -> (hashed: Result<String, bcrypt::BcryptError>)
    ensures
        hashed is Ok ==> bcrypt_accepts(password@, hashed->Ok_0@) == Some(true),
{
    bcrypt::hash(password, cost)
}

/// `bcrypt::verify`: hashes `password` under the salt and cost that `hash`
/// names and compares. The outcome depends on the two texts alone.
#[verifier::external_body]
fn bcrypt_verify(password: &str, hash: &str) -> (accepted: Result<bool, bcrypt::BcryptError>)
    ensures
        match accepted {
            Ok(same) => bcrypt_accepts(password@, hash@) == Some(same),
            Err(_) => bcrypt_accepts(password@, hash@) is None,
        },
{
    bcrypt::verify(password, hash)
}

/// `Display` of `BcryptError`: the text that bcrypt gives for a failure.
#[verifier::external_body]
fn bcrypt_failure(error: &bcrypt::BcryptError) -> (text: String) {
    format!("{}", error)
}

/// The hash to store for a new account: one for which a login with the
/// password `password` is admitted. A failure of bcrypt is handed on.
pub fn hash_password(password: &str) -> (hashed: Result<String, Error>)
    ensures
        match hashed {
            Ok(hash) => bcrypt_accepts(password@, hash@) == Some(true),
            Err(error) => error@ is Bcrypt,
        },
{
    let outcome = match bcrypt_hash(password, BCRYPT_DEFAULT_COST) {
        Ok(hash) => Ok(hash),
        Err(error) => Err(bcrypt_failure(&error)),
    };
    hashing_outcome(outcome)
}

/// What hashing comes to once bcrypt has answered: the hash that it made, or
/// its failure with the text that it gave.
pub fn hashing_outcome(outcome: Result<String, String>) -> (hashed: Result<String, Error>)
    ensures
        match outcome {
            Ok(hash) => hashed == Ok::<String, Error>(hash),
            Err(text) => hashed is Err && hashed->Err_0@ == ErrorView::Bcrypt(text@),
        },
{
    match outcome {
        Ok(hash) => Ok(hash),
        Err(text) => Err(Error::Bcrypt(text)),
    }
}

/// Admits a login whose password bcrypt has accepted. A password that does
/// not match is unauthorized; a failure of bcrypt is handed on.
pub fn judge_password(accepted: Result<bool, String>) -> (decision: Result<(), Error>)
    ensures
        match accepted {
            Ok(true) => decision is Ok,
            Ok(false) => decision is Err && decision->Err_0@ == ErrorView::Unauthorized(
                "invalid username or password"@,
            ),
            Err(text) => decision is Err && decision->Err_0@ == ErrorView::Bcrypt(text@),
        },
{
    match accepted {
        Ok(true) => Ok(()),
        Ok(false) => Err(Error::unauthorized("invalid username or password")),
        Err(text) => Err(Error::Bcrypt(text)),
    }
}

/// Admits a login with the password `password` to the account whose stored
/// hash is `hashed_password`.
pub fn verify_password(password: &str, hashed_password: &str) -> (decision: Result<(), Error>)
    ensures
        match bcrypt_accepts(password@, hashed_password@) {
            Some(true) => decision is Ok,
            Some(false) => decision is Err && decision->Err_0@ == ErrorView::Unauthorized(
                "invalid username or password"@,
            ),
            None => decision is Err && decision->Err_0@ is Bcrypt,
        },
{
    let accepted = match bcrypt_verify(password, hashed_password) {
        Ok(same) => Ok(same),
        Err(error) => Err(bcrypt_failure(&error)),
    };
    judge_password(accepted)
}

/// Admits a login with the password `password` under a name for which the
/// hash `stored` is kept; `None` stands for a name that no account has. An
/// unknown name and a wrong password are refused with the same failure.
pub fn authenticate(password: &str, stored: Option<&str>) -> (decision: Result<(), Error>)
    ensures
        match stored {
            None => decision is Err && decision->Err_0@ == ErrorView::Unauthorized(
                "invalid username or password"@,
            ),
            Some(hash) => match bcrypt_accepts(password@, hash@) {
                Some(true) => decision is Ok,
                Some(false) => decision is Err && decision->Err_0@ == ErrorView::Unauthorized(
                    "invalid username or password"@,
                ),
                None => decision is Err && decision->Err_0@ is Bcrypt,
            },
        },
{
    match stored {
        None => Err(Error::unauthorized("invalid username or password")),
        Some(hash) => verify_password(password, hash),
    }
}

} // verus!
