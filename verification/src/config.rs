//! How the service reaches its relational store: defaults, and what the
//! environment sets in their place.

use vstd::prelude::*;
use vstd::string::*;
use crate::text::decimal_value;

verus! {

/// The port that `text` is the decimal notation of: an optional `+`, then
/// digits and nothing else, for a number of at most 65535.
pub open spec fn parsed_port(text: Seq<char>) -> Option<u16> {
    match decimal_value(text, false) {
        Some(value) => if value <= u16::MAX {
            Some(value as u16)
        } else {
            None
        },
        None => None,
    }
}

/// std's `str::parse` for `u16`, which reads an optional `+` and then
/// decimal digits only, and fails on any other text and on a number that a
/// `u16` does not hold.
#[verifier::external_body]
fn parse_port(text: &str) -> (port: Option<u16>)
    ensures
        port == parsed_port(text@),
{
    text.parse::<u16>().ok()
}

/// What the environment says of the store: each field is the value of one
/// variable, where it is set.
#[derive(Clone, Debug, PartialEq, Eq)]
pub struct MysqlEnvironment {
    pub address: Option<String>,
    pub port: Option<String>,
    pub user: Option<String>,
    pub password: Option<String>,
    pub database: Option<String>,
}

/// Where the store is and how to log in to it.
#[derive(Clone, Debug, PartialEq, Eq)]
pub struct MysqlOptions {
    pub host: String,
    pub port: u16,
    pub username: String,
    pub password: String,
    pub database: String,
}

/// The text of a setting: what the environment sets, or the default.
pub open spec fn setting(value: Option<String>, default: Seq<char>) -> Seq<char> {
    match value {
        Some(text) => text@,
        None => default,
    }
}

/// The port of the store: what the environment sets, where that is a port
/// number, or 3306.
pub open spec fn port_setting(value: Option<String>, parsed: Option<u16>) -> u16 {
    match (value, parsed) {
        (Some(_), Some(port)) => port,
        _ => 3306,
    }
}

/// The port of the store, given what the text of the environment parses to.
pub fn port_from(value: &Option<String>, parsed: Option<u16>) -> (port: u16)
    ensures
        port == port_setting(*value, parsed),
{
    match (value, parsed) {
        (Some(_), Some(port)) => port,
        _ => 3306,
    }
}

fn text_or(value: Option<String>, default: &str) -> (text: String)
    ensures
        text@ == setting(value, default@),
{
    match value {
        Some(text) => text,
        None => String::from_str(default),
    }
}

/// The options of the store: host 127.0.0.1, port 3306, user and password
/// `isucon`, database `isupipe`, each replaced by what the environment sets.
/// A port that is no port number is passed over.
pub fn build_mysql_options(environment: MysqlEnvironment) -> (options: MysqlOptions)
    ensures
        options.host@ == setting(environment.address, "127.0.0.1"@),
        options.port == port_setting(
            environment.port,
            match environment.port {
                Some(text) => parsed_port(text@),
                None => None,
            },
        ),
        options.username@ == setting(environment.user, "isucon"@),
        options.password@ == setting(environment.password, "isucon"@),
        options.database@ == setting(environment.database, "isupipe"@),
{
    let parsed = match &environment.port {
        Some(text) => parse_port(text.as_str()),
        None => None,
    };
    let port = port_from(&environment.port, parsed);
    MysqlOptions {
        host: text_or(environment.address, "127.0.0.1"),
        port,
        username: text_or(environment.user, "isucon"),
        password: text_or(environment.password, "isucon"),
        database: text_or(environment.database, "isupipe"),
    }
}

} // verus!
