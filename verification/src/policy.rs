//! The rules by which the service refuses a request that is well formed:
//! reserved names, other people's livestreams, comments that a streamer has
//! banned.

use vstd::prelude::*;
use vstd::string::*;
use crate::entity::LivestreamModel;
use crate::response::FillError;
use crate::error::{refusal, Error, ErrorView};

verus! {

/// Why the name `name` cannot be registered; `None` where it can.
pub open spec fn username_refusal(name: Seq<char>) -> Option<ErrorView> {
    if name == "pipe"@ {
        Some(ErrorView::BadRequest("the username 'pipe' is reserved"@))
    } else {
        None
    }
}

/// Admits every user name but the reserved one.
pub fn validate_username(name: &String) -> (decision: Result<(), Error>)
    ensures
        refusal(decision) == username_refusal(name@),
{
    let reserved = String::from_str("pipe");
    if *name == reserved {
        Err(Error::bad_request("the username 'pipe' is reserved"))
    } else {
        Ok(())
    }
}

/// The livestream `livestream_id` among those that a streamer owns, which
/// the streamer may moderate. A streamer cannot moderate a livestream that
/// is not among them.
pub fn find_owned_livestream(livestreams: Vec<LivestreamModel>, livestream_id: i64) -> (found:
    Result<LivestreamModel, Error>)
    ensures
        match found {
            Ok(livestream) => exists|i: int|
                {
                    &&& 0 <= i < livestreams.len()
                    &&& #[trigger] livestreams[i] == livestream
                    &&& livestream.id == livestream_id
                    &&& forall|j: int| 0 <= j < i ==> #[trigger] livestreams[j].id != livestream_id
                },
            Err(error) => {
                &&& forall|i: int|
                    0 <= i < livestreams.len() ==> #[trigger] livestreams[i].id != livestream_id
                &&& error@ == ErrorView::BadRequest(
                    "A streamer can't moderate livestreams that other streamers own"@,
                )
            },
        },
{
    let ghost all = livestreams@;
    for livestream in iter: livestreams.into_iter()
        invariant
            iter.seq() == all,
            all == livestreams@,
            forall|j: int| 0 <= j < iter.index() ==> #[trigger] all[j].id != livestream_id,
    {
        if livestream.id == livestream_id {
            assert(all[iter.index()] == livestream);
            return Ok(livestream);
        }
    }
    Err(Error::bad_request("A streamer can't moderate livestreams that other streamers own"))
}

/// Why the user `user_id` may not read the reports on `livestream`; `None`
/// where the user owns it.
pub open spec fn reports_refusal(livestream: LivestreamModel, user_id: i64) -> Option<ErrorView> {
    if livestream.user_id != user_id {
        Some(ErrorView::Forbidden("can't get other streamer's livecomment reports"@))
    } else {
        None
    }
}

/// Admits the owner of a livestream to the reports on its livecomments.
pub fn authorize_reports(livestream: &LivestreamModel, user_id: i64) -> (decision: Result<(), Error>)
    ensures
        refusal(decision) == reports_refusal(*livestream, user_id),
{
    if livestream.user_id != user_id {
        Err(Error::forbidden("can't get other streamer's livecomment reports"))
    } else {
        Ok(())
    }
}

/// Why a comment is refused of which `hits` banned words are part; `None`
/// where it is not refused.
pub open spec fn spam_refusal(hits: i64) -> Option<ErrorView> {
    if hits >= 1 {
        Some(ErrorView::BadRequest("このコメントがスパム判定されました"@))
    } else {
        None
    }
}

/// Admits a comment that holds none of the words that the streamer has
/// banned. `hits` is the number of matches that the store found for one of
/// them.
pub fn reject_spam(hits: i64) -> (decision: Result<(), Error>)
    ensures
        refusal(decision) == spam_refusal(hits),
{
    if hits >= 1 {
        Err(Error::bad_request("このコメントがスパム判定されました"))
    } else {
        Ok(())
    }
}

/// What a request asked for that does not exist.
#[derive(Clone, Copy, Debug, PartialEq, Eq, Structural)]
pub enum Missing {
    /// The livestream that a comment or a report is for.
    Livestream,
    /// The livestream with the id that the request gives.
    LivestreamWithId,
    /// The livecomment that a report is about.
    Livecomment,
    /// The user with the name that the request gives.
    UserWithName,
    /// The user whose livestreams the request lists.
    Streamer,
    /// The user that the session names.
    UserOfSession,
    /// The user that the session names, when an icon is uploaded.
    OwnerOfIcon,
}

impl Missing {
    /// The text that tells the caller what does not exist.
    pub open spec fn text(self) -> Seq<char> {
        match self {
            Missing::Livestream => "livestream not found"@,
            Missing::LivestreamWithId => "not found livestream that has the given id"@,
            Missing::Livecomment => "livecomment not found"@,
            Missing::UserWithName => "not found user that has the given username"@,
            Missing::Streamer => "user not found"@,
            Missing::UserOfSession => "not found user that has the userid in session"@,
            Missing::OwnerOfIcon => "No user found for the userid in session"@,
        }
    }

    /// The failure that reports that this does not exist.
    pub fn failure(self) -> (error: Error)
        ensures
            error@ == ErrorView::NotFound(self.text()),
    {
        match self {
            Missing::Livestream => Error::not_found("livestream not found"),
            Missing::LivestreamWithId => Error::not_found(
                "not found livestream that has the given id",
            ),
            Missing::Livecomment => Error::not_found("livecomment not found"),
            Missing::UserWithName => Error::not_found("not found user that has the given username"),
            Missing::Streamer => Error::not_found("user not found"),
            Missing::UserOfSession => Error::not_found(
                "not found user that has the userid in session",
            ),
            Missing::OwnerOfIcon => Error::not_found("No user found for the userid in session"),
        }
    }
}

/// What was read, or the failure that reports that it does not exist.
pub fn found<T>(row: Option<T>, missing: Missing) -> (outcome: Result<T, Error>)
    ensures
        match row {
            Some(value) => outcome == Ok::<T, Error>(value),
            None => outcome is Err && outcome->Err_0@ == ErrorView::NotFound(missing.text()),
        },
{
    match row {
        Some(value) => Ok(value),
        None => Err(missing.failure()),
    }
}

/// What was composed, or the failure that reports why it was not: a missing
/// row is reported as `missing`, a failure of the store with the text that
/// the store gave for it.
pub fn composed_or_failure<T>(response: Result<T, FillError<String>>, missing: Missing) -> (outcome:
    Result<T, Error>)
    ensures
        match response {
            Ok(value) => outcome == Ok::<T, Error>(value),
            Err(FillError::RowNotFound) => outcome is Err && outcome->Err_0@
                == ErrorView::NotFound(missing.text()),
            Err(FillError::Store(text)) => outcome is Err && outcome->Err_0@ == ErrorView::Sqlx(
                text@,
            ),
        },
{
    match response {
        Ok(value) => Ok(value),
        Err(FillError::RowNotFound) => Err(missing.failure()),
        Err(FillError::Store(text)) => Err(Error::Sqlx(text)),
    }
}

} // verus!
