//! What a request's session allows.
//!
//! Sessions are issued, signed and read outside this library. It decides on
//! what was read from one.

use vstd::prelude::*;
use crate::error::{refusal, Error, ErrorView};

verus! {

/// The number of seconds for which a session is issued.
pub const SESSION_LIFETIME: i64 = 3600;

/// What was read from the session of a request.
#[derive(Clone, Copy, Debug, PartialEq, Eq, Structural)]
pub struct SessionData {
    /// The user that the session was issued to, where the session says so.
    pub user_id: Option<i64>,
    /// The second of Unix time after which the session is void, where the
    /// session says so.
    pub expires: Option<i64>,
}

/// Why a request with the session `session` is refused at the second `now`;
/// `None` where it is not refused.
pub open spec fn session_refusal(session: Option<SessionData>, now: i64) -> Option<ErrorView> {
    match session {
        None => Some(ErrorView::Forbidden(""@)),
        Some(data) => match data.expires {
            None => Some(ErrorView::Forbidden(""@)),
            Some(expires) => if now > expires {
                Some(ErrorView::Unauthorized("session has expired"@))
            } else {
                None
            },
        },
    }
}

/// Admits a request whose session has not expired. A request without a
/// session, or with a session that does not say when it expires, is
/// forbidden; one whose session has expired is unauthorized.
pub fn verify_user_session(session: Option<SessionData>, now: i64) -> (decision: Result<(), Error>)
    ensures
        refusal(decision) == session_refusal(session, now),
{
    match session {
        None => Err(Error::forbidden("")),
        Some(data) => match data.expires {
            None => Err(Error::forbidden("")),
            Some(expires) => if now > expires {
                Err(Error::unauthorized("session has expired"))
            } else {
                Ok(())
            },
        },
    }
}

/// The user that a request acts for: the one that its session names. A
/// request without a session, or with a session that names no user, fails
/// with a session error.
pub fn session_user_id(session: Option<SessionData>) -> (user: Result<i64, Error>)
    ensures
        match user {
            Ok(user_id) => session is Some && session->Some_0.user_id == Some(user_id),
            Err(error) => error@ == ErrorView::SessionError && (session is None
                || session->Some_0.user_id is None),
        },
{
    match session {
        Some(SessionData { user_id: Some(user_id), .. }) => Ok(user_id),
        _ => Err(Error::SessionError),
    }
}

/// The second after which a session issued at the second `now` is void: one
/// lifetime later. `None` where that second is beyond what a timestamp
/// holds.
pub fn session_expiry(now: i64) -> (expires: Option<i64>)
    ensures
        expires == if now + SESSION_LIFETIME <= i64::MAX {
            Some((now + SESSION_LIFETIME) as i64)
        } else {
            None
        },
{
    now.checked_add(SESSION_LIFETIME)
}

} // verus!
