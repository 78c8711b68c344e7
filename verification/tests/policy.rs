use isupipe::entity::LivestreamModel;
use isupipe::error::Error;
use isupipe::policy::{
    authorize_reports, composed_or_failure, find_owned_livestream, found, reject_spam,
    validate_username, Missing,
};
use isupipe::response::FillError;

fn livestream(id: i64, user_id: i64, title: &str) -> LivestreamModel {
    LivestreamModel {
        id,
        user_id,
        title: title.to_owned(),
        description: String::new(),
        playlist_url: String::new(),
        thumbnail_url: String::new(),
        start_at: 0,
        end_at: 3600,
    }
}

#[test]
fn the_name_pipe_is_reserved() {
    assert_eq!(
        validate_username(&"pipe".to_owned()),
        Err(Error::BadRequest("the username 'pipe' is reserved".to_owned()))
    );
}

#[test]
fn other_names_can_be_registered() {
    assert_eq!(validate_username(&"piper".to_owned()), Ok(()));
    assert_eq!(validate_username(&"Pipe".to_owned()), Ok(()));
    assert_eq!(validate_username(&"".to_owned()), Ok(()));
    assert_eq!(validate_username(&"pip".to_owned()), Ok(()));
}

#[test]
fn a_streamer_moderates_an_own_livestream() {
    let owned = vec![livestream(1, 7, "first"), livestream(2, 7, "second")];
    assert_eq!(find_owned_livestream(owned, 2), Ok(livestream(2, 7, "second")));
}

#[test]
fn the_first_livestream_with_the_id_is_found() {
    let owned = vec![livestream(2, 7, "first"), livestream(2, 7, "second")];
    assert_eq!(find_owned_livestream(owned, 2), Ok(livestream(2, 7, "first")));
}

#[test]
fn a_streamer_cannot_moderate_for_others() {
    let complaint = "A streamer can't moderate livestreams that other streamers own";
    let owned = vec![livestream(1, 7, "first")];
    assert_eq!(find_owned_livestream(owned, 2), Err(Error::BadRequest(complaint.to_owned())));
    assert_eq!(find_owned_livestream(Vec::new(), 2), Err(Error::BadRequest(complaint.to_owned())));
}

#[test]
fn only_the_owner_reads_the_reports() {
    let stream = livestream(1, 7, "first");
    assert_eq!(authorize_reports(&stream, 7), Ok(()));
    assert_eq!(
        authorize_reports(&stream, 8),
        Err(Error::Forbidden("can't get other streamer's livecomment reports".to_owned()))
    );
}

#[test]
fn a_comment_with_a_banned_word_is_refused() {
    assert_eq!(reject_spam(0), Ok(()));
    assert_eq!(reject_spam(-1), Ok(()));
    assert_eq!(
        reject_spam(1),
        Err(Error::BadRequest("このコメントがスパム判定されました".to_owned()))
    );
    assert!(reject_spam(5).is_err());
}

#[test]
fn each_missing_thing_has_its_text() {
    let texts = [
        (Missing::Livestream, "livestream not found"),
        (Missing::LivestreamWithId, "not found livestream that has the given id"),
        (Missing::Livecomment, "livecomment not found"),
        (Missing::UserWithName, "not found user that has the given username"),
        (Missing::Streamer, "user not found"),
        (Missing::UserOfSession, "not found user that has the userid in session"),
        (Missing::OwnerOfIcon, "No user found for the userid in session"),
    ];
    for (missing, text) in texts {
        assert_eq!(missing.failure(), Error::NotFound(text.to_owned()));
        assert_eq!(missing.failure().status_code(), 404);
    }
}

#[test]
fn what_was_read_is_handed_on() {
    assert_eq!(found(Some(5), Missing::Livecomment), Ok(5));
    assert_eq!(
        found(None::<i64>, Missing::Livecomment),
        Err(Error::NotFound("livecomment not found".to_owned()))
    );
}

#[test]
fn a_composition_that_failed_is_reported() {
    assert_eq!(composed_or_failure(Ok(7), Missing::LivestreamWithId), Ok(7));
    assert_eq!(
        composed_or_failure(Err::<i64, _>(FillError::RowNotFound), Missing::LivestreamWithId),
        Err(Error::NotFound("not found livestream that has the given id".to_owned()))
    );
    assert_eq!(
        composed_or_failure(
            Err::<i64, _>(FillError::Store("pool timed out".to_owned())),
            Missing::LivestreamWithId
        ),
        Err(Error::Sqlx("pool timed out".to_owned()))
    );
}
