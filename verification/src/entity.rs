//! The entities that the service reads, caches and hands out, each with the
//! mathematical value that contracts speak of.

use vstd::prelude::*;

verus! {

/// Display preferences of a user.
#[derive(Clone, Copy, Debug, PartialEq, Eq, Structural)]
pub struct Theme {
    pub id: i64,
    pub dark_mode: bool,
}

/// A row of the user table.
#[derive(Clone, Debug, PartialEq, Eq)]
pub struct UserModel {
    pub id: i64,
    pub name: String,
    pub display_name: Option<String>,
    pub description: Option<String>,
    pub hashed_password: Option<String>,
    pub dark_mode: bool,
}

/// A user as handed out to readers.
#[derive(Clone, Debug, PartialEq, Eq)]
pub struct User {
    pub id: i64,
    pub name: String,
    pub display_name: Option<String>,
    pub description: Option<String>,
    pub theme: Theme,
    pub icon_hash: String,
}

/// Mathematical value of a [`User`].
pub struct UserView {
    pub id: i64,
    pub name: Seq<char>,
    pub display_name: Option<Seq<char>>,
    pub description: Option<Seq<char>>,
    pub theme: Theme,
    pub icon_hash: Seq<char>,
}

/// A tag attached to a livestream.
#[derive(Clone, Debug, PartialEq, Eq)]
pub struct Tag {
    pub id: i64,
    pub name: String,
}

/// Mathematical value of a [`Tag`].
pub struct TagView {
    pub id: i64,
    pub name: Seq<char>,
}

/// A row of the join of tags with the livestreams that carry them.
#[derive(Clone, Debug, PartialEq, Eq)]
pub struct TagModelWithLivestreamId {
    pub livestream_id: i64,
    pub id: i64,
    pub name: String,
}

/// A row of the livestream table: one reservation.
#[derive(Clone, Debug, PartialEq, Eq)]
pub struct LivestreamModel {
    pub id: i64,
    pub user_id: i64,
    pub title: String,
    pub description: String,
    pub playlist_url: String,
    pub thumbnail_url: String,
    pub start_at: i64,
    pub end_at: i64,
}

/// Mathematical value of a [`LivestreamModel`].
pub struct LivestreamModelView {
    pub id: i64,
    pub user_id: i64,
    pub title: Seq<char>,
    pub description: Seq<char>,
    pub playlist_url: Seq<char>,
    pub thumbnail_url: Seq<char>,
    pub start_at: i64,
    pub end_at: i64,
}

/// A livestream as handed out to readers: the row, its owner and its tags.
#[derive(Clone, Debug, PartialEq, Eq)]
pub struct Livestream {
    pub id: i64,
    pub owner: User,
    pub title: String,
    pub description: String,
    pub playlist_url: String,
    pub thumbnail_url: String,
    pub tags: Vec<Tag>,
    pub start_at: i64,
    pub end_at: i64,
}

/// Mathematical value of a [`Livestream`].
pub struct LivestreamView {
    pub id: i64,
    pub owner: UserView,
    pub title: Seq<char>,
    pub description: Seq<char>,
    pub playlist_url: Seq<char>,
    pub thumbnail_url: Seq<char>,
    pub tags: Seq<TagView>,
    pub start_at: i64,
    pub end_at: i64,
}

/// A row of the livecomment table.
#[derive(Clone, Debug, PartialEq, Eq)]
pub struct LivecommentModel {
    pub id: i64,
    pub user_id: i64,
    pub livestream_id: i64,
    pub comment: String,
    pub tip: i64,
    pub created_at: i64,
}

/// A livecomment as handed out to readers: the row, its author and the
/// livestream that it was posted to.
#[derive(Clone, Debug, PartialEq, Eq)]
pub struct Livecomment {
    pub id: i64,
    pub user: User,
    pub livestream: Livestream,
    pub comment: String,
    pub tip: i64,
    pub created_at: i64,
}

/// A row of the table of reported livecomments.
#[derive(Clone, Debug, PartialEq, Eq)]
pub struct LivecommentReportModel {
    pub id: i64,
    pub user_id: i64,
    pub livestream_id: i64,
    pub livecomment_id: i64,
    pub created_at: i64,
}

/// A report as handed out to readers: the row, its reporter and the
/// livecomment that it is about.
#[derive(Clone, Debug, PartialEq, Eq)]
pub struct LivecommentReport {
    pub id: i64,
    pub reporter: User,
    pub livecomment: Livecomment,
    pub created_at: i64,
}

/// A row of the reaction table.
#[derive(Clone, Debug, PartialEq, Eq)]
pub struct ReactionModel {
    pub id: i64,
    pub emoji_name: String,
    pub user_id: i64,
    pub livestream_id: i64,
    pub created_at: i64,
}

/// A reaction as handed out to readers: the row, its author and the
/// livestream that it was given to.
#[derive(Clone, Debug, PartialEq, Eq)]
pub struct Reaction {
    pub id: i64,
    pub emoji_name: String,
    pub user: User,
    pub livestream: Livestream,
    pub created_at: i64,
}

/// The text of an optional string.
pub open spec fn text_of(field: Option<String>) -> Option<Seq<char>> {
    match field {
        Some(text) => Some(text@),
        None => None,
    }
}

/// The values of a list of tags, in order.
pub open spec fn tags_of(tags: Seq<Tag>) -> Seq<TagView> {
    Seq::new(tags.len(), |i: int| tags[i]@)
}

/// The values of a list of livestream rows, in order.
pub open spec fn rows_of(rows: Seq<LivestreamModel>) -> Seq<LivestreamModelView> {
    Seq::new(rows.len(), |i: int| rows[i]@)
}

/// The value of an optional livestream row.
pub open spec fn row_of(row: Option<LivestreamModel>) -> Option<LivestreamModelView> {
    match row {
        Some(model) => Some(model@),
        None => None,
    }
}

impl View for User {
    type V = UserView;

    open spec fn view(&self) -> UserView {
        UserView {
            id: self.id,
            name: self.name@,
            display_name: text_of(self.display_name),
            description: text_of(self.description),
            theme: self.theme,
            icon_hash: self.icon_hash@,
        }
    }
}

impl View for Tag {
    type V = TagView;

    open spec fn view(&self) -> TagView {
        TagView { id: self.id, name: self.name@ }
    }
}

impl View for LivestreamModel {
    type V = LivestreamModelView;

    open spec fn view(&self) -> LivestreamModelView {
        LivestreamModelView {
            id: self.id,
            user_id: self.user_id,
            title: self.title@,
            description: self.description@,
            playlist_url: self.playlist_url@,
            thumbnail_url: self.thumbnail_url@,
            start_at: self.start_at,
            end_at: self.end_at,
        }
    }
}

impl View for Livestream {
    type V = LivestreamView;

    open spec fn view(&self) -> LivestreamView {
        LivestreamView {
            id: self.id,
            owner: self.owner@,
            title: self.title@,
            description: self.description@,
            playlist_url: self.playlist_url@,
            thumbnail_url: self.thumbnail_url@,
            tags: tags_of(self.tags@),
            start_at: self.start_at,
            end_at: self.end_at,
        }
    }
}

impl Tag {
    /// A second tag with the same value.
    pub fn duplicate(&self) -> (copy: Tag)
        ensures
            copy@ == self@,
    {
        Tag { id: self.id, name: self.name.clone() }
    }
}

/// A second list with the same tags in the same order.
pub fn duplicate_tags(tags: &Vec<Tag>) -> (copy: Vec<Tag>)
    ensures
        tags_of(copy@) == tags_of(tags@),
{
    let mut copy: Vec<Tag> = Vec::new();
    let mut i: usize = 0;
    while i < tags.len()
        invariant
            i <= tags.len(),
            copy.len() == i,
            forall|j: int| 0 <= j < i ==> copy[j]@ == tags[j]@,
        decreases tags.len() - i,
    {
        copy.push(tags[i].duplicate());
        i += 1;
    }
    assert(tags_of(copy@) =~= tags_of(tags@));
    copy
}

impl From<(LivestreamModel, Vec<Tag>, User)> for Livestream {
    /// The livestream that readers see: the row's own fields, with the tags
    /// and the owner that were looked up for it.
    fn from(parts: (LivestreamModel, Vec<Tag>, User)) -> (livestream: Livestream) {
        let (livestream_model, tags, owner) = parts;
        Livestream {
            id: livestream_model.id,
            owner,
            title: livestream_model.title,
            tags,
            description: livestream_model.description,
            playlist_url: livestream_model.playlist_url,
            thumbnail_url: livestream_model.thumbnail_url,
            start_at: livestream_model.start_at,
            end_at: livestream_model.end_at,
        }
    }
}

impl vstd::std_specs::convert::FromSpecImpl<(LivestreamModel, Vec<Tag>, User)> for Livestream {
    open spec fn obeys_from_spec() -> bool {
        true
    }

    open spec fn from_spec(parts: (LivestreamModel, Vec<Tag>, User)) -> Livestream {
        Livestream {
            id: parts.0.id,
            owner: parts.2,
            title: parts.0.title,
            description: parts.0.description,
            playlist_url: parts.0.playlist_url,
            thumbnail_url: parts.0.thumbnail_url,
            tags: parts.1,
            start_at: parts.0.start_at,
            end_at: parts.0.end_at,
        }
    }
}

} // verus!
