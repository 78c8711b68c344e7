//! What a cache holds for one key: a fully materialised read result.

use vstd::prelude::*;
use crate::entity::{
    row_of, rows_of, tags_of, LivestreamModel, LivestreamModelView, Tag, TagView, User, UserView,
};

verus! {

/// The kinds of read result that are cached, one cache instance per kind.
#[derive(Clone, Copy, Debug, PartialEq, Eq, Structural)]
pub enum EntityKind {
    /// A user, by user id.
    User,
    /// The tags of a livestream, by livestream id.
    Tags,
    /// The livestreams that a user owns, by user id.
    OwnedLivestreams,
    /// A livestream row, by livestream id; the row may be absent.
    Livestream,
}

/// A value copy of one read result.
#[derive(Clone, Debug, PartialEq, Eq)]
pub enum Snapshot {
    User(User),
    Tags(Vec<Tag>),
    OwnedLivestreams(Vec<LivestreamModel>),
    Livestream(Option<LivestreamModel>),
}

/// Mathematical value of a [`Snapshot`].
pub enum SnapshotView {
    User(UserView),
    Tags(Seq<TagView>),
    OwnedLivestreams(Seq<LivestreamModelView>),
    Livestream(Option<LivestreamModelView>),
}

impl SnapshotView {
    /// The kind of read result that this value is.
    pub open spec fn kind(self) -> EntityKind {
        match self {
            SnapshotView::User(_) => EntityKind::User,
            SnapshotView::Tags(_) => EntityKind::Tags,
            SnapshotView::OwnedLivestreams(_) => EntityKind::OwnedLivestreams,
            SnapshotView::Livestream(_) => EntityKind::Livestream,
        }
    }
}

impl View for Snapshot {
    type V = SnapshotView;

    open spec fn view(&self) -> SnapshotView {
        match *self {
            Snapshot::User(user) => SnapshotView::User(user@),
            Snapshot::Tags(tags) => SnapshotView::Tags(tags_of(tags@)),
            Snapshot::OwnedLivestreams(rows) => SnapshotView::OwnedLivestreams(rows_of(rows@)),
            Snapshot::Livestream(row) => SnapshotView::Livestream(row_of(row)),
        }
    }
}

impl Snapshot {
    /// The kind of read result that this snapshot is.
    pub fn kind(&self) -> (kind: EntityKind)
        ensures
            kind == self@.kind(),
        no_unwind
    {
        match self {
            Snapshot::User(_) => EntityKind::User,
            Snapshot::Tags(_) => EntityKind::Tags,
            Snapshot::OwnedLivestreams(_) => EntityKind::OwnedLivestreams,
            Snapshot::Livestream(_) => EntityKind::Livestream,
        }
    }
}

} // verus!
