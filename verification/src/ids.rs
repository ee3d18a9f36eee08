//! Identifiers and small enums shared by the whole pipeline.

use vstd::prelude::*;

verus! {

/// An opaque, immutable name identifying a bookmark.  Equality by value.
#[derive(Debug, Clone)]
pub struct BookmarkKey {
    pub name: String,
}

impl BookmarkKey {
    /// Make a bookmark key from its name.
    pub fn new(name: String) -> (r: BookmarkKey)
        ensures
            r.name@ == name@,
    {
        BookmarkKey { name }
    }

    /// The bookmark's name.
    pub fn as_str(&self) -> (r: &str)
        ensures
            r@ == self.name@,
    {
        self.name.as_str()
    }
}

/// An opaque fixed-size content hash identifying a commit in the graph.
#[derive(Debug, Clone, Copy, PartialEq, Eq, Structural)]
pub struct ChangesetId {
    pub id: u64,
}

impl ChangesetId {
    /// Make a changeset id from its numeric form.
    pub fn new(id: u64) -> (r: ChangesetId)
        ensures
            r.id == id,
    {
        ChangesetId { id }
    }
}

/// Numerical id of a repository.
#[derive(Debug, Clone, Copy, Default, PartialEq, Eq, Structural)]
pub struct RepositoryId {
    pub id: i32,
}

impl RepositoryId {
    /// Make a repository id from its numeric form.
    pub fn new(id: i32) -> (r: RepositoryId)
        ensures
            r.id == id,
    {
        RepositoryId { id }
    }
}

/// Identifier of an entry in the bookmark update log, assigned by the store
/// when a transaction commits.
#[derive(Debug, Clone, Copy, PartialEq, Eq, Structural)]
pub struct BookmarkUpdateLogId {
    pub id: u64,
}

/// The resolved kind of a bookmark.
///
/// Scratch bookmarks are ephemeral and client-scoped; Publishing and
/// PullDefaultPublishing bookmarks are durable, globally visible, and subject
/// to hook enforcement and ancestry restrictions.
#[derive(Debug, Clone, Copy, PartialEq, Eq, Structural)]
pub enum BookmarkKind {
    /// Ephemeral, client-scoped; bypasses durable-history hook requirements.
    Scratch,
    /// Durable and globally visible.
    Publishing,
    /// Durable, globally visible, and the default for pulls.
    PullDefaultPublishing,
}

impl BookmarkKind {
    /// Whether this kind is durable and globally visible.
    pub fn is_public(&self) -> (r: bool)
        ensures
            r == (*self != BookmarkKind::Scratch),
    {
        match self {
            BookmarkKind::Scratch => false,
            BookmarkKind::Publishing => true,
            BookmarkKind::PullDefaultPublishing => true,
        }
    }
}

/// Provenance of a bookmark movement.  Carried through to the audit record;
/// never inspected for control flow by the pipeline.
#[derive(Debug, Clone, Copy, PartialEq, Eq, Structural)]
pub enum BookmarkUpdateReason {
    /// An ordinary push.
    Push,
    /// A pushrebase.
    Pushrebase,
    /// A request through the service API.
    ApiRequest,
    /// A backfill job.
    Backfill,
    /// A manual move by an administrator.
    ManualMove,
    /// A move made by a test.
    TestMove,
}

/// Where a push originated with respect to cross-repo synchronization.
#[derive(Debug, Clone, Copy, PartialEq, Eq, Structural)]
pub enum CrossRepoPushSource {
    /// The push was made natively to this repo.
    NativeToThisRepo,
    /// The push was redirected from a different repo by a sync pipeline.
    PushRedirected,
}

} // verus!
