//! The audit record produced by a successful movement, and the sink it is
//! forwarded to.

use vstd::prelude::*;

use crate::ids::BookmarkKey;
use crate::ids::BookmarkKind;
use crate::ids::BookmarkUpdateReason;
use crate::ids::ChangesetId;

verus! {

/// The operation a movement performed, with the relevant changesets.
#[derive(Debug, Clone, Copy, PartialEq, Eq, Structural)]
pub enum BookmarkOperation {
    /// The bookmark was created, pointing at the changeset.
    Create(ChangesetId),
    /// The bookmark moved from the first changeset to the second.
    Update(ChangesetId, ChangesetId),
    /// The bookmark was deleted; it pointed at the changeset.
    Delete(ChangesetId),
}

/// The immutable audit record produced when a movement commits.
#[derive(Debug, Clone)]
pub struct BookmarkInfo {
    /// The bookmark that moved.
    pub bookmark_name: BookmarkKey,
    /// The bookmark's resolved kind.
    pub bookmark_kind: BookmarkKind,
    /// The operation performed.
    pub operation: BookmarkOperation,
    /// The provenance of the movement.
    pub reason: BookmarkUpdateReason,
}

/// The external, best-effort audit/analytics forwarding channel.  Whether
/// forwarding will succeed is the collaborator's behaviour, supplied as
/// data; a failure is swallowed by the caller and never affects the
/// movement's outcome.
#[derive(Debug, Clone)]
pub struct ScribeSink {
    /// The records forwarded so far, in order.
    pub records: Vec<(BookmarkInfo, Vec<ChangesetId>)>,
    /// Whether the next forwarding attempt fails.
    pub fail: bool,
}

impl ScribeSink {
    /// A sink that accepts every record.
    pub fn new() -> (r: ScribeSink)
        ensures
            r.records@.len() == 0,
            !r.fail,
    {
        ScribeSink { records: Vec::new(), fail: false }
    }

    /// Forward one audit record with its loggable commits.  Returns
    /// whether forwarding succeeded; on failure nothing is recorded.
    pub fn log(&mut self, info: BookmarkInfo, commits: Vec<ChangesetId>) -> (ok: bool)
        ensures
            final(self).fail == old(self).fail,
            ok == !old(self).fail,
            !old(self).fail ==> final(self).records@ == old(self).records@.push((info, commits)),
            old(self).fail ==> final(self).records@ == old(self).records@,
    {
        if self.fail {
            false
        } else {
            self.records.push((info, commits));
            true
        }
    }
}

} // verus!
