//! The bookmark store and its transactions.
//!
//! The store is the single serialization point of the system: a staged
//! transaction commits only when the bookmark's current value still matches
//! the value the transaction assumed.  For a creation that means the
//! bookmark must still be absent; a concurrent winner surfaces as a commit
//! conflict.

use vstd::prelude::*;

use crate::errors::BookmarkMovementError;
use crate::ids::BookmarkKey;
use crate::ids::BookmarkUpdateLogId;
use crate::ids::BookmarkUpdateReason;
use crate::ids::ChangesetId;

verus! {

/// A side-effect unit that must execute as part of the same atomic commit
/// as the bookmark mutation.  Whether it will succeed is the collaborator's
/// decision, supplied as data; when it signals failure the whole
/// transaction must not commit.
#[derive(Debug, Clone)]
pub struct TransactionHook {
    /// A label identifying the side effect.
    pub label: String,
    /// Whether the side effect will succeed at commit time.
    pub succeeds: bool,
}

/// The first transaction hook that signals failure, if any.
pub open spec fn first_failing_hook(hooks: Seq<TransactionHook>) -> Option<TransactionHook>
    decreases hooks.len(),
{
    if hooks.len() == 0 {
        None
    } else if !hooks[0].succeeds {
        Some(hooks[0])
    } else {
        first_failing_hook(hooks.drop_first())
    }
}

/// The primitive bookmark mutation staged in a transaction.
#[derive(Debug, Clone)]
pub enum StagedOp {
    /// Create a scratch bookmark pointing at `target`.
    CreateScratch {
        /// The bookmark to create.
        bookmark: BookmarkKey,
        /// The changeset it will point at.
        target: ChangesetId,
    },
    /// Create a public bookmark pointing at `target`.
    Create {
        /// The bookmark to create.
        bookmark: BookmarkKey,
        /// The changeset it will point at.
        target: ChangesetId,
        /// Why the bookmark is being created; carried to the update log.
        reason: BookmarkUpdateReason,
    },
}

impl StagedOp {
    /// The name of the bookmark the operation touches.
    pub open spec fn bookmark_name(&self) -> Seq<char> {
        match self {
            StagedOp::CreateScratch { bookmark, .. } => bookmark.name@,
            StagedOp::Create { bookmark, .. } => bookmark.name@,
        }
    }

    /// The changeset the operation points the bookmark at.
    pub open spec fn target(&self) -> ChangesetId {
        match self {
            StagedOp::CreateScratch { target, .. } => *target,
            StagedOp::Create { target, .. } => *target,
        }
    }
}

/// An exclusively-owned staging area for one pending atomic mutation:
/// exactly one primitive bookmark operation can be staged on it, and it
/// commits at most once (committing consumes it).
#[derive(Debug)]
pub struct BookmarkTransaction {
    staged: Option<StagedOp>,
}

impl BookmarkTransaction {
    /// The staged operation, as an abstract value.
    pub closed spec fn staged_spec(&self) -> Option<StagedOp> {
        self.staged
    }

    /// A fresh transaction with nothing staged.
    pub fn new() -> (r: BookmarkTransaction)
        ensures
            r.staged_spec() is None,
    {
        BookmarkTransaction { staged: None }
    }

    /// Stage the creation of a scratch bookmark.
    pub fn create_scratch(&mut self, bookmark: &BookmarkKey, target: ChangesetId)
        requires
            old(self).staged_spec() is None,
        ensures
            final(self).staged_spec() matches Some(op) && op matches StagedOp::CreateScratch {
                bookmark: b,
                target: t,
            } && b.name@ == bookmark.name@ && t == target,
    {
        self.staged = Some(
            StagedOp::CreateScratch {
                bookmark: BookmarkKey { name: bookmark.name.clone() },
                target,
            },
        );
    }

    /// Stage the creation of a public bookmark.
    pub fn create(&mut self, bookmark: &BookmarkKey, target: ChangesetId, reason: BookmarkUpdateReason)
        requires
            old(self).staged_spec() is None,
        ensures
            final(self).staged_spec() matches Some(op) && op matches StagedOp::Create {
                bookmark: b,
                target: t,
                reason: rs,
            } && b.name@ == bookmark.name@ && t == target && rs == reason,
    {
        self.staged = Some(
            StagedOp::Create { bookmark: BookmarkKey { name: bookmark.name.clone() }, target, reason },
        );
    }
}

/// The durable bookmark store: the current target of every existing
/// bookmark, and the counter handing out update-log ids.
#[derive(Debug, Clone)]
pub struct BookmarkStore {
    /// The existing bookmarks with their targets; names are distinct.
    pub entries: Vec<(BookmarkKey, ChangesetId)>,
    /// The id the next successful commit will receive.
    pub next_log_id: u64,
}

impl BookmarkStore {
    /// Names are distinct.
    pub open spec fn wf(&self) -> bool {
        forall|i: int, j: int|
            0 <= i < self.entries@.len() && 0 <= j < self.entries@.len() && i != j ==> (
            #[trigger] self.entries@[i].0.name@) != (#[trigger] self.entries@[j].0.name@)
    }

    /// The target of the bookmark with the given name, if it exists.
    pub open spec fn get_spec(&self, name: Seq<char>) -> Option<ChangesetId> {
        if exists|i: int|
            0 <= i < self.entries@.len() && (#[trigger] self.entries@[i].0.name@) == name {
            let i = choose|i: int|
                0 <= i < self.entries@.len() && (#[trigger] self.entries@[i].0.name@) == name;
            Some(self.entries@[i].1)
        } else {
            None
        }
    }

    /// An empty store.
    pub fn new() -> (r: BookmarkStore)
        ensures
            r.entries@.len() == 0,
            r.next_log_id == 0,
            r.wf(),
    {
        BookmarkStore { entries: Vec::new(), next_log_id: 0 }
    }

    /// The current target of the given bookmark, or `None` if the bookmark
    /// does not exist.
    #[verifier::loop_isolation(false)]
    pub fn get(&self, bookmark: &BookmarkKey) -> (r: Option<ChangesetId>)
        requires
            self.wf(),
        ensures
            r == self.get_spec(bookmark.name@),
    {
        let mut i: usize = 0;
        while i < self.entries.len()
            invariant
                0 <= i <= self.entries@.len(),
                forall|k: int| 0 <= k < i ==> (#[trigger] self.entries@[k].0.name@)
                    != bookmark.name@,
            decreases self.entries@.len() - i,
        {
            if crate::strutil::str_eq(self.entries[i].0.name.as_str(), bookmark.name.as_str()) {
                let r = Some(self.entries[i].1);
                proof {
                    assert(self.entries@[i as int].0.name@ == bookmark.name@);
                    let w = choose|w: int|
                        0 <= w < self.entries@.len() && (#[trigger] self.entries@[w].0.name@)
                            == bookmark.name@;
                    assert(w == i as int);
                }
                return r;
            }
            i += 1;
        }
        proof {
            if self.get_spec(bookmark.name@) is Some {
                let w = choose|w: int|
                    0 <= w < self.entries@.len() && (#[trigger] self.entries@[w].0.name@)
                        == bookmark.name@;
                assert(false);
            }
        }
        None
    }

    /// Commit a staged transaction together with its transaction hooks.
    ///
    /// All-or-nothing: when any staged hook signals failure, or the
    /// bookmark already exists (a concurrent winner), the store is left
    /// unchanged and the corresponding error is returned.  On success the
    /// bookmark is created and a fresh update-log id is returned.
    #[verifier::loop_isolation(false)]
    pub fn commit(&mut self, txn: BookmarkTransaction, txn_hooks: &Vec<TransactionHook>) -> (r:
        Result<BookmarkUpdateLogId, BookmarkMovementError>)
        requires
            old(self).wf(),
            old(self).next_log_id < u64::MAX,
            txn.staged_spec() is Some,
        ensures
            final(self).wf(),
            ({
                let op = txn.staged_spec().unwrap();
                match first_failing_hook(txn_hooks@) {
                    Some(h) => {
                        &&& r matches Err(BookmarkMovementError::TransactionHookFailure {
                            label,
                        }) && label@ == h.label@
                        &&& *final(self) == *old(self)
                    },
                    None => {
                        if old(self).get_spec(op.bookmark_name()) is Some {
                            &&& r matches Err(BookmarkMovementError::CommitConflict {
                                bookmark,
                            }) && bookmark.name@ == op.bookmark_name()
                            &&& *final(self) == *old(self)
                        } else {
                            &&& r matches Ok(id) && id.id == old(self).next_log_id
                            &&& final(self).entries@.len() == old(self).entries@.len() + 1
                            &&& final(self).entries@.take(old(self).entries@.len() as int) == old(
                                self,
                            ).entries@
                            &&& final(self).entries@.last().0.name@ == op.bookmark_name()
                            &&& final(self).entries@.last().1 == op.target()
                            &&& final(self).next_log_id == old(self).next_log_id + 1
                            &&& final(self).get_spec(op.bookmark_name()) == Some(op.target())
                        }
                    },
                }
            }),
    {
        proof {
            assert(txn_hooks@.skip(0) =~= txn_hooks@);
        }
        let mut h: usize = 0;
        while h < txn_hooks.len()
            invariant
                0 <= h <= txn_hooks@.len(),
                first_failing_hook(txn_hooks@) == first_failing_hook(txn_hooks@.skip(h as int)),
                forall|k: int| 0 <= k < h ==> (#[trigger] txn_hooks@[k]).succeeds,
            decreases txn_hooks@.len() - h,
        {
            proof {
                assert(txn_hooks@.skip(h as int)[0] == txn_hooks@[h as int]);
                assert(txn_hooks@.skip(h as int).drop_first() =~= txn_hooks@.skip(h + 1));
            }
            if !txn_hooks[h].succeeds {
                return Err(
                    BookmarkMovementError::TransactionHookFailure {
                        label: txn_hooks[h].label.clone(),
                    },
                );
            }
            h += 1;
        }
        proof {
            assert(txn_hooks@.skip(txn_hooks@.len() as int).len() == 0);
        }
        let (bookmark, target) = match txn.staged {
            Some(StagedOp::CreateScratch { bookmark, target }) => (bookmark, target),
            Some(StagedOp::Create { bookmark, target, .. }) => (bookmark, target),
            None => {
                // dead branch: the precondition has an operation staged
                proof {
                    assert(false);
                }
                return Err(BookmarkMovementError::AuthorizationError);
            },
        };
        match self.get(&bookmark) {
            Some(_) => Err(BookmarkMovementError::CommitConflict { bookmark }),
            None => {
                let ghost old_entries = self.entries@;
                let id = BookmarkUpdateLogId { id: self.next_log_id };
                let ghost op = txn.staged_spec().unwrap();
                self.entries.push((bookmark, target));
                self.next_log_id = self.next_log_id + 1;
                proof {
                    assert(self.entries@.take(old_entries.len() as int) =~= old_entries);
                    assert forall|i: int, j: int|
                        0 <= i < self.entries@.len() && 0 <= j < self.entries@.len() && i
                            != j implies (#[trigger] self.entries@[i].0.name@) != (
                    #[trigger] self.entries@[j].0.name@) by {
                        let last = self.entries@.len() - 1;
                        if i == last || j == last {
                            let other = if i == last {
                                j
                            } else {
                                i
                            };
                            if old(self).get_spec(op.bookmark_name()) is None {
                                if self.entries@[other].0.name@ == op.bookmark_name() {
                                    assert(old_entries[other].0.name@ == op.bookmark_name());
                                    assert(old(self).get_spec(op.bookmark_name()) is Some);
                                }
                            }
                        }
                    }
                    assert(self.entries@[self.entries@.len() - 1].0.name@ == op.bookmark_name());
                    let w = choose|w: int|
                        0 <= w < self.entries@.len() && (#[trigger] self.entries@[w].0.name@)
                            == op.bookmark_name();
                    assert(w == self.entries@.len() - 1);
                    assert(self.get_spec(op.bookmark_name()) == Some(op.target()));
                }
                Ok(id)
            },
        }
    }
}

/// At-most-one-winner: when a creation of `name` has committed (the store
/// grew by exactly that entry), the store's value for `name` is the
/// winner's target — so any other transaction staged against the old state
/// now finds the bookmark present, and `commit` returns a conflict for it
/// and leaves the store unchanged.
pub proof fn law_one_winner(
    store0: BookmarkStore,
    store1: BookmarkStore,
    name: Seq<char>,
    target: ChangesetId,
)
    requires
        store0.wf(),
        store0.get_spec(name) is None,
        store1.entries@.len() == store0.entries@.len() + 1,
        store1.entries@.take(store0.entries@.len() as int) == store0.entries@,
        store1.entries@.last().0.name@ == name,
        store1.entries@.last().1 == target,
    ensures
        store1.get_spec(name) == Some(target),
        store1.wf(),
{
    let n = store0.entries@.len() as int;
    assert forall|i: int, j: int|
        0 <= i < store1.entries@.len() && 0 <= j < store1.entries@.len() && i != j implies (
    #[trigger] store1.entries@[i].0.name@) != (#[trigger] store1.entries@[j].0.name@) by {
        if i < n && j < n {
            assert(store1.entries@[i] == store0.entries@[i]);
            assert(store1.entries@[j] == store0.entries@[j]);
        } else {
            let other = if i < n {
                i
            } else {
                j
            };
            if other < n {
                assert(store1.entries@[other] == store0.entries@[other]);
                if store0.entries@[other].0.name@ == name {
                    assert(store0.get_spec(name) is Some);
                }
            }
        }
    }
    assert(store1.entries@[store1.entries@.len() - 1].0.name@ == name);
    let w = choose|w: int|
        0 <= w < store1.entries@.len() && (#[trigger] store1.entries@[w].0.name@) == name;
    assert(w == store1.entries@.len() - 1);
}

} // verus!
