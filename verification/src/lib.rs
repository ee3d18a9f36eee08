//! Bookmark movement: the transaction pipeline that creates named pointers
//! ("bookmarks") into an append-only commit graph, together with the
//! repository configuration types that govern it.
//!
//! Bookmarks are the only mutable state of the repository.  Every creation
//! runs through an ordered sequence of policy checks (kind resolution,
//! authorization, sync-policy, hook validation, repo-lock), then stages an
//! atomic transaction against the bookmark store and commits it.  The store
//! enforces at-most-one-winner semantics under concurrent movements.

pub mod affected_changesets;
pub mod authz;
pub mod bookmark_attrs;
pub mod context;
pub mod create;
pub mod driver;
pub mod errors;
pub mod graph;
pub mod hooks;
pub mod ids;
pub mod metaconfig;
pub mod paths;
pub mod pushvars;
pub mod repo;
pub mod repo_lock;
pub mod repo_update_logger;
pub mod restrictions;
pub mod regexes;
pub mod store;
pub mod strutil;

use vstd::prelude::*;

use crate::context::CoreContext;
use crate::context::LogEntry;
use crate::errors::BookmarkMovementError;
use crate::ids::BookmarkUpdateLogId;
use crate::ids::ChangesetId;
use crate::repo::Repo;
use crate::repo_update_logger::BookmarkInfo;
use crate::store::first_failing_hook;
use crate::store::BookmarkTransaction;
use crate::store::TransactionHook;

verus! {

/// A staged movement: the transaction, the audit record it will produce,
/// and the commits to forward to the analytics sink, held together until
/// the one commit step consumes them.
#[derive(Debug)]
pub struct BookmarkInfoTransaction {
    /// The audit record to emit when the commit succeeds.
    pub info: BookmarkInfo,
    /// The staged transaction.
    pub txn: BookmarkTransaction,
    /// Whether new public commits are forwarded to the analytics sink.
    pub log_new_public_commits_to_scribe: bool,
    /// The commits to forward on success.
    pub commits_to_log: Vec<ChangesetId>,
    /// The side effects that must commit atomically with the mutation.
    pub txn_hooks: Vec<TransactionHook>,
}

impl BookmarkInfoTransaction {
    /// Bundle a staged transaction with its future audit record.
    pub fn new(
        info: BookmarkInfo,
        txn: BookmarkTransaction,
        log_new_public_commits_to_scribe: bool,
        commits_to_log: Vec<ChangesetId>,
        txn_hooks: Vec<TransactionHook>,
    ) -> (r: BookmarkInfoTransaction)
        ensures
            r.info == info,
            r.txn == txn,
            r.log_new_public_commits_to_scribe == log_new_public_commits_to_scribe,
            r.commits_to_log == commits_to_log,
            r.txn_hooks == txn_hooks,
    {
        BookmarkInfoTransaction {
            info,
            txn,
            log_new_public_commits_to_scribe,
            commits_to_log,
            txn_hooks,
        }
    }

    /// Commit the staged transaction and, only on success, forward the
    /// audit record and the queued commits to the analytics sink.
    ///
    /// The commit is all-or-nothing across the bookmark mutation and the
    /// staged transaction hooks.  No audit record is ever emitted for a
    /// transaction that failed to commit; a sink failure after a
    /// successful commit is swallowed, leaving one operational log entry.
    pub fn commit_and_log(self, ctx: &mut CoreContext, repo: &mut Repo) -> (r: Result<
        BookmarkUpdateLogId,
        BookmarkMovementError,
    >)
        requires
            old(repo).store.wf(),
            old(repo).store.next_log_id < u64::MAX,
            self.txn.staged_spec() is Some,
        ensures
            final(repo).store.wf(),
            final(repo).graph == old(repo).graph,
            final(repo).infinitepush == old(repo).infinitepush,
            final(repo).readonly == old(repo).readonly,
            final(repo).sync_managed_bookmarks == old(repo).sync_managed_bookmarks,
            final(repo).bookmark_attrs == old(repo).bookmark_attrs,
            final(repo).git_mapping == old(repo).git_mapping,
            final(repo).draft_scan == old(repo).draft_scan,
            final(repo).scribe.fail == old(repo).scribe.fail,
            final(ctx).session_identities == old(ctx).session_identities,
            ({
                let op = self.txn.staged_spec().unwrap();
                match first_failing_hook(self.txn_hooks@) {
                    Some(h) => {
                        &&& r matches Err(BookmarkMovementError::TransactionHookFailure {
                            label,
                        }) && label@ == h.label@
                        &&& final(repo).store == old(repo).store
                        &&& final(repo).scribe == old(repo).scribe
                        &&& final(ctx).scuba@ == old(ctx).scuba@
                    },
                    None => {
                        if old(repo).store.get_spec(op.bookmark_name()) is Some {
                            &&& r matches Err(BookmarkMovementError::CommitConflict {
                                bookmark,
                            }) && bookmark.name@ == op.bookmark_name()
                            &&& final(repo).store == old(repo).store
                            &&& final(repo).scribe == old(repo).scribe
                            &&& final(ctx).scuba@ == old(ctx).scuba@
                        } else {
                            &&& r matches Ok(id) && id.id == old(repo).store.next_log_id
                            &&& final(repo).store.next_log_id == old(repo).store.next_log_id + 1
                            &&& final(repo).store.entries@.len() == old(
                                repo,
                            ).store.entries@.len() + 1
                            &&& final(repo).store.entries@.take(
                                old(repo).store.entries@.len() as int,
                            ) == old(repo).store.entries@
                            &&& final(repo).store.entries@.last().0.name@ == op.bookmark_name()
                            &&& final(repo).store.entries@.last().1 == op.target()
                            &&& final(repo).store.get_spec(op.bookmark_name()) == Some(
                                op.target(),
                            )
                            &&& if old(repo).scribe.fail {
                                &&& final(repo).scribe.records@ == old(repo).scribe.records@
                                &&& final(ctx).scuba@ == old(ctx).scuba@.push(
                                    LogEntry::ScribeForwardFailed,
                                )
                            } else {
                                &&& final(repo).scribe.records@ == old(
                                    repo,
                                ).scribe.records@.push((self.info, self.commits_to_log))
                                &&& final(ctx).scuba@ == old(ctx).scuba@
                            }
                        }
                    },
                }
            }),
    {
        let BookmarkInfoTransaction { info, txn, log_new_public_commits_to_scribe: _, commits_to_log, txn_hooks } =
            self;
        match repo.store.commit(txn, &txn_hooks) {
            Err(e) => Err(e),
            Ok(id) => {
                let forwarded = repo.scribe.log(info, commits_to_log);
                if !forwarded {
                    ctx.log(LogEntry::ScribeForwardFailed);
                }
                Ok(id)
            },
        }
    }
}

} // verus!
