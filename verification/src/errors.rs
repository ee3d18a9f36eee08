//! Errors of the bookmark movement pipeline.
//!
//! Policy violations, hook rejections and the traversal-limit error all fail
//! the pipeline before any transaction is staged; a commit conflict is the
//! only error that can occur after staging.

use vstd::prelude::*;

use crate::ids::BookmarkKey;
use crate::ids::ChangesetId;

verus! {

/// An error that rejects a bookmark movement.
#[derive(Debug, Clone)]
pub enum BookmarkMovementError {
    /// The caller required a scratch bookmark but the name lies outside the
    /// scratch namespace.
    InvalidScratchBookmark {
        /// The offending bookmark.
        bookmark: BookmarkKey,
    },
    /// The caller required a publishing bookmark but the name lies inside
    /// the scratch namespace.
    InvalidPublishingBookmark {
        /// The offending bookmark.
        bookmark: BookmarkKey,
    },
    /// The principal may not write to the repository.
    AuthorizationError,
    /// The principal may not modify this specific bookmark.
    BookmarkModifyDenied {
        /// The protected bookmark.
        bookmark: BookmarkKey,
    },
    /// The bookmark is managed by a cross-repo synchronization pipeline and
    /// may not be moved by this request.
    SyncConfigViolation {
        /// The sync-managed bookmark.
        bookmark: BookmarkKey,
    },
    /// A hook rejected a changeset; names the hook and the changeset.
    HookRejection {
        /// The rejecting hook.
        hook_name: String,
        /// The rejected changeset.
        changeset: ChangesetId,
    },
    /// The affected-changeset traversal would exceed its configured cap.
    LimitExceeded {
        /// The configured cap.
        limit: usize,
    },
    /// The repository is administratively read-only and no override
    /// applies.
    RepoLocked {
        /// The reason the repository was locked.
        reason: String,
    },
    /// The target is not reachable from the designated protected bookmark.
    NotAncestorOf {
        /// The bookmark being moved.
        bookmark: BookmarkKey,
        /// The protected bookmark the target must be an ancestor of.
        descendant_bookmark: BookmarkKey,
    },
    /// Populating the auxiliary git mapping failed; this side effect is
    /// fatal.
    GitMappingFailure {
        /// What the collaborator reported.
        message: String,
    },
    /// A transaction-scoped hook signalled failure at commit time, so the
    /// transaction did not commit.
    TransactionHookFailure {
        /// The label of the failing hook.
        label: String,
    },
    /// The store detected that the bookmark's current value no longer
    /// matches the value this transaction assumed: a concurrent movement
    /// won.  The whole pipeline may be retried from the top.
    CommitConflict {
        /// The contended bookmark.
        bookmark: BookmarkKey,
    },
}

impl BookmarkMovementError {
    /// Whether this error is a policy violation: a check that failed before
    /// any transaction was staged, recoverable by the caller after
    /// addressing the cause.
    pub open spec fn is_policy_violation(&self) -> bool {
        match self {
            BookmarkMovementError::InvalidScratchBookmark { .. } => true,
            BookmarkMovementError::InvalidPublishingBookmark { .. } => true,
            BookmarkMovementError::AuthorizationError => true,
            BookmarkMovementError::BookmarkModifyDenied { .. } => true,
            BookmarkMovementError::SyncConfigViolation { .. } => true,
            BookmarkMovementError::RepoLocked { .. } => true,
            BookmarkMovementError::NotAncestorOf { .. } => true,
            _ => false,
        }
    }

    /// A short description of the error, for operator-facing messages.
    pub fn describe(&self) -> (r: String)
        ensures
            r@.len() > 0,
    {
        proof {
            reveal_strlit("invalid scratch bookmark: ");
            reveal_strlit("invalid publishing bookmark: ");
            reveal_strlit("repo write access denied");
            reveal_strlit("cannot modify bookmark: ");
            reveal_strlit("bookmark is managed by a sync pipeline: ");
            reveal_strlit("hook rejected a changeset: ");
            reveal_strlit("affected changesets limit exceeded");
            reveal_strlit("repo is locked: ");
            reveal_strlit("bookmark target must be an ancestor of: ");
            reveal_strlit("failed to populate git mapping: ");
            reveal_strlit("transaction hook failed: ");
            reveal_strlit("bookmark transaction conflict: ");
        }
        match self {
            BookmarkMovementError::InvalidScratchBookmark { bookmark } => {
                let mut m = String::from_str("invalid scratch bookmark: ");
                m.append(bookmark.name.as_str());
                m
            },
            BookmarkMovementError::InvalidPublishingBookmark { bookmark } => {
                let mut m = String::from_str("invalid publishing bookmark: ");
                m.append(bookmark.name.as_str());
                m
            },
            BookmarkMovementError::AuthorizationError => String::from_str(
                "repo write access denied",
            ),
            BookmarkMovementError::BookmarkModifyDenied { bookmark } => {
                let mut m = String::from_str("cannot modify bookmark: ");
                m.append(bookmark.name.as_str());
                m
            },
            BookmarkMovementError::SyncConfigViolation { bookmark } => {
                let mut m = String::from_str("bookmark is managed by a sync pipeline: ");
                m.append(bookmark.name.as_str());
                m
            },
            BookmarkMovementError::HookRejection { hook_name, .. } => {
                let mut m = String::from_str("hook rejected a changeset: ");
                m.append(hook_name.as_str());
                m
            },
            BookmarkMovementError::LimitExceeded { .. } => String::from_str(
                "affected changesets limit exceeded",
            ),
            BookmarkMovementError::RepoLocked { reason } => {
                let mut m = String::from_str("repo is locked: ");
                m.append(reason.as_str());
                m
            },
            BookmarkMovementError::NotAncestorOf { descendant_bookmark, .. } => {
                let mut m = String::from_str("bookmark target must be an ancestor of: ");
                m.append(descendant_bookmark.name.as_str());
                m
            },
            BookmarkMovementError::GitMappingFailure { message } => {
                let mut m = String::from_str("failed to populate git mapping: ");
                m.append(message.as_str());
                m
            },
            BookmarkMovementError::TransactionHookFailure { label } => {
                let mut m = String::from_str("transaction hook failed: ");
                m.append(label.as_str());
                m
            },
            BookmarkMovementError::CommitConflict { bookmark } => {
                let mut m = String::from_str("bookmark transaction conflict: ");
                m.append(bookmark.name.as_str());
                m
            },
        }
    }
}

} // verus!
