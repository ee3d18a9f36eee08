//! The authorization gate.
//!
//! The authorization backend is an outside collaborator; its decisions for
//! this request are supplied as data, and are applied in one of two
//! modes: enforcing, where a denial aborts the pipeline, or audit-only,
//! where a would-be denial is logged once and the pipeline proceeds.

use vstd::prelude::*;

use crate::context::CoreContext;
use crate::context::LogEntry;
use crate::errors::BookmarkMovementError;
use crate::ids::BookmarkKey;

verus! {

/// The decision the authorization backend reached for one check.
#[derive(Debug, Clone, Copy, PartialEq, Eq, Structural)]
pub enum AclDecision {
    /// The principal holds the permission.
    Allowed,
    /// The principal does not hold the permission.
    Denied,
}

/// How the repo-write gate treats a denial.
#[derive(Debug, Clone, Copy, PartialEq, Eq, Structural)]
pub enum AuthorizationMode {
    /// A denial aborts the pipeline with an authorization error.
    Enforcing,
    /// A would-be denial is recorded to the log but does not abort; this
    /// mode exists to measure a stricter policy before enforcing it and
    /// must never be the default.
    AuditOnly,
}

/// The authorization backend's decisions for this request: repo-write
/// permission for the operation, and modify permission for the specific
/// bookmark.
#[derive(Debug, Clone, Copy, PartialEq, Eq, Structural)]
pub struct AuthorizationContext {
    /// Whether the principal may write to the repository.
    pub repo_write: AclDecision,
    /// Whether the principal may modify the bookmark of this request.
    pub bookmark_modify: AclDecision,
}

impl AuthorizationContext {
    /// Package the backend's decisions.
    pub fn new(repo_write: AclDecision, bookmark_modify: AclDecision) -> (r: AuthorizationContext)
        ensures
            r.repo_write == repo_write,
            r.bookmark_modify == bookmark_modify,
    {
        AuthorizationContext { repo_write, bookmark_modify }
    }

    /// Apply the repo-write decision under the given mode.
    ///
    /// In audit-only mode this check never aborts, and appends exactly one
    /// log entry when the underlying decision was a denial.  In enforcing
    /// mode it aborts exactly on a denial and logs nothing.
    pub fn check_repo_write(&self, ctx: &mut CoreContext, mode: AuthorizationMode) -> (r: Result<
        (),
        BookmarkMovementError,
    >)
        ensures
            mode == AuthorizationMode::AuditOnly ==> r is Ok,
            mode == AuthorizationMode::AuditOnly && self.repo_write == AclDecision::Denied
                ==> final(ctx).scuba@ == old(ctx).scuba@.push(LogEntry::RepoWriteAclWouldFail),
            mode == AuthorizationMode::AuditOnly && self.repo_write == AclDecision::Allowed
                ==> final(ctx).scuba@ == old(ctx).scuba@,
            mode == AuthorizationMode::Enforcing ==> final(ctx).scuba@ == old(ctx).scuba@ && (
            r is Ok <==> self.repo_write == AclDecision::Allowed),
            r is Err ==> r matches Err(BookmarkMovementError::AuthorizationError),
            final(ctx).session_identities == old(ctx).session_identities,
    {
        match mode {
            AuthorizationMode::AuditOnly => {
                if matches!(self.repo_write, AclDecision::Denied) {
                    ctx.log(LogEntry::RepoWriteAclWouldFail);
                }
                Ok(())
            },
            AuthorizationMode::Enforcing => {
                match self.repo_write {
                    AclDecision::Allowed => Ok(()),
                    AclDecision::Denied => Err(BookmarkMovementError::AuthorizationError),
                }
            },
        }
    }

    /// Apply the bookmark-modify decision; a denial always aborts,
    /// whatever the mode of the repo-write gate.
    pub fn require_bookmark_modify(&self, bookmark: &BookmarkKey) -> (r: Result<
        (),
        BookmarkMovementError,
    >)
        ensures
            r is Ok <==> self.bookmark_modify == AclDecision::Allowed,
            r matches Err(e) ==> e matches BookmarkMovementError::BookmarkModifyDenied {
                bookmark: b,
            } && b.name@ == bookmark.name@,
    {
        match self.bookmark_modify {
            AclDecision::Allowed => Ok(()),
            AclDecision::Denied => Err(
                BookmarkMovementError::BookmarkModifyDenied {
                    bookmark: BookmarkKey { name: bookmark.name.clone() },
                },
            ),
        }
    }
}

} // verus!
