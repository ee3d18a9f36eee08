//! Creating a bookmark: the full movement pipeline.
//!
//! A creation request is a builder-configured command object, consumed
//! exactly once.  Running it walks the ordered sequence of policy checks
//! (kind resolution, authorization, sync policy, affected-changeset and
//! hook validation, repo lock), then stages the transaction — for
//! publishing bookmarks after enforcing the ancestor restriction and
//! consulting the git-mapping populator and the draft-ancestor scanner —
//! and finally commits it against the store.

use vstd::prelude::*;

use crate::affected_changesets::some_hook_blocks_draft;
use crate::affected_changesets::AdditionalChangesets;
use crate::affected_changesets::AffectedChangesets;
use crate::authz::AclDecision;
use crate::authz::AuthorizationContext;
use crate::authz::AuthorizationMode;
use crate::context::CoreContext;
use crate::context::LogEntry;
use crate::errors::BookmarkMovementError;
use crate::hooks::HookManager;
use crate::ids::BookmarkKey;
use crate::ids::BookmarkKind;
use crate::ids::BookmarkUpdateLogId;
use crate::ids::BookmarkUpdateReason;
use crate::ids::ChangesetId;
use crate::pushvars::Pushvars;
use crate::repo::Repo;
use crate::repo_lock::check_repo_lock;
use crate::repo_lock::lock_bypassed;
use crate::repo_update_logger::BookmarkInfo;
use crate::repo_update_logger::BookmarkOperation;
use crate::restrictions::check_bookmark_sync_config;
use crate::restrictions::check_restriction_ensure_ancestor_of;
use crate::restrictions::first_ensure_ancestor_of;
use crate::restrictions::sync_managed;
use crate::restrictions::BookmarkKindRestrictions;
use crate::store::BookmarkTransaction;
use crate::store::TransactionHook;
use crate::BookmarkInfoTransaction;

verus! {

/// A request to create a bookmark, configured through the builder methods
/// and consumed exactly once by `run` or `run_with_transaction`.
#[derive(Debug)]
pub struct CreateBookmarkOp {
    bookmark: BookmarkKey,
    target: ChangesetId,
    reason: BookmarkUpdateReason,
    kind_restrictions: BookmarkKindRestrictions,
    cross_repo_push_source: crate::ids::CrossRepoPushSource,
    affected_changesets: AffectedChangesets,
    pushvars: Option<Pushvars>,
    log_new_public_commits_to_scribe: bool,
    only_log_acl_checks: bool,
}

impl CreateBookmarkOp {
    /// The bookmark to create.
    pub closed spec fn bookmark_spec(&self) -> BookmarkKey {
        self.bookmark
    }

    /// The changeset it will point at.
    pub closed spec fn target_spec(&self) -> ChangesetId {
        self.target
    }

    /// The provenance recorded in the audit record.
    pub closed spec fn reason_spec(&self) -> BookmarkUpdateReason {
        self.reason
    }

    /// The caller's kind restriction.
    pub closed spec fn kind_restrictions_spec(&self) -> BookmarkKindRestrictions {
        self.kind_restrictions
    }

    /// Where the push originated.
    pub closed spec fn push_source_spec(&self) -> crate::ids::CrossRepoPushSource {
        self.cross_repo_push_source
    }

    /// The affected-changeset working set.
    pub closed spec fn affected_changesets_spec(&self) -> AffectedChangesets {
        self.affected_changesets
    }

    /// The request's pushvars.
    pub closed spec fn pushvars_spec(&self) -> Option<Seq<(String, String)>> {
        match self.pushvars {
            Some(pv) => Some(pv@),
            None => None,
        }
    }

    /// Whether new public commits are forwarded to the analytics sink.
    pub closed spec fn log_to_scribe_spec(&self) -> bool {
        self.log_new_public_commits_to_scribe
    }

    /// The mode of the repo-write authorization gate.
    pub closed spec fn authorization_mode_spec(&self) -> AuthorizationMode {
        if self.only_log_acl_checks {
            AuthorizationMode::AuditOnly
        } else {
            AuthorizationMode::Enforcing
        }
    }

    /// The kind the bookmark resolves to, from the scratch namespace
    /// alone.
    pub open spec fn resolved_kind(&self, repo: &Repo) -> BookmarkKind {
        if repo.is_scratch_name(self.bookmark_spec().name@) {
            BookmarkKind::Scratch
        } else {
            BookmarkKind::PullDefaultPublishing
        }
    }

    /// Whether the caller's kind restriction contradicts the resolution.
    pub open spec fn kind_mismatch(&self, repo: &Repo) -> bool {
        ||| self.kind_restrictions_spec() == BookmarkKindRestrictions::OnlyScratch
            && !repo.is_scratch_name(self.bookmark_spec().name@)
        ||| self.kind_restrictions_spec() == BookmarkKindRestrictions::OnlyPublishing
            && repo.is_scratch_name(self.bookmark_spec().name@)
    }

    /// Whether the repo-write gate aborts the pipeline.
    pub open spec fn authz_repo_abort(&self, authz: &AuthorizationContext) -> bool {
        self.authorization_mode_spec() == AuthorizationMode::Enforcing && authz.repo_write
            == AclDecision::Denied
    }

    /// Whether the movement violates cross-repo sync policy.
    pub open spec fn sync_violation(&self, repo: &Repo) -> bool {
        self.resolved_kind(repo) != BookmarkKind::Scratch && sync_managed(
            repo,
            self.bookmark_spec().name@,
        )
    }

    /// Whether the ancestry traversal exceeds the configured cap.
    pub open spec fn limit_exceeded(&self, repo: &Repo) -> bool {
        &&& self.resolved_kind(repo) != BookmarkKind::Scratch
        &&& self.affected_changesets_spec().limit_spec() matches Some(l)
            && repo.graph.draft_ancestor_count(repo.graph.idx_of(self.target_spec())) > l
    }

    /// Whether some hook rejects an affected changeset without a bypass.
    pub open spec fn hooks_reject(&self, repo: &Repo, hook_manager: &HookManager) -> bool {
        self.resolved_kind(repo) != BookmarkKind::Scratch && some_hook_blocks_draft(
            hook_manager,
            repo.graph,
            repo.graph.idx_of(self.target_spec()),
            self.pushvars_spec(),
        )
    }

    /// Whether the repo lock blocks the movement.
    pub open spec fn lock_blocked(&self, repo: &Repo) -> bool {
        repo.readonly is ReadOnly && !lock_bypassed(self.pushvars_spec())
    }

    /// Whether the ensure-ancestor-of restriction rejects the target: a
    /// restriction applies, and the designated bookmark is absent or the
    /// target is not an ancestor of its position.
    pub open spec fn ancestor_violation(&self, repo: &Repo) -> bool {
        match first_ensure_ancestor_of(
            repo.bookmark_attrs.attrs_spec(),
            self.bookmark_spec().name@,
        ) {
            Some(descendant) => match repo.store.get_spec(descendant.name@) {
                Some(desc_cs) => !repo.graph.is_ancestor_spec(self.target_spec(), desc_cs),
                None => true,
            },
            None => false,
        }
    }

    /// Whether every check before the transaction stage passes.
    pub open spec fn checks_pass(
        &self,
        authz: &AuthorizationContext,
        repo: &Repo,
        hook_manager: &HookManager,
    ) -> bool {
        &&& !self.kind_mismatch(repo)
        &&& !self.authz_repo_abort(authz)
        &&& authz.bookmark_modify == AclDecision::Allowed
        &&& !self.sync_violation(repo)
        &&& !self.limit_exceeded(repo)
        &&& !self.hooks_reject(repo, hook_manager)
        &&& !self.lock_blocked(repo)
    }

    /// Whether the publishing branch reaches the concurrent join of the
    /// git-mapping populator and the draft-ancestor scanner.
    pub open spec fn reaches_join(
        &self,
        authz: &AuthorizationContext,
        repo: &Repo,
        hook_manager: &HookManager,
    ) -> bool {
        &&& self.checks_pass(authz, repo, hook_manager)
        &&& self.resolved_kind(repo) != BookmarkKind::Scratch
        &&& !self.ancestor_violation(repo)
    }

    /// Whether the whole pipeline reaches the staging step.
    pub open spec fn reaches_staging(
        &self,
        authz: &AuthorizationContext,
        repo: &Repo,
        hook_manager: &HookManager,
    ) -> bool {
        &&& self.checks_pass(authz, repo, hook_manager)
        &&& (self.resolved_kind(repo) == BookmarkKind::Scratch || (!self.ancestor_violation(repo)
            && !(repo.git_mapping.outcome is Err)))
    }

    /// The operational-log entries one run appends, in order: the
    /// audit-only trace of a would-be denial, the scan-failure trace, and
    /// the staging trace of the kind-specific branch.
    pub open spec fn expected_scuba(
        &self,
        authz: &AuthorizationContext,
        repo: &Repo,
        hook_manager: &HookManager,
    ) -> Seq<LogEntry> {
        let acl: Seq<LogEntry> = if !self.kind_mismatch(repo) && self.authorization_mode_spec()
            == AuthorizationMode::AuditOnly && authz.repo_write == AclDecision::Denied {
            seq![LogEntry::RepoWriteAclWouldFail]
        } else {
            Seq::empty()
        };
        if self.checks_pass(authz, repo, hook_manager) {
            if self.resolved_kind(repo) == BookmarkKind::Scratch {
                acl + seq![LogEntry::CreatingScratchBookmark]
            } else if self.ancestor_violation(repo) {
                acl
            } else {
                let scan: Seq<LogEntry> = if self.log_to_scribe_spec()
                    && repo.draft_scan.fail is Some {
                    seq![LogEntry::DraftAncestorsScanFailed]
                } else {
                    Seq::empty()
                };
                if repo.git_mapping.outcome is Err {
                    acl + scan
                } else {
                    acl + scan + seq![LogEntry::CreatingPublicBookmark]
                }
            }
        } else {
            acl
        }
    }

    /// Create a new creation request for `bookmark` pointing at `target`,
    /// with the given traversal cap on affected-changeset validation.
    pub fn new(
        bookmark: BookmarkKey,
        target: ChangesetId,
        reason: BookmarkUpdateReason,
        affected_changesets_limit: Option<usize>,
    ) -> (r: CreateBookmarkOp)
        ensures
            r.bookmark_spec() == bookmark,
            r.target_spec() == target,
            r.reason_spec() == reason,
            r.kind_restrictions_spec() == BookmarkKindRestrictions::AnyKind,
            r.push_source_spec() == crate::ids::CrossRepoPushSource::NativeToThisRepo,
            r.affected_changesets_spec().limit_spec() == affected_changesets_limit,
            r.affected_changesets_spec().new_changesets_spec().len() == 0,
            r.pushvars_spec() is None,
            !r.log_to_scribe_spec(),
            r.authorization_mode_spec() == AuthorizationMode::Enforcing,
    {
        CreateBookmarkOp {
            bookmark,
            target,
            reason,
            kind_restrictions: BookmarkKindRestrictions::AnyKind,
            cross_repo_push_source: crate::ids::CrossRepoPushSource::NativeToThisRepo,
            affected_changesets: AffectedChangesets::with_limit(affected_changesets_limit),
            pushvars: None,
            log_new_public_commits_to_scribe: false,
            only_log_acl_checks: false,
        }
    }

    /// Require the bookmark to resolve to a scratch bookmark.
    pub fn only_if_scratch(self) -> (r: Self)
        ensures
            r.kind_restrictions_spec() == BookmarkKindRestrictions::OnlyScratch,
            r.bookmark_spec() == self.bookmark_spec(),
            r.target_spec() == self.target_spec(),
            r.reason_spec() == self.reason_spec(),
            r.push_source_spec() == self.push_source_spec(),
            r.affected_changesets_spec() == self.affected_changesets_spec(),
            r.pushvars_spec() == self.pushvars_spec(),
            r.log_to_scribe_spec() == self.log_to_scribe_spec(),
            r.authorization_mode_spec() == self.authorization_mode_spec(),
    {
        CreateBookmarkOp { kind_restrictions: BookmarkKindRestrictions::OnlyScratch, ..self }
    }

    /// Require the bookmark to resolve to a publishing bookmark.
    pub fn only_if_public(self) -> (r: Self)
        ensures
            r.kind_restrictions_spec() == BookmarkKindRestrictions::OnlyPublishing,
            r.bookmark_spec() == self.bookmark_spec(),
            r.target_spec() == self.target_spec(),
            r.reason_spec() == self.reason_spec(),
            r.push_source_spec() == self.push_source_spec(),
            r.affected_changesets_spec() == self.affected_changesets_spec(),
            r.pushvars_spec() == self.pushvars_spec(),
            r.log_to_scribe_spec() == self.log_to_scribe_spec(),
            r.authorization_mode_spec() == self.authorization_mode_spec(),
    {
        CreateBookmarkOp { kind_restrictions: BookmarkKindRestrictions::OnlyPublishing, ..self }
    }

    /// Attach the caller's pushvars.
    pub fn with_pushvars(self, pushvars: Option<Pushvars>) -> (r: Self)
        ensures
            r.pushvars_spec() == (match pushvars {
                Some(pv) => Some(pv@),
                None => None::<Seq<(String, String)>>,
            }),
            r.bookmark_spec() == self.bookmark_spec(),
            r.target_spec() == self.target_spec(),
            r.reason_spec() == self.reason_spec(),
            r.kind_restrictions_spec() == self.kind_restrictions_spec(),
            r.push_source_spec() == self.push_source_spec(),
            r.affected_changesets_spec() == self.affected_changesets_spec(),
            r.log_to_scribe_spec() == self.log_to_scribe_spec(),
            r.authorization_mode_spec() == self.authorization_mode_spec(),
    {
        CreateBookmarkOp { pushvars, ..self }
    }

    /// Forward new public commits to the analytics sink on success.
    pub fn log_new_public_commits_to_scribe(self) -> (r: Self)
        ensures
            r.log_to_scribe_spec(),
            r.bookmark_spec() == self.bookmark_spec(),
            r.target_spec() == self.target_spec(),
            r.reason_spec() == self.reason_spec(),
            r.kind_restrictions_spec() == self.kind_restrictions_spec(),
            r.push_source_spec() == self.push_source_spec(),
            r.affected_changesets_spec() == self.affected_changesets_spec(),
            r.pushvars_spec() == self.pushvars_spec(),
            r.authorization_mode_spec() == self.authorization_mode_spec(),
    {
        CreateBookmarkOp { log_new_public_commits_to_scribe: true, ..self }
    }

    /// Choose between enforcing authorization and audit-only mode, where a
    /// would-be denial is logged but does not abort.
    pub fn only_log_acl_checks(self, only_log: bool) -> (r: Self)
        ensures
            r.authorization_mode_spec() == (if only_log {
                AuthorizationMode::AuditOnly
            } else {
                AuthorizationMode::Enforcing
            }),
            r.bookmark_spec() == self.bookmark_spec(),
            r.target_spec() == self.target_spec(),
            r.reason_spec() == self.reason_spec(),
            r.kind_restrictions_spec() == self.kind_restrictions_spec(),
            r.push_source_spec() == self.push_source_spec(),
            r.affected_changesets_spec() == self.affected_changesets_spec(),
            r.pushvars_spec() == self.pushvars_spec(),
            r.log_to_scribe_spec() == self.log_to_scribe_spec(),
    {
        CreateBookmarkOp { only_log_acl_checks: only_log, ..self }
    }

    /// Include changesets that have just been added to the repository, so
    /// hooks can inspect them without re-fetching from storage.
    pub fn with_new_changesets(self, changesets: Vec<ChangesetId>) -> (r: Self)
        ensures
            r.affected_changesets_spec().new_changesets_spec()
                == self.affected_changesets_spec().new_changesets_spec() + changesets@,
            r.affected_changesets_spec().limit_spec()
                == self.affected_changesets_spec().limit_spec(),
            r.bookmark_spec() == self.bookmark_spec(),
            r.target_spec() == self.target_spec(),
            r.reason_spec() == self.reason_spec(),
            r.kind_restrictions_spec() == self.kind_restrictions_spec(),
            r.push_source_spec() == self.push_source_spec(),
            r.pushvars_spec() == self.pushvars_spec(),
            r.log_to_scribe_spec() == self.log_to_scribe_spec(),
            r.authorization_mode_spec() == self.authorization_mode_spec(),
    {
        let mut affected_changesets = self.affected_changesets;
        affected_changesets.add_new_changesets(changesets);
        CreateBookmarkOp { affected_changesets, ..self }
    }

    /// Record where the push originated with respect to cross-repo sync.
    pub fn with_push_source(self, cross_repo_push_source: crate::ids::CrossRepoPushSource) -> (r:
        Self)
        ensures
            r.push_source_spec() == cross_repo_push_source,
            r.bookmark_spec() == self.bookmark_spec(),
            r.target_spec() == self.target_spec(),
            r.reason_spec() == self.reason_spec(),
            r.kind_restrictions_spec() == self.kind_restrictions_spec(),
            r.affected_changesets_spec() == self.affected_changesets_spec(),
            r.pushvars_spec() == self.pushvars_spec(),
            r.log_to_scribe_spec() == self.log_to_scribe_spec(),
            r.authorization_mode_spec() == self.authorization_mode_spec(),
    {
        CreateBookmarkOp { cross_repo_push_source, ..self }
    }

    /// Run the policy checks and stage the creation, without committing.
    ///
    /// The checks run in order and the first failure aborts: kind
    /// resolution, the repo-write gate, bookmark-modify authorization,
    /// sync policy, affected-changeset and hook validation, and the repo
    /// lock.  A scratch creation is then staged directly; a publishing
    /// creation first enforces the ancestor restriction, then consults the
    /// git-mapping populator (fatal on failure) and the draft-ancestor
    /// scanner (never fatal: on failure the forwarded commit list is
    /// empty), both exactly once.
    pub fn run_with_transaction(
        self,
        ctx: &mut CoreContext,
        authz: &AuthorizationContext,
        repo: &mut Repo,
        hook_manager: &HookManager,
        txn: Option<BookmarkTransaction>,
        txn_hooks: Vec<TransactionHook>,
    ) -> (r: Result<BookmarkInfoTransaction, BookmarkMovementError>)
        requires
            old(repo).wf(),
            old(repo).graph.contains_id(self.target_spec()),
            old(repo).git_mapping.calls < u64::MAX,
            old(repo).draft_scan.calls < u64::MAX,
            txn matches Some(t) ==> t.staged_spec() is None,
        ensures
            final(repo).wf(),
            final(repo).store == old(repo).store,
            final(repo).scribe == old(repo).scribe,
            final(repo).graph == old(repo).graph,
            final(repo).infinitepush == old(repo).infinitepush,
            final(repo).readonly == old(repo).readonly,
            final(repo).sync_managed_bookmarks == old(repo).sync_managed_bookmarks,
            final(repo).bookmark_attrs == old(repo).bookmark_attrs,
            final(repo).git_mapping.outcome == old(repo).git_mapping.outcome,
            final(repo).draft_scan.fail == old(repo).draft_scan.fail,
            final(ctx).session_identities == old(ctx).session_identities,
            final(repo).git_mapping.calls == old(repo).git_mapping.calls + (
            if self.reaches_join(authz, old(repo), hook_manager) {
                1int
            } else {
                0int
            }),
            final(repo).draft_scan.calls == old(repo).draft_scan.calls + (
            if self.reaches_join(authz, old(repo), hook_manager) && self.log_to_scribe_spec() {
                1int
            } else {
                0int
            }),
            final(ctx).scuba@ == old(ctx).scuba@ + self.expected_scuba(
                authz,
                old(repo),
                hook_manager,
            ),
            self.kind_restrictions_spec() == BookmarkKindRestrictions::OnlyScratch && !old(repo).is_scratch_name(self.bookmark_spec().name@) ==> (r matches Err(
                BookmarkMovementError::InvalidScratchBookmark { bookmark },
            ) && bookmark.name@ == self.bookmark_spec().name@),
            self.kind_restrictions_spec() == BookmarkKindRestrictions::OnlyPublishing && old(repo).is_scratch_name(self.bookmark_spec().name@) ==> (r matches Err(
                BookmarkMovementError::InvalidPublishingBookmark { bookmark },
            ) && bookmark.name@ == self.bookmark_spec().name@),
            !self.kind_mismatch(old(repo)) && self.authz_repo_abort(authz) ==> r matches Err(
                BookmarkMovementError::AuthorizationError,
            ),
            !self.kind_mismatch(old(repo)) && !self.authz_repo_abort(authz)
                && authz.bookmark_modify == AclDecision::Denied ==> (r matches Err(
                BookmarkMovementError::BookmarkModifyDenied { bookmark },
            ) && bookmark.name@ == self.bookmark_spec().name@),
            !self.kind_mismatch(old(repo)) && !self.authz_repo_abort(authz)
                && authz.bookmark_modify == AclDecision::Allowed && self.sync_violation(old(repo))
                ==> (r matches Err(BookmarkMovementError::SyncConfigViolation { bookmark })
                && bookmark.name@ == self.bookmark_spec().name@),
            !self.kind_mismatch(old(repo)) && !self.authz_repo_abort(authz)
                && authz.bookmark_modify == AclDecision::Allowed && !self.sync_violation(old(repo))
                && self.limit_exceeded(old(repo)) ==> (r matches Err(
                BookmarkMovementError::LimitExceeded { limit },
            ) && self.affected_changesets_spec().limit_spec() == Some(limit)),
            !self.kind_mismatch(old(repo)) && !self.authz_repo_abort(authz)
                && authz.bookmark_modify == AclDecision::Allowed && !self.sync_violation(old(repo))
                && !self.limit_exceeded(old(repo)) && self.hooks_reject(old(repo), hook_manager)
                ==> r matches Err(BookmarkMovementError::HookRejection { .. }),
            !self.kind_mismatch(old(repo)) && !self.authz_repo_abort(authz)
                && authz.bookmark_modify == AclDecision::Allowed && !self.sync_violation(old(repo))
                && !self.limit_exceeded(old(repo)) && !self.hooks_reject(old(repo), hook_manager)
                && self.lock_blocked(old(repo)) ==> (r matches Err(
                BookmarkMovementError::RepoLocked { reason },
            ) && (old(repo).readonly matches crate::metaconfig::RepoReadOnly::ReadOnly(m)
                && reason@ == m@)),
            self.checks_pass(authz, old(repo), hook_manager) && self.resolved_kind(old(repo))
                != BookmarkKind::Scratch && self.ancestor_violation(old(repo)) ==> (r matches Err(
                BookmarkMovementError::NotAncestorOf { bookmark, .. },
            ) && bookmark.name@ == self.bookmark_spec().name@),
            self.reaches_join(authz, old(repo), hook_manager) && old(repo).git_mapping.outcome
                is Err ==> r matches Err(BookmarkMovementError::GitMappingFailure { .. }),
            self.reaches_staging(authz, old(repo), hook_manager) <==> r is Ok,
            r matches Ok(bit) ==> ({
                let kind = self.resolved_kind(old(repo));
                let t = old(repo).graph.idx_of(self.target_spec());
                &&& bit.info.bookmark_name.name@ == self.bookmark_spec().name@
                &&& bit.info.bookmark_kind == kind
                &&& bit.info.operation == crate::repo_update_logger::BookmarkOperation::Create(
                    self.target_spec(),
                )
                &&& bit.info.reason == self.reason_spec()
                &&& bit.log_new_public_commits_to_scribe == self.log_to_scribe_spec()
                &&& bit.txn.staged_spec() matches Some(op) && op.bookmark_name()
                    == self.bookmark_spec().name@ && op.target() == self.target_spec()
                &&& (kind == BookmarkKind::Scratch ==> bit.txn.staged_spec().unwrap()
                    is CreateScratch)
                &&& (kind != BookmarkKind::Scratch ==> bit.txn.staged_spec().unwrap() is Create)
                &&& (kind == BookmarkKind::Scratch ==> bit.txn_hooks@ == txn_hooks@)
                &&& (kind != BookmarkKind::Scratch ==> match old(repo).git_mapping.outcome {
                    Ok(h_opt) => match h_opt {
                        Some(h) => {
                            &&& bit.txn_hooks@.len() == txn_hooks@.len() + 1
                            &&& bit.txn_hooks@.take(txn_hooks@.len() as int) == txn_hooks@
                            &&& bit.txn_hooks@.last().label@ == h.label@
                            &&& bit.txn_hooks@.last().succeeds == h.succeeds
                        },
                        None => bit.txn_hooks@ == txn_hooks@,
                    },
                    Err(_) => false,
                })
                &&& (kind == BookmarkKind::Scratch ==> bit.commits_to_log@.len() == 0)
                &&& (kind != BookmarkKind::Scratch ==> {
                    if self.log_to_scribe_spec() && old(repo).draft_scan.fail is None {
                        &&& forall|x: ChangesetId|
                            #[trigger] bit.commits_to_log@.contains(x) <==> exists|j: int|
                                old(repo).graph.is_draft_ancestor_idx(t, j) && (#[trigger] old(repo).graph.nodes@[j].id) == x
                        &&& forall|k1: int, k2: int|
                            0 <= k1 < k2 < bit.commits_to_log@.len() ==> bit.commits_to_log@[k1]
                                != bit.commits_to_log@[k2]
                        &&& bit.commits_to_log@.len() == old(repo).graph.draft_ancestor_count(t)
                    } else {
                        bit.commits_to_log@.len() == 0
                    }
                })
            }),
    {
        let kind = match self.kind_restrictions.check_kind(repo, &self.bookmark) {
            Ok(kind) => kind,
            Err(e) => {
                proof {
                    assert(ctx.scuba@ =~= old(ctx).scuba@ + self.expected_scuba(
                        authz,
                        old(repo),
                        hook_manager,
                    ));
                }
                return Err(e);
            },
        };
        let mode = if self.only_log_acl_checks {
            AuthorizationMode::AuditOnly
        } else {
            AuthorizationMode::Enforcing
        };
        match authz.check_repo_write(ctx, mode) {
            Ok(_) => {},
            Err(e) => {
                proof {
                    assert(ctx.scuba@ =~= old(ctx).scuba@ + self.expected_scuba(
                        authz,
                        old(repo),
                        hook_manager,
                    ));
                }
                return Err(e);
            },
        }
        match authz.require_bookmark_modify(&self.bookmark) {
            Ok(_) => {},
            Err(e) => {
                proof {
                    assert(ctx.scuba@ =~= old(ctx).scuba@ + self.expected_scuba(
                        authz,
                        old(repo),
                        hook_manager,
                    ));
                }
                return Err(e);
            },
        }
        match check_bookmark_sync_config(repo, &self.bookmark, kind) {
            Ok(_) => {},
            Err(e) => {
                proof {
                    assert(ctx.scuba@ =~= old(ctx).scuba@ + self.expected_scuba(
                        authz,
                        old(repo),
                        hook_manager,
                    ));
                }
                return Err(e);
            },
        }
        match self.affected_changesets.check_restrictions(
            repo,
            hook_manager,
            self.pushvars.as_ref(),
            kind,
            AdditionalChangesets::Ancestors(self.target),
        ) {
            Ok(_) => {},
            Err(e) => {
                proof {
                    assert(ctx.scuba@ =~= old(ctx).scuba@ + self.expected_scuba(
                        authz,
                        old(repo),
                        hook_manager,
                    ));
                }
                return Err(e);
            },
        }
        match check_repo_lock(repo, kind, self.pushvars.as_ref()) {
            Ok(_) => {},
            Err(e) => {
                proof {
                    assert(ctx.scuba@ =~= old(ctx).scuba@ + self.expected_scuba(
                        authz,
                        old(repo),
                        hook_manager,
                    ));
                }
                return Err(e);
            },
        }
        let mut txn = match txn {
            Some(t) => t,
            None => BookmarkTransaction::new(),
        };
        let mut txn_hooks = txn_hooks;
        let commits_to_log: Vec<ChangesetId>;
        match kind {
            BookmarkKind::Scratch => {
                ctx.log(LogEntry::CreatingScratchBookmark);
                txn.create_scratch(&self.bookmark, self.target);
                commits_to_log = Vec::new();
                proof {
                    assert(ctx.scuba@ =~= old(ctx).scuba@ + self.expected_scuba(
                        authz,
                        old(repo),
                        hook_manager,
                    ));
                }
            },
            BookmarkKind::Publishing | BookmarkKind::PullDefaultPublishing => {
                match check_restriction_ensure_ancestor_of(repo, &self.bookmark, self.target) {
                    Ok(_) => {},
                    Err(e) => {
                        proof {
                            assert(ctx.scuba@ =~= old(ctx).scuba@ + self.expected_scuba(
                                authz,
                                old(repo),
                                hook_manager,
                            ));
                        }
                        return Err(e);
                    },
                }
                // the populator and the scanner are joined: both complete
                // before the result of either is inspected.
                let txn_hook_res = repo.git_mapping.populate_git_mapping_txn_hook(
                    self.target,
                    self.affected_changesets.new_changesets(),
                );
                let to_log: Vec<ChangesetId> = if self.log_new_public_commits_to_scribe {
                    match repo.draft_scan.find_draft_ancestors(&repo.graph, self.target) {
                        Ok(bcss) => bcss,
                        Err(_) => {
                            ctx.log(LogEntry::DraftAncestorsScanFailed);
                            Vec::new()
                        },
                    }
                } else {
                    Vec::new()
                };
                match txn_hook_res {
                    Ok(Some(txn_hook)) => txn_hooks.push(txn_hook),
                    Ok(None) => {},
                    Err(e) => {
                        proof {
                            assert(ctx.scuba@ =~= old(ctx).scuba@ + self.expected_scuba(
                                authz,
                                old(repo),
                                hook_manager,
                            ));
                        }
                        return Err(e);
                    },
                }
                ctx.log(LogEntry::CreatingPublicBookmark);
                txn.create(&self.bookmark, self.target, self.reason);
                commits_to_log = to_log;
                proof {
                    assert(ctx.scuba@ =~= old(ctx).scuba@ + self.expected_scuba(
                        authz,
                        old(repo),
                        hook_manager,
                    ));
                    assert(txn_hooks@.take(txn_hooks@.len() - 1 as int) =~= txn_hooks@.take(
                        txn_hooks@.len() - 1,
                    ));
                }
            },
        }
        let info = BookmarkInfo {
            bookmark_name: BookmarkKey { name: self.bookmark.name.clone() },
            bookmark_kind: kind,
            operation: BookmarkOperation::Create(self.target),
            reason: self.reason,
        };
        Ok(
            BookmarkInfoTransaction::new(
                info,
                txn,
                self.log_new_public_commits_to_scribe,
                commits_to_log,
                txn_hooks,
            ),
        )
    }

    /// Whether the one transaction hook `run` stages — the git-mapping
    /// populator's, present only for publishing creations — signals
    /// failure at commit time.
    pub open spec fn staged_hook_fails(&self, repo: &Repo) -> bool {
        self.resolved_kind(repo) != BookmarkKind::Scratch && match repo.git_mapping.outcome {
            Ok(h) => match h {
                Some(hook) => !hook.succeeds,
                None => false,
            },
            Err(_) => false,
        }
    }

    /// Whether the whole run succeeds: every policy check passes, every
    /// staged side effect succeeds, and the bookmark is still absent when
    /// the store commits.
    pub open spec fn run_succeeds(
        &self,
        authz: &AuthorizationContext,
        repo: &Repo,
        hook_manager: &HookManager,
    ) -> bool {
        &&& self.reaches_staging(authz, repo, hook_manager)
        &&& !self.staged_hook_fails(repo)
        &&& repo.store.get_spec(self.bookmark_spec().name@) is None
    }

    /// Run the whole pipeline: the policy checks, the staging, and the
    /// atomic commit against the store, forwarding the audit record on
    /// success.
    ///
    /// A policy failure aborts before anything is staged and leaves the
    /// store untouched.  After staging, the only possible failures are a
    /// staged side effect signalling failure and a concurrent winner; both
    /// leave the store untouched and emit no audit record, and a conflict
    /// is safe to retry from the top.
    pub fn run(
        self,
        ctx: &mut CoreContext,
        authz: &AuthorizationContext,
        repo: &mut Repo,
        hook_manager: &HookManager,
    ) -> (r: Result<BookmarkUpdateLogId, BookmarkMovementError>)
        requires
            old(repo).wf(),
            old(repo).graph.contains_id(self.target_spec()),
            old(repo).git_mapping.calls < u64::MAX,
            old(repo).draft_scan.calls < u64::MAX,
            old(repo).store.next_log_id < u64::MAX,
        ensures
            final(repo).wf(),
            final(repo).graph == old(repo).graph,
            final(repo).infinitepush == old(repo).infinitepush,
            final(repo).readonly == old(repo).readonly,
            final(repo).sync_managed_bookmarks == old(repo).sync_managed_bookmarks,
            final(repo).bookmark_attrs == old(repo).bookmark_attrs,
            final(repo).git_mapping.outcome == old(repo).git_mapping.outcome,
            final(repo).draft_scan.fail == old(repo).draft_scan.fail,
            final(repo).scribe.fail == old(repo).scribe.fail,
            final(ctx).session_identities == old(ctx).session_identities,
            r is Ok <==> self.run_succeeds(authz, old(repo), hook_manager),
            final(repo).git_mapping.calls == old(repo).git_mapping.calls + (
            if self.reaches_join(authz, old(repo), hook_manager) {
                1int
            } else {
                0int
            }),
            final(repo).draft_scan.calls == old(repo).draft_scan.calls + (
            if self.reaches_join(authz, old(repo), hook_manager) && self.log_to_scribe_spec() {
                1int
            } else {
                0int
            }),
            final(ctx).scuba@ == old(ctx).scuba@ + self.expected_scuba(
                authz,
                old(repo),
                hook_manager,
            ) + (if self.run_succeeds(authz, old(repo), hook_manager) && old(repo).scribe.fail {
                seq![LogEntry::ScribeForwardFailed]
            } else {
                Seq::empty()
            }),
            !self.run_succeeds(authz, old(repo), hook_manager) ==> final(repo).store == old(repo).store && final(repo).scribe.records@ == old(repo).scribe.records@,
            !self.reaches_staging(authz, old(repo), hook_manager) ==> r is Err,
            self.reaches_staging(authz, old(repo), hook_manager) && self.staged_hook_fails(
                old(repo),
            ) ==> r matches Err(BookmarkMovementError::TransactionHookFailure { .. }),
            self.reaches_staging(authz, old(repo), hook_manager) && !self.staged_hook_fails(
                old(repo),
            ) && old(repo).store.get_spec(self.bookmark_spec().name@) is Some ==> (r matches Err(
                BookmarkMovementError::CommitConflict { bookmark },
            ) && bookmark.name@ == self.bookmark_spec().name@),
            self.run_succeeds(authz, old(repo), hook_manager) ==> ({
                let name = self.bookmark_spec().name@;
                let t = old(repo).graph.idx_of(self.target_spec());
                &&& r matches Ok(id) && id.id == old(repo).store.next_log_id
                &&& final(repo).store.next_log_id == old(repo).store.next_log_id + 1
                &&& final(repo).store.get_spec(name) == Some(self.target_spec())
                &&& final(repo).store.entries@.len() == old(repo).store.entries@.len() + 1
                &&& final(repo).store.entries@.take(old(repo).store.entries@.len() as int) == old(repo).store.entries@
                &&& (if old(repo).scribe.fail {
                    final(repo).scribe.records@ == old(repo).scribe.records@
                } else {
                    &&& final(repo).scribe.records@.len() == old(repo).scribe.records@.len() + 1
                    &&& final(repo).scribe.records@.take(old(repo).scribe.records@.len() as int)
                        == old(repo).scribe.records@
                    &&& final(repo).scribe.records@.last().0.bookmark_name.name@ == name
                    &&& final(repo).scribe.records@.last().0.bookmark_kind == self.resolved_kind(
                        old(repo),
                    )
                    &&& final(repo).scribe.records@.last().0.operation
                        == crate::repo_update_logger::BookmarkOperation::Create(
                        self.target_spec(),
                    )
                    &&& final(repo).scribe.records@.last().0.reason == self.reason_spec()
                    &&& (self.resolved_kind(old(repo)) == BookmarkKind::Scratch
                        ==> final(repo).scribe.records@.last().1@.len() == 0)
                    &&& (self.resolved_kind(old(repo)) != BookmarkKind::Scratch ==> {
                        if self.log_to_scribe_spec() && old(repo).draft_scan.fail is None {
                            &&& forall|x: ChangesetId|
                                #[trigger] final(repo).scribe.records@.last().1@.contains(x)
                                    <==> exists|j: int|
                                    old(repo).graph.is_draft_ancestor_idx(t, j)
                                        && (#[trigger] old(repo).graph.nodes@[j].id) == x
                            &&& final(repo).scribe.records@.last().1@.len()
                                == old(repo).graph.draft_ancestor_count(t)
                        } else {
                            final(repo).scribe.records@.last().1@.len() == 0
                        }
                    })
                })
            }),
    {
        let ghost old_repo = *old(repo);
        let info_txn = match self.run_with_transaction(
            ctx,
            authz,
            repo,
            hook_manager,
            None,
            Vec::new(),
        ) {
            Ok(info_txn) => info_txn,
            Err(e) => {
                return Err(e);
            },
        };
        proof {
            let hooks = info_txn.txn_hooks@;
            if hooks.len() == 0 {
                assert(crate::store::first_failing_hook(hooks) is None);
            } else {
                assert(hooks.len() == 1);
                assert(hooks[0] == hooks.last());
                assert(hooks.drop_first().len() == 0);
                assert(crate::store::first_failing_hook(hooks.drop_first()) is None);
                if !hooks[0].succeeds {
                    assert(crate::store::first_failing_hook(hooks) == Some(hooks[0]));
                } else {
                    assert(crate::store::first_failing_hook(hooks) is None);
                }
            }
        }
        info_txn.commit_and_log(ctx, repo)
    }
}


/// A scratch creation never consults the git-mapping populator or the
/// draft-ancestor scanner: the join of the two collaborators is reached
/// only on the publishing branch.
pub proof fn law_scratch_skips_collaborators(
    op: &CreateBookmarkOp,
    authz: &AuthorizationContext,
    repo: &Repo,
    hook_manager: &HookManager,
)
    requires
        op.resolved_kind(repo) == BookmarkKind::Scratch,
    ensures
        !op.reaches_join(authz, repo, hook_manager),
{
}

/// Whether a movement reaches staging, and whether the whole run succeeds,
/// never depend on the draft-ancestor scanner's failure: the scan is a
/// best-effort side channel, recovered locally with an empty result.
pub proof fn law_scan_failure_never_aborts(
    op: &CreateBookmarkOp,
    authz: &AuthorizationContext,
    repo: Repo,
    hook_manager: &HookManager,
    fail: Option<String>,
)
    ensures
        ({
            let other = Repo {
                draft_scan: crate::repo::DraftScanService {
                    calls: repo.draft_scan.calls,
                    fail,
                },
                ..repo
            };
            &&& op.reaches_staging(authz, &other, hook_manager) == op.reaches_staging(
                authz,
                &repo,
                hook_manager,
            )
            &&& op.staged_hook_fails(&other) == op.staged_hook_fails(&repo)
            &&& op.run_succeeds(authz, &other, hook_manager) == op.run_succeeds(
                authz,
                &repo,
                hook_manager,
            )
        }),
{
    let other = Repo {
        draft_scan: crate::repo::DraftScanService { calls: repo.draft_scan.calls, fail },
        ..repo
    };
    assert(other.graph == repo.graph);
    assert(other.infinitepush == repo.infinitepush);
    assert(other.readonly == repo.readonly);
    assert(other.sync_managed_bookmarks == repo.sync_managed_bookmarks);
    assert(other.bookmark_attrs == repo.bookmark_attrs);
    assert(other.store == repo.store);
    assert(other.git_mapping == repo.git_mapping);
    assert(op.resolved_kind(&other) == op.resolved_kind(&repo));
    assert(op.kind_mismatch(&other) == op.kind_mismatch(&repo));
    assert(op.sync_violation(&other) == op.sync_violation(&repo));
    assert(op.limit_exceeded(&other) == op.limit_exceeded(&repo));
    assert(op.hooks_reject(&other, hook_manager) == op.hooks_reject(&repo, hook_manager));
    assert(op.lock_blocked(&other) == op.lock_blocked(&repo));
    assert(op.ancestor_violation(&other) == op.ancestor_violation(&repo));
    assert(op.checks_pass(authz, &other, hook_manager) == op.checks_pass(
        authz,
        &repo,
        hook_manager,
    ));
}

} // verus!
