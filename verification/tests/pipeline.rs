//! End-to-end tests of the bookmark creation pipeline.

use bookmarks_movement::authz::AclDecision;
use bookmarks_movement::authz::AuthorizationContext;
use bookmarks_movement::bookmark_attrs::BookmarkAttrs;
use bookmarks_movement::bookmark_attrs::SingleBookmarkAttr;
use bookmarks_movement::context::CoreContext;
use bookmarks_movement::context::LogEntry;
use bookmarks_movement::create::CreateBookmarkOp;
use bookmarks_movement::errors::BookmarkMovementError;
use bookmarks_movement::graph::ChangesetNode;
use bookmarks_movement::graph::CommitGraph;
use bookmarks_movement::graph::Phase;
use bookmarks_movement::hooks::Hook;
use bookmarks_movement::hooks::HookManager;
use bookmarks_movement::ids::BookmarkKey;
use bookmarks_movement::ids::BookmarkUpdateReason;
use bookmarks_movement::ids::ChangesetId;
use bookmarks_movement::metaconfig::BookmarkOrRegex;
use bookmarks_movement::metaconfig::BookmarkParams;
use bookmarks_movement::metaconfig::HookBypass;
use bookmarks_movement::metaconfig::InfinitepushNamespace;
use bookmarks_movement::metaconfig::InfinitepushParams;
use bookmarks_movement::metaconfig::RepoReadOnly;
use bookmarks_movement::regexes::ComparableRegex;
use bookmarks_movement::repo::DraftScanService;
use bookmarks_movement::repo::GitMappingService;
use bookmarks_movement::repo::Repo;
use bookmarks_movement::repo_update_logger::ScribeSink;
use bookmarks_movement::store::BookmarkStore;
use bookmarks_movement::store::TransactionHook;

fn key(name: &str) -> BookmarkKey {
    BookmarkKey::new(name.to_string())
}

fn cs(id: u64) -> ChangesetId {
    ChangesetId::new(id)
}

fn node(id: u64, parents: Vec<u64>, phase: Phase, message: &str) -> ChangesetNode {
    ChangesetNode {
        id: cs(id),
        parents: parents.into_iter().map(cs).collect(),
        phase,
        message: message.to_string(),
    }
}

fn scratch_namespace() -> InfinitepushNamespace {
    InfinitepushNamespace::new(ComparableRegex::new("^scratch/.*".to_string()).unwrap())
}

/// A repo with a scratch namespace, one draft changeset (id 1), and no
/// policy restrictions.
fn basic_repo() -> Repo {
    let mut infinitepush = InfinitepushParams::default();
    infinitepush.namespace = Some(scratch_namespace());
    Repo {
        infinitepush,
        readonly: RepoReadOnly::ReadWrite,
        sync_managed_bookmarks: Vec::new(),
        bookmark_attrs: BookmarkAttrs::new(Vec::new()),
        graph: CommitGraph { nodes: vec![node(1, vec![], Phase::Draft, "initial commit")] },
        store: BookmarkStore::new(),
        git_mapping: GitMappingService::new(),
        draft_scan: DraftScanService::new(),
        scribe: ScribeSink::new(),
    }
}

fn allowed() -> AuthorizationContext {
    AuthorizationContext::new(AclDecision::Allowed, AclDecision::Allowed)
}

fn ctx() -> CoreContext {
    CoreContext::new(vec!["USER:alice".to_string()])
}

fn no_hooks() -> HookManager {
    HookManager::new(Vec::new())
}

#[test]
fn create_publishing_bookmark_returns_fresh_log_id() {
    let mut repo = basic_repo();
    let mut ctx = ctx();
    let op = CreateBookmarkOp::new(key("main"), cs(1), BookmarkUpdateReason::Push, None);
    let r = op.run(&mut ctx, &allowed(), &mut repo, &no_hooks());
    let id = r.expect("creation should succeed");
    assert_eq!(id.id, 0);
    assert_eq!(repo.store.get(&key("main")), Some(cs(1)));
    assert_eq!(repo.store.next_log_id, 1);
    assert_eq!(ctx.scuba, vec![LogEntry::CreatingPublicBookmark]);
}

#[test]
fn create_scratch_bookmark_while_locked_fails_and_leaves_store_unchanged() {
    let mut repo = basic_repo();
    repo.readonly = RepoReadOnly::ReadOnly("maintenance".to_string());
    let mut ctx = ctx();
    let op = CreateBookmarkOp::new(key("scratch/x"), cs(1), BookmarkUpdateReason::Push, None);
    let r = op.run(&mut ctx, &allowed(), &mut repo, &no_hooks());
    match r {
        Err(BookmarkMovementError::RepoLocked { reason }) => assert_eq!(reason, "maintenance"),
        other => panic!("expected RepoLocked, got {:?}", other),
    }
    assert_eq!(repo.store.get(&key("scratch/x")), None);
    assert!(repo.store.entries.is_empty());
}

#[test]
fn repo_lock_pushvar_override_allows_creation() {
    let mut repo = basic_repo();
    repo.readonly = RepoReadOnly::ReadOnly("maintenance".to_string());
    let mut ctx = ctx();
    let pushvars = vec![("BYPASS_READONLY".to_string(), "true".to_string())];
    let op = CreateBookmarkOp::new(key("scratch/x"), cs(1), BookmarkUpdateReason::Push, None)
        .with_pushvars(Some(pushvars));
    let r = op.run(&mut ctx, &allowed(), &mut repo, &no_hooks());
    assert!(r.is_ok());
    assert_eq!(repo.store.get(&key("scratch/x")), Some(cs(1)));
}

#[test]
fn concurrent_creations_have_exactly_one_winner() {
    let mut repo = basic_repo();
    let mut ctx = ctx();
    // both requests are configured against the same prior state
    let first = CreateBookmarkOp::new(key("main"), cs(1), BookmarkUpdateReason::Push, None);
    let second = CreateBookmarkOp::new(key("main"), cs(1), BookmarkUpdateReason::Push, None);
    let r1 = first.run(&mut ctx, &allowed(), &mut repo, &no_hooks());
    assert!(r1.is_ok());
    let r2 = second.run(&mut ctx, &allowed(), &mut repo, &no_hooks());
    assert!(matches!(
        r2,
        Err(BookmarkMovementError::CommitConflict { ref bookmark }) if bookmark.name == "main"
    ));
    // the store's final state is the winner's intended value
    assert_eq!(repo.store.get(&key("main")), Some(cs(1)));
    assert_eq!(repo.store.entries.len(), 1);
    assert_eq!(repo.store.next_log_id, 1);
}

#[test]
fn scratch_creation_never_calls_git_mapping_or_draft_scan() {
    let mut repo = basic_repo();
    let mut ctx = ctx();
    let op = CreateBookmarkOp::new(key("scratch/x"), cs(1), BookmarkUpdateReason::Push, None)
        .log_new_public_commits_to_scribe();
    let r = op.run(&mut ctx, &allowed(), &mut repo, &no_hooks());
    assert!(r.is_ok());
    assert_eq!(repo.git_mapping.calls, 0);
    assert_eq!(repo.draft_scan.calls, 0);
    assert_eq!(ctx.scuba, vec![LogEntry::CreatingScratchBookmark]);
}

#[test]
fn publishing_creation_consults_both_collaborators_once() {
    let mut repo = basic_repo();
    let mut ctx = ctx();
    let op = CreateBookmarkOp::new(key("main"), cs(1), BookmarkUpdateReason::Push, None)
        .log_new_public_commits_to_scribe();
    let r = op.run(&mut ctx, &allowed(), &mut repo, &no_hooks());
    assert!(r.is_ok());
    assert_eq!(repo.git_mapping.calls, 1);
    assert_eq!(repo.draft_scan.calls, 1);
}

#[test]
fn draft_scan_failure_still_commits_with_empty_forwarded_commits() {
    let mut repo = basic_repo();
    repo.draft_scan.fail = Some("scan backend unavailable".to_string());
    let mut ctx = ctx();
    let op = CreateBookmarkOp::new(key("main"), cs(1), BookmarkUpdateReason::Push, None)
        .log_new_public_commits_to_scribe();
    let r = op.run(&mut ctx, &allowed(), &mut repo, &no_hooks());
    assert!(r.is_ok());
    assert_eq!(repo.store.get(&key("main")), Some(cs(1)));
    assert_eq!(repo.scribe.records.len(), 1);
    assert!(repo.scribe.records[0].1.is_empty());
    assert_eq!(
        ctx.scuba,
        vec![LogEntry::DraftAncestorsScanFailed, LogEntry::CreatingPublicBookmark]
    );
}

#[test]
fn draft_ancestors_are_forwarded_to_the_sink() {
    let mut repo = basic_repo();
    repo.graph = CommitGraph {
        nodes: vec![
            node(1, vec![], Phase::Public, "base"),
            node(2, vec![1], Phase::Draft, "draft one"),
            node(3, vec![2], Phase::Draft, "draft two"),
        ],
    };
    let mut ctx = ctx();
    let op = CreateBookmarkOp::new(key("main"), cs(3), BookmarkUpdateReason::Push, None)
        .log_new_public_commits_to_scribe();
    let r = op.run(&mut ctx, &allowed(), &mut repo, &no_hooks());
    assert!(r.is_ok());
    assert_eq!(repo.scribe.records.len(), 1);
    assert_eq!(repo.scribe.records[0].1, vec![cs(2), cs(3)]);
}

#[test]
fn audit_only_mode_never_aborts_and_logs_exactly_once() {
    let mut repo = basic_repo();
    let mut ctx = ctx();
    let denied = AuthorizationContext::new(AclDecision::Denied, AclDecision::Allowed);
    let op = CreateBookmarkOp::new(key("main"), cs(1), BookmarkUpdateReason::Push, None)
        .only_log_acl_checks(true);
    let r = op.run(&mut ctx, &denied, &mut repo, &no_hooks());
    assert!(r.is_ok());
    let would_fail_entries = ctx
        .scuba
        .iter()
        .filter(|e| matches!(e, LogEntry::RepoWriteAclWouldFail))
        .count();
    assert_eq!(would_fail_entries, 1);
    assert_eq!(
        ctx.scuba,
        vec![LogEntry::RepoWriteAclWouldFail, LogEntry::CreatingPublicBookmark]
    );
}

#[test]
fn enforcing_mode_denial_aborts() {
    let mut repo = basic_repo();
    let mut ctx = ctx();
    let denied = AuthorizationContext::new(AclDecision::Denied, AclDecision::Allowed);
    let op = CreateBookmarkOp::new(key("main"), cs(1), BookmarkUpdateReason::Push, None);
    let r = op.run(&mut ctx, &denied, &mut repo, &no_hooks());
    assert!(matches!(r, Err(BookmarkMovementError::AuthorizationError)));
    assert!(ctx.scuba.is_empty());
    assert!(repo.store.entries.is_empty());
}

#[test]
fn bookmark_modify_denial_aborts_whatever_the_mode() {
    let mut repo = basic_repo();
    let mut ctx = ctx();
    let denied = AuthorizationContext::new(AclDecision::Allowed, AclDecision::Denied);
    let op = CreateBookmarkOp::new(key("main"), cs(1), BookmarkUpdateReason::Push, None)
        .only_log_acl_checks(true);
    let r = op.run(&mut ctx, &denied, &mut repo, &no_hooks());
    assert!(matches!(
        r,
        Err(BookmarkMovementError::BookmarkModifyDenied { ref bookmark }) if bookmark.name == "main"
    ));
}

#[test]
fn only_if_scratch_against_publishing_name_fails() {
    let mut repo = basic_repo();
    let mut ctx = ctx();
    let op = CreateBookmarkOp::new(key("main"), cs(1), BookmarkUpdateReason::Push, None)
        .only_if_scratch();
    let r = op.run(&mut ctx, &allowed(), &mut repo, &no_hooks());
    assert!(matches!(
        r,
        Err(BookmarkMovementError::InvalidScratchBookmark { ref bookmark }) if bookmark.name == "main"
    ));
}

#[test]
fn only_if_public_against_scratch_name_fails() {
    let mut repo = basic_repo();
    let mut ctx = ctx();
    let op = CreateBookmarkOp::new(key("scratch/x"), cs(1), BookmarkUpdateReason::Push, None)
        .only_if_public();
    let r = op.run(&mut ctx, &allowed(), &mut repo, &no_hooks());
    assert!(matches!(
        r,
        Err(BookmarkMovementError::InvalidPublishingBookmark { ref bookmark })
            if bookmark.name == "scratch/x"
    ));
}

#[test]
fn sync_managed_bookmark_cannot_be_created() {
    let mut repo = basic_repo();
    repo.sync_managed_bookmarks = vec![key("main")];
    let mut ctx = ctx();
    let op = CreateBookmarkOp::new(key("main"), cs(1), BookmarkUpdateReason::Push, None);
    let r = op.run(&mut ctx, &allowed(), &mut repo, &no_hooks());
    assert!(matches!(
        r,
        Err(BookmarkMovementError::SyncConfigViolation { ref bookmark }) if bookmark.name == "main"
    ));
}

fn rejecting_hook(name: &str, rejected: u64, bypass: Option<HookBypass>) -> HookManager {
    HookManager::new(vec![Hook {
        name: name.to_string(),
        bypass,
        rejects: vec![cs(rejected)],
    }])
}

#[test]
fn hook_rejection_names_the_hook_and_the_changeset() {
    let mut repo = basic_repo();
    let mut ctx = ctx();
    let hooks = rejecting_hook(
        "no_evil",
        1,
        Some(HookBypass::new_with_pushvar("ALLOW_EVIL".to_string(), "yes".to_string())),
    );
    let op = CreateBookmarkOp::new(key("main"), cs(1), BookmarkUpdateReason::Push, None);
    let r = op.run(&mut ctx, &allowed(), &mut repo, &hooks);
    match r {
        Err(BookmarkMovementError::HookRejection { hook_name, changeset }) => {
            assert_eq!(hook_name, "no_evil");
            assert_eq!(changeset, cs(1));
        },
        other => panic!("expected HookRejection, got {:?}", other),
    }
}

#[test]
fn correct_pushvar_bypass_allows_the_movement() {
    let mut repo = basic_repo();
    let mut ctx = ctx();
    let hooks = rejecting_hook(
        "no_evil",
        1,
        Some(HookBypass::new_with_pushvar("ALLOW_EVIL".to_string(), "yes".to_string())),
    );
    let pushvars = vec![("ALLOW_EVIL".to_string(), "yes".to_string())];
    let op = CreateBookmarkOp::new(key("main"), cs(1), BookmarkUpdateReason::Push, None)
        .with_pushvars(Some(pushvars));
    let r = op.run(&mut ctx, &allowed(), &mut repo, &hooks);
    assert!(r.is_ok());
}

#[test]
fn mismatched_pushvar_bypass_still_fails() {
    let mut repo = basic_repo();
    let mut ctx = ctx();
    let hooks = rejecting_hook(
        "no_evil",
        1,
        Some(HookBypass::new_with_pushvar("ALLOW_EVIL".to_string(), "yes".to_string())),
    );
    let pushvars = vec![("ALLOW_EVIL".to_string(), "no".to_string())];
    let op = CreateBookmarkOp::new(key("main"), cs(1), BookmarkUpdateReason::Push, None)
        .with_pushvars(Some(pushvars));
    let r = op.run(&mut ctx, &allowed(), &mut repo, &hooks);
    assert!(matches!(
        r,
        Err(BookmarkMovementError::HookRejection { changeset, .. }) if changeset == cs(1)
    ));
}

#[test]
fn commit_message_bypass_allows_the_movement() {
    let mut repo = basic_repo();
    repo.graph = CommitGraph {
        nodes: vec![node(1, vec![], Phase::Draft, "fix things @allow-evil ok")],
    };
    let mut ctx = ctx();
    let hooks = rejecting_hook(
        "no_evil",
        1,
        Some(HookBypass::new_with_commit_msg("@allow-evil".to_string())),
    );
    let op = CreateBookmarkOp::new(key("main"), cs(1), BookmarkUpdateReason::Push, None);
    let r = op.run(&mut ctx, &allowed(), &mut repo, &hooks);
    assert!(r.is_ok());
}

#[test]
fn scratch_creation_skips_hooks() {
    let mut repo = basic_repo();
    let mut ctx = ctx();
    let hooks = rejecting_hook("no_evil", 1, None);
    let op = CreateBookmarkOp::new(key("scratch/x"), cs(1), BookmarkUpdateReason::Push, None);
    let r = op.run(&mut ctx, &allowed(), &mut repo, &hooks);
    assert!(r.is_ok());
}

#[test]
fn traversal_beyond_the_limit_fails_and_never_truncates() {
    let mut repo = basic_repo();
    repo.graph = CommitGraph {
        nodes: vec![
            node(1, vec![], Phase::Draft, "one"),
            node(2, vec![1], Phase::Draft, "two"),
            node(3, vec![2], Phase::Draft, "three"),
        ],
    };
    let mut ctx = ctx();
    let op = CreateBookmarkOp::new(key("main"), cs(3), BookmarkUpdateReason::Push, Some(2));
    let r = op.run(&mut ctx, &allowed(), &mut repo, &no_hooks());
    match r {
        Err(BookmarkMovementError::LimitExceeded { limit }) => assert_eq!(limit, 2),
        other => panic!("expected LimitExceeded, got {:?}", other),
    }
    assert!(repo.store.entries.is_empty());
}

#[test]
fn traversal_within_the_limit_succeeds() {
    let mut repo = basic_repo();
    repo.graph = CommitGraph {
        nodes: vec![
            node(1, vec![], Phase::Draft, "one"),
            node(2, vec![1], Phase::Draft, "two"),
            node(3, vec![2], Phase::Draft, "three"),
        ],
    };
    let mut ctx = ctx();
    let op = CreateBookmarkOp::new(key("main"), cs(3), BookmarkUpdateReason::Push, Some(3));
    let r = op.run(&mut ctx, &allowed(), &mut repo, &no_hooks());
    assert!(r.is_ok());
}

fn ensure_ancestor_params(bookmark: &str, protected: &str) -> BookmarkParams {
    BookmarkParams {
        bookmark: BookmarkOrRegex::Bookmark(key(bookmark)),
        hooks: Vec::new(),
        only_fast_forward: false,
        rewrite_dates: None,
        allowed_users: None,
        allowed_hipster_group: None,
        hooks_skip_ancestors_of: Vec::new(),
        ensure_ancestor_of: Some(key(protected)),
        allow_move_to_public_commits_without_hooks: false,
    }
}

#[test]
fn ensure_ancestor_of_violation_is_rejected() {
    let mut repo = basic_repo();
    repo.graph = CommitGraph {
        nodes: vec![
            node(1, vec![], Phase::Public, "base"),
            node(2, vec![1], Phase::Public, "release tip"),
            node(3, vec![1], Phase::Draft, "unrelated"),
        ],
    };
    repo.store.entries.push((key("release"), cs(2)));
    repo.bookmark_attrs =
        BookmarkAttrs::new(vec![SingleBookmarkAttr::new(ensure_ancestor_params("feature", "release"), None)]);
    let mut ctx = ctx();
    // changeset 3 is not an ancestor of the release tip
    let op = CreateBookmarkOp::new(key("feature"), cs(3), BookmarkUpdateReason::Push, None);
    let r = op.run(&mut ctx, &allowed(), &mut repo, &no_hooks());
    assert!(matches!(
        r,
        Err(BookmarkMovementError::NotAncestorOf { ref descendant_bookmark, .. })
            if descendant_bookmark.name == "release"
    ));
}

#[test]
fn ensure_ancestor_of_satisfied_passes() {
    let mut repo = basic_repo();
    repo.graph = CommitGraph {
        nodes: vec![
            node(1, vec![], Phase::Public, "base"),
            node(2, vec![1], Phase::Public, "release tip"),
        ],
    };
    repo.store.entries.push((key("release"), cs(2)));
    repo.bookmark_attrs =
        BookmarkAttrs::new(vec![SingleBookmarkAttr::new(ensure_ancestor_params("feature", "release"), None)]);
    let mut ctx = ctx();
    // changeset 1 is an ancestor of the release tip
    let op = CreateBookmarkOp::new(key("feature"), cs(1), BookmarkUpdateReason::Push, None);
    let r = op.run(&mut ctx, &allowed(), &mut repo, &no_hooks());
    assert!(r.is_ok());
}

#[test]
fn git_mapping_failure_is_fatal() {
    let mut repo = basic_repo();
    repo.git_mapping.outcome = Err("git mapping backend down".to_string());
    let mut ctx = ctx();
    let op = CreateBookmarkOp::new(key("main"), cs(1), BookmarkUpdateReason::Push, None);
    let r = op.run(&mut ctx, &allowed(), &mut repo, &no_hooks());
    match r {
        Err(BookmarkMovementError::GitMappingFailure { message }) => {
            assert_eq!(message, "git mapping backend down");
        },
        other => panic!("expected GitMappingFailure, got {:?}", other),
    }
    assert!(repo.store.entries.is_empty());
}

#[test]
fn failing_transaction_hook_prevents_the_commit() {
    let mut repo = basic_repo();
    repo.git_mapping.outcome = Ok(Some(TransactionHook {
        label: "git-mapping".to_string(),
        succeeds: false,
    }));
    let mut ctx = ctx();
    let op = CreateBookmarkOp::new(key("main"), cs(1), BookmarkUpdateReason::Push, None);
    let r = op.run(&mut ctx, &allowed(), &mut repo, &no_hooks());
    match r {
        Err(BookmarkMovementError::TransactionHookFailure { label }) => {
            assert_eq!(label, "git-mapping");
        },
        other => panic!("expected TransactionHookFailure, got {:?}", other),
    }
    assert!(repo.store.entries.is_empty());
    assert!(repo.scribe.records.is_empty());
}

#[test]
fn sink_failure_after_commit_is_swallowed() {
    let mut repo = basic_repo();
    repo.scribe.fail = true;
    let mut ctx = ctx();
    let op = CreateBookmarkOp::new(key("main"), cs(1), BookmarkUpdateReason::Push, None);
    let r = op.run(&mut ctx, &allowed(), &mut repo, &no_hooks());
    assert!(r.is_ok());
    assert!(repo.scribe.records.is_empty());
    assert_eq!(
        ctx.scuba,
        vec![LogEntry::CreatingPublicBookmark, LogEntry::ScribeForwardFailed]
    );
}

#[test]
fn successful_commit_forwards_the_audit_record() {
    let mut repo = basic_repo();
    let mut ctx = ctx();
    let op = CreateBookmarkOp::new(key("main"), cs(1), BookmarkUpdateReason::ApiRequest, None);
    let r = op.run(&mut ctx, &allowed(), &mut repo, &no_hooks());
    assert!(r.is_ok());
    assert_eq!(repo.scribe.records.len(), 1);
    let info = &repo.scribe.records[0].0;
    assert_eq!(info.bookmark_name.name, "main");
    assert_eq!(info.reason, BookmarkUpdateReason::ApiRequest);
}
