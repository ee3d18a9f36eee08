//! The repository as the pipeline sees it: its configuration, its commit
//! graph, its bookmark store, and the outside collaborators whose behaviour
//! for this request is supplied as data (with their calls counted).

use vstd::prelude::*;

use crate::bookmark_attrs::BookmarkAttrs;
use crate::errors::BookmarkMovementError;
use crate::graph::CommitGraph;
use crate::ids::BookmarkKey;
use crate::ids::ChangesetId;
use crate::metaconfig::InfinitepushParams;
use crate::metaconfig::RepoReadOnly;
use crate::repo_update_logger::ScribeSink;
use crate::store::BookmarkStore;
use crate::store::TransactionHook;

verus! {

/// Whether two optional transaction hooks carry the same label and
/// verdict.
pub open spec fn hook_opt_eqv(a: Option<TransactionHook>, b: Option<TransactionHook>) -> bool {
    match (a, b) {
        (Option::Some(x), Option::Some(y)) => x.label@ == y.label@ && x.succeeds == y.succeeds,
        (Option::None, Option::None) => true,
        _ => false,
    }
}

/// The git-mapping populator, an outside collaborator: what it will
/// produce for this request is supplied as data, and its calls are
/// counted.
#[derive(Debug)]
pub struct GitMappingService {
    /// How many times the collaborator was called.
    pub calls: u64,
    /// What the collaborator produces when called: a transaction hook to
    /// stage, nothing, or a failure message.
    pub outcome: Result<Option<TransactionHook>, String>,
}

impl GitMappingService {
    /// A service that produces nothing.
    pub fn new() -> (r: GitMappingService)
        ensures
            r.calls == 0,
            r.outcome matches Ok(h) && h is None,
    {
        GitMappingService { calls: 0, outcome: Ok(None) }
    }

    /// Ask the collaborator for the transaction hook that populates the
    /// git mapping for `target`.  A failure here is fatal to the movement.
    pub fn populate_git_mapping_txn_hook(
        &mut self,
        _target: ChangesetId,
        _new_changesets: &Vec<ChangesetId>,
    ) -> (r: Result<Option<TransactionHook>, BookmarkMovementError>)
        requires
            old(self).calls < u64::MAX,
        ensures
            final(self).calls == old(self).calls + 1,
            final(self).outcome == old(self).outcome,
            match old(self).outcome {
                Ok(h) => r matches Ok(h2) && hook_opt_eqv(h2, h),
                Err(m) => r matches Err(e) && e matches BookmarkMovementError::GitMappingFailure {
                    message,
                } && message@ == m@,
            },
    {
        self.calls = self.calls + 1;
        match &self.outcome {
            Ok(Some(h)) => Ok(Some(TransactionHook { label: h.label.clone(), succeeds: h.succeeds })),
            Ok(None) => Ok(None),
            Err(m) => Err(BookmarkMovementError::GitMappingFailure { message: m.clone() }),
        }
    }
}

/// The draft-ancestor scanner, an outside collaborator over the commit
/// graph: it may fail (the failure message is supplied as data), and its
/// calls are counted.  When it succeeds it returns exactly the draft
/// ancestors of the target.
#[derive(Debug, Clone)]
pub struct DraftScanService {
    /// How many times the collaborator was called.
    pub calls: u64,
    /// When set, the scan fails with this message.
    pub fail: Option<String>,
}

impl DraftScanService {
    /// A scanner that succeeds.
    pub fn new() -> (r: DraftScanService)
        ensures
            r.calls == 0,
            r.fail is None,
    {
        DraftScanService { calls: 0, fail: None }
    }

    /// Scan for the draft ancestors of `target` (itself included when
    /// draft).
    pub fn find_draft_ancestors(&mut self, graph: &CommitGraph, target: ChangesetId) -> (r: Result<
        Vec<ChangesetId>,
        String,
    >)
        requires
            old(self).calls < u64::MAX,
            graph.wf(),
            graph.contains_id(target),
        ensures
            final(self).calls == old(self).calls + 1,
            final(self).fail == old(self).fail,
            old(self).fail matches Some(m) ==> r matches Err(m2) && m2@ == m@,
            old(self).fail is None ==> (r matches Ok(v) && {
                &&& forall|x: ChangesetId|
                    #[trigger] v@.contains(x) <==> exists|j: int|
                        graph.is_draft_ancestor_idx(graph.idx_of(target), j) && (
                        #[trigger] graph.nodes@[j].id) == x
                &&& forall|k1: int, k2: int| 0 <= k1 < k2 < v@.len() ==> v@[k1] != v@[k2]
                &&& v@.len() == graph.draft_ancestor_count(graph.idx_of(target))
            }),
    {
        self.calls = self.calls + 1;
        match &self.fail {
            Some(m) => Err(m.clone()),
            None => Ok(graph.draft_ancestors(target)),
        }
    }
}

/// The repository a movement request runs against.
#[derive(Debug)]
pub struct Repo {
    /// Scratch-push configuration; its namespace decides which bookmark
    /// names are scratch.
    pub infinitepush: InfinitepushParams,
    /// Whether the repository is administratively read-only.
    pub readonly: RepoReadOnly,
    /// Bookmarks managed by a cross-repo synchronization pipeline; this
    /// engine may not create or move them.
    pub sync_managed_bookmarks: Vec<BookmarkKey>,
    /// Per-bookmark attributes, among them ensure-ancestor-of
    /// restrictions.
    pub bookmark_attrs: BookmarkAttrs,
    /// The commit graph.
    pub graph: CommitGraph,
    /// The bookmark store.
    pub store: BookmarkStore,
    /// The git-mapping populator.
    pub git_mapping: GitMappingService,
    /// The draft-ancestor scanner.
    pub draft_scan: DraftScanService,
    /// The audit/analytics sink.
    pub scribe: ScribeSink,
}

impl Repo {
    /// Well-formedness of the parts a movement relies on.
    pub open spec fn wf(&self) -> bool {
        &&& self.infinitepush.wf()
        &&& self.bookmark_attrs.wf()
        &&& self.graph.wf()
        &&& self.store.wf()
    }

    /// Whether the bookmark name lies inside the scratch namespace.
    pub open spec fn is_scratch_name(&self, name: Seq<char>) -> bool {
        match self.infinitepush.namespace {
            Some(ns) => ns.matches_spec(name),
            None => false,
        }
    }
}

} // verus!
