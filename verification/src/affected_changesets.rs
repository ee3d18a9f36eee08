//! The affected-changeset validator: computes the bounded set of
//! changesets a movement touches and runs the hook pipeline against them.
//!
//! Scratch bookmarks bypass durable-history hook requirements entirely.
//! For publishing bookmarks the set is the draft ancestors of the target
//! (changesets already public were validated when they became public and
//! are not re-validated); exceeding the configured traversal cap is a hard
//! failure, never a silent truncation.

use vstd::prelude::*;

use crate::errors::BookmarkMovementError;
use crate::graph::CommitGraph;
use crate::hooks::hook_blocks;
use crate::hooks::HookManager;
use crate::ids::BookmarkKind;
use crate::ids::ChangesetId;
use crate::pushvars::Pushvars;
use crate::repo::Repo;

verus! {

/// Which changesets, beyond those supplied by the caller, a movement
/// affects.
#[derive(Debug, Clone, Copy, PartialEq, Eq, Structural)]
pub enum AdditionalChangesets {
    /// Only the caller-supplied changesets are affected.
    NoAdditional,
    /// All draft ancestors of the given changeset are affected.
    Ancestors(ChangesetId),
}

/// Whether some configured hook blocks some draft ancestor of the node at
/// index `t`.
pub open spec fn some_hook_blocks_draft(
    hook_manager: &HookManager,
    graph: CommitGraph,
    t: int,
    pushvars: Option<Seq<(String, String)>>,
) -> bool {
    exists|j: int, h: int|
        0 <= h < hook_manager.hooks@.len() && graph.is_draft_ancestor_idx(t, j) && hook_blocks(
            #[trigger] hook_manager.hooks@[h],
            graph,
            (#[trigger] graph.nodes@[j]).id,
            pushvars,
        )
}

/// The working set of changesets affected by a movement: any newly-added
/// changesets supplied by the caller, and an optional cap on how many
/// changesets the ancestry traversal may produce.
#[derive(Debug, Clone)]
pub struct AffectedChangesets {
    new_changesets: Vec<ChangesetId>,
    limit: Option<usize>,
}

impl AffectedChangesets {
    /// The caller-supplied changesets, as an abstract sequence.
    pub closed spec fn new_changesets_spec(&self) -> Seq<ChangesetId> {
        self.new_changesets@
    }

    /// The traversal cap, as an abstract value.
    pub closed spec fn limit_spec(&self) -> Option<usize> {
        self.limit
    }

    /// An empty working set with the given traversal cap; `None` means
    /// unbounded.
    pub fn with_limit(limit: Option<usize>) -> (r: Self)
        ensures
            r.new_changesets_spec().len() == 0,
            r.limit_spec() == limit,
    {
        AffectedChangesets { new_changesets: Vec::new(), limit }
    }

    /// Add changesets that have just been added to the repository, so
    /// hooks can inspect them without re-fetching from storage.
    pub fn add_new_changesets(&mut self, mut changesets: Vec<ChangesetId>)
        ensures
            final(self).new_changesets_spec() == old(self).new_changesets_spec()
                + changesets@,
            final(self).limit_spec() == old(self).limit_spec(),
    {
        self.new_changesets.append(&mut changesets);
    }

    /// The caller-supplied changesets.
    pub fn new_changesets(&self) -> (r: &Vec<ChangesetId>)
        ensures
            r@ == self.new_changesets_spec(),
    {
        &self.new_changesets
    }

    /// Compute the affected changesets and run the hook pipeline against
    /// them.
    ///
    /// Scratch movements pass without validation.  For publishing
    /// movements with ancestry traversal, the draft ancestors of the
    /// target are computed; if their number exceeds the configured cap the
    /// movement fails with a limit error, otherwise every hook runs
    /// against every affected changeset, honoring bypasses.
    pub fn check_restrictions(
        &self,
        repo: &Repo,
        hook_manager: &HookManager,
        pushvars: Option<&Pushvars>,
        kind: BookmarkKind,
        additional_changesets: AdditionalChangesets,
    ) -> (r: Result<(), BookmarkMovementError>)
        requires
            repo.wf(),
            additional_changesets matches AdditionalChangesets::Ancestors(target)
                ==> repo.graph.contains_id(target),
            kind != BookmarkKind::Scratch && (additional_changesets
                matches AdditionalChangesets::NoAdditional) ==> forall|c: int|
                0 <= c < self.new_changesets_spec().len() ==> repo.graph.contains_id(
                    #[trigger] self.new_changesets_spec()[c],
                ),
        ensures
            ({
                let pv = match pushvars {
                    Some(p) => Some(p@),
                    None => None,
                };
                match kind {
                    BookmarkKind::Scratch => r is Ok,
                    _ => match additional_changesets {
                        AdditionalChangesets::Ancestors(target) => {
                            let t = repo.graph.idx_of(target);
                            let count = repo.graph.draft_ancestor_count(t);
                            if self.limit_spec() matches Some(l) && count > l {
                                r matches Err(BookmarkMovementError::LimitExceeded { limit })
                                    && limit == self.limit_spec().unwrap()
                            } else {
                                &&& r is Ok <==> !some_hook_blocks_draft(
                                    hook_manager,
                                    repo.graph,
                                    t,
                                    pv,
                                )
                                &&& r matches Err(e)
                                    ==> e matches BookmarkMovementError::HookRejection {
                                    hook_name,
                                    changeset,
                                } && (exists|j: int, h: int|
                                    0 <= h < hook_manager.hooks@.len()
                                        && repo.graph.is_draft_ancestor_idx(t, j) && (
                                    #[trigger] repo.graph.nodes@[j]).id == changeset && (
                                    #[trigger] hook_manager.hooks@[h]).name@ == hook_name@
                                        && hook_blocks(
                                        hook_manager.hooks@[h],
                                        repo.graph,
                                        changeset,
                                        pv,
                                    ))
                            }
                        },
                        AdditionalChangesets::NoAdditional => {
                            &&& r is Ok <==> !hook_manager.some_hook_blocks(
                                repo.graph,
                                self.new_changesets_spec(),
                                pv,
                            )
                            &&& r matches Err(e)
                                ==> e matches BookmarkMovementError::HookRejection {
                                hook_name,
                                changeset,
                            } && self.new_changesets_spec().contains(changeset) && (exists|h: int|
                                0 <= h < hook_manager.hooks@.len() && (
                                #[trigger] hook_manager.hooks@[h]).name@ == hook_name@
                                    && hook_blocks(
                                    hook_manager.hooks@[h],
                                    repo.graph,
                                    changeset,
                                    pv,
                                ))
                        },
                    },
                }
            }),
    {
        match kind {
            BookmarkKind::Scratch => Ok(()),
            BookmarkKind::Publishing | BookmarkKind::PullDefaultPublishing => {
                match additional_changesets {
                    AdditionalChangesets::Ancestors(target) => {
                        let affected = repo.graph.draft_ancestors(target);
                        match self.limit {
                            Some(l) => {
                                if affected.len() > l {
                                    return Err(BookmarkMovementError::LimitExceeded { limit: l });
                                }
                            },
                            None => {},
                        }
                        let ghost pv: Option<Seq<(String, String)>> = match pushvars {
                            Some(p) => Some(p@),
                            None => None,
                        };
                        let ghost t = repo.graph.idx_of(target);
                        proof {
                            assert forall|c: int|
                                0 <= c < affected@.len() implies repo.graph.contains_id(
                                #[trigger] affected@[c],
                            ) by {
                                assert(affected@.contains(affected@[c]));
                                let j = choose|j: int|
                                    repo.graph.is_draft_ancestor_idx(t, j) && (
                                    #[trigger] repo.graph.nodes@[j].id) == affected@[c];
                            }
                        }
                        let r = hook_manager.run_hooks(&repo.graph, &affected, pushvars);
                        proof {
                            if hook_manager.some_hook_blocks(repo.graph, affected@, pv) {
                                let (c, h) = choose|c: int, h: int|
                                    0 <= c < affected@.len() && 0 <= h
                                        < hook_manager.hooks@.len() && hook_blocks(
                                        #[trigger] hook_manager.hooks@[h],
                                        repo.graph,
                                        #[trigger] affected@[c],
                                        pv,
                                    );
                                assert(affected@.contains(affected@[c]));
                                let j = choose|j: int|
                                    repo.graph.is_draft_ancestor_idx(t, j) && (
                                    #[trigger] repo.graph.nodes@[j].id) == affected@[c];
                                assert(some_hook_blocks_draft(hook_manager, repo.graph, t, pv));
                            }
                            if some_hook_blocks_draft(hook_manager, repo.graph, t, pv) {
                                let (j, h) = choose|j: int, h: int|
                                    0 <= h < hook_manager.hooks@.len()
                                        && repo.graph.is_draft_ancestor_idx(t, j) && hook_blocks(
                                        #[trigger] hook_manager.hooks@[h],
                                        repo.graph,
                                        (#[trigger] repo.graph.nodes@[j]).id,
                                        pv,
                                    );
                                assert(affected@.contains(repo.graph.nodes@[j].id));
                                let c = choose|c: int|
                                    0 <= c < affected@.len() && affected@[c]
                                        == repo.graph.nodes@[j].id;
                                assert(hook_manager.some_hook_blocks(repo.graph, affected@, pv));
                            }
                            match &r {
                                Err(BookmarkMovementError::HookRejection {
                                    hook_name,
                                    changeset,
                                }) => {
                                    let changeset = *changeset;
                                    assert(affected@.contains(changeset));
                                    let j = choose|j: int|
                                        repo.graph.is_draft_ancestor_idx(t, j) && (
                                        #[trigger] repo.graph.nodes@[j].id) == changeset;
                                    let h = choose|h: int|
                                        0 <= h < hook_manager.hooks@.len() && (
                                        #[trigger] hook_manager.hooks@[h]).name@ == hook_name@
                                            && hook_blocks(
                                            hook_manager.hooks@[h],
                                            repo.graph,
                                            changeset,
                                            pv,
                                        );
                                    assert(0 <= h < hook_manager.hooks@.len()
                                        && repo.graph.is_draft_ancestor_idx(t, j)
                                        && repo.graph.nodes@[j].id == changeset
                                        && hook_manager.hooks@[h].name@ == hook_name@
                                        && hook_blocks(
                                        hook_manager.hooks@[h],
                                        repo.graph,
                                        changeset,
                                        pv,
                                    ));
                                },
                                Err(_) => {},
                                Ok(_) => {},
                            }
                        }
                        r
                    },
                    AdditionalChangesets::NoAdditional => {
                        proof {
                            assert(kind != BookmarkKind::Scratch);
                            assert forall|c: int|
                                0 <= c < self.new_changesets@.len() implies repo.graph.contains_id(
                                #[trigger] self.new_changesets@[c],
                            ) by {
                                assert(self.new_changesets@[c] == self.new_changesets_spec()[c]);
                            }
                        }
                        hook_manager.run_hooks(&repo.graph, &self.new_changesets, pushvars)
                    },
                }
            },
        }
    }
}

} // verus!
