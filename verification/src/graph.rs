//! A model of the content-addressed commit graph: immutable changesets with
//! parent edges, each either draft or public.
//!
//! Nodes are held in topological order (every parent precedes its
//! children), which makes ancestry well-founded: reachability is defined by
//! recursion on the index, and the ancestor scan is a single downward sweep
//! proved to mark exactly the reachable nodes.

use vstd::prelude::*;

use crate::ids::ChangesetId;

verus! {

/// Whether a changeset is part of publishing history yet.
#[derive(Debug, Clone, Copy, PartialEq, Eq, Structural)]
pub enum Phase {
    /// Not yet part of any publishing history.
    Draft,
    /// Reachable from a publishing bookmark.
    Public,
}

/// One changeset: its id, its parents, its phase, and its commit message.
#[derive(Debug, Clone)]
pub struct ChangesetNode {
    /// The changeset's content hash.
    pub id: ChangesetId,
    /// The ids of the changeset's parents.
    pub parents: Vec<ChangesetId>,
    /// Whether the changeset is draft or public.
    pub phase: Phase,
    /// The commit message; hook bypass tokens are searched in it.
    pub message: String,
}

/// The commit graph, in topological order: parents precede children.
#[derive(Debug, Clone)]
pub struct CommitGraph {
    /// The changesets, every parent at a smaller index than its children.
    pub nodes: Vec<ChangesetNode>,
}

impl CommitGraph {
    /// Whether node `j` is a parent of node `i`.
    pub open spec fn parent_edge(&self, i: int, j: int) -> bool {
        &&& 0 <= i < self.nodes@.len()
        &&& 0 <= j < self.nodes@.len()
        &&& self.nodes@[i].parents@.contains(self.nodes@[j].id)
    }

    /// Well-formedness: ids are distinct, and every parent of a node
    /// appears in the graph at a smaller index.
    pub open spec fn wf(&self) -> bool {
        &&& forall|i: int, j: int|
            0 <= i < self.nodes@.len() && 0 <= j < self.nodes@.len() && i != j
                ==> (#[trigger] self.nodes@[i].id) != (#[trigger] self.nodes@[j].id)
        &&& forall|i: int, k: int|
            0 <= i < self.nodes@.len() && 0 <= k < self.nodes@[i].parents@.len()
                ==> exists|j: int|
                0 <= j < i && (#[trigger] self.nodes@[j].id) == (
                #[trigger] self.nodes@[i].parents@[k])
    }

    /// Whether the node at index `to` is reachable from the node at index
    /// `from` by following parent edges (every node reaches itself).
    pub open spec fn reaches(&self, from: int, to: int) -> bool
        decreases from,
    {
        if from == to {
            true
        } else {
            exists|k: int| 0 <= k < from && #[trigger] self.parent_edge(from, k) && self.reaches(k, to)
        }
    }

    /// Whether the graph holds a changeset with the given id.
    pub open spec fn contains_id(&self, id: ChangesetId) -> bool {
        exists|i: int| 0 <= i < self.nodes@.len() && (#[trigger] self.nodes@[i].id) == id
    }

    /// The index of the changeset with the given id.
    pub open spec fn idx_of(&self, id: ChangesetId) -> int {
        choose|i: int| 0 <= i < self.nodes@.len() && (#[trigger] self.nodes@[i].id) == id
    }

    /// Whether `anc` is an ancestor of `desc` (or the same changeset).
    pub open spec fn is_ancestor_spec(&self, anc: ChangesetId, desc: ChangesetId) -> bool {
        &&& self.contains_id(anc)
        &&& self.contains_id(desc)
        &&& self.reaches(self.idx_of(desc), self.idx_of(anc))
    }

    /// Whether the node at index `j` is a draft ancestor of the node at
    /// index `t`.
    pub open spec fn is_draft_ancestor_idx(&self, t: int, j: int) -> bool {
        &&& 0 <= j < self.nodes@.len()
        &&& self.reaches(t, j)
        &&& self.nodes@[j].phase == Phase::Draft
    }

    /// Reachability only runs toward smaller indices.
    pub proof fn lemma_reaches_le(&self, from: int, to: int)
        requires
            self.reaches(from, to),
        ensures
            to <= from,
        decreases from,
    {
        if from != to {
            let k = choose|k: int|
                0 <= k < from && #[trigger] self.parent_edge(from, k) && self.reaches(k, to);
            self.lemma_reaches_le(k, to);
        }
    }

    /// Extending a reachable node by one parent edge stays reachable.
    pub proof fn lemma_step_down(&self, t: int, m: int, j: int)
        requires
            self.reaches(t, m),
            self.parent_edge(m, j),
            0 <= j < m,
        ensures
            self.reaches(t, j),
        decreases t,
    {
        if t == m {
            assert(self.parent_edge(t, j) && self.reaches(j, j));
        } else {
            let k = choose|k: int|
                0 <= k < t && #[trigger] self.parent_edge(t, k) && self.reaches(k, m);
            self.lemma_step_down(k, m, j);
            assert(self.parent_edge(t, k) && self.reaches(k, j));
        }
    }

    /// A strictly reachable node is a parent of some reachable node above
    /// it: the last step of a path can be split off.
    pub proof fn lemma_last_step(&self, t: int, j: int)
        requires
            self.reaches(t, j),
            t != j,
        ensures
            exists|m: int|
                j < m <= t && #[trigger] self.parent_edge(m, j) && self.reaches(t, m),
        decreases t,
    {
        let k = choose|k: int|
            0 <= k < t && #[trigger] self.parent_edge(t, k) && self.reaches(k, j);
        if k == j {
            assert(self.parent_edge(t, j) && self.reaches(t, t));
        } else {
            self.lemma_last_step(k, j);
            let m = choose|m: int|
                j < m <= k && #[trigger] self.parent_edge(m, j) && self.reaches(k, m);
            assert(self.parent_edge(t, k) && self.reaches(k, m));
            assert(self.reaches(t, m));
            assert(self.parent_edge(m, j) && j < m <= t);
        }
    }

    /// How many of the nodes at indices below `j` are draft ancestors of
    /// the node at index `t`.
    pub open spec fn count_draft_up_to(&self, t: int, j: int) -> int
        decreases j,
    {
        if j <= 0 {
            0
        } else {
            self.count_draft_up_to(t, j - 1) + if self.is_draft_ancestor_idx(t, j - 1) {
                1int
            } else {
                0int
            }
        }
    }

    /// How many draft ancestors the node at index `t` has (itself included
    /// when draft).
    pub open spec fn draft_ancestor_count(&self, t: int) -> int {
        self.count_draft_up_to(t, self.nodes@.len() as int)
    }

    /// The index of the changeset with the given id, or `None` if the id
    /// is not in the graph.
    pub fn find_index(&self, id: ChangesetId) -> (r: Option<usize>)
        ensures
            match r {
                Some(i) => i < self.nodes@.len() && self.nodes@[i as int].id == id,
                None => !self.contains_id(id),
            },
    {
        let mut i: usize = 0;
        while i < self.nodes.len()
            invariant
                0 <= i <= self.nodes@.len(),
                forall|k: int| 0 <= k < i ==> (#[trigger] self.nodes@[k].id) != id,
            decreases self.nodes@.len() - i,
        {
            if self.nodes[i].id == id {
                return Some(i);
            }
            i += 1;
        }
        None
    }

    /// Mark every node reachable from the node at index `t`.
    ///
    /// The result holds, for every index, whether that node is an ancestor
    /// of the node at `t`.
    pub fn reachable_marks(&self, t: usize) -> (mark: Vec<bool>)
        requires
            self.wf(),
            t < self.nodes@.len(),
        ensures
            mark@.len() == self.nodes@.len(),
            forall|j: int| 0 <= j < mark@.len() ==> mark@[j] == self.reaches(t as int, j),
    {
        let n = self.nodes.len();
        let mut mark: Vec<bool> = Vec::new();
        let mut z: usize = 0;
        while z < n
            invariant
                0 <= z <= n,
                mark@.len() == z,
                forall|j: int| 0 <= j < z ==> !mark@[j],
            decreases n - z,
        {
            mark.push(false);
            z += 1;
        }
        mark.set(t, true);
        let mut i: usize = t + 1;
        while i > 0
            invariant
                self.wf(),
                t < n,
                n == self.nodes@.len(),
                mark@.len() == n,
                0 <= i <= t + 1,
                forall|j: int| i <= j <= t ==> mark@[j] == self.reaches(t as int, j),
                forall|j: int| t < j < n ==> !mark@[j],
                forall|j: int|
                    0 <= j < i && j <= t ==> mark@[j] == (j == t as int || exists|m: int|
                        i <= m <= t && self.reaches(t as int, m) && #[trigger] self.parent_edge(
                            m,
                            j,
                        )),
            decreases i,
        {
            i -= 1;
            proof {
                // mark[i] currently says: i == t, or some processed node
                // above i is a reachable node with i as parent.  Show that
                // this is exactly reachability of i from t.
                if mark@[i as int] {
                    if i != t {
                        let m = choose|m: int|
                            i + 1 <= m <= t && self.reaches(t as int, m)
                                && #[trigger] self.parent_edge(m, i as int);
                        self.lemma_step_down(t as int, m, i as int);
                    }
                    assert(self.reaches(t as int, i as int));
                } else {
                    if self.reaches(t as int, i as int) && i != t {
                        self.lemma_last_step(t as int, i as int);
                        let m = choose|m: int|
                            i < m <= t && #[trigger] self.parent_edge(m, i as int)
                                && self.reaches(t as int, m);
                        assert(mark@[i as int]);
                    }
                    assert(!self.reaches(t as int, i as int));
                }
            }
            if mark[i] {
                let ghost pre_loop_mark = mark@;
                let num_parents = self.nodes[i].parents.len();
                let mut p: usize = 0;
                while p < num_parents
                    invariant
                        self.wf(),
                        t < n,
                        n == self.nodes@.len(),
                        mark@.len() == n,
                        i <= t,
                        num_parents == self.nodes@[i as int].parents@.len(),
                        self.reaches(t as int, i as int),
                        0 <= p <= num_parents,
                        forall|j: int| i <= j < n ==> mark@[j] == pre_loop_mark[j],
                        forall|j: int| 0 <= j < i && pre_loop_mark[j] ==> mark@[j],
                        forall|j: int|
                            0 <= j < i && mark@[j] ==> pre_loop_mark[j] || self.parent_edge(
                                i as int,
                                j,
                            ),
                        forall|j: int, k: int|
                            0 <= j < i && 0 <= k < p && (
                            #[trigger] self.nodes@[i as int].parents@[k]) == (
                            #[trigger] self.nodes@[j].id) ==> mark@[j],
                    decreases num_parents - p,
                {
                    let pid = self.nodes[i].parents[p];
                    match self.find_index(pid) {
                        Some(j) => {
                            proof {
                                // well-formedness puts every parent at a
                                // smaller index, and ids are distinct, so
                                // the found index is below i.
                                let jw = choose|jw: int|
                                    0 <= jw < i && (#[trigger] self.nodes@[jw].id)
                                        == self.nodes@[i as int].parents@[p as int];
                                assert(self.nodes@[jw].id == self.nodes@[j as int].id);
                                assert(jw == j as int);
                            }
                            mark.set(j, true);
                            proof {
                                assert(self.nodes@[i as int].parents@.contains(
                                    self.nodes@[j as int].id,
                                ));
                                assert(self.parent_edge(i as int, j as int));
                                assert forall|jj: int, k: int|
                                    0 <= jj < i && 0 <= k < p + 1 && (
                                    #[trigger] self.nodes@[i as int].parents@[k]) == (
                                    #[trigger] self.nodes@[jj].id) implies mark@[jj] by {
                                    if k == p as int {
                                        assert(self.nodes@[jj].id == self.nodes@[j as int].id);
                                        assert(jj == j as int);
                                    }
                                }
                            }
                        },
                        None => {
                            proof {
                                let jw = choose|jw: int|
                                    0 <= jw < i && (#[trigger] self.nodes@[jw].id)
                                        == self.nodes@[i as int].parents@[p as int];
                                assert(self.contains_id(pid));
                                assert(false);
                            }
                        },
                    }
                    p += 1;
                }
                proof {
                    assert forall|j: int| t < j < n implies !mark@[j] by {
                        assert(i <= j);
                        assert(mark@[j] == pre_loop_mark[j]);
                        assert(!pre_loop_mark[j]);
                    }
                    // after the sweep over the parents, a node below i is
                    // marked exactly when it was marked before or is a
                    // parent of i; fold that into the outer invariant.
                    assert forall|j: int| 0 <= j < i && j <= t implies mark@[j] == (
                    j == t as int || exists|m: int|
                        i <= m <= t && self.reaches(t as int, m) && #[trigger] self.parent_edge(
                            m,
                            j,
                        )) by {
                        if mark@[j] {
                            if pre_loop_mark[j] {
                                let m = choose|m: int|
                                    i + 1 <= m <= t && self.reaches(t as int, m)
                                        && #[trigger] self.parent_edge(m, j);
                                assert(i <= m <= t && self.reaches(t as int, m)
                                    && self.parent_edge(m, j));
                            } else {
                                assert(self.parent_edge(i as int, j));
                                assert(self.reaches(t as int, i as int));
                            }
                        } else {
                            assert(!pre_loop_mark[j]);
                            if exists|m: int|
                                i <= m <= t && self.reaches(t as int, m)
                                    && #[trigger] self.parent_edge(m, j) {
                                let m = choose|m: int|
                                    i <= m <= t && self.reaches(t as int, m)
                                        && #[trigger] self.parent_edge(m, j);
                                if m == i as int {
                                    let k = choose|k: int|
                                        0 <= k < self.nodes@[i as int].parents@.len()
                                            && self.nodes@[i as int].parents@[k]
                                            == self.nodes@[j].id;
                                    assert(mark@[j]);
                                } else {
                                    assert(i + 1 <= m <= t);
                                    assert(pre_loop_mark[j]);
                                    assert(mark@[j]);
                                }
                                assert(false);
                            }
                        }
                    }
                }
            }
        }
        proof {
            assert forall|j: int| 0 <= j < n implies mark@[j] == self.reaches(t as int, j) by {
                if j > t {
                    if self.reaches(t as int, j) {
                        self.lemma_reaches_le(t as int, j);
                    }
                }
            }
        }
        mark
    }

    /// Whether the changeset `anc` is an ancestor of the changeset `desc`.
    /// A changeset absent from the graph is no ancestor of anything.
    pub fn is_ancestor(&self, anc: ChangesetId, desc: ChangesetId) -> (r: bool)
        requires
            self.wf(),
        ensures
            r == self.is_ancestor_spec(anc, desc),
    {
        let anc_idx = match self.find_index(anc) {
            Some(i) => i,
            None => {
                return false;
            },
        };
        let desc_idx = match self.find_index(desc) {
            Some(i) => i,
            None => {
                return false;
            },
        };
        proof {
            let ia = self.idx_of(anc);
            let id = self.idx_of(desc);
            assert(self.nodes@[anc_idx as int].id == anc);
            assert(self.nodes@[desc_idx as int].id == desc);
            assert(0 <= ia < self.nodes@.len() && self.nodes@[ia].id == anc);
            assert(0 <= id < self.nodes@.len() && self.nodes@[id].id == desc);
            assert(ia == anc_idx as int);
            assert(id == desc_idx as int);
        }
        let mark = self.reachable_marks(desc_idx);
        mark[anc_idx]
    }

    /// All draft ancestors of the given changeset (itself included when
    /// draft), oldest first, each exactly once.
    pub fn draft_ancestors(&self, target: ChangesetId) -> (r: Vec<ChangesetId>)
        requires
            self.wf(),
            self.contains_id(target),
        ensures
            forall|x: ChangesetId|
                #[trigger] r@.contains(x) <==> exists|j: int|
                    self.is_draft_ancestor_idx(self.idx_of(target), j)
                        && (#[trigger] self.nodes@[j].id) == x,
            forall|k1: int, k2: int| 0 <= k1 < k2 < r@.len() ==> r@[k1] != r@[k2],
            r@.len() == self.draft_ancestor_count(self.idx_of(target)),
    {
        let t = match self.find_index(target) {
            Some(i) => i,
            None => {
                // dead branch: the precondition has the target in the graph
                proof {
                    assert(false);
                }
                return Vec::new();
            },
        };
        proof {
            let it = self.idx_of(target);
            assert(self.nodes@[t as int].id == target);
            assert(0 <= it < self.nodes@.len() && self.nodes@[it].id == target);
            assert(it == t as int);
        }
        let mark = self.reachable_marks(t);
        let mut r: Vec<ChangesetId> = Vec::new();
        let mut j: usize = 0;
        while j < self.nodes.len()
            invariant
                self.wf(),
                t < self.nodes@.len(),
                t as int == self.idx_of(target),
                mark@.len() == self.nodes@.len(),
                forall|m: int| 0 <= m < mark@.len() ==> mark@[m] == self.reaches(t as int, m),
                0 <= j <= self.nodes@.len(),
                forall|x: ChangesetId|
                    #[trigger] r@.contains(x) <==> exists|m: int|
                        m < j && self.is_draft_ancestor_idx(t as int, m)
                            && (#[trigger] self.nodes@[m].id) == x,
                forall|k1: int, k2: int| 0 <= k1 < k2 < r@.len() ==> r@[k1] != r@[k2],
                r@.len() == self.count_draft_up_to(t as int, j as int),
            decreases self.nodes@.len() - j,
        {
            let is_draft = matches!(self.nodes[j].phase, Phase::Draft);
            if mark[j] && is_draft {
                let ghost old_r = r@;
                proof {
                    // the id cannot already be present: every present id
                    // comes from a smaller index, and ids are distinct.
                    if old_r.contains(self.nodes@[j as int].id) {
                        let m = choose|m: int|
                            m < j as int && self.is_draft_ancestor_idx(t as int, m) && (
                            #[trigger] self.nodes@[m].id) == self.nodes@[j as int].id;
                        assert(false);
                    }
                }
                r.push(self.nodes[j].id);
                proof {
                    assert forall|x: ChangesetId| #[trigger] r@.contains(x) implies exists|m: int|
                        m < j + 1 && self.is_draft_ancestor_idx(t as int, m)
                            && (#[trigger] self.nodes@[m].id) == x by {
                        let w = choose|w: int| 0 <= w < r@.len() && r@[w] == x;
                        if w < old_r.len() {
                            assert(old_r.contains(x));
                        } else {
                            assert(x == self.nodes@[j as int].id);
                            assert(self.is_draft_ancestor_idx(t as int, j as int));
                        }
                    }
                    assert forall|x: ChangesetId|
                        (exists|m: int|
                            m < j + 1 && self.is_draft_ancestor_idx(t as int, m)
                                && (#[trigger] self.nodes@[m].id) == x) implies r@.contains(
                        x,
                    ) by {
                        let m = choose|m: int|
                            m < j + 1 && self.is_draft_ancestor_idx(t as int, m) && (
                            #[trigger] self.nodes@[m].id) == x;
                        if m < j as int {
                            assert(old_r.contains(x));
                            let w = choose|w: int| 0 <= w < old_r.len() && old_r[w] == x;
                            assert(r@[w] == x);
                        } else {
                            assert(r@[r@.len() - 1] == x);
                        }
                    }
                }
            } else {
                proof {
                    assert forall|x: ChangesetId|
                        (exists|m: int|
                            m < j + 1 && self.is_draft_ancestor_idx(t as int, m)
                                && (#[trigger] self.nodes@[m].id) == x) implies r@.contains(
                        x,
                    ) by {
                        let m = choose|m: int|
                            m < j + 1 && self.is_draft_ancestor_idx(t as int, m) && (
                            #[trigger] self.nodes@[m].id) == x;
                        assert(m < j as int);
                    }
                }
            }
            j += 1;
        }
        r
    }

    /// The commit message of the given changeset, or `None` when the
    /// changeset is not in the graph.
    pub fn message_of(&self, id: ChangesetId) -> (r: Option<&String>)
        ensures
            match r {
                Some(m) => self.contains_id(id) && exists|i: int|
                    0 <= i < self.nodes@.len() && (#[trigger] self.nodes@[i].id) == id
                        && self.nodes@[i].message@ == m@,
                None => !self.contains_id(id),
            },
    {
        match self.find_index(id) {
            Some(i) => Some(&self.nodes[i].message),
            None => None,
        }
    }
}

} // verus!
