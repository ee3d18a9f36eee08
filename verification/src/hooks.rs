//! The hook pipeline interface.
//!
//! The hook engine itself is an outside collaborator: each hook's verdicts
//! are supplied as data (the changesets it rejects).  What is verified here
//! is the pipeline around those verdicts: which changesets are examined, and
//! when a bypass (commit-message token or pushvar) lets a rejection pass.

use vstd::prelude::*;

use crate::errors::BookmarkMovementError;
use crate::graph::CommitGraph;
use crate::ids::ChangesetId;
use crate::metaconfig::HookBypass;
use crate::pushvars::opt_pushvar_lookup;
use crate::pushvars::Pushvars;
use crate::strutil;

verus! {

/// One configured hook: its name, its optional bypass, and the changesets
/// it would reject (the engine's verdicts, supplied as data).
#[derive(Debug, Clone)]
pub struct Hook {
    /// The hook's name, reported on rejection.
    pub name: String,
    /// An optional way to bypass this hook.
    pub bypass: Option<HookBypass>,
    /// The changesets the hook rejects.
    pub rejects: Vec<ChangesetId>,
}

/// Whether a hook's bypass applies to a changeset with commit message
/// `message` under the given pushvars: either the configured token occurs
/// in the message, or the configured pushvar carries the expected value.
pub open spec fn hook_bypassed(
    hook: Hook,
    message: Seq<char>,
    pushvars: Option<Seq<(String, String)>>,
) -> bool {
    match hook.bypass {
        Some(bypass) => {
            ||| match bypass.commit_message_bypass_spec() {
                Some(token) => strutil::contains_seq(message, token@),
                None => false,
            }
            ||| match bypass.pushvar_bypass_spec() {
                Some((name, value)) => opt_pushvar_lookup(pushvars, name@) == Some(value@),
                None => false,
            }
        },
        None => false,
    }
}

/// Whether `hook` rejects `cs` and no bypass applies, with `cs`'s commit
/// message taken from the graph.
pub open spec fn hook_blocks(
    hook: Hook,
    graph: CommitGraph,
    cs: ChangesetId,
    pushvars: Option<Seq<(String, String)>>,
) -> bool {
    &&& hook.rejects@.contains(cs)
    &&& !hook_bypassed(hook, graph.nodes@[graph.idx_of(cs)].message@, pushvars)
}

/// The hook manager: the configured hooks, in evaluation order.
#[derive(Debug, Clone)]
pub struct HookManager {
    /// The configured hooks.
    pub hooks: Vec<Hook>,
}

impl HookManager {
    /// Package the configured hooks.
    pub fn new(hooks: Vec<Hook>) -> (r: HookManager)
        ensures
            r.hooks@ == hooks@,
    {
        HookManager { hooks }
    }

    /// Whether some configured hook blocks some of the given changesets.
    pub open spec fn some_hook_blocks(
        &self,
        graph: CommitGraph,
        changesets: Seq<ChangesetId>,
        pushvars: Option<Seq<(String, String)>>,
    ) -> bool {
        exists|c: int, h: int|
            0 <= c < changesets.len() && 0 <= h < self.hooks@.len() && hook_blocks(
                #[trigger] self.hooks@[h],
                graph,
                #[trigger] changesets[c],
                pushvars,
            )
    }

    /// Run the hooks against each of the given changesets.
    ///
    /// Returns `Ok` exactly when no hook rejects any of the changesets
    /// without an applicable bypass; otherwise reports a rejection naming
    /// the offending hook and changeset.
    #[verifier::loop_isolation(false)]
    pub fn run_hooks(
        &self,
        graph: &CommitGraph,
        changesets: &Vec<ChangesetId>,
        pushvars: Option<&Pushvars>,
    ) -> (r: Result<(), BookmarkMovementError>)
        requires
            graph.wf(),
            forall|c: int|
                0 <= c < changesets@.len() ==> graph.contains_id(#[trigger] changesets@[c]),
        ensures
            r is Ok <==> !self.some_hook_blocks(
                *graph,
                changesets@,
                match pushvars {
                    Some(pv) => Some(pv@),
                    None => None,
                },
            ),
            r matches Err(e) ==> e matches BookmarkMovementError::HookRejection {
                hook_name,
                changeset,
            } && changesets@.contains(changeset) && exists|h: int|
                0 <= h < self.hooks@.len() && (#[trigger] self.hooks@[h]).name@ == hook_name@
                    && hook_blocks(
                    self.hooks@[h],
                    *graph,
                    changeset,
                    match pushvars {
                        Some(pv) => Some(pv@),
                        None => None,
                    },
                ),
    {
        let ghost pv_spec: Option<Seq<(String, String)>> = match pushvars {
            Some(pv) => Some(pv@),
            None => None,
        };
        let mut c: usize = 0;
        while c < changesets.len()
            invariant
                0 <= c <= changesets@.len(),
                forall|cc: int, h: int|
                    0 <= cc < c && 0 <= h < self.hooks@.len() ==> !hook_blocks(
                        #[trigger] self.hooks@[h],
                        *graph,
                        #[trigger] changesets@[cc],
                        pv_spec,
                    ),
            decreases changesets@.len() - c,
        {
            let cs = changesets[c];
            let node_idx = match graph.find_index(cs) {
                Some(i) => i,
                None => {
                    // dead branch: every changeset handed in is in the graph
                    proof {
                        assert(false);
                    }
                    return Ok(());
                },
            };
            proof {
                let w = graph.idx_of(cs);
                assert(graph.nodes@[node_idx as int].id == cs);
                assert(0 <= w < graph.nodes@.len() && graph.nodes@[w].id == cs);
                assert(w == node_idx as int);
            }
            let mut h: usize = 0;
            while h < self.hooks.len()
                invariant
                    0 <= h <= self.hooks@.len(),
                    forall|hh: int|
                        0 <= hh < h ==> !hook_blocks(
                            #[trigger] self.hooks@[hh],
                            *graph,
                            changesets@[c as int],
                            pv_spec,
                        ),
                decreases self.hooks@.len() - h,
            {
                let hook = &self.hooks[h];
                if contains_changeset(&hook.rejects, cs) {
                    let message = &graph.nodes[node_idx].message;
                    let mut bypassed = false;
                    match &hook.bypass {
                        Some(bypass) => {
                            match bypass.commit_message_bypass() {
                                Some(token) => {
                                    if strutil::contains_substring(
                                        message.as_str(),
                                        token.as_str(),
                                    ) {
                                        bypassed = true;
                                    }
                                },
                                None => {},
                            }
                            if !bypassed {
                                match bypass.pushvar_bypass() {
                                    Some((name, value)) => {
                                        match pushvars {
                                            Some(pv) => {
                                                match crate::pushvars::get_pushvar(
                                                    pv,
                                                    name.as_str(),
                                                ) {
                                                    Some(actual) => {
                                                        if strutil::str_eq(
                                                            actual.as_str(),
                                                            value.as_str(),
                                                        ) {
                                                            bypassed = true;
                                                        }
                                                    },
                                                    None => {},
                                                }
                                            },
                                            None => {},
                                        }
                                    },
                                    None => {},
                                }
                            }
                        },
                        None => {},
                    }
                    proof {
                        assert(bypassed == hook_bypassed(
                            self.hooks@[h as int],
                            graph.nodes@[graph.idx_of(cs)].message@,
                            pv_spec,
                        ));
                    }
                    if !bypassed {
                        proof {
                            assert(hook_blocks(
                                self.hooks@[h as int],
                                *graph,
                                changesets@[c as int],
                                pv_spec,
                            ));
                        }
                        return Err(
                            BookmarkMovementError::HookRejection {
                                hook_name: hook.name.clone(),
                                changeset: cs,
                            },
                        );
                    }
                }
                h += 1;
            }
            c += 1;
        }
        Ok(())
    }
}

/// Whether `v` holds the changeset `cs`.
fn contains_changeset(v: &Vec<ChangesetId>, cs: ChangesetId) -> (r: bool)
    ensures
        r == v@.contains(cs),
{
    let mut i: usize = 0;
    while i < v.len()
        invariant
            0 <= i <= v@.len(),
            forall|k: int| 0 <= k < i ==> (#[trigger] v@[k]) != cs,
        decreases v@.len() - i,
    {
        if v[i] == cs {
            proof {
                assert(v@[i as int] == cs);
            }
            return true;
        }
        i += 1;
    }
    proof {
        if v@.contains(cs) {
            let w = choose|w: int| 0 <= w < v@.len() && v@[w] == cs;
            assert(false);
        }
    }
    false
}


/// A correct bypass lets the movement proceed: when the hook's configured
/// pushvar carries exactly the expected value, or its configured token
/// occurs in the changeset's commit message, the hook does not block the
/// changeset, whether or not it would reject it.
pub proof fn law_bypass_lets_movement_proceed(
    hook: Hook,
    graph: CommitGraph,
    cs: ChangesetId,
    pushvars: Option<Seq<(String, String)>>,
)
    requires
        ({
            let message = graph.nodes@[graph.idx_of(cs)].message@;
            match hook.bypass {
                Some(bypass) => {
                    ||| (bypass.commit_message_bypass_spec() matches Some(token)
                        && strutil::contains_seq(message, token@))
                    ||| (bypass.pushvar_bypass_spec() matches Some((name, value))
                        && opt_pushvar_lookup(pushvars, name@) == Some(value@))
                },
                None => false,
            }
        }),
    ensures
        !hook_blocks(hook, graph, cs, pushvars),
{
}

/// A missing or mismatched bypass leaves a rejection in force: a hook that
/// rejects the changeset, whose only bypass is a pushvar that the request
/// does not carry with the expected value, and whose token (if any) does
/// not occur in the commit message, blocks exactly that changeset.
pub proof fn law_mismatched_bypass_rejects(
    hook: Hook,
    graph: CommitGraph,
    cs: ChangesetId,
    pushvars: Option<Seq<(String, String)>>,
)
    requires
        hook.rejects@.contains(cs),
        ({
            let message = graph.nodes@[graph.idx_of(cs)].message@;
            match hook.bypass {
                Some(bypass) => {
                    &&& match bypass.commit_message_bypass_spec() {
                        Some(token) => !strutil::contains_seq(message, token@),
                        None => true,
                    }
                    &&& match bypass.pushvar_bypass_spec() {
                        Some((name, value)) => opt_pushvar_lookup(pushvars, name@) != Some(
                            value@,
                        ),
                        None => true,
                    }
                },
                None => true,
            }
        }),
    ensures
        hook_blocks(hook, graph, cs, pushvars),
{
}

} // verus!
