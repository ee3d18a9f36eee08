//! Repository paths and prefix sets, modelled as plain component lists.

use vstd::prelude::*;

verus! {

/// A non-empty path inside the repository, as a list of name components.
#[derive(Debug, Clone)]
pub struct MPath {
    pub components: Vec<String>,
}

impl MPath {
    /// The path's components as abstract strings.
    pub open spec fn view_components(&self) -> Seq<Seq<char>> {
        self.components.deep_view()
    }

    /// A path must have at least one component.
    pub open spec fn wf(&self) -> bool {
        self.components.len() > 0
    }

    /// Make a path from its components.
    pub fn new(components: Vec<String>) -> (r: MPath)
        ensures
            r.components@ == components@,
    {
        MPath { components }
    }

    /// A copy of this path.
    pub fn duplicate(&self) -> (r: MPath)
        ensures
            r.view_components() == self.view_components(),
    {
        let mut components: Vec<String> = Vec::new();
        let mut i: usize = 0;
        while i < self.components.len()
            invariant
                0 <= i <= self.components.len(),
                components.len() == i,
                forall|k: int| 0 <= k < i ==> #[trigger] components@[k]@ == self.components@[k]@,
            decreases self.components.len() - i,
        {
            components.push(self.components[i].clone());
            i += 1;
        }
        proof {
            assert(components.deep_view() =~~= self.components.deep_view());
        }
        MPath { components }
    }
}

/// Whether `prefix` is a (non-strict) prefix of `path`, component-wise.
pub open spec fn is_path_prefix(prefix: Seq<Seq<char>>, path: Seq<Seq<char>>) -> bool {
    prefix.len() <= path.len() && prefix =~= path.take(prefix.len() as int)
}

/// Whether the components of `prefix` all appear, in order, at the start of
/// `path`.
fn path_starts_with(path: &MPath, prefix: &MPath) -> (r: bool)
    ensures
        r == is_path_prefix(prefix.view_components(), path.view_components()),
{
    if prefix.components.len() > path.components.len() {
        return false;
    }
    let mut i: usize = 0;
    while i < prefix.components.len()
        invariant
            prefix.components.len() <= path.components.len(),
            0 <= i <= prefix.components.len(),
            forall|k: int|
                0 <= k < i ==> prefix.view_components()[k] == path.view_components()[k],
        decreases prefix.components.len() - i,
    {
        if !crate::strutil::str_eq(prefix.components[i].as_str(), path.components[i].as_str()) {
            proof {
                let pre = prefix.view_components();
                let full = path.view_components();
                assert(pre[i as int] != full.take(pre.len() as int)[i as int]);
            }
            return false;
        }
        i += 1;
    }
    proof {
        let pre = prefix.view_components();
        let full = path.view_components();
        assert forall|k: int| 0 <= k < pre.len() implies pre[k] == full.take(
            pre.len() as int,
        )[k] by {}
        assert(pre =~= full.take(pre.len() as int));
    }
    true
}

/// A set of path prefixes used to grant permission on file paths.
///
/// The set either contains everything, or is given by an explicit list of
/// prefixes: a path is covered when some listed prefix is a prefix of it.
#[derive(Debug, Clone, Default)]
pub struct PrefixTrie {
    /// When set, every path is covered.
    pub include_all: bool,
    /// The covering prefixes.
    pub prefixes: Vec<MPath>,
}

impl PrefixTrie {
    /// Whether `path` is covered by this prefix set.
    pub open spec fn covers(&self, path: Seq<Seq<char>>) -> bool {
        self.include_all || exists|k: int|
            0 <= k < self.prefixes@.len() && is_path_prefix(
                #[trigger] self.prefixes@[k].view_components(),
                path,
            )
    }

    /// Whether this prefix set covers every path.
    pub fn contains_everything(&self) -> (r: bool)
        ensures
            r == self.include_all,
    {
        self.include_all
    }

    /// Whether some stored prefix is a prefix of `path`.
    pub fn contains_prefix(&self, path: &MPath) -> (r: bool)
        ensures
            r == self.covers(path.view_components()),
    {
        if self.include_all {
            return true;
        }
        let mut k: usize = 0;
        while k < self.prefixes.len()
            invariant
                0 <= k <= self.prefixes.len(),
                forall|j: int|
                    0 <= j < k ==> !is_path_prefix(
                        #[trigger] self.prefixes@[j].view_components(),
                        path.view_components(),
                    ),
            decreases self.prefixes.len() - k,
        {
            if path_starts_with(path, &self.prefixes[k]) {
                return true;
            }
            k += 1;
        }
        false
    }
}

} // verus!
