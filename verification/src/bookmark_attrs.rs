//! Per-bookmark attributes: which configured bookmark parameters apply to a
//! bookmark, and who is allowed to move it.

use vstd::prelude::*;

use crate::ids::BookmarkKey;
use crate::metaconfig::list_contains_str;
use crate::metaconfig::vec_contains_str;
use crate::metaconfig::BookmarkParams;
use crate::regexes;
use crate::strutil;

verus! {

/// The membership of one access-control group, supplied as data by the
/// authorization backend: the identities that are members.
#[derive(Debug, Clone)]
pub struct MembershipChecker {
    /// The member identities.
    pub members: Vec<String>,
}

impl MembershipChecker {
    /// Whether any of `identities` is a member of the group.
    pub open spec fn is_member_spec(&self, identities: Seq<String>) -> bool {
        exists|i: int|
            0 <= i < identities.len() && list_contains_str(
                self.members@,
                (#[trigger] identities[i])@,
            )
    }

    /// Whether any of the given identities is a member of the group.
    pub fn is_member(&self, identities: &Vec<String>) -> (r: bool)
        ensures
            r == self.is_member_spec(identities@),
    {
        let mut i: usize = 0;
        while i < identities.len()
            invariant
                0 <= i <= identities.len(),
                forall|k: int|
                    0 <= k < i ==> !list_contains_str(
                        self.members@,
                        (#[trigger] identities@[k])@,
                    ),
            decreases identities.len() - i,
        {
            if vec_contains_str(&self.members, identities[i].as_str()) {
                return true;
            }
            i += 1;
        }
        false
    }
}

/// Attributes for a single bookmark: its configured parameters and, when a
/// group restricts who may move it, that group's membership.
#[derive(Debug, Clone)]
pub struct SingleBookmarkAttr {
    params: BookmarkParams,
    membership: Option<MembershipChecker>,
}

impl SingleBookmarkAttr {
    /// The configured parameters, as an abstract value.
    pub closed spec fn params_spec(&self) -> BookmarkParams {
        self.params
    }

    /// The group membership, as an abstract value.
    pub closed spec fn membership_spec(&self) -> Option<MembershipChecker> {
        self.membership
    }

    /// A well-formed value holds compilable regexes.
    pub open spec fn wf(&self) -> bool {
        self.params_spec().wf()
    }

    /// Combine bookmark parameters with the membership of the restricting
    /// group, if one is configured.
    pub fn new(params: BookmarkParams, membership: Option<MembershipChecker>) -> (r: Self)
        ensures
            r.params_spec() == params,
            r.membership_spec() == membership,
    {
        SingleBookmarkAttr { params, membership }
    }

    /// Bookmark parameters from config.
    pub fn params(&self) -> (r: &BookmarkParams)
        ensures
            *r == self.params_spec(),
    {
        &self.params
    }

    /// Membership of the restricting group.
    pub fn membership(&self) -> (r: &Option<MembershipChecker>)
        ensures
            *r == self.membership_spec(),
    {
        &self.membership
    }

    /// Whether this attribute lets `user` (with the given identities) move
    /// the bookmark: the user matches the allowed-users pattern, or is a
    /// member of the allowed group; an attribute restricting neither allows
    /// everyone.
    pub open spec fn allows_user(&self, user: Seq<char>, identities: Seq<String>) -> bool {
        match (self.params_spec().allowed_users, self.membership_spec()) {
            (Some(re), Some(m)) => regexes::regex_matches(re.pattern_view(), user)
                || m.is_member_spec(identities),
            (Some(re), None) => regexes::regex_matches(re.pattern_view(), user),
            (None, Some(m)) => m.is_member_spec(identities),
            (None, None) => true,
        }
    }
}

/// Collection of all configured bookmark attributes.
#[derive(Debug, Clone)]
pub struct BookmarkAttrs {
    bookmark_attrs: Vec<SingleBookmarkAttr>,
}

impl BookmarkAttrs {
    /// The attributes, as an abstract sequence.
    pub closed spec fn attrs_spec(&self) -> Seq<SingleBookmarkAttr> {
        self.bookmark_attrs@
    }

    /// A well-formed collection holds only well-formed attributes.
    pub open spec fn wf(&self) -> bool {
        forall|i: int| 0 <= i < self.attrs_spec().len() ==> (#[trigger] self.attrs_spec()[i]).wf()
    }

    /// Whether the attribute at index `i` applies to `bookmark`.
    pub open spec fn selects(&self, i: int, bookmark: Seq<char>) -> bool {
        self.attrs_spec()[i].params_spec().bookmark.matches_spec(bookmark)
    }

    /// Create bookmark attributes from a vector of per-bookmark attributes.
    pub fn new(bookmark_attrs: Vec<SingleBookmarkAttr>) -> (r: Self)
        ensures
            r.attrs_spec() == bookmark_attrs@,
    {
        BookmarkAttrs { bookmark_attrs }
    }

    /// The attributes, in configuration order.
    pub fn attrs_vec(&self) -> (r: &Vec<SingleBookmarkAttr>)
        ensures
            r@ == self.attrs_spec(),
    {
        &self.bookmark_attrs
    }

    /// Indices of the attributes matching the provided bookmark, in
    /// configuration order.
    pub fn select(&self, bookmark: &BookmarkKey) -> (r: Vec<usize>)
        requires
            self.wf(),
        ensures
            forall|k: int|
                0 <= k < r@.len() ==> (#[trigger] r@[k]) < self.attrs_spec().len()
                    && self.selects(r@[k] as int, bookmark.name@),
            forall|i: int|
                0 <= i < self.attrs_spec().len() && self.selects(i, bookmark.name@)
                    ==> r@.contains(i as usize),
            forall|k1: int, k2: int| 0 <= k1 < k2 < r@.len() ==> r@[k1] < r@[k2],
    {
        let mut r: Vec<usize> = Vec::new();
        let mut i: usize = 0;
        while i < self.bookmark_attrs.len()
            invariant
                0 <= i <= self.attrs_spec().len(),
                self.wf(),
                self.bookmark_attrs@ == self.attrs_spec(),
                forall|k: int|
                    0 <= k < r@.len() ==> (#[trigger] r@[k]) < i && self.selects(
                        r@[k] as int,
                        bookmark.name@,
                    ),
                forall|j: int|
                    0 <= j < i && self.selects(j, bookmark.name@) ==> r@.contains(j as usize),
                forall|k1: int, k2: int| 0 <= k1 < k2 < r@.len() ==> r@[k1] < r@[k2],
            decreases self.attrs_spec().len() - i,
        {
            let selected = self.bookmark_attrs[i].params().bookmark.matches(bookmark);
            if selected {
                let ghost old_r = r@;
                r.push(i);
                proof {
                    assert forall|j: int|
                        0 <= j < i + 1 && self.selects(j, bookmark.name@) implies r@.contains(
                        j as usize,
                    ) by {
                        if j < i {
                            assert(old_r.contains(j as usize));
                            let w = choose|w: int| 0 <= w < old_r.len() && old_r[w] == j as usize;
                            assert(r@[w] == j as usize);
                        } else {
                            assert(r@[r@.len() - 1] == i);
                        }
                    }
                }
            }
            i += 1;
        }
        r
    }

    /// Whether some applicable attribute marks the bookmark fast-forward
    /// only.
    pub open spec fn is_fast_forward_only_spec(&self, bookmark: Seq<char>) -> bool {
        exists|i: int|
            0 <= i < self.attrs_spec().len() && self.selects(i, bookmark)
                && (#[trigger] self.attrs_spec()[i]).params_spec().only_fast_forward
    }

    /// Check if the provided bookmark is fast-forward only.
    pub fn is_fast_forward_only(&self, bookmark: &BookmarkKey) -> (r: bool)
        requires
            self.wf(),
        ensures
            r == self.is_fast_forward_only_spec(bookmark.name@),
    {
        let mut i: usize = 0;
        while i < self.bookmark_attrs.len()
            invariant
                0 <= i <= self.attrs_spec().len(),
                self.wf(),
                self.bookmark_attrs@ == self.attrs_spec(),
                forall|j: int|
                    0 <= j < i ==> !(self.selects(j, bookmark.name@)
                        && (#[trigger] self.attrs_spec()[j]).params_spec().only_fast_forward),
            decreases self.attrs_spec().len() - i,
        {
            let attr = &self.bookmark_attrs[i];
            if attr.params().bookmark.matches(bookmark) && attr.params().only_fast_forward {
                return true;
            }
            i += 1;
        }
        false
    }

    /// The first applicable rewrite-dates override for `bookmark`, if any.
    pub open spec fn first_rewrite_dates(
        attrs: Seq<SingleBookmarkAttr>,
        bookmark: Seq<char>,
    ) -> Option<bool>
        decreases attrs.len(),
    {
        if attrs.len() == 0 {
            None
        } else if attrs[0].params_spec().bookmark.matches_spec(bookmark)
            && attrs[0].params_spec().rewrite_dates is Some {
            attrs[0].params_spec().rewrite_dates
        } else {
            Self::first_rewrite_dates(attrs.drop_first(), bookmark)
        }
    }

    /// Check if a bookmark config overrides whether dates should be
    /// rewritten during pushrebase.  Returns `None` when no applicable
    /// config overrides it; when several match, the first wins.
    pub fn should_rewrite_dates(&self, bookmark: &BookmarkKey) -> (r: Option<bool>)
        requires
            self.wf(),
        ensures
            r == Self::first_rewrite_dates(self.attrs_spec(), bookmark.name@),
    {
        proof {
            assert(self.attrs_spec().skip(0) =~= self.attrs_spec());
        }
        let mut i: usize = 0;
        while i < self.bookmark_attrs.len()
            invariant
                0 <= i <= self.attrs_spec().len(),
                self.wf(),
                self.bookmark_attrs@ == self.attrs_spec(),
                Self::first_rewrite_dates(self.attrs_spec(), bookmark.name@)
                    == Self::first_rewrite_dates(self.attrs_spec().skip(i as int), bookmark.name@),
            decreases self.attrs_spec().len() - i,
        {
            proof {
                assert(self.attrs_spec().skip(i as int)[0] == self.attrs_spec()[i as int]);
                assert(self.attrs_spec().skip(i as int).drop_first() =~= self.attrs_spec().skip(
                    i + 1,
                ));
            }
            let attr = &self.bookmark_attrs[i];
            if attr.params().bookmark.matches(bookmark) {
                match attr.params().rewrite_dates {
                    Some(rewrite_dates) => {
                        return Some(rewrite_dates);
                    },
                    None => {},
                }
            }
            i += 1;
        }
        proof {
            assert(self.attrs_spec().skip(self.attrs_spec().len() as int).len() == 0);
        }
        None
    }

    /// Whether every applicable attribute lets `user` move `bookmark`.
    pub open spec fn is_allowed_user_spec(
        &self,
        user: Seq<char>,
        identities: Seq<String>,
        bookmark: Seq<char>,
    ) -> bool {
        forall|i: int|
            0 <= i < self.attrs_spec().len() && self.selects(i, bookmark)
                ==> (#[trigger] self.attrs_spec()[i]).allows_user(user, identities)
    }

    /// Check if the provided user, acting with the given identities, is
    /// allowed to move the specified bookmark.  A bookmark nothing applies
    /// to may be moved by anyone.
    pub fn is_allowed_user(
        &self,
        user: &str,
        identities: &Vec<String>,
        bookmark: &BookmarkKey,
    ) -> (r: bool)
        requires
            self.wf(),
        ensures
            r == self.is_allowed_user_spec(user@, identities@, bookmark.name@),
    {
        let mut i: usize = 0;
        while i < self.bookmark_attrs.len()
            invariant
                0 <= i <= self.attrs_spec().len(),
                self.wf(),
                self.bookmark_attrs@ == self.attrs_spec(),
                forall|j: int|
                    0 <= j < i && self.selects(j, bookmark.name@)
                        ==> (#[trigger] self.attrs_spec()[j]).allows_user(user@, identities@),
            decreases self.attrs_spec().len() - i,
        {
            let attr = &self.bookmark_attrs[i];
            if attr.params().bookmark.matches(bookmark) {
                let maybe_allowed_users: Option<bool> = match &attr.params().allowed_users {
                    Some(re) => Some(re.is_match(user)),
                    None => None,
                };
                let maybe_member: Option<bool> = match attr.membership() {
                    Some(membership) => Some(membership.is_member(identities)),
                    None => None,
                };
                let allowed = match (maybe_allowed_users, maybe_member) {
                    (Some(x), Some(y)) => x || y,
                    (Some(x), None) => x,
                    (None, Some(x)) => x,
                    (None, None) => true,
                };
                if !allowed {
                    return false;
                }
            }
            i += 1;
        }
        true
    }
}

} // verus!
