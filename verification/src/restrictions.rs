//! Kind resolution and pure policy checks: the caller's kind restriction,
//! cross-repo sync policy, and the ensure-ancestor-of restriction.

use vstd::prelude::*;

use crate::bookmark_attrs::SingleBookmarkAttr;
use crate::errors::BookmarkMovementError;
use crate::ids::BookmarkKey;
use crate::ids::BookmarkKind;
use crate::ids::ChangesetId;
use crate::repo::Repo;

verus! {

/// The caller's requested restriction on the resolved bookmark kind.
#[derive(Debug, Clone, Copy, PartialEq, Eq, Structural)]
pub enum BookmarkKindRestrictions {
    /// Any kind is acceptable.
    AnyKind,
    /// The bookmark must resolve to a scratch bookmark.
    OnlyScratch,
    /// The bookmark must resolve to a publishing bookmark.
    OnlyPublishing,
}

impl BookmarkKindRestrictions {
    /// Resolve the concrete kind of `bookmark`, or fail when the
    /// restriction does not match what the name resolves to.  The kind is
    /// a pure function of the scratch namespace and the name: names inside
    /// the namespace are scratch, all others are publishing.
    pub fn check_kind(&self, repo: &Repo, bookmark: &BookmarkKey) -> (r: Result<
        BookmarkKind,
        BookmarkMovementError,
    >)
        requires
            repo.wf(),
        ensures
            ({
                let scratch = repo.is_scratch_name(bookmark.name@);
                match *self {
                    BookmarkKindRestrictions::AnyKind => r == Ok::<_, BookmarkMovementError>(
                        if scratch {
                            BookmarkKind::Scratch
                        } else {
                            BookmarkKind::PullDefaultPublishing
                        },
                    ),
                    BookmarkKindRestrictions::OnlyScratch => {
                        if scratch {
                            r == Ok::<_, BookmarkMovementError>(BookmarkKind::Scratch)
                        } else {
                            r matches Err(BookmarkMovementError::InvalidScratchBookmark {
                                bookmark: b,
                            }) && b.name@ == bookmark.name@
                        }
                    },
                    BookmarkKindRestrictions::OnlyPublishing => {
                        if scratch {
                            r matches Err(BookmarkMovementError::InvalidPublishingBookmark {
                                bookmark: b,
                            }) && b.name@ == bookmark.name@
                        } else {
                            r == Ok::<_, BookmarkMovementError>(
                                BookmarkKind::PullDefaultPublishing,
                            )
                        }
                    },
                }
            }),
    {
        let scratch = match &repo.infinitepush.namespace {
            Some(ns) => ns.matches_bookmark(bookmark),
            None => false,
        };
        match self {
            BookmarkKindRestrictions::AnyKind => {
                if scratch {
                    Ok(BookmarkKind::Scratch)
                } else {
                    Ok(BookmarkKind::PullDefaultPublishing)
                }
            },
            BookmarkKindRestrictions::OnlyScratch => {
                if scratch {
                    Ok(BookmarkKind::Scratch)
                } else {
                    Err(
                        BookmarkMovementError::InvalidScratchBookmark {
                            bookmark: BookmarkKey { name: bookmark.name.clone() },
                        },
                    )
                }
            },
            BookmarkKindRestrictions::OnlyPublishing => {
                if scratch {
                    Err(
                        BookmarkMovementError::InvalidPublishingBookmark {
                            bookmark: BookmarkKey { name: bookmark.name.clone() },
                        },
                    )
                } else {
                    Ok(BookmarkKind::PullDefaultPublishing)
                }
            },
        }
    }
}

/// Whether `name` is managed by a cross-repo synchronization pipeline.
pub open spec fn sync_managed(repo: &Repo, name: Seq<char>) -> bool {
    exists|i: int|
        0 <= i < repo.sync_managed_bookmarks@.len() && (
        #[trigger] repo.sync_managed_bookmarks@[i]).name@ == name
}

/// Resolving a kind restriction against the opposite resolution always
/// fails with a policy violation: requiring scratch of a publishing name,
/// or publishing of a scratch name, is rejected, whatever else the request
/// holds.
pub proof fn law_kind_restriction_mismatch(
    repo: &Repo,
    bookmark: &BookmarkKey,
    r_scratch: Result<BookmarkKind, BookmarkMovementError>,
    r_publishing: Result<BookmarkKind, BookmarkMovementError>,
)
    requires
        !repo.is_scratch_name(bookmark.name@) ==> (r_scratch matches Err(
            BookmarkMovementError::InvalidScratchBookmark { bookmark: b },
        ) && b.name@ == bookmark.name@),
        repo.is_scratch_name(bookmark.name@) ==> (r_publishing matches Err(
            BookmarkMovementError::InvalidPublishingBookmark { bookmark: b },
        ) && b.name@ == bookmark.name@),
    ensures
        !repo.is_scratch_name(bookmark.name@) ==> (r_scratch matches Err(e)
            && e.is_policy_violation()),
        repo.is_scratch_name(bookmark.name@) ==> (r_publishing matches Err(e)
            && e.is_policy_violation()),
{
}

/// Validate the movement against cross-repo sync configuration: a
/// publishing bookmark that a synchronization pipeline manages may not be
/// created or moved by this engine.  Scratch bookmarks are never
/// sync-managed.
#[verifier::loop_isolation(false)]
pub fn check_bookmark_sync_config(repo: &Repo, bookmark: &BookmarkKey, kind: BookmarkKind) -> (r:
    Result<(), BookmarkMovementError>)
    ensures
        r is Ok <==> !(kind != BookmarkKind::Scratch && sync_managed(repo, bookmark.name@)),
        r matches Err(e) ==> e matches BookmarkMovementError::SyncConfigViolation {
            bookmark: b,
        } && b.name@ == bookmark.name@,
{
    match kind {
        BookmarkKind::Scratch => Ok(()),
        BookmarkKind::Publishing | BookmarkKind::PullDefaultPublishing => {
            let mut i: usize = 0;
            while i < repo.sync_managed_bookmarks.len()
                invariant
                    0 <= i <= repo.sync_managed_bookmarks@.len(),
                    forall|k: int|
                        0 <= k < i ==> (#[trigger] repo.sync_managed_bookmarks@[k]).name@
                            != bookmark.name@,
                decreases repo.sync_managed_bookmarks@.len() - i,
            {
                if crate::strutil::str_eq(
                    repo.sync_managed_bookmarks[i].name.as_str(),
                    bookmark.name.as_str(),
                ) {
                    proof {
                        assert(repo.sync_managed_bookmarks@[i as int].name@ == bookmark.name@);
                    }
                    return Err(
                        BookmarkMovementError::SyncConfigViolation {
                            bookmark: BookmarkKey { name: bookmark.name.clone() },
                        },
                    );
                }
                i += 1;
            }
            proof {
                if sync_managed(repo, bookmark.name@) {
                    let w = choose|w: int|
                        0 <= w < repo.sync_managed_bookmarks@.len() && (
                        #[trigger] repo.sync_managed_bookmarks@[w]).name@ == bookmark.name@;
                    assert(false);
                }
            }
            Ok(())
        },
    }
}

/// The designated bookmark of the first applicable ensure-ancestor-of
/// restriction for `name`, if any.
pub open spec fn first_ensure_ancestor_of(
    attrs: Seq<SingleBookmarkAttr>,
    name: Seq<char>,
) -> Option<BookmarkKey>
    decreases attrs.len(),
{
    if attrs.len() == 0 {
        None
    } else if attrs[0].params_spec().bookmark.matches_spec(name)
        && attrs[0].params_spec().ensure_ancestor_of is Some {
        attrs[0].params_spec().ensure_ancestor_of
    } else {
        first_ensure_ancestor_of(attrs.drop_first(), name)
    }
}

/// Enforce the ensure-ancestor-of restriction: when one applies to the
/// bookmark, the target must be reachable from the designated protected
/// bookmark's current position.  A designated bookmark that does not exist
/// cannot vouch for the target, so that too is a violation.
#[verifier::loop_isolation(false)]
pub fn check_restriction_ensure_ancestor_of(
    repo: &Repo,
    bookmark: &BookmarkKey,
    target: ChangesetId,
) -> (r: Result<(), BookmarkMovementError>)
    requires
        repo.wf(),
    ensures
        ({
            let restriction = first_ensure_ancestor_of(
                repo.bookmark_attrs.attrs_spec(),
                bookmark.name@,
            );
            match restriction {
                Some(descendant) => {
                    match repo.store.get_spec(descendant.name@) {
                        Some(desc_cs) => {
                            if repo.graph.is_ancestor_spec(target, desc_cs) {
                                r is Ok
                            } else {
                                r matches Err(BookmarkMovementError::NotAncestorOf {
                                    bookmark: b,
                                    descendant_bookmark: d,
                                }) && b.name@ == bookmark.name@ && d.name@ == descendant.name@
                            }
                        },
                        None => r matches Err(BookmarkMovementError::NotAncestorOf {
                            bookmark: b,
                            descendant_bookmark: d,
                        }) && b.name@ == bookmark.name@ && d.name@ == descendant.name@,
                    }
                },
                None => r is Ok,
            }
        }),
{
    let attrs = repo.bookmark_attrs.attrs_vec();
    proof {
        assert(attrs@.skip(0) =~= attrs@);
    }
    let mut i: usize = 0;
    while i < attrs.len()
        invariant
            0 <= i <= attrs@.len(),
            first_ensure_ancestor_of(attrs@, bookmark.name@) == first_ensure_ancestor_of(
                attrs@.skip(i as int),
                bookmark.name@,
            ),
        decreases attrs@.len() - i,
    {
        proof {
            assert(attrs@.skip(i as int)[0] == attrs@[i as int]);
            assert(attrs@.skip(i as int).drop_first() =~= attrs@.skip(i + 1));
        }
        let attr = &attrs[i];
        if attr.params().bookmark.matches(bookmark) {
            match &attr.params().ensure_ancestor_of {
                Some(descendant) => {
                    match repo.store.get(descendant) {
                        Some(desc_cs) => {
                            if repo.graph.is_ancestor(target, desc_cs) {
                                return Ok(());
                            } else {
                                return Err(
                                    BookmarkMovementError::NotAncestorOf {
                                        bookmark: BookmarkKey { name: bookmark.name.clone() },
                                        descendant_bookmark: BookmarkKey {
                                            name: descendant.name.clone(),
                                        },
                                    },
                                );
                            }
                        },
                        None => {
                            return Err(
                                BookmarkMovementError::NotAncestorOf {
                                    bookmark: BookmarkKey { name: bookmark.name.clone() },
                                    descendant_bookmark: BookmarkKey {
                                        name: descendant.name.clone(),
                                    },
                                },
                            );
                        },
                    }
                },
                None => {},
            }
        }
        i += 1;
    }
    proof {
        assert(attrs@.skip(attrs@.len() as int).len() == 0);
    }
    Ok(())
}

} // verus!
