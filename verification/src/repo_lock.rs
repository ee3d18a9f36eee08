//! The repo-lock check: a read-only repository rejects movements unless a
//! pushvar override grants an exception.

use vstd::prelude::*;

use crate::errors::BookmarkMovementError;
use crate::ids::BookmarkKind;
use crate::metaconfig::RepoReadOnly;
use crate::pushvars::opt_pushvar_lookup;
use crate::pushvars::Pushvars;
use crate::repo::Repo;
use crate::strutil;

verus! {

/// Whether the pushvars grant an exception from the repo lock.
pub open spec fn lock_bypassed(pushvars: Option<Seq<(String, String)>>) -> bool {
    opt_pushvar_lookup(pushvars, "BYPASS_READONLY"@) == Some("true"@)
}

/// Fail with a repo-locked error when the repository is read-only and no
/// pushvar override applies.  The check is the same for every bookmark
/// kind: scratch movements are blocked like publishing ones.
pub fn check_repo_lock(repo: &Repo, _kind: BookmarkKind, pushvars: Option<&Pushvars>) -> (r:
    Result<(), BookmarkMovementError>)
    ensures
        ({
            let pv = match pushvars {
                Some(p) => Some(p@),
                None => None,
            };
            match repo.readonly {
                RepoReadOnly::ReadWrite => r is Ok,
                RepoReadOnly::ReadOnly(ref reason) => {
                    if lock_bypassed(pv) {
                        r is Ok
                    } else {
                        r matches Err(BookmarkMovementError::RepoLocked { reason: msg }) && msg@
                            == reason@
                    }
                },
            }
        }),
{
    match &repo.readonly {
        RepoReadOnly::ReadWrite => Ok(()),
        RepoReadOnly::ReadOnly(reason) => {
            let bypassed = match pushvars {
                Some(pv) => {
                    match crate::pushvars::get_pushvar(pv, "BYPASS_READONLY") {
                        Some(value) => strutil::str_eq(value.as_str(), "true"),
                        None => false,
                    }
                },
                None => false,
            };
            if bypassed {
                Ok(())
            } else {
                Err(BookmarkMovementError::RepoLocked { reason: reason.clone() })
            }
        },
    }
}

} // verus!
