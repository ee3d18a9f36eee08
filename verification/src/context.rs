//! The per-request context: the acting principal's identities and the
//! operational log that the pipeline writes audit traces to.

use vstd::prelude::*;

verus! {

/// One structured entry of the operational log.
#[derive(Debug, Clone, Copy, PartialEq, Eq, Structural)]
pub enum LogEntry {
    /// In audit-only authorization mode, a repo-write check would have
    /// denied this movement.
    RepoWriteAclWouldFail,
    /// A scratch bookmark is about to be staged.
    CreatingScratchBookmark,
    /// A public bookmark is about to be staged.
    CreatingPublicBookmark,
    /// The draft-ancestor scan failed; the movement continues with an
    /// empty result.
    DraftAncestorsScanFailed,
    /// Forwarding to the analytics sink failed after a successful commit;
    /// the failure is swallowed.
    ScribeForwardFailed,
}

impl LogEntry {
    /// The operator-facing message of this entry.
    pub fn render(&self) -> (r: String)
        ensures
            r@.len() > 0,
    {
        proof {
            reveal_strlit("Repo write ACL check would fail for bookmark create");
            reveal_strlit("Creating scratch bookmark");
            reveal_strlit("Creating public bookmark");
            reveal_strlit("Failed to find draft ancestors");
            reveal_strlit("Failed to log commits to scribe");
        }
        match self {
            LogEntry::RepoWriteAclWouldFail => String::from_str(
                "Repo write ACL check would fail for bookmark create",
            ),
            LogEntry::CreatingScratchBookmark => String::from_str("Creating scratch bookmark"),
            LogEntry::CreatingPublicBookmark => String::from_str("Creating public bookmark"),
            LogEntry::DraftAncestorsScanFailed => String::from_str(
                "Failed to find draft ancestors",
            ),
            LogEntry::ScribeForwardFailed => String::from_str("Failed to log commits to scribe"),
        }
    }
}

/// The context a movement request runs in: who is acting, and the
/// operational log the pipeline appends audit traces to.
#[derive(Debug, Clone)]
pub struct CoreContext {
    /// The identities of the acting principal.
    pub session_identities: Vec<String>,
    /// The operational log, oldest entry first.
    pub scuba: Vec<LogEntry>,
}

impl CoreContext {
    /// A fresh context for the given identities, with an empty log.
    pub fn new(session_identities: Vec<String>) -> (r: CoreContext)
        ensures
            r.session_identities@ == session_identities@,
            r.scuba@.len() == 0,
    {
        CoreContext { session_identities, scuba: Vec::new() }
    }

    /// Append one entry to the operational log.
    pub fn log(&mut self, entry: LogEntry)
        ensures
            final(self).scuba@ == old(self).scuba@.push(entry),
            final(self).session_identities == old(self).session_identities,
    {
        self.scuba.push(entry);
    }
}

} // verus!
