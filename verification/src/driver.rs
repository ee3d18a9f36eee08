//! Decisions of a batch-transfer session.
//!
//! A session drives many transfers to completion over an I/O multiplexer;
//! the I/O itself happens outside.  What is verified here are the
//! decisions: token assignment, recording completions, when the loop
//! stops, and how the final outcome is reported.

use vstd::prelude::*;

use crate::strutil;

verus! {

/// The result of driving a session to completion: the handles in the
/// order they were added, and the failed transfers as token/message
/// pairs.
#[derive(Debug)]
pub struct MultiDriverResult<H> {
    /// The handles, in the order they were added.
    pub handles: Vec<H>,
    /// The failed transfers: each token with its error message.
    pub failed: Vec<(usize, String)>,
}

/// The report of a failed session: a headline, then one line per failed
/// transfer with its token and message.
pub open spec fn failure_report(failed: Seq<(usize, String)>) -> Seq<char>
    decreases failed.len(),
{
    if failed.len() == 0 {
        "The following transfers failed:\n"@
    } else {
        failure_report(failed.drop_last()) + strutil::dec_digits(failed.last().0 as nat) + ": "@
            + failed.last().1@ + "\n"@
    }
}

impl<H> MultiDriverResult<H> {
    /// The handles when every transfer succeeded; otherwise a report
    /// naming each failed transfer.
    pub fn into_result(self) -> (r: Result<Vec<H>, String>)
        ensures
            self.failed@.len() == 0 ==> (r matches Ok(handles) && handles == self.handles),
            self.failed@.len() > 0 ==> (r matches Err(msg) && msg@ == failure_report(
                self.failed@,
            )),
    {
        if self.failed.is_empty() {
            return Ok(self.handles);
        }
        let mut msg = String::from_str("The following transfers failed:\n");
        let mut i: usize = 0;
        while i < self.failed.len()
            invariant
                0 <= i <= self.failed@.len(),
                msg@ == failure_report(self.failed@.take(i as int)),
            decreases self.failed@.len() - i,
        {
            let token_digits = strutil::u64_to_dec(self.failed[i].0 as u64);
            msg.append(token_digits.as_str());
            msg.append(": ");
            msg.append(self.failed[i].1.as_str());
            msg.append("\n");
            proof {
                let taken = self.failed@.take(i + 1);
                assert(taken.drop_last() =~= self.failed@.take(i as int));
                assert(taken.last() == self.failed@[i as int]);
            }
            i += 1;
        }
        proof {
            assert(self.failed@.take(self.failed@.len() as int) =~= self.failed@);
        }
        Err(msg)
    }
}

/// A session driving many transfers to completion.  The handles are owned
/// by the session while it runs; completions are recorded as the outside
/// multiplexer reports them.
#[derive(Debug)]
pub struct MultiDriver<H> {
    handles: Vec<H>,
    failed: Vec<(usize, String)>,
    fail_early: bool,
}

impl<H> MultiDriver<H> {
    /// The handles added so far.
    pub closed spec fn handles_spec(&self) -> Seq<H> {
        self.handles@
    }

    /// The failures recorded so far.
    pub closed spec fn failed_spec(&self) -> Seq<(usize, String)> {
        self.failed@
    }

    /// Whether the session stops at the first failure.
    pub closed spec fn fail_early_spec(&self) -> bool {
        self.fail_early
    }

    /// A fresh session expecting about `capacity` transfers.
    pub fn with_capacity(capacity: usize) -> (r: Self)
        ensures
            r.handles_spec().len() == 0,
            r.failed_spec().len() == 0,
            !r.fail_early_spec(),
    {
        MultiDriver { handles: Vec::with_capacity(capacity), failed: Vec::new(), fail_early: false }
    }

    /// Add a handle to the session; its token is its position, so that
    /// completions reported by token can be correlated with the handle.
    pub fn add(&mut self, handle: H) -> (token: usize)
        ensures
            token == old(self).handles_spec().len(),
            final(self).handles_spec() == old(self).handles_spec().push(handle),
            final(self).failed_spec() == old(self).failed_spec(),
            final(self).fail_early_spec() == old(self).fail_early_spec(),
    {
        let token = self.handles.len();
        self.handles.push(handle);
        token
    }

    /// If set, the session returns early when any transfer fails, leaving
    /// the remaining transfers unfinished; otherwise it only returns once
    /// all transfers have completed, successfully or otherwise.
    pub fn fail_early(&mut self, fail_early: bool)
        ensures
            final(self).fail_early_spec() == fail_early,
            final(self).handles_spec() == old(self).handles_spec(),
            final(self).failed_spec() == old(self).failed_spec(),
    {
        self.fail_early = fail_early;
    }

    /// Remove and return all handles, in the order they were added,
    /// leaving the session empty.
    pub fn remove_all(&mut self) -> (r: Vec<H>)
        ensures
            r@ == old(self).handles_spec(),
            final(self).handles_spec().len() == 0,
            final(self).failed_spec() == old(self).failed_spec(),
            final(self).fail_early_spec() == old(self).fail_early_spec(),
    {
        let mut taken: Vec<H> = Vec::new();
        core::mem::swap(&mut taken, &mut self.handles);
        taken
    }

    /// Record one completion reported by the multiplexer: a failure is
    /// kept with its token, a success leaves no trace.
    pub fn record_completion(&mut self, token: usize, outcome: Result<(), String>)
        ensures
            final(self).handles_spec() == old(self).handles_spec(),
            final(self).fail_early_spec() == old(self).fail_early_spec(),
            match outcome {
                Ok(_) => final(self).failed_spec() == old(self).failed_spec(),
                Err(e) => final(self).failed_spec() == old(self).failed_spec().push((token, e)),
            },
    {
        match outcome {
            Ok(_) => {},
            Err(e) => {
                self.failed.push((token, e));
            },
        }
    }

    /// Whether the driving loop stops: everything has completed, or a
    /// failure was recorded and the session stops at the first failure.
    pub fn should_stop(&self, in_progress: usize) -> (r: bool)
        ensures
            r == (in_progress == 0 || (self.fail_early_spec() && self.failed_spec().len() > 0)),
    {
        if self.fail_early && self.failed.len() > 0 {
            return true;
        }
        in_progress == 0
    }

    /// Finish the session: hand back all handles in the order they were
    /// added, together with the recorded failures.
    pub fn finish(self) -> (r: MultiDriverResult<H>)
        ensures
            r.handles@ == self.handles_spec(),
            r.failed@ == self.failed_spec(),
    {
        MultiDriverResult { handles: self.handles, failed: self.failed }
    }
}

} // verus!
