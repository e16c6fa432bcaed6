//! Scheduling of the downloads of a playlist: which item starts next, how
//! many run at a time, and the tally at the end.
//!
//! The caller runs the downloads. It asks `Batch::next` what to do, starts
//! the item it is told to start, and reports each download that has ended to
//! `Batch::settle`.

use crate::download::DownloadOutcome;
use vstd::prelude::*;

verus! {

/// The most downloads that run at a time.
pub const CEILING: usize = 44;

/// What the caller of a batch does next.
#[derive(Clone, Copy, Debug, PartialEq, Eq, Structural)]
pub enum BatchAction {
    /// Start the download of the item with this index.
    Start(usize),
    /// Wait for one of the running downloads to end, and settle it.
    Wait,
    /// Report the tally: every item was started and has ended.
    Finish { succeeded: usize, failed: usize },
}

/// Progress of the downloads of one playlist.
pub struct Batch {
    total: usize,
    started: usize,
    running: usize,
    succeeded: usize,
    failed: usize,
}

/// Whether a download that ended with `result` counts as a success. A
/// download without a result, one that was lost before it could report,
/// counts as a failure.
pub open spec fn is_success(result: Option<&DownloadOutcome>) -> bool {
    result matches Some(DownloadOutcome::Success(_))
}

impl Batch {
    #[verifier::type_invariant]
    spec fn well_formed(self) -> bool {
        &&& self.running <= CEILING
        &&& self.started == self.running + self.succeeded + self.failed
        &&& self.started <= self.total
    }

    /// Number of items in the batch.
    pub closed spec fn total(self) -> nat {
        self.total as nat
    }

    /// Number of items whose download was started.
    pub closed spec fn started(self) -> nat {
        self.started as nat
    }

    /// Number of downloads that were started and have not ended.
    pub closed spec fn running(self) -> nat {
        self.running as nat
    }

    /// Number of downloads that ended well.
    pub closed spec fn succeeded(self) -> nat {
        self.succeeded as nat
    }

    /// Number of downloads that failed.
    pub closed spec fn failed(self) -> nat {
        self.failed as nat
    }

    /// What the caller does next: start the next item while one is left and
    /// fewer than `CEILING` downloads run, else wait while any runs, else
    /// finish.
    pub open spec fn upcoming(self) -> BatchAction {
        if self.started() < self.total() && self.running() < CEILING {
            BatchAction::Start(self.started() as usize)
        } else if self.running() > 0 {
            BatchAction::Wait
        } else {
            BatchAction::Finish {
                succeeded: self.succeeded() as usize,
                failed: self.failed() as usize,
            }
        }
    }

    /// A batch of `total` items, none of them started.
    pub fn new(total: usize) -> (batch: Batch)
        ensures
            batch.total() == total,
            batch.started() == 0,
            batch.running() == 0,
            batch.succeeded() == 0,
            batch.failed() == 0,
    {
        Batch { total, started: 0, running: 0, succeeded: 0, failed: 0 }
    }

    /// Says what to do next, and counts the item that it tells to start as
    /// running. Never more than `CEILING` downloads run, and the batch
    /// finishes only when every item has been started and has ended.
    pub fn next(&mut self) -> (action: BatchAction)
        ensures
            action == old(self).upcoming(),
            final(self).total() == old(self).total(),
            final(self).succeeded() == old(self).succeeded(),
            final(self).failed() == old(self).failed(),
            action is Start ==> final(self).started() == old(self).started() + 1,
            action is Start ==> final(self).running() == old(self).running() + 1,
            !(action is Start) ==> final(self).started() == old(self).started(),
            !(action is Start) ==> final(self).running() == old(self).running(),
            final(self).running() <= CEILING,
            action matches BatchAction::Finish { succeeded, failed } ==> succeeded + failed
                == final(self).total(),
    {
        proof {
            use_type_invariant(&*self);
        }
        if self.started < self.total && self.running < CEILING {
            let index = self.started;
            *self = Batch {
                total: self.total,
                started: self.started + 1,
                running: self.running + 1,
                succeeded: self.succeeded,
                failed: self.failed,
            };
            BatchAction::Start(index)
        } else if self.running > 0 {
            BatchAction::Wait
        } else {
            BatchAction::Finish { succeeded: self.succeeded, failed: self.failed }
        }
    }

    /// Counts a download that has ended: as a success where `result` holds
    /// one, as a failure otherwise. Returns whether a download was running;
    /// where none was, nothing is counted.
    pub fn settle(&mut self, result: Option<&DownloadOutcome>) -> (counted: bool)
        ensures
            counted == (old(self).running() > 0),
            final(self).total() == old(self).total(),
            final(self).started() == old(self).started(),
            counted ==> final(self).running() == old(self).running() - 1,
            !counted ==> final(self).running() == old(self).running(),
            final(self).succeeded() == old(self).succeeded() + (if counted && is_success(result) {
                1nat
            } else {
                0nat
            }),
            final(self).failed() == old(self).failed() + (if counted && !is_success(result) {
                1nat
            } else {
                0nat
            }),
            final(self).running() <= CEILING,
    {
        proof {
            use_type_invariant(&*self);
        }
        if self.running == 0 {
            return false;
        }
        let success = match result {
            Some(DownloadOutcome::Success(_)) => true,
            _ => false,
        };
        *self = Batch {
            total: self.total,
            started: self.started,
            running: self.running - 1,
            succeeded: if success {
                self.succeeded + 1
            } else {
                self.succeeded
            },
            failed: if success {
                self.failed
            } else {
                self.failed + 1
            },
        };
        true
    }

    /// Returns the numbers of downloads that ended well and that failed, so
    /// far.
    pub fn tally(&self) -> (counts: (usize, usize))
        ensures
            counts.0 == self.succeeded(),
            counts.1 == self.failed(),
            counts.0 + counts.1 + self.running() == self.started() <= self.total(),
    {
        proof {
            use_type_invariant(self);
        }
        (self.succeeded, self.failed)
    }
}

} // verus!
