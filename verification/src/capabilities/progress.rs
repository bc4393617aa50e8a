//! How far a polled step has come.
use crate::capabilities::payload_source::Shown;
use vstd::prelude::*;

verus! {

/// Bytes processed so far out of the total.
///
/// Every polled seam that works through a payload reports its progress
/// this way: bytes written to a device while staging, bytes hashed while
/// verifying. A caller that watches for a stall keys on `done`, so that the
/// seams answer the same question the same way.
///
/// `done` is monotonic within one job, and may hold still from one call to
/// the next: a busy device or a retransmit makes no progress and is not an
/// error. It never exceeds `total`. What is asked of an implementor is said
/// with each seam that reports progress.
#[derive(Debug, Clone, Copy, PartialEq, Eq, Structural)]
pub struct Progress {
    /// Bytes processed so far, at or below `total`.
    pub done: u64,
    /// Total payload bytes.
    pub total: u64,
}

impl Progress {
    /// No more is done than there is to do.
    pub open spec fn in_bounds(self) -> bool {
        self.done <= self.total
    }

    /// Progress over a payload that shows `payload`, after `before` bytes were
    /// done: nothing is taken back, no more is done than there is to do, and
    /// the total is a length that the payload reports.
    pub open spec fn counts_on(self, before: u64, payload: Shown) -> bool {
        &&& before <= self.done
        &&& self.in_bounds()
        &&& (payload.reports_len)(self.total)
    }

    /// A job that has processed nothing yet.
    pub fn none(total: u64) -> (progress: Self)
        ensures
            progress == (Progress { done: 0, total }),
            progress.in_bounds(),
    {
        Self { done: 0, total }
    }

    /// True once every byte has been processed.
    pub fn is_complete(&self) -> (complete: bool)
        ensures
            complete == (self.done >= self.total),
    {
        self.done >= self.total
    }
}

/// Progress that is none has everything to do, and progress is complete
/// exactly when nothing is left.
pub proof fn law_progress_is_complete_when_nothing_is_left(
    total: u64,
    none: Progress,
    progress: Progress,
    complete: bool,
)
    requires
        call_ensures(Progress::none, (total,), none),
        call_ensures(Progress::is_complete, (&progress,), complete),
    ensures
        none.total - none.done == total,
        complete <==> progress.total - progress.done <= 0,
{
}

} // verus!
