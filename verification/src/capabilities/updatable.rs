//! Staging and activating an update on a device.
use crate::capabilities::payload_source::{shown, PayloadSource, Shown};
use crate::capabilities::progress::Progress;
use vstd::prelude::*;

verus! {

/// Why a device refused an update step.
#[derive(Debug, Clone, Copy, PartialEq, Eq, Structural)]
pub enum UpdateError {
    /// The device failed.
    Device,
    /// There is nothing staged to activate.
    NothingStaged,
}

/// How far a device has come with staging a payload.
#[derive(Debug, Clone, Copy, PartialEq, Eq, Structural)]
pub enum StageProgress {
    /// The payload is on its way.
    Transferring(Progress),
    /// The device holds the complete payload.
    Ready,
}

/// A device that takes firmware updates. [`counts_written`] says what is asked
/// of the progress it reports.
pub trait Updatable: Sized {
    /// Asked for one staging step over a payload that shows `payload`, the
    /// device in state `pre` may answer `answer` and end in state `post`.
    open spec fn stages(
        pre: Self,
        payload: Shown,
        answer: Result<StageProgress, UpdateError>,
        post: Self,
    ) -> bool {
        true
    }

    /// Told to drop what it staged, the device in state `pre` may end in
    /// state `post`.
    open spec fn abandons(pre: Self, post: Self) -> bool {
        true
    }

    /// Asked to activate what it staged, the device in state `pre` may answer
    /// `answer` and end in state `post`.
    open spec fn activates(pre: Self, answer: Result<(), UpdateError>, post: Self) -> bool {
        true
    }

    /// Takes one bounded staging step over `payload`.
    fn poll_stage<P: PayloadSource>(&mut self, payload: &P) -> (answer: Result<
        StageProgress,
        UpdateError,
    >)
        ensures
            Self::stages(*old(self), shown(payload), answer, *final(self)),
    ;

    /// Drops whatever has been staged. Cannot fail.
    fn abandon(&mut self)
        ensures
            Self::abandons(*old(self), *final(self)),
    ;

    /// Makes the staged payload the next boot's candidate.
    fn activate(&mut self) -> (answer: Result<(), UpdateError>)
        ensures
            Self::activates(*old(self), answer, *final(self)),
    ;
}

/// The device `U` counts the bytes it stages, which `written` reads: a step
/// that leaves bytes to transfer reports how many it has written by then, and
/// they never become fewer while it transfers.
pub open spec fn counts_written<U: Updatable>(written: spec_fn(U) -> u64) -> bool {
    forall|pre: U, payload: Shown, progress: Progress, post: U| #[trigger]
        U::stages(pre, payload, Ok(StageProgress::Transferring(progress)), post) ==> {
            &&& progress.counts_on(written(pre), payload)
            &&& written(post) == progress.done
        }
}

} // verus!
