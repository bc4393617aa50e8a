//! Holding a component in reset, releasing it, and watching it boot.
use vstd::prelude::*;

verus! {

/// A component's reset line.
pub trait BootControl: Sized {
    /// The error reported when the line cannot be actuated.
    type Error;

    /// Asked to hold the component in reset, the control in state `pre` may
    /// answer `answer` and end in state `post`.
    open spec fn holds(pre: Self, answer: Result<(), Self::Error>, post: Self) -> bool {
        true
    }

    /// Asked to release the component, the control in state `pre` may answer
    /// `answer` and end in state `post`.
    open spec fn releases(pre: Self, answer: Result<(), Self::Error>, post: Self) -> bool {
        true
    }

    /// Holds the component in reset until it is released.
    fn hold_in_reset(&mut self) -> (answer: Result<(), Self::Error>)
        ensures
            Self::holds(*old(self), answer, *final(self)),
    ;

    /// Lets the component boot.
    fn release(&mut self) -> (answer: Result<(), Self::Error>)
        ensures
            Self::releases(*old(self), answer, *final(self)),
    ;
}

/// Why a boot attempt failed, as the watch classified it.
#[derive(Debug, Clone, Copy, PartialEq, Eq, Structural)]
pub enum FailureCause {
    /// A checkpoint's window expired.
    TimedOut,
    /// The device reported a failure that a retry may cure.
    DeviceRetriable,
    /// The device reported a failure that no retry cures.
    DeviceFatal,
}

/// Where a boot walk stands.
#[derive(Debug, Clone, Copy, PartialEq, Eq)]
pub enum WalkVerdict {
    /// A checkpoint is outstanding until `deadline_millis`.
    Waiting { deadline_millis: u64 },
    /// Every checkpoint passed.
    Complete,
    /// The attempt died at `checkpoint`.
    Failed { checkpoint: &'static str, cause: FailureCause },
}

/// Judges a component's boot from its checkpoints.
pub trait BootWatch: Sized {
    /// Arming the watch in state `pre` may leave it in state `post`.
    open spec fn arms(pre: Self, post: Self) -> bool {
        true
    }

    /// Polled at `now_millis`, the watch in state `pre` may answer `verdict`
    /// and end in state `post`.
    open spec fn polls(pre: Self, now_millis: u64, verdict: WalkVerdict, post: Self) -> bool {
        true
    }

    /// Starts a fresh walk from the first checkpoint.
    fn arm(&mut self)
        ensures
            Self::arms(*old(self), *final(self)),
    ;

    /// Judges the walk at `now_millis`.
    fn poll(&mut self, now_millis: u64) -> (verdict: WalkVerdict)
        ensures
            Self::polls(*old(self), now_millis, verdict, *final(self)),
    ;
}

} // verus!
