//! Restoring a component's image from a recovery source.
use vstd::prelude::*;

verus! {

/// How a restore attempt ended.
#[derive(Debug, Clone, Copy, PartialEq, Eq, Structural)]
pub enum RestoreOutcome {
    /// The image was restored.
    Restored,
    /// No source is left to restore from. A verdict, not a fault.
    SourceExhausted,
}

/// A component's recovery mechanism.
pub trait Recovery: Sized {
    /// The error reported when the mechanism itself faults.
    type Error;

    /// Asked for attempt `attempt`, the mechanism in state `pre` may answer
    /// `answer` and end in state `post`.
    open spec fn restores(
        pre: Self,
        attempt: u8,
        answer: Result<RestoreOutcome, Self::Error>,
        post: Self,
    ) -> bool {
        true
    }

    /// Restores the image from the source that attempt `attempt` selects.
    fn restore(&mut self, attempt: u8) -> (answer: Result<RestoreOutcome, Self::Error>)
        ensures
            Self::restores(*old(self), attempt, answer, *final(self)),
    ;
}

/// A component without recovery sources: every attempt finds them exhausted.
impl Recovery for () {
    type Error = ();

    open spec fn restores(pre: (), attempt: u8, answer: Result<RestoreOutcome, ()>, post: ()) -> bool {
        answer == Ok::<RestoreOutcome, ()>(RestoreOutcome::SourceExhausted)
    }

    fn restore(&mut self, attempt: u8) -> (answer: Result<RestoreOutcome, ()>) {
        Ok(RestoreOutcome::SourceExhausted)
    }
}

/// A component without recovery sources finds them exhausted at every
/// attempt, and never faults.
pub proof fn law_no_sources_are_always_exhausted(
    mechanism: &mut (),
    attempt: u8,
    answer: Result<RestoreOutcome, ()>,
)
    requires
        call_ensures(<() as Recovery>::restore, (mechanism, attempt), answer),
    ensures
        answer matches Ok(outcome) && outcome is SourceExhausted,
{
}

} // verus!
