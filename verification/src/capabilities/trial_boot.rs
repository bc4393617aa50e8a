//! Resolving a tentatively activated image once its boot has been judged.
use vstd::prelude::*;

verus! {

/// Commit capability: promote a tentatively activated image after it proved
/// itself, or drop it.
///
/// Activation only proposes an image as the boot candidate and arms it for
/// the next boot. The record of the trial outlives that boot, and stays
/// pending until [`confirm`](Self::confirm) or [`revert`](Self::revert)
/// resolves it, so that a caller that itself rebooted finds it. Both calls
/// are idempotent. Neither boots anything: they move slot metadata only.
/// [`keeps_trial_record`] says what is asked of an implementor.
pub trait TrialBoot: Sized {
    /// The error reported by this device's trial record.
    type Error;

    /// Asked whether a trial is pending, the device may answer `answer`.
    open spec fn answers_pending(&self, answer: Result<bool, Self::Error>) -> bool {
        true
    }

    /// Asked to confirm, the device in state `pre` may answer `answer` and
    /// end in state `post`.
    open spec fn confirms(pre: Self, answer: Result<(), Self::Error>, post: Self) -> bool {
        true
    }

    /// Asked to revert, the device in state `pre` may answer `answer` and end
    /// in state `post`.
    open spec fn reverts(pre: Self, answer: Result<(), Self::Error>, post: Self) -> bool {
        true
    }

    /// Whether an activated image still awaits its verdict, answered from
    /// durable state.
    fn is_pending(&self) -> (answer: Result<bool, Self::Error>)
        ensures
            self.answers_pending(answer),
    ;

    /// Promotes the activated image to confirmed and clears the trial.
    fn confirm(&mut self) -> (answer: Result<(), Self::Error>)
        ensures
            Self::confirms(*old(self), answer, *final(self)),
    ;

    /// Clears the trial without promoting. The confirmed slot stays
    /// confirmed.
    fn revert(&mut self) -> (answer: Result<(), Self::Error>)
        ensures
            Self::reverts(*old(self), answer, *final(self)),
    ;
}

/// What a device's durable record says: the slot that boots by default,
/// and the activated slot that still awaits its verdict, if there is one.
pub struct TrialState {
    pub confirmed: int,
    pub trial: Option<int>,
}

impl TrialState {
    /// The record once the trial is promoted. With no trial, nothing moves.
    pub open spec fn promoted(self) -> TrialState {
        match self.trial {
            Some(slot) => TrialState { confirmed: slot, trial: None },
            None => self,
        }
    }

    /// The record once the trial is dropped. The confirmed slot stays.
    pub open spec fn dropped(self) -> TrialState {
        TrialState { confirmed: self.confirmed, trial: None }
    }
}

/// The device `T` keeps its trial record, which `record` reads: it answers
/// truly whether a trial is pending, a confirm that succeeds promotes the
/// trial, and a revert that succeeds drops it. A call that fails did all of
/// that or nothing of it: a torn write never leaves the device booting an
/// unconfirmed image.
pub open spec fn keeps_trial_record<T: TrialBoot>(record: spec_fn(T) -> TrialState) -> bool {
    &&& forall|device: T, pending: bool| #[trigger]
        device.answers_pending(Ok(pending)) ==> pending == (record(device).trial is Some)
    &&& forall|pre: T, post: T| #[trigger]
        T::confirms(pre, Ok(()), post) ==> record(post) == record(pre).promoted()
    &&& forall|pre: T, post: T| #[trigger]
        T::reverts(pre, Ok(()), post) ==> record(post) == record(pre).dropped()
    &&& forall|pre: T, fault: T::Error, post: T| #[trigger]
        T::confirms(pre, Err(fault), post) ==> record(post) == record(pre) || record(post)
            == record(pre).promoted()
    &&& forall|pre: T, fault: T::Error, post: T| #[trigger]
        T::reverts(pre, Err(fault), post) ==> record(post) == record(pre) || record(post)
            == record(pre).dropped()
}

/// Resolving clears the record, either way: no later boot finds a trial that
/// nobody owns. A promotion makes the trial's slot the confirmed one, and a
/// drop leaves the confirmed slot where it was.
pub proof fn law_resolving_clears_the_trial<T: TrialBoot>(
    record: spec_fn(T) -> TrialState,
    pre: T,
    post: T,
)
    requires
        keeps_trial_record(record),
        T::confirms(pre, Ok(()), post) || T::reverts(pre, Ok(()), post),
    ensures
        forall|pending: bool| #[trigger] post.answers_pending(Ok(pending)) ==> !pending,
        T::confirms(pre, Ok(()), post) ==> (record(pre).trial matches Some(slot) ==> record(
            post,
        ).confirmed == slot),
        T::reverts(pre, Ok(()), post) ==> record(post).confirmed == record(pre).confirmed,
{
}

/// A replayed resolution is a no-op: once a trial is resolved, neither a
/// second confirm nor a late revert moves the record.
pub proof fn law_replayed_resolution_is_a_noop<T: TrialBoot>(
    record: spec_fn(T) -> TrialState,
    pre: T,
    resolved: T,
    replayed: T,
)
    requires
        keeps_trial_record(record),
        T::confirms(pre, Ok(()), resolved) || T::reverts(pre, Ok(()), resolved),
        T::confirms(resolved, Ok(()), replayed) || T::reverts(resolved, Ok(()), replayed),
    ensures
        record(replayed) == record(resolved),
{
}

/// No image boots by default that was not confirmed: after a confirm or a
/// revert, succeed or fail, the confirmed slot is the one it was, or the
/// trial's slot, which then is no longer on trial and which only a confirm
/// puts there.
pub proof fn law_only_a_confirm_moves_the_confirmed_slot<T: TrialBoot>(
    record: spec_fn(T) -> TrialState,
    pre: T,
    answer: Result<(), T::Error>,
    post: T,
)
    requires
        keeps_trial_record(record),
        T::confirms(pre, answer, post) || T::reverts(pre, answer, post),
    ensures
        record(post).confirmed == record(pre).confirmed || {
            &&& T::confirms(pre, answer, post)
            &&& record(pre).trial == Some(record(post).confirmed)
            &&& record(post).trial is None
        },
{
    match answer {
        Ok(done) => {
            assert(done == ());
            assert(T::confirms(pre, Ok(()), post) || T::reverts(pre, Ok(()), post));
        },
        Err(fault) => {
            assert(T::confirms(pre, Err(fault), post) || T::reverts(pre, Err(fault), post));
        },
    }
}

/// A confirm that failed can be made again: once a second one succeeds, the
/// record is the one that the first would have left.
pub proof fn law_a_failed_confirm_can_be_retried<T: TrialBoot>(
    record: spec_fn(T) -> TrialState,
    pre: T,
    fault: T::Error,
    torn: T,
    post: T,
)
    requires
        keeps_trial_record(record),
        T::confirms(pre, Err(fault), torn),
        T::confirms(torn, Ok(()), post),
    ensures
        record(post) == record(pre).promoted(),
{
}

} // verus!
