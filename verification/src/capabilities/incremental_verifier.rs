//! Verifying a candidate one bounded step at a time.
use crate::capabilities::payload_source::PayloadSource;
use vstd::prelude::*;

verus! {

/// One step of an incremental verification session.
#[derive(Debug, Clone, Copy, PartialEq, Eq, Structural)]
pub enum VerifyStep {
    /// One chunk hashed: `hashed` bytes processed so far out of `total`.
    Processing { hashed: u64, total: u64 },
    /// The complete image authenticated.
    Authenticated,
    /// The complete image was checked and found invalid.
    Rejected,
}

impl VerifyStep {
    /// The step is a verdict on the image.
    pub open spec fn is_verdict(self) -> bool {
        self is Authenticated || self is Rejected
    }
}

/// Incremental firmware verification: judge a candidate image one bounded
/// step at a time, so that a single-threaded caller stays live while
/// megabytes of payload are hashed.
///
/// The caller calls [`start`](Self::start) once and then
/// [`poll`](Self::poll) on its own clock. A session reaches one verdict,
/// [`VerifyStep::Authenticated`] or [`VerifyStep::Rejected`]. A check that
/// could not run is an error and never a verdict. [`keeps_sessions`] says
/// what is asked of an implementor.
pub trait IncrementalVerifier: Sized {
    /// Reported when the check itself cannot run: a fault, an unreadable
    /// payload, or a poll outside a session.
    type Error;

    /// Started, the verifier in state `pre` may end in state `post`.
    open spec fn starts(pre: Self, post: Self) -> bool {
        true
    }

    /// Polled over `payload`, the verifier in state `pre` may answer `answer`
    /// and end in state `post`.
    open spec fn polls(
        pre: Self,
        payload: &dyn PayloadSource,
        answer: Result<VerifyStep, Self::Error>,
        post: Self,
    ) -> bool {
        true
    }

    /// Discards any session in progress and prepares to verify from the
    /// start of the image.
    fn start(&mut self)
        ensures
            Self::starts(*old(self), *final(self)),
    ;

    /// Processes one bounded step: at most one read from `payload` and one
    /// hash update. No relation counts reads, for a payload is read through a
    /// shared reference.
    fn poll(&mut self, payload: &dyn PayloadSource) -> (answer: Result<VerifyStep, Self::Error>)
        ensures
            Self::polls(*old(self), payload, answer, *final(self)),
    ;
}

/// The verifier `V` keeps its sessions in order, where `open` tells whether a
/// session is open and `hashed` how many bytes it has hashed:
///
/// * a start opens a session at the start of the image, whatever was in
///   progress;
/// * a poll outside a session is an error and opens none;
/// * a step that leaves work to do keeps the session open, at the progress it
///   reports, which takes nothing back and does not exceed its total;
/// * a verdict closes the session.
///
/// After an error in a session nothing is asked until the next start.
pub open spec fn keeps_sessions<V: IncrementalVerifier>(
    open: spec_fn(V) -> bool,
    hashed: spec_fn(V) -> int,
) -> bool {
    &&& forall|pre: V, post: V| #[trigger]
        V::starts(pre, post) ==> open(post) && hashed(post) == 0
    &&& forall|
        pre: V,
        payload: &dyn PayloadSource,
        answer: Result<VerifyStep, V::Error>,
        post: V,
    | #[trigger]
        V::polls(pre, payload, answer, post) ==> {
            &&& !open(pre) ==> answer is Err && !open(post)
            &&& match answer {
                Ok(VerifyStep::Processing { hashed: so_far, total }) => {
                    &&& open(post)
                    &&& hashed(pre) <= so_far <= total
                    &&& hashed(post) == so_far
                },
                Ok(_) => !open(post),
                Err(_) => true,
            }
        }
}

/// A session reaches a verdict at most once: polling again is an error and
/// opens nothing, until a new start.
pub proof fn law_one_verdict_per_session<V: IncrementalVerifier>(
    open: spec_fn(V) -> bool,
    hashed: spec_fn(V) -> int,
    before: V,
    payload: &dyn PayloadSource,
    verdict: VerifyStep,
    after: V,
    again: &dyn PayloadSource,
    answer: Result<VerifyStep, V::Error>,
    last: V,
)
    requires
        keeps_sessions(open, hashed),
        V::polls(before, payload, Ok(verdict), after),
        verdict.is_verdict(),
        V::polls(after, again, answer, last),
    ensures
        answer is Err,
        !open(last),
{
}

/// A start discards the session in progress: the session it opens has hashed
/// nothing yet, whatever the one before it had hashed.
pub proof fn law_start_discards_the_session<V: IncrementalVerifier>(
    open: spec_fn(V) -> bool,
    hashed: spec_fn(V) -> int,
    before: V,
    after: V,
)
    requires
        keeps_sessions(open, hashed),
        V::starts(before, after),
    ensures
        open(after),
        hashed(after) == 0,
{
}

} // verus!
