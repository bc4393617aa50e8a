//! Verification sessions that own their verifier while they run.
//!
//! Starting a session takes the verifier, and every way out of the session
//! gives it back, so that at most one session runs over a verifier.
use crate::capabilities::payload_source::{shown, PayloadSource, Shown};
use crate::capabilities::progress::Progress;
use vstd::prelude::*;

verus! {

/// What one poll of a session `S` over a verifier `V` established.
#[derive(Debug, PartialEq, Eq)]
pub enum PollOutcome<S, V, E> {
    /// One chunk hashed; the session goes on.
    Processing { session: S, progress: Progress },
    /// The complete payload authenticated.
    Authenticated(V),
    /// The complete payload was checked and found invalid.
    Rejected(V),
    /// The check could not run.
    Fault(V, E),
}

/// A verification session in progress.
pub trait VerifySession: Sized {
    /// The verifier that the session owns.
    type Verifier;

    /// The error reported when the check cannot run.
    type Error;

    /// Polled over a payload that shows `payload`, the session may end in
    /// `outcome`.
    open spec fn polls(
        self,
        payload: Shown,
        outcome: PollOutcome<Self, Self::Verifier, Self::Error>,
    ) -> bool {
        true
    }

    /// Abandoned, the session may give back `verifier`.
    open spec fn abandons(self, verifier: Self::Verifier) -> bool {
        true
    }

    /// Processes one bounded step of `payload`. No relation counts its reads,
    /// for a payload is read through a shared reference.
    fn poll<P: PayloadSource>(self, payload: &P) -> (outcome: PollOutcome<
        Self,
        Self::Verifier,
        Self::Error,
    >)
        ensures
            self.polls(shown(payload), outcome),
    ;

    /// Gives up the session and hands back its verifier.
    fn abandon(self) -> (verifier: Self::Verifier)
        ensures
            self.abandons(verifier),
    ;
}

/// A verifier that judges a payload through a session. [`counts_hashed`] says
/// what is asked of the progress its sessions report.
pub trait SessionVerifier: Sized {
    /// The session that this verifier runs.
    type Session: VerifySession<Verifier = Self>;

    /// The verifier may start `session`.
    open spec fn starts(self, session: Self::Session) -> bool {
        true
    }

    /// Opens a session at the start of the payload.
    fn start(self) -> (session: Self::Session)
        ensures
            self.starts(session),
    ;
}

/// The sessions of verifier `V` count the bytes they hash, which `hashed`
/// reads: a session starts at none, a poll that leaves bytes to hash reports
/// how many it has hashed by then, and they never become fewer.
pub open spec fn counts_hashed<V: SessionVerifier>(hashed: spec_fn(V::Session) -> u64) -> bool {
    &&& forall|verifier: V, session: V::Session| #[trigger]
        verifier.starts(session) ==> hashed(session) == 0
    &&& forall|session: V::Session, payload: Shown, next: V::Session, progress: Progress|
     #[trigger]
        session.polls(payload, PollOutcome::Processing { session: next, progress }) ==> {
            &&& progress.counts_on(hashed(session), payload)
            &&& hashed(next) == progress.done
        }
}

} // verus!
