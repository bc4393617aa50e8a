//! How the progress of an update counts.
//!
//! `written` reads how many bytes a device has staged of the payload it is
//! taking, and `hashed` how many bytes a verify session has hashed.
use crate::capabilities::progress::Progress;
use crate::capabilities::updatable::counts_written;
use crate::capabilities::verify_session::counts_hashed;
use crate::driver::board::BoardCapabilities;
use crate::driver::calls::{called, went_through, Call};
use crate::driver::job::{UpdateJob, UpdatePhase, UpdatePoll};
use crate::driver::laws::invariants::law_every_call_keeps_the_driver_valid;
use crate::driver::state::{DriverState, SessionOf};
use crate::driver::steps::pump_update_step;
use vstd::prelude::*;

verus! {

/// The board's devices and update verifier count their progress.
pub open spec fn counts_progress<B: BoardCapabilities>(
    written: spec_fn(B::Updatable) -> u64,
    hashed: spec_fn(SessionOf<B>) -> u64,
) -> bool {
    counts_written(written) && counts_hashed::<B::UpdateVerifier>(hashed)
}

/// The job in flight is not ahead of the session or the device that works on
/// it.
pub open spec fn counted<B: BoardCapabilities>(
    written: spec_fn(B::Updatable) -> u64,
    hashed: spec_fn(SessionOf<B>) -> u64,
    state: DriverState<B>,
) -> bool {
    state.pending_update matches Some(job) ==> match job.phase {
        UpdatePhase::Authenticating => state.verify_session matches Some(session)
            && job.progress.done <= hashed(session),
        UpdatePhase::Staging => job.progress.done <= written(
            state.updatables[job.target.index()],
        ),
        _ => true,
    }
}

/// The progress that a round of the pump reports never exceeds its total. It
/// is what the job remembers, and the job is then not ahead of who works on
/// it. Staging starts to count at zero.
pub proof fn law_reported_progress_is_in_bounds<B: BoardCapabilities>(
    written: spec_fn(B::Updatable) -> u64,
    hashed: spec_fn(SessionOf<B>) -> u64,
    pre: DriverState<B>,
    now: u64,
    poll: UpdatePoll,
    post: DriverState<B>,
    before: UpdateJob,
    progress: Progress,
)
    requires
        counts_progress::<B>(written, hashed),
        pre.valid(),
        pump_update_step(pre, now, poll, post),
        pre.pending_update == Some(before),
        poll.progress == Some(progress),
    ensures
        progress.in_bounds(),
        post.pending_update matches Some(after) && {
            &&& after.progress == progress
            &&& after.phase != before.phase ==> after.phase == UpdatePhase::Staging
                && progress.done == 0
        },
        counted(written, hashed, post),
{
}

/// While a job stays in one phase, no call takes its progress back, and it
/// stays behind who works on it.
pub proof fn law_no_call_takes_progress_back<B: BoardCapabilities>(
    written: spec_fn(B::Updatable) -> u64,
    hashed: spec_fn(SessionOf<B>) -> u64,
    pre: DriverState<B>,
    call: Call,
    post: DriverState<B>,
    before: UpdateJob,
    after: UpdateJob,
)
    requires
        counts_progress::<B>(written, hashed),
        pre.valid(),
        counted(written, hashed, pre),
        called(pre, call, post),
        pre.pending_update == Some(before),
        post.pending_update == Some(after),
        before.phase == after.phase,
    ensures
        before.progress.done <= after.progress.done,
        counted(written, hashed, post),
{
}

/// Progress is monotonic: over any calls through which a job stays in one
/// phase, the progress it remembers does not go back.
pub proof fn law_progress_is_monotonic<B: BoardCapabilities>(
    written: spec_fn(B::Updatable) -> u64,
    hashed: spec_fn(SessionOf<B>) -> u64,
    states: Seq<DriverState<B>>,
    calls: Seq<Call>,
    phase: UpdatePhase,
)
    requires
        counts_progress::<B>(written, hashed),
        went_through(states, calls),
        states[0].valid(),
        counted(written, hashed, states[0]),
        forall|i: int| #![trigger states[i]]
            0 <= i < states.len() ==> (states[i].pending_update matches Some(job) && job.phase
                == phase),
    ensures
        states.last().valid(),
        counted(written, hashed, states.last()),
        states[0].pending_update->0.progress.done
            <= states.last().pending_update->0.progress.done,
    decreases calls.len(),
{
    if calls.len() > 0 {
        let n = calls.len() - 1;
        let fewer = states.drop_last();
        assert forall|k: int| #![trigger calls.drop_last()[k]] 0 <= k < n implies called(
            fewer[k],
            calls.drop_last()[k],
            fewer[k + 1],
        ) by {
            assert(called(states[k], calls[k], states[k + 1]));
        }
        law_progress_is_monotonic(written, hashed, fewer, calls.drop_last(), phase);
        assert(called(states[n], calls[n], states[n + 1]));
        law_every_call_keeps_the_driver_valid(states[n], calls[n], states[n + 1]);
        law_no_call_takes_progress_back(
            written,
            hashed,
            states[n],
            calls[n],
            states[n + 1],
            states[n].pending_update->0,
            states[n + 1].pending_update->0,
        );
    }
}

} // verus!
