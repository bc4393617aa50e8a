//! The update's way from the request to the device.
use crate::capabilities::payload_source::{shown, PayloadSource};
use crate::capabilities::payload_window::PayloadWindow;
use crate::capabilities::progress::Progress;
use crate::capabilities::updatable::{StageProgress, Updatable, UpdateError};
use crate::capabilities::verify_session::VerifySession;
use crate::driver::board::{Board, BoardCapabilities};
use crate::driver::calls::{called, history, Call};
use crate::driver::error::DriverError;
use crate::driver::job::{stalled, Step, UpdateJob, UpdatePhase, UpdatePoll};
use crate::driver::laws::invariants::law_a_driver_stays_valid;
use crate::driver::state::DriverState;
use crate::driver::steps::{
    activate_update_step, authenticate_update_step, authentication_step, discard_staged_step,
    execute_step, pump_concludes, pump_update_step, request_update_step, staging_step,
    submit_update_step, OutcomeOf,
};
use crate::platform::{ComponentId, Effect, Event};
use vstd::prelude::*;

verus! {

impl UpdateJob {
    /// The candidate is on its way to the device, or there.
    pub open spec fn cleared(self) -> bool {
        self.phase == UpdatePhase::Staging || self.phase == UpdatePhase::Staged
    }

    /// Both are jobs for the same candidate.
    pub open spec fn same_candidate(self, other: UpdateJob) -> bool {
        self.target == other.target && self.len == other.len
    }
}

/// The call pumped the job `job` to the verdict that its candidate is
/// authentic: the verify session, polled over the candidate's part of the
/// staging region, answered so.
pub open spec fn authenticated_by<B: BoardCapabilities>(
    pre: DriverState<B>,
    call: Call,
    job: UpdateJob,
) -> bool {
    &&& call is Pump
    &&& pre.pending_update matches Some(before)
    &&& before.phase == UpdatePhase::Authenticating
    &&& before.same_candidate(job)
    &&& pre.verify_session matches Some(session)
    &&& exists|outcome: OutcomeOf<B>| #[trigger]
        session.polls(shown(&PayloadWindow::over(&pre.update_staging, 0, job.len)), outcome)
            && outcome is Authenticated
}

/// Only a candidate that authenticated gets to staging: a job that is staging
/// or staged after a call was so before it, or the call is the one that
/// authenticated its candidate.
pub proof fn law_staging_follows_authentication<B: BoardCapabilities>(
    pre: DriverState<B>,
    call: Call,
    post: DriverState<B>,
    job: UpdateJob,
)
    requires
        pre.valid(),
        called(pre, call, post),
        post.pending_update == Some(job),
        job.cleared(),
    ensures
        authenticated_by(pre, call, job) || (pre.pending_update matches Some(before)
            && before.cleared() && before.same_candidate(job)),
{
}

/// Nothing is pushed to a device before its candidate authenticated: whenever
/// a driver's job is staging or staged, an earlier call authenticated its
/// candidate, and the job has been staging or staged ever since.
pub proof fn law_every_staged_candidate_was_authenticated<B: BoardCapabilities, const N: usize>(
    board: Board<B, N>,
    states: Seq<DriverState<B>>,
    calls: Seq<Call>,
    k: int,
    job: UpdateJob,
) -> (j: int)
    requires
        history(board, states, calls),
        0 <= k < states.len(),
        states[k].pending_update == Some(job),
        job.cleared(),
    ensures
        0 <= j < k,
        authenticated_by(states[j], calls[j], job),
        forall|i: int| #![trigger states[i]]
            j < i <= k ==> (states[i].pending_update matches Some(since) && since.cleared()
                && since.same_candidate(job)),
    decreases k,
{
    assert(k > 0);
    law_a_driver_stays_valid(board, states, calls, k - 1);
    assert(called(states[k - 1], calls[k - 1], states[k]));
    law_staging_follows_authentication(states[k - 1], calls[k - 1], states[k], job);
    if authenticated_by(states[k - 1], calls[k - 1], job) {
        k - 1
    } else {
        let before = states[k - 1].pending_update->0;
        let j = law_every_staged_candidate_was_authenticated(board, states, calls, k - 1, before);
        assert(authenticated_by(states[j], calls[j], job));
        j
    }
}

/// The device of component `i` took one staging step of the job `job` over
/// its candidate's part of the staging region, and ended in state `device`.
pub open spec fn staged_on_device<B: BoardCapabilities>(
    pre: DriverState<B>,
    job: UpdateJob,
    device: B::Updatable,
) -> bool {
    &&& job.phase == UpdatePhase::Staging
    &&& job.stage_requested
    &&& exists|answer: Result<StageProgress, UpdateError>| #[trigger]
        B::Updatable::stages(
            pre.updatables[job.target.index()],
            shown(&PayloadWindow::over(&pre.update_staging, 0, job.len)),
            answer,
            device,
        )
}

/// A call touches no device but the target of the update in flight. The
/// target takes a staging step only while its job is staging and staging was
/// asked for, and is activated only once its job is staged. Otherwise it is
/// told to drop what it staged.
pub proof fn law_only_the_target_is_touched<B: BoardCapabilities>(
    pre: DriverState<B>,
    call: Call,
    post: DriverState<B>,
    i: int,
)
    requires
        pre.valid(),
        called(pre, call, post),
        0 <= i < pre.count(),
    ensures
        post.updatables[i] == pre.updatables[i] || {
            &&& pre.pending_update matches Some(job)
            &&& job.target.index() == i
            &&& {
                ||| B::Updatable::abandons(pre.updatables[i], post.updatables[i])
                ||| {
                    &&& call is Pump
                    &&& exists|device: B::Updatable| #[trigger]
                        staged_on_device(pre, job, device) && (post.updatables[i] == device
                            || B::Updatable::abandons(device, post.updatables[i]))
                }
                ||| {
                    &&& call == Call::Execute(Effect::ActivateUpdate)
                    &&& job.phase == UpdatePhase::Staged
                    &&& exists|answer: Result<(), UpdateError>| #[trigger]
                        B::Updatable::activates(pre.updatables[i], answer, post.updatables[i])
                }
            }
        },
{
    if let Call::Pump(now) = call {
        if let Some(job) = pre.pending_update {
            if job.phase == UpdatePhase::Staging {
                let poll = choose|poll: UpdatePoll| #[trigger]
                    pump_update_step(pre, now, poll, post);
                let clocked = DriverState { pending_update: Some(job.clocked(now)), ..pre };
                let (stepped, mid) = choose|
                    stepped: Result<Step, DriverError>,
                    mid: DriverState<B>,
                | #[trigger]
                    staging_step(clocked, stepped, mid) && pump_concludes(
                        stepped,
                        mid,
                        now,
                        poll,
                        post,
                    );
                if job.target.index() == i && stepped is Ok {
                    assert(staged_on_device(pre, job, mid.updatables[i]));
                }
            }
        }
    }
}

/// An update verifier that the driver was given is never lost: after every
/// call it is on the board, or in the one session that owns it, and never in
/// both places. It is in a session only while a job is authenticating.
pub proof fn law_the_verifier_has_one_holder<B: BoardCapabilities>(
    pre: DriverState<B>,
    call: Call,
    post: DriverState<B>,
)
    requires
        pre.valid(),
        called(pre, call, post),
        pre.has_verifier(),
    ensures
        (post.update_verifier is Some) != (post.verify_session is Some),
        post.verify_session is Some <==> post.authenticating(),
{
}

/// A session is over when the job it ran for is past authentication or was
/// rejected by the pump: the verifier is back on the board.
pub proof fn law_a_verdict_returns_the_verifier<B: BoardCapabilities>(
    pre: DriverState<B>,
    now: u64,
    poll: UpdatePoll,
    post: DriverState<B>,
)
    requires
        pre.valid(),
        pre.has_verifier(),
        pump_update_step(pre, now, poll, post),
        poll.event is Some || (post.pending_update matches Some(job) && job.cleared()),
    ensures
        post.update_verifier is Some,
        post.verify_session is None,
{
}

/// One update is in flight at a time: while there is a job, a submit is
/// refused, and every refused submit leaves the driver as it was. A submit
/// that is taken records its own job, which is the only way a job appears.
pub proof fn law_one_update_in_flight<B: BoardCapabilities>(
    pre: DriverState<B>,
    target: ComponentId,
    len: u64,
    answer: Result<(), DriverError>,
    post: DriverState<B>,
)
    requires
        pre.valid(),
        submit_update_step(pre, target, len, answer, post),
    ensures
        pre.pending_update is Some ==> answer is Err,
        answer is Err ==> post == pre,
        answer is Ok ==> post.pending_update == Some(UpdateJob::submitted(target, len)),
{
}

/// No call but a submit makes a job appear, or replaces the candidate of the
/// job in flight.
pub proof fn law_jobs_come_only_from_submits<B: BoardCapabilities>(
    pre: DriverState<B>,
    call: Call,
    post: DriverState<B>,
    job: UpdateJob,
)
    requires
        pre.valid(),
        called(pre, call, post),
        post.pending_update == Some(job),
    ensures
        call == Call::Submit(job.target, job.len) || (pre.pending_update matches Some(before)
            && before.same_candidate(job)),
{
}

/// A refused request can never surface as an update: the event that tells the
/// state machine comes exactly of the requests whose job was recorded, and a
/// refusal leaves the driver as it was.
pub proof fn law_no_event_without_a_job<B: BoardCapabilities>(
    pre: DriverState<B>,
    target: ComponentId,
    len: u64,
    answer: Result<Event, DriverError>,
    post: DriverState<B>,
)
    requires
        pre.valid(),
        request_update_step(pre, target, len, answer, post),
    ensures
        match answer {
            Ok(event) => event == Event::UpdateRequest && post.pending_update == Some(
                UpdateJob::submitted(target, len),
            ),
            Err(_) => post == pre,
        },
{
}

/// The only refusal of a discard is having no job. A discard that is taken
/// ends the job, and the verifier is back on the board for the next one.
pub proof fn law_a_discard_ends_the_update<B: BoardCapabilities>(
    pre: DriverState<B>,
    answer: Result<(), DriverError>,
    post: DriverState<B>,
)
    requires
        pre.valid(),
        discard_staged_step(pre, answer, post),
    ensures
        answer == (if pre.pending_update is Some {
            Ok(())
        } else {
            Err(DriverError::NoUpdateJob)
        }),
        answer is Ok ==> {
            &&& post.pending_update is None
            &&& post.verify_session is None
            &&& pre.has_verifier() ==> post.update_verifier is Some
        },
{
}

/// A refused activation leaves the job in flight, so that a discard still
/// finds it. An activation that is taken ends the job.
pub proof fn law_a_refused_activation_can_be_discarded<B: BoardCapabilities>(
    pre: DriverState<B>,
    answer: Result<(), DriverError>,
    mid: DriverState<B>,
    discarded: Result<(), DriverError>,
    post: DriverState<B>,
)
    requires
        pre.valid(),
        activate_update_step(pre, answer, mid),
        discard_staged_step(mid, discarded, post),
    ensures
        answer is Err ==> mid.pending_update == pre.pending_update,
        answer is Err && pre.pending_update is Some ==> discarded is Ok,
        answer is Ok ==> mid.pending_update is None,
        answer is Ok ==> (pre.pending_update matches Some(job) && job.phase == UpdatePhase::Staged),
{
}

/// The call ended an update, one way or another: it was activated, discarded,
/// put off or given up.
pub open spec fn ends_the_update(effect: Effect) -> bool {
    ||| effect is ActivateUpdate
    ||| effect is DiscardStaged
    ||| effect is ReportUpdateDeferred
    ||| effect is ReportUpdateAborted
}

/// Once an update has ended, however it ended and whatever it was doing, it
/// does not block the next one: a submit for a component that the board has,
/// of a candidate that fits whatever length the staging region reports, is
/// taken, and the verifier is on the board to authenticate it.
pub proof fn law_an_ended_update_frees_the_slot<B: BoardCapabilities>(
    pre: DriverState<B>,
    effect: Effect,
    done: Option<Event>,
    mid: DriverState<B>,
    target: ComponentId,
    len: u64,
    answer: Result<(), DriverError>,
    post: DriverState<B>,
)
    requires
        pre.valid(),
        ends_the_update(effect),
        execute_step(pre, effect, Ok(done), mid),
        submit_update_step(mid, target, len, answer, post),
        mid.knows(target),
        forall|reported: u64| #[trigger]
            mid.update_staging.reports_len(reported) ==> len <= reported,
    ensures
        answer is Ok,
        post.pending_update == Some(UpdateJob::submitted(target, len)),
        post.verify_session is None,
        pre.has_verifier() ==> post.update_verifier is Some,
{
}

/// A submitted job can be authenticated: with a verifier that the driver was
/// given, and a candidate that fits whatever length the staging region
/// reports, a session starts.
pub proof fn law_a_submitted_job_can_be_authenticated<B: BoardCapabilities>(
    pre: DriverState<B>,
    job: UpdateJob,
    answer: Result<(), DriverError>,
    post: DriverState<B>,
)
    requires
        pre.valid(),
        pre.has_verifier(),
        pre.pending_update == Some(job),
        job.phase == UpdatePhase::Submitted,
        forall|reported: u64| #[trigger]
            pre.update_staging.reports_len(reported) ==> job.len <= reported,
        authenticate_update_step(pre, answer, post),
    ensures
        answer is Ok,
        post.verify_session is Some,
        post.authenticating(),
{
}

/// The pump never takes a job away or changes its candidate: that is for the
/// state machine. It tells of a verdict in the round that reaches it, and a
/// job that is staged or submitted stays silent.
pub proof fn law_the_pump_keeps_the_job<B: BoardCapabilities>(
    pre: DriverState<B>,
    now: u64,
    poll: UpdatePoll,
    post: DriverState<B>,
)
    requires
        pre.valid(),
        pump_update_step(pre, now, poll, post),
    ensures
        match (pre.pending_update, post.pending_update) {
            (Some(before), Some(after)) => {
                &&& after.same_candidate(before)
                &&& poll.event == Some(Event::UpdateVerified) <==> before.phase
                    == UpdatePhase::Staging && after.phase == UpdatePhase::Staged
                &&& poll.event == Some(Event::UpdateRejected) <==> (before.phase
                    == UpdatePhase::Authenticating || before.phase == UpdatePhase::Staging)
                    && after.phase == UpdatePhase::Submitted
                &&& poll.event is Some ==> poll.event == Some(Event::UpdateVerified) || poll.event
                    == Some(Event::UpdateRejected)
                &&& before.phase == UpdatePhase::Submitted || before.phase == UpdatePhase::Staged
                    ==> poll == UpdatePoll::quiet() && after == before.clocked(now)
            },
            (None, None) => poll == UpdatePoll::quiet() && post == pre,
            _ => false,
        },
{
}

/// The step that a pump of the job took.
pub open spec fn took_step<B: BoardCapabilities>(
    pre: DriverState<B>,
    now: u64,
    job: UpdateJob,
    stepped: Result<Step, DriverError>,
    mid: DriverState<B>,
) -> bool {
    let clocked = DriverState { pending_update: Some(job.clocked(now)), ..pre };
    match job.phase {
        UpdatePhase::Authenticating => authentication_step(clocked, stepped, mid),
        UpdatePhase::Staging => staging_step(clocked, stepped, mid),
        _ => false,
    }
}

/// What ends a job: its step could not run, the candidate or the device
/// failed, or no bytes moved for as long as the stall budget.
pub open spec fn ends_the_job(
    job: UpdateJob,
    stepped: Result<Step, DriverError>,
    now: u64,
    budget: u64,
) -> bool {
    match stepped {
        Err(_) => true,
        Ok(Step::Rejected) => true,
        Ok(Step::Working(progress)) => progress.done <= job.progress.done && stalled(
            job.since(now),
            now,
            budget,
        ),
        Ok(_) => false,
    }
}

/// The pump rejects a job exactly when there is a cause, and then the job is
/// submitted again, with nothing asked of it: staging has to be asked for
/// anew.
pub proof fn law_a_rejection_has_a_cause<B: BoardCapabilities>(
    pre: DriverState<B>,
    now: u64,
    poll: UpdatePoll,
    post: DriverState<B>,
    job: UpdateJob,
)
    requires
        pre.valid(),
        pump_update_step(pre, now, poll, post),
        pre.pending_update == Some(job),
        job.phase == UpdatePhase::Authenticating || job.phase == UpdatePhase::Staging,
    ensures
        exists|stepped: Result<Step, DriverError>, mid: DriverState<B>| #[trigger]
            took_step(pre, now, job, stepped, mid) && (ends_the_job(
                job,
                stepped,
                now,
                pre.update_stall_budget_millis,
            ) <==> poll.event == Some(Event::UpdateRejected)),
        poll.event == Some(Event::UpdateRejected) ==> (post.pending_update matches Some(after)
            && after.phase == UpdatePhase::Submitted && !after.stage_requested),
{
    let clocked = DriverState { pending_update: Some(job.clocked(now)), ..pre };
    if job.phase == UpdatePhase::Authenticating {
        let (stepped, mid) = choose|stepped: Result<Step, DriverError>, mid: DriverState<B>|
         #[trigger]
            authentication_step(clocked, stepped, mid) && pump_concludes(
                stepped,
                mid,
                now,
                poll,
                post,
            );
        assert(took_step(pre, now, job, stepped, mid));
    } else {
        let (stepped, mid) = choose|stepped: Result<Step, DriverError>, mid: DriverState<B>|
         #[trigger]
            staging_step(clocked, stepped, mid) && pump_concludes(stepped, mid, now, poll, post);
        assert(took_step(pre, now, job, stepped, mid));
    }
}

/// A device that was never asked to stage is not staged on: pumped while
/// staging without a request, a job is rejected, and its device is told to
/// drop what it has.
pub proof fn law_no_staging_without_a_request<B: BoardCapabilities>(
    pre: DriverState<B>,
    now: u64,
    poll: UpdatePoll,
    post: DriverState<B>,
    job: UpdateJob,
)
    requires
        pre.valid(),
        pump_update_step(pre, now, poll, post),
        pre.pending_update == Some(job),
        job.phase == UpdatePhase::Staging,
        !job.stage_requested,
    ensures
        poll == UpdatePoll::verdict(Event::UpdateRejected),
        B::Updatable::abandons(
            pre.updatables[job.target.index()],
            post.updatables[job.target.index()],
        ),
{
}

/// The state machine is told that the update is verified only by a device
/// that answered that it holds the complete payload.
pub proof fn law_verified_means_the_device_is_ready<B: BoardCapabilities>(
    pre: DriverState<B>,
    now: u64,
    poll: UpdatePoll,
    post: DriverState<B>,
    job: UpdateJob,
)
    requires
        pre.valid(),
        pump_update_step(pre, now, poll, post),
        pre.pending_update == Some(job),
        poll.event == Some(Event::UpdateVerified),
    ensures
        job.phase == UpdatePhase::Staging,
        job.stage_requested,
        B::Updatable::stages(
            pre.updatables[job.target.index()],
            shown(&PayloadWindow::over(&pre.update_staging, 0, job.len)),
            Ok(StageProgress::Ready),
            post.updatables[job.target.index()],
        ),
{
}

/// Staging is asked for by its own effect alone: a job for which it is asked
/// after a call was so before it, or the call is that effect.
pub proof fn law_only_the_effect_asks_for_staging<B: BoardCapabilities>(
    pre: DriverState<B>,
    call: Call,
    post: DriverState<B>,
    job: UpdateJob,
)
    requires
        pre.valid(),
        called(pre, call, post),
        post.pending_update == Some(job),
        job.stage_requested,
    ensures
        pre.pending_update matches Some(before) && before.same_candidate(job) && (
        before.stage_requested || call == Call::Execute(Effect::StageUpdate)),
{
}

/// Bytes are pushed only for a state machine that asked for it: whenever
/// staging is asked for of a driver's job, an earlier call was the effect
/// that asks for it, and the same candidate has been pending ever since, with
/// the request standing.
pub proof fn law_every_staging_was_asked_for<B: BoardCapabilities, const N: usize>(
    board: Board<B, N>,
    states: Seq<DriverState<B>>,
    calls: Seq<Call>,
    k: int,
    job: UpdateJob,
) -> (j: int)
    requires
        history(board, states, calls),
        0 <= k < states.len(),
        states[k].pending_update == Some(job),
        job.stage_requested,
    ensures
        0 <= j < k,
        calls[j] == Call::Execute(Effect::StageUpdate),
        states[j].pending_update matches Some(asked) && asked.same_candidate(job),
        forall|i: int| #![trigger states[i]]
            j < i <= k ==> (states[i].pending_update matches Some(since)
                && since.stage_requested && since.same_candidate(job)),
    decreases k,
{
    assert(k > 0);
    law_a_driver_stays_valid(board, states, calls, k - 1);
    assert(called(states[k - 1], calls[k - 1], states[k]));
    law_only_the_effect_asks_for_staging(states[k - 1], calls[k - 1], states[k], job);
    let before = states[k - 1].pending_update->0;
    if before.stage_requested {
        law_every_staging_was_asked_for(board, states, calls, k - 1, before)
    } else {
        k - 1
    }
}

/// Progress restarts the stall budget: a job whose bytes moved at `now` is
/// not rejected for a stall before a whole budget has gone by, whatever its
/// next step reports.
pub proof fn law_progress_restarts_the_budget(
    job: UpdateJob,
    moved: Progress,
    now: u64,
    next: Progress,
    later: u64,
    budget: u64,
)
    requires
        moved.done > job.progress.done,
        budget > 0,
        later - now < budget,
    ensures
        ({
            let (after, poll) = job.settled(Step::Working(moved), now, budget);
            &&& poll == Some(UpdatePoll::working(moved))
            &&& after.settled(Step::Working(next), later, budget).1 == Some(
                UpdatePoll::working(next),
            )
        }),
{
}

/// A job whose bytes do not move is rejected at the first pump that comes a
/// whole budget after they last did, and at none before.
pub proof fn law_a_stall_is_rejected_at_the_budget(
    job: UpdateJob,
    since: u64,
    still: Progress,
    now: u64,
    budget: u64,
)
    requires
        job.progress_since_millis == Some(since),
        still.done <= job.progress.done,
        budget > 0,
    ensures
        job.settled(Step::Working(still), now, budget).1 is None <==> now - since >= budget,
        job.settled(Step::Working(still), now, budget).0.progress_since_millis == Some(since),
{
}

} // verus!
