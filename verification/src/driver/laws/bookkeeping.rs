//! What a new driver and a new job are, and how a job moves.
use crate::capabilities::progress::Progress;
use crate::driver::board::{Board, BoardCapabilities};
use crate::driver::job::{Step, UpdateJob, UpdatePhase, UpdatePoll};
use crate::driver::platform_driver::PlatformDriver;
use crate::platform::{ComponentId, Event};
use vstd::prelude::*;

verus! {

/// A new driver drives the board that it was given, as it is. Nothing is
/// staged, watched or verified, and no update or session is in flight.
pub proof fn law_a_new_driver_has_done_nothing<B: BoardCapabilities, const N: usize>(
    board: Board<B, N>,
    driver: PlatformDriver<B, N>,
)
    requires
        N <= 256,
        call_ensures(PlatformDriver::<B, N>::new, (board,), driver),
    ensures
        driver@.images == board.images@,
        driver@.verifier == board.verifier,
        driver@.boot_controls == board.boot_controls@,
        driver@.boot_watches == board.boot_watches@,
        driver@.component_kinds == board.component_kinds@,
        driver@.svn_floors == board.svn_floors@,
        driver@.report_sink == board.report_sink,
        driver@.updatables == board.updatables@,
        driver@.recovery == board.recovery@,
        driver@.update_staging == board.update_staging,
        driver@.update_verifier == board.update_verifier,
        driver@.update_stall_budget_millis == board.update_stall_budget_millis,
        driver@.staged is None,
        driver@.watching.len() == N,
        forall|i: int| 0 <= i < N ==> !#[trigger] driver@.watching[i],
        driver@.verified_svn.len() == N,
        forall|i: int| 0 <= i < N ==> #[trigger] driver@.verified_svn[i] is None,
        driver@.pending_update is None,
        driver@.verify_session is None,
{
}

/// The board that a driver shows is the one it drives, device by device.
pub proof fn law_the_board_shown_is_the_one_driven<B: BoardCapabilities, const N: usize>(
    driver: &PlatformDriver<B, N>,
    board: &Board<B, N>,
)
    requires
        call_ensures(PlatformDriver::<B, N>::board, (driver,), board),
    ensures
        driver@.images == board.images@,
        driver@.verifier == board.verifier,
        driver@.boot_controls == board.boot_controls@,
        driver@.boot_watches == board.boot_watches@,
        driver@.component_kinds == board.component_kinds@,
        driver@.svn_floors == board.svn_floors@,
        driver@.report_sink == board.report_sink,
        driver@.updatables == board.updatables@,
        driver@.recovery == board.recovery@,
        driver@.update_staging == board.update_staging,
        driver@.update_verifier == board.update_verifier,
        driver@.update_stall_budget_millis == board.update_stall_budget_millis,
{
}

/// A new job is for its component and candidate, and has gone nowhere: it is
/// submitted, no byte is done, staging is not asked for, and its clock stands.
pub proof fn law_a_new_job_is_at_its_start(target: ComponentId, len: u64, job: UpdateJob)
    requires
        call_ensures(UpdateJob::new, (target, len), job),
    ensures
        job.target == target,
        job.len == len,
        job.phase == UpdatePhase::Submitted,
        !job.stage_requested,
        job.progress.done == 0,
        job.progress.total == len,
        job.progress_since_millis is None,
{
}

/// Starting a job's clock sets it only where it stands, and changes nothing
/// else of the job.
pub proof fn law_a_running_clock_is_left_alone(job: &mut UpdateJob, now: u64)
    requires
        call_ensures(UpdateJob::start_clock, (job, now), ()),
    ensures
        final(job).progress_since_millis is Some,
        old(job).progress_since_millis is Some ==> *final(job) == *old(job),
        old(job).progress_since_millis is None ==> final(job).progress_since_millis == Some(now),
        *final(job) == (UpdateJob {
            progress_since_millis: final(job).progress_since_millis,
            ..*old(job)
        }),
{
}

/// A job that works is rejected exactly when no byte was done beyond what it
/// remembers and as many milliseconds as the budget have gone by since one
/// was; otherwise exactly its progress is reported. It remembers the
/// progress, and the time of it if a byte was done.
pub proof fn law_work_is_rejected_only_for_a_stall(
    job: &mut UpdateJob,
    progress: Progress,
    now: u64,
    budget: u64,
    since: u64,
    poll: Option<UpdatePoll>,
)
    requires
        call_ensures(UpdateJob::settle, (job, Step::Working(progress), now, budget), poll),
        since == (match old(job).progress_since_millis {
            Some(since) => since,
            None => now,
        }),
    ensures
        ({
            let still = progress.done <= old(job).progress.done;
            let gone = if now > since {
                now - since
            } else {
                0
            };
            &&& poll is None <==> still && gone >= budget
            &&& poll matches Some(told) ==> told.event is None && told.progress == Some(progress)
            &&& *final(job) == (UpdateJob {
                progress,
                progress_since_millis: if still {
                    old(job).progress_since_millis
                } else {
                    Some(now)
                },
                ..*old(job)
            })
        }),
{
}

/// A job whose candidate authenticated goes on to staging from zero, one that
/// is staged is verified, and one whose step was rejected is left to be
/// rejected.
pub proof fn law_a_settled_step_moves_the_job(
    job: &mut UpdateJob,
    step: Step,
    now: u64,
    budget: u64,
    poll: Option<UpdatePoll>,
)
    requires
        call_ensures(UpdateJob::settle, (job, step, now, budget), poll),
    ensures
        step == Step::Authenticated ==> {
            &&& poll == Some(
                UpdatePoll {
                    event: None,
                    progress: Some(Progress { done: 0, total: old(job).len }),
                },
            )
            &&& *final(job) == (UpdateJob {
                phase: UpdatePhase::Staging,
                progress: Progress { done: 0, total: old(job).len },
                progress_since_millis: Some(now),
                ..*old(job)
            })
        },
        step == Step::Staged ==> {
            &&& poll == Some(
                UpdatePoll { event: Some(Event::UpdateVerified), progress: None },
            )
            &&& *final(job) == (UpdateJob { phase: UpdatePhase::Staged, ..*old(job) })
        },
        step == Step::Rejected ==> poll is None && *final(job) == *old(job),
{
}

} // verus!
