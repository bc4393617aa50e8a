//! What a call does to the update in flight.
//!
//! Each law speaks of a call of the executor itself: of the driver before and
//! after it, of its answer, and of what the board answered.
use crate::capabilities::payload_source::{shown, PayloadSource};
use crate::capabilities::payload_window::PayloadWindow;
use crate::capabilities::progress::Progress;
use crate::capabilities::updatable::{StageProgress, Updatable, UpdateError};
use crate::capabilities::verify_session::{PollOutcome, SessionVerifier, VerifySession};
use crate::driver::board::BoardCapabilities;
use crate::driver::error::DriverError;
use crate::driver::job::{UpdateJob, UpdatePhase, UpdatePoll};
use crate::driver::platform_driver::{request_update, PlatformDriver};
use crate::driver::state::{DriverState, SessionOf};
use crate::platform::{ComponentId, Event};
use vstd::prelude::*;

verus! {

/// A submit is taken exactly when the board has the component, the candidate
/// fits the length that the staging region reported, and no update is in
/// flight; each of these is refused for its own reason, in that order. A
/// submit that is taken records a job at its start, for that component and
/// candidate, and one that is refused changes nothing.
pub proof fn law_a_submit_records_its_job<B: BoardCapabilities, const N: usize>(
    driver: &mut PlatformDriver<B, N>,
    target: ComponentId,
    len: u64,
    answer: Result<(), DriverError>,
)
    requires
        old(driver)@.valid(),
        call_ensures(PlatformDriver::<B, N>::submit_update, (driver, target, len), answer),
    ensures
        ({
            let (pre, post) = (old(driver)@, final(driver)@);
            &&& target.0 >= pre.images.len() ==> answer == Err::<(), _>(
                DriverError::UnknownComponent,
            )
            &&& target.0 < pre.images.len() ==> exists|reported: u64| #[trigger]
                pre.update_staging.reports_len(reported) && {
                    &&& len > reported <==> answer == Err::<(), _>(DriverError::CandidateOutOfRange)
                    &&& len <= reported && pre.pending_update is Some <==> answer == Err::<(), _>(
                        DriverError::UpdateBusy,
                    )
                    &&& len <= reported && pre.pending_update is None <==> answer is Ok
                }
            &&& answer is Err ==> post == pre
            &&& answer is Ok ==> post == DriverState {
                pending_update: Some(
                    UpdateJob {
                        target,
                        len,
                        phase: UpdatePhase::Submitted,
                        stage_requested: false,
                        progress: Progress { done: 0, total: len },
                        progress_since_millis: None,
                    },
                ),
                ..pre
            }
        }),
{
}

/// A request is taken exactly when its job is recorded, and then answers the
/// event that tells the state machine of it. Every refusal is for the reason
/// that a submit has, and changes nothing.
pub proof fn law_a_request_records_and_tells<B: BoardCapabilities, const N: usize>(
    driver: &mut PlatformDriver<B, N>,
    target: ComponentId,
    len: u64,
    answer: Result<Event, DriverError>,
)
    requires
        old(driver)@.valid(),
        call_ensures(request_update::<B, N>, (driver, target, len), answer),
    ensures
        ({
            let (pre, post) = (old(driver)@, final(driver)@);
            &&& target.0 >= pre.images.len() ==> answer == Err::<Event, _>(
                DriverError::UnknownComponent,
            )
            &&& target.0 < pre.images.len() ==> exists|reported: u64| #[trigger]
                pre.update_staging.reports_len(reported) && answer == (if len > reported {
                    Err(DriverError::CandidateOutOfRange)
                } else if pre.pending_update is Some {
                    Err(DriverError::UpdateBusy)
                } else {
                    Ok(Event::UpdateRequest)
                })
            &&& answer is Err ==> post == pre
            &&& answer is Ok ==> post == DriverState {
                pending_update: Some(
                    UpdateJob {
                        target,
                        len,
                        phase: UpdatePhase::Submitted,
                        stage_requested: false,
                        progress: Progress { done: 0, total: len },
                        progress_since_millis: None,
                    },
                ),
                ..pre
            }
        }),
{
}

/// The driver tells the target of the update in flight, and of none if there
/// is none.
pub proof fn law_the_target_in_flight_is_told<B: BoardCapabilities, const N: usize>(
    driver: &PlatformDriver<B, N>,
    target: Option<ComponentId>,
)
    requires
        call_ensures(PlatformDriver::<B, N>::pending_update, (driver,), target),
    ensures
        target is Some <==> driver@.pending_update is Some,
        target matches Some(id) ==> driver@.pending_update->0.target == id,
{
}

/// A discard is refused exactly when there is no job, and then changes
/// nothing. Whatever the job's phase, a discard that is taken tells the
/// device of its target to drop what it staged, and no other device; it ends
/// the session, whose verifier goes back to the board; and the job is gone.
/// Nothing else changes.
pub proof fn law_a_discard_tells_the_device<B: BoardCapabilities, const N: usize>(
    driver: &mut PlatformDriver<B, N>,
    answer: Result<(), DriverError>,
)
    requires
        old(driver)@.valid(),
        call_ensures(PlatformDriver::<B, N>::discard_staged, (driver,), answer),
    ensures
        ({
            let (pre, post) = (old(driver)@, final(driver)@);
            &&& pre.pending_update is None ==> {
                &&& answer == Err::<(), _>(DriverError::NoUpdateJob)
                &&& post == pre
            }
            &&& pre.pending_update matches Some(job) ==> {
                let t = job.target.0 as int;
                &&& answer == Ok::<(), DriverError>(())
                &&& B::Updatable::abandons(pre.updatables[t], post.updatables[t])
                &&& match pre.verify_session {
                    Some(session) => post.update_verifier matches Some(verifier)
                        && session.abandons(verifier),
                    None => post.update_verifier == pre.update_verifier,
                }
                &&& post == DriverState {
                    updatables: pre.updatables.update(t, post.updatables[t]),
                    update_verifier: post.update_verifier,
                    verify_session: None,
                    pending_update: None,
                    ..pre
                }
            }
        }),
{
}

/// A session starts, from the board's own update verifier, exactly when the
/// job in flight is submitted, its candidate fits the length that the staging
/// region reported, and the verifier is there. The job is then
/// authenticating, and is otherwise what it was. A refusal changes nothing.
pub proof fn law_authentication_starts_a_session<B: BoardCapabilities, const N: usize>(
    driver: &mut PlatformDriver<B, N>,
    answer: Result<(), DriverError>,
)
    requires
        old(driver)@.valid(),
        call_ensures(PlatformDriver::<B, N>::authenticate_update, (driver,), answer),
    ensures
        ({
            let (pre, post) = (old(driver)@, final(driver)@);
            &&& !(pre.pending_update matches Some(job) && job.phase == UpdatePhase::Submitted)
                ==> answer == Err::<(), _>(DriverError::NoUpdateJob)
            &&& pre.pending_update matches Some(job) ==> (job.phase == UpdatePhase::Submitted
                ==> exists|reported: u64| #[trigger]
                pre.update_staging.reports_len(reported) && {
                    &&& job.len > reported <==> answer == Err::<(), _>(
                        DriverError::CandidateOutOfRange,
                    )
                    &&& job.len <= reported && pre.update_verifier is None <==> answer == Err::<
                        (),
                        _,
                    >(DriverError::NoUpdateJob)
                    &&& job.len <= reported && pre.update_verifier is Some <==> answer is Ok
                })
            &&& answer is Err ==> post == pre
            &&& answer is Ok ==> {
                &&& pre.update_verifier matches Some(verifier)
                &&& post.verify_session matches Some(session)
                &&& verifier.starts(session)
                &&& post == DriverState {
                    update_verifier: None,
                    verify_session: Some(session),
                    pending_update: Some(
                        UpdateJob {
                            phase: UpdatePhase::Authenticating,
                            ..pre.pending_update->0
                        },
                    ),
                    ..pre
                }
            }
        }),
{
}

/// Asking for staging is taken exactly when there is a job, of whatever
/// phase, and changes nothing but that staging is asked for of it.
pub proof fn law_staging_is_asked_of_the_job<B: BoardCapabilities, const N: usize>(
    driver: &mut PlatformDriver<B, N>,
    answer: Result<(), DriverError>,
)
    requires
        old(driver)@.valid(),
        call_ensures(PlatformDriver::<B, N>::stage_update, (driver,), answer),
    ensures
        ({
            let (pre, post) = (old(driver)@, final(driver)@);
            match pre.pending_update {
                None => answer == Err::<(), _>(DriverError::NoUpdateJob) && post == pre,
                Some(job) => {
                    &&& answer == Ok::<(), DriverError>(())
                    &&& post == DriverState {
                        pending_update: Some(UpdateJob { stage_requested: true, ..job }),
                        ..pre
                    }
                },
            }
        }),
{
}

/// The device of the job's target is asked to activate exactly when the job
/// is staged. The activation succeeds exactly when the device takes it, and
/// only then is the job gone. Nothing else changes.
pub proof fn law_an_activation_reaches_the_device<B: BoardCapabilities, const N: usize>(
    driver: &mut PlatformDriver<B, N>,
    answer: Result<(), DriverError>,
)
    requires
        old(driver)@.valid(),
        call_ensures(PlatformDriver::<B, N>::activate_update, (driver,), answer),
    ensures
        ({
            let (pre, post) = (old(driver)@, final(driver)@);
            &&& !(pre.pending_update matches Some(job) && job.phase == UpdatePhase::Staged) ==> {
                &&& answer == Err::<(), _>(DriverError::NoUpdateJob)
                &&& post == pre
            }
            &&& pre.pending_update matches Some(job) ==> (job.phase == UpdatePhase::Staged
                ==> exists|taken: Result<(), UpdateError>| #[trigger]
                B::Updatable::activates(
                    pre.updatables[job.target.0 as int],
                    taken,
                    post.updatables[job.target.0 as int],
                ) && {
                    &&& answer is Ok <==> taken is Ok
                    &&& answer is Err ==> answer == Err::<(), _>(DriverError::UpdateFault)
                    &&& post == DriverState {
                        updatables: pre.updatables.update(
                            job.target.0 as int,
                            post.updatables[job.target.0 as int],
                        ),
                        pending_update: if taken is Ok {
                            None
                        } else {
                            Some(job)
                        },
                        ..pre
                    }
                })
        }),
{
}

/// Without a job, or with one that is submitted or staged, the pump is silent
/// and touches no device. All it does is start the clock of a job that has
/// none.
pub proof fn law_the_pump_rests<B: BoardCapabilities, const N: usize>(
    driver: &mut PlatformDriver<B, N>,
    now: u64,
    poll: UpdatePoll,
)
    requires
        old(driver)@.valid(),
        call_ensures(PlatformDriver::<B, N>::pump_update, (driver, now), poll),
        old(driver)@.pending_update matches Some(job) ==> job.phase == UpdatePhase::Submitted
            || job.phase == UpdatePhase::Staged,
    ensures
        ({
            let (pre, post) = (old(driver)@, final(driver)@);
            &&& poll.event is None
            &&& poll.progress is None
            &&& post == DriverState {
                pending_update: match pre.pending_update {
                    None => None,
                    Some(job) => Some(
                        UpdateJob {
                            progress_since_millis: Some(
                                match job.progress_since_millis {
                                    Some(since) => since,
                                    None => now,
                                },
                            ),
                            ..job
                        },
                    ),
                },
                ..pre
            }
        }),
{
}

/// A job that authenticates takes one poll of its session, over its
/// candidate's part of the staging region, and what comes of it is the
/// session's answer:
///
/// * A session that goes on is reported at exactly its progress. It is
///   rejected only if no byte was hashed beyond what the job remembers, and
///   as many milliseconds as the stall budget have gone by since one was.
/// * An authentic candidate goes on to staging, which counts from zero.
/// * A candidate that was rejected, or that could not be checked, or that no
///   longer fits the length that the region reported, is rejected.
///
/// A rejection gives the verifier back to the board and tells the target's
/// device to drop what it has; otherwise no device is touched.
pub proof fn law_a_pump_follows_the_session<B: BoardCapabilities, const N: usize>(
    driver: &mut PlatformDriver<B, N>,
    now: u64,
    poll: UpdatePoll,
    job: UpdateJob,
    since: u64,
)
    requires
        old(driver)@.valid(),
        call_ensures(PlatformDriver::<B, N>::pump_update, (driver, now), poll),
        old(driver)@.pending_update == Some(job),
        job.phase == UpdatePhase::Authenticating,
        since == (match job.progress_since_millis {
            Some(since) => since,
            None => now,
        }),
    ensures
        ({
            let (pre, post) = (old(driver)@, final(driver)@);
            let t = job.target.0 as int;
            let session = pre.verify_session->0;
            let rejected = UpdatePoll { event: Some(Event::UpdateRejected), progress: None };
            &&& pre.verify_session is Some
            &&& exists|reported: u64| #[trigger]
                pre.update_staging.reports_len(reported) && if job.len > reported {
                    &&& poll == rejected
                    &&& post.update_verifier matches Some(verifier) && session.abandons(verifier)
                    &&& B::Updatable::abandons(pre.updatables[t], post.updatables[t])
                    &&& post == DriverState {
                        verify_session: None,
                        update_verifier: post.update_verifier,
                        updatables: pre.updatables.update(t, post.updatables[t]),
                        pending_update: Some(
                            UpdateJob {
                                phase: UpdatePhase::Submitted,
                                stage_requested: false,
                                progress_since_millis: Some(since),
                                ..job
                            },
                        ),
                        ..pre
                    }
                } else {
                    exists|
                        outcome: PollOutcome<
                            SessionOf<B>,
                            B::UpdateVerifier,
                            <SessionOf<B> as VerifySession>::Error,
                        >,
                    | #[trigger]
                        session.polls(
                            shown(&PayloadWindow::over(&pre.update_staging, 0, job.len)),
                            outcome,
                        ) && match outcome {
                            PollOutcome::Processing { session: next, progress } => {
                                let still = progress.done <= job.progress.done;
                                let spent = (if now > since {
                                    now - since
                                } else {
                                    0
                                }) >= pre.update_stall_budget_millis;
                                if still && spent {
                                    &&& poll == rejected
                                    &&& post.update_verifier matches Some(verifier)
                                        && next.abandons(verifier)
                                    &&& B::Updatable::abandons(
                                        pre.updatables[t],
                                        post.updatables[t],
                                    )
                                    &&& post == DriverState {
                                        verify_session: None,
                                        update_verifier: post.update_verifier,
                                        updatables: pre.updatables.update(t, post.updatables[t]),
                                        pending_update: Some(
                                            UpdateJob {
                                                phase: UpdatePhase::Submitted,
                                                stage_requested: false,
                                                progress,
                                                progress_since_millis: Some(since),
                                                ..job
                                            },
                                        ),
                                        ..pre
                                    }
                                } else {
                                    &&& poll == (UpdatePoll {
                                        event: None,
                                        progress: Some(progress),
                                    })
                                    &&& post == DriverState {
                                        verify_session: Some(next),
                                        pending_update: Some(
                                            UpdateJob {
                                                progress,
                                                progress_since_millis: Some(
                                                    if still {
                                                        since
                                                    } else {
                                                        now
                                                    },
                                                ),
                                                ..job
                                            },
                                        ),
                                        ..pre
                                    }
                                }
                            },
                            PollOutcome::Authenticated(verifier) => {
                                let none = Progress { done: 0, total: job.len };
                                &&& poll == (UpdatePoll { event: None, progress: Some(none) })
                                &&& post == DriverState {
                                    verify_session: None,
                                    update_verifier: Some(verifier),
                                    pending_update: Some(
                                        UpdateJob {
                                            phase: UpdatePhase::Staging,
                                            progress: none,
                                            progress_since_millis: Some(now),
                                            ..job
                                        },
                                    ),
                                    ..pre
                                }
                            },
                            PollOutcome::Rejected(verifier)
                            | PollOutcome::Fault(verifier, _) => {
                                &&& poll == rejected
                                &&& B::Updatable::abandons(pre.updatables[t], post.updatables[t])
                                &&& post == DriverState {
                                    verify_session: None,
                                    update_verifier: Some(verifier),
                                    updatables: pre.updatables.update(t, post.updatables[t]),
                                    pending_update: Some(
                                        UpdateJob {
                                            phase: UpdatePhase::Submitted,
                                            stage_requested: false,
                                            progress_since_millis: Some(since),
                                            ..job
                                        },
                                    ),
                                    ..pre
                                }
                            },
                        }
                }
        }),
{
}

/// A job that is staging takes one step of its target's device, over its
/// candidate's part of the staging region, and what comes of it is the
/// device's answer:
///
/// * A transfer that goes on is reported at exactly its progress, and the job
///   stays in staging. It is rejected only if no byte was written beyond what
///   the job remembers, and as many milliseconds as the stall budget have
///   gone by since one was.
/// * A device that is ready ends the staging, and the state machine is told
///   that the update is verified.
/// * A device that failed rejects the update. So does a candidate that no
///   longer fits the length that the region reported, and a job of which
///   staging was not asked for: then the device takes no step.
///
/// A rejection tells the device to drop what it has. No other device is
/// touched, and nothing else changes.
pub proof fn law_a_pump_follows_the_device<B: BoardCapabilities, const N: usize>(
    driver: &mut PlatformDriver<B, N>,
    now: u64,
    poll: UpdatePoll,
    job: UpdateJob,
    since: u64,
)
    requires
        old(driver)@.valid(),
        call_ensures(PlatformDriver::<B, N>::pump_update, (driver, now), poll),
        old(driver)@.pending_update == Some(job),
        job.phase == UpdatePhase::Staging,
        since == (match job.progress_since_millis {
            Some(since) => since,
            None => now,
        }),
    ensures
        ({
            let (pre, post) = (old(driver)@, final(driver)@);
            let t = job.target.0 as int;
            let rejected = UpdatePoll { event: Some(Event::UpdateRejected), progress: None };
            let dropped = UpdateJob {
                phase: UpdatePhase::Submitted,
                stage_requested: false,
                progress_since_millis: Some(since),
                ..job
            };
            &&& forall|i: int|
                0 <= i < pre.updatables.len() && i != t ==> #[trigger] post.updatables[i]
                    == pre.updatables[i]
            &&& post == DriverState {
                updatables: pre.updatables.update(t, post.updatables[t]),
                pending_update: post.pending_update,
                ..pre
            }
            &&& !job.stage_requested ==> {
                &&& poll == rejected
                &&& B::Updatable::abandons(pre.updatables[t], post.updatables[t])
                &&& post.pending_update == Some(dropped)
            }
            &&& job.stage_requested ==> exists|reported: u64| #[trigger]
                pre.update_staging.reports_len(reported) && if job.len > reported {
                    &&& poll == rejected
                    &&& B::Updatable::abandons(pre.updatables[t], post.updatables[t])
                    &&& post.pending_update == Some(dropped)
                } else {
                    exists|answer: Result<StageProgress, UpdateError>, device: B::Updatable|
                     #[trigger]
                        B::Updatable::stages(
                            pre.updatables[t],
                            shown(&PayloadWindow::over(&pre.update_staging, 0, job.len)),
                            answer,
                            device,
                        ) && match answer {
                            Ok(StageProgress::Transferring(progress)) => {
                                let still = progress.done <= job.progress.done;
                                let spent = (if now > since {
                                    now - since
                                } else {
                                    0
                                }) >= pre.update_stall_budget_millis;
                                if still && spent {
                                    &&& poll == rejected
                                    &&& B::Updatable::abandons(device, post.updatables[t])
                                    &&& post.pending_update == Some(
                                        UpdateJob { progress, ..dropped },
                                    )
                                } else {
                                    &&& poll == (UpdatePoll {
                                        event: None,
                                        progress: Some(progress),
                                    })
                                    &&& post.updatables[t] == device
                                    &&& post.pending_update == Some(
                                        UpdateJob {
                                            progress,
                                            progress_since_millis: Some(
                                                if still {
                                                    since
                                                } else {
                                                    now
                                                },
                                            ),
                                            ..job
                                        },
                                    )
                                }
                            },
                            Ok(StageProgress::Ready) => {
                                &&& poll == (UpdatePoll {
                                    event: Some(Event::UpdateVerified),
                                    progress: None,
                                })
                                &&& post.updatables[t] == device
                                &&& post.pending_update == Some(
                                    UpdateJob {
                                        phase: UpdatePhase::Staged,
                                        progress_since_millis: Some(since),
                                        ..job
                                    },
                                )
                            },
                            Err(_) => {
                                &&& poll == rejected
                                &&& B::Updatable::abandons(device, post.updatables[t])
                                &&& post.pending_update == Some(dropped)
                            },
                        }
                }
        }),
{
}

} // verus!
