//! What each executor may do to the driver's state.
//!
//! Each relation speaks of the state before a call, the call's arguments, its
//! answer, and the state after. Where a capability of the board decides, the
//! relation says which call was made to it, on what, and what each of its
//! answers leads to.
use crate::capabilities::boot::{BootControl, BootWatch};
use crate::capabilities::payload_source::{shown, PayloadSource};
use crate::capabilities::payload_window::PayloadWindow;
use crate::capabilities::recovery::{Recovery, RestoreOutcome};
use crate::capabilities::svn_floor::SvnFloor;
use crate::capabilities::updatable::{StageProgress, Updatable, UpdateError};
use crate::capabilities::verify_session::{PollOutcome, SessionVerifier, VerifySession};
use crate::driver::board::{
    BoardCapabilities, ImageSource, Report, ReportSink, SvnFloorBinding, Verdict, Verifier,
};
use crate::driver::error::DriverError;
use crate::driver::job::{Step, UpdateJob, UpdatePhase, UpdatePoll};
use crate::driver::state::{DriverState, SessionOf};
use crate::driver::walk::{event_of, is_earliest, BootWalkPoll, Seen};
use crate::platform::{ComponentId, Effect, EffectError, Event};
use vstd::prelude::*;

verus! {

/// What one poll of a board's verify session comes to.
pub type OutcomeOf<B> = PollOutcome<
    SessionOf<B>,
    <B as BoardCapabilities>::UpdateVerifier,
    <SessionOf<B> as VerifySession>::Error,
>;

/// Recording an update. An unknown component is refused first, then a
/// candidate longer than the staging region reports to be, then a second
/// update. A refusal changes nothing.
pub open spec fn submit_update_step<B: BoardCapabilities>(
    pre: DriverState<B>,
    target: ComponentId,
    len: u64,
    answer: Result<(), DriverError>,
    post: DriverState<B>,
) -> bool {
    if !pre.knows(target) {
        answer == Err::<(), _>(DriverError::UnknownComponent) && post == pre
    } else {
        exists|reported: u64| #[trigger]
            pre.update_staging.reports_len(reported) && if len > reported {
                answer == Err::<(), _>(DriverError::CandidateOutOfRange) && post == pre
            } else if pre.pending_update is Some {
                answer == Err::<(), _>(DriverError::UpdateBusy) && post == pre
            } else {
                &&& answer == Ok::<(), DriverError>(())
                &&& post == DriverState {
                    pending_update: Some(UpdateJob::submitted(target, len)),
                    ..pre
                }
            }
    }
}

/// Closing the verify session, if one is open: its verifier goes back to the
/// board.
pub open spec fn session_closed<B: BoardCapabilities>(
    pre: DriverState<B>,
    post: DriverState<B>,
) -> bool {
    &&& post.verify_session is None
    &&& match pre.verify_session {
        Some(session) => post.update_verifier matches Some(verifier) && session.abandons(verifier),
        None => post.update_verifier == pre.update_verifier,
    }
}

/// Telling the device of component `target` to drop what it staged.
pub open spec fn device_abandoned<B: BoardCapabilities>(
    pre: DriverState<B>,
    target: ComponentId,
    post: DriverState<B>,
) -> bool {
    if pre.knows(target) {
        &&& B::Updatable::abandons(
            pre.updatables[target.index()],
            post.updatables[target.index()],
        )
        &&& post.updatables == pre.updatables.update(
            target.index(),
            post.updatables[target.index()],
        )
    } else {
        post.updatables == pre.updatables
    }
}

/// Discarding the update in flight: the session is closed, the device drops
/// what it staged, and the job is gone.
pub open spec fn discard_staged_step<B: BoardCapabilities>(
    pre: DriverState<B>,
    answer: Result<(), DriverError>,
    post: DriverState<B>,
) -> bool {
    match pre.pending_update {
        None => answer == Err::<(), _>(DriverError::NoUpdateJob) && post == pre,
        Some(job) => {
            &&& answer == (if pre.knows(job.target) {
                Ok(())
            } else {
                Err(DriverError::UnknownComponent)
            })
            &&& session_closed(pre, post)
            &&& device_abandoned(pre, job.target, post)
            &&& post == DriverState {
                pending_update: None,
                verify_session: post.verify_session,
                update_verifier: post.update_verifier,
                updatables: post.updatables,
                ..pre
            }
        },
    }
}

/// Starting to authenticate the candidate: the board's update verifier moves
/// into a session. Only a freshly submitted job is authenticated. A refusal
/// changes nothing.
pub open spec fn authenticate_update_step<B: BoardCapabilities>(
    pre: DriverState<B>,
    answer: Result<(), DriverError>,
    post: DriverState<B>,
) -> bool {
    match pre.pending_update {
        None => answer == Err::<(), _>(DriverError::NoUpdateJob) && post == pre,
        Some(job) => if job.phase != UpdatePhase::Submitted {
            answer == Err::<(), _>(DriverError::NoUpdateJob) && post == pre
        } else {
            exists|reported: u64| #[trigger]
                pre.update_staging.reports_len(reported) && if job.len > reported {
                    answer == Err::<(), _>(DriverError::CandidateOutOfRange) && post == pre
                } else {
                    match pre.update_verifier {
                        None => answer == Err::<(), _>(DriverError::NoUpdateJob) && post == pre,
                        Some(verifier) => {
                            &&& answer == Ok::<(), DriverError>(())
                            &&& post.verify_session matches Some(session) && verifier.starts(
                                session,
                            )
                            &&& post == DriverState {
                                update_verifier: None,
                                verify_session: post.verify_session,
                                pending_update: Some(
                                    UpdateJob { phase: UpdatePhase::Authenticating, ..job },
                                ),
                                ..pre
                            }
                        },
                    }
                }
        },
    }
}

/// Recording that staging was asked for.
pub open spec fn stage_update_step<B: BoardCapabilities>(
    pre: DriverState<B>,
    answer: Result<(), DriverError>,
    post: DriverState<B>,
) -> bool {
    match pre.pending_update {
        None => answer == Err::<(), _>(DriverError::NoUpdateJob) && post == pre,
        Some(job) => {
            &&& answer == Ok::<(), DriverError>(())
            &&& post == DriverState {
                pending_update: Some(UpdateJob { stage_requested: true, ..job }),
                ..pre
            }
        },
    }
}

/// Activating the staged candidate. Only a job that the device has staged is
/// activated, and only an activation that the device took ends the job.
pub open spec fn activate_update_step<B: BoardCapabilities>(
    pre: DriverState<B>,
    answer: Result<(), DriverError>,
    post: DriverState<B>,
) -> bool {
    match pre.pending_update {
        None => answer == Err::<(), _>(DriverError::NoUpdateJob) && post == pre,
        Some(job) => if job.phase != UpdatePhase::Staged {
            answer == Err::<(), _>(DriverError::NoUpdateJob) && post == pre
        } else if !pre.knows(job.target) {
            answer == Err::<(), _>(DriverError::UnknownComponent) && post == pre
        } else {
            let t = job.target.index();
            exists|taken: Result<(), UpdateError>| #[trigger]
                B::Updatable::activates(pre.updatables[t], taken, post.updatables[t]) && {
                    &&& answer == (match taken {
                        Ok(_) => Ok(()),
                        Err(_) => Err(DriverError::UpdateFault),
                    })
                    &&& post == DriverState {
                        updatables: pre.updatables.update(t, post.updatables[t]),
                        pending_update: if taken is Ok {
                            None
                        } else {
                            pre.pending_update
                        },
                        ..pre
                    }
                }
        },
    }
}

/// One verify poll over the candidate's part of the staging region. The
/// session goes on, or it is over and its verifier is back on the board.
pub open spec fn authentication_step<B: BoardCapabilities>(
    pre: DriverState<B>,
    stepped: Result<Step, DriverError>,
    post: DriverState<B>,
) -> bool {
    match (pre.verify_session, pre.pending_update) {
        (Some(session), Some(job)) => exists|reported: u64| #[trigger]
            pre.update_staging.reports_len(reported) && if job.len > reported {
                stepped == Err::<Step, _>(DriverError::CandidateOutOfRange) && post == pre
            } else {
                exists|outcome: OutcomeOf<B>| #[trigger]
                    session.polls(
                        shown(&PayloadWindow::over(&pre.update_staging, 0, job.len)),
                        outcome,
                    ) && polled(pre, outcome, stepped, post)
            },
        _ => stepped == Err::<Step, _>(DriverError::NoUpdateJob) && post == pre,
    }
}

/// What follows from the outcome of a verify poll.
pub open spec fn polled<B: BoardCapabilities>(
    pre: DriverState<B>,
    outcome: OutcomeOf<B>,
    stepped: Result<Step, DriverError>,
    post: DriverState<B>,
) -> bool {
    match outcome {
        PollOutcome::Processing { session, progress } => {
            &&& stepped == Ok::<Step, DriverError>(Step::Working(progress))
            &&& post == DriverState { verify_session: Some(session), ..pre }
        },
        PollOutcome::Authenticated(verifier) => {
            &&& stepped == Ok::<Step, DriverError>(Step::Authenticated)
            &&& post == DriverState {
                verify_session: None,
                update_verifier: Some(verifier),
                ..pre
            }
        },
        PollOutcome::Rejected(verifier) => {
            &&& stepped == Ok::<Step, DriverError>(Step::Rejected)
            &&& post == DriverState {
                verify_session: None,
                update_verifier: Some(verifier),
                ..pre
            }
        },
        PollOutcome::Fault(verifier, _) => {
            &&& stepped == Ok::<Step, DriverError>(Step::Rejected)
            &&& post == DriverState {
                verify_session: None,
                update_verifier: Some(verifier),
                ..pre
            }
        },
    }
}

/// What a device's answer to a staging step establishes.
pub open spec fn staged_so_far(answer: Result<StageProgress, UpdateError>) -> Step {
    match answer {
        Ok(StageProgress::Transferring(progress)) => Step::Working(progress),
        Ok(StageProgress::Ready) => Step::Staged,
        Err(_) => Step::Rejected,
    }
}

/// One staging step over the candidate's part of the staging region. The
/// device is not touched unless staging was asked for.
pub open spec fn staging_step<B: BoardCapabilities>(
    pre: DriverState<B>,
    stepped: Result<Step, DriverError>,
    post: DriverState<B>,
) -> bool {
    match pre.pending_update {
        None => stepped == Err::<Step, _>(DriverError::NoUpdateJob) && post == pre,
        Some(job) => if !job.stage_requested {
            stepped == Err::<Step, _>(DriverError::NoUpdateJob) && post == pre
        } else {
            exists|reported: u64| #[trigger]
                pre.update_staging.reports_len(reported) && if job.len > reported {
                    stepped == Err::<Step, _>(DriverError::CandidateOutOfRange) && post == pre
                } else if !pre.knows(job.target) {
                    stepped == Err::<Step, _>(DriverError::UnknownComponent) && post == pre
                } else {
                    let t = job.target.index();
                    exists|answer: Result<StageProgress, UpdateError>| #[trigger]
                        B::Updatable::stages(
                            pre.updatables[t],
                            shown(&PayloadWindow::over(&pre.update_staging, 0, job.len)),
                            answer,
                            post.updatables[t],
                        ) && {
                            &&& stepped == Ok::<Step, DriverError>(staged_so_far(answer))
                            &&& post == DriverState {
                                updatables: pre.updatables.update(t, post.updatables[t]),
                                ..pre
                            }
                        }
                }
        },
    }
}

/// Rejecting the job: the session is closed, the device drops what it staged,
/// and the job goes back to being submitted. The job itself stays
/// until it is discarded.
pub open spec fn reject_job_step<B: BoardCapabilities>(
    pre: DriverState<B>,
    poll: UpdatePoll,
    post: DriverState<B>,
) -> bool {
    &&& poll == UpdatePoll::verdict(Event::UpdateRejected)
    &&& session_closed(pre, post)
    &&& match pre.pending_update {
        Some(job) => device_abandoned(pre, job.target, post),
        None => post.updatables == pre.updatables,
    }
    &&& post == DriverState {
        pending_update: match pre.pending_update {
            Some(job) => Some(job.rejected()),
            None => None,
        },
        verify_session: post.verify_session,
        update_verifier: post.update_verifier,
        updatables: post.updatables,
        ..pre
    }
}

/// What the pump makes of a step: the job moves as [`UpdateJob::settled`]
/// says, or it is rejected.
pub open spec fn pump_concludes<B: BoardCapabilities>(
    stepped: Result<Step, DriverError>,
    mid: DriverState<B>,
    now_millis: u64,
    poll: UpdatePoll,
    post: DriverState<B>,
) -> bool {
    match (stepped, mid.pending_update) {
        (Err(_), _) => reject_job_step(mid, poll, post),
        (Ok(step), Some(job)) => {
            let (moved, reported) = job.settled(step, now_millis, mid.update_stall_budget_millis);
            let settled = DriverState { pending_update: Some(moved), ..mid };
            match reported {
                Some(progress) => poll == progress && post == settled,
                None => reject_job_step(settled, poll, post),
            }
        },
        (Ok(_), None) => poll == UpdatePoll::quiet() && post == mid,
    }
}

/// One round of the update pump. The clock of a job starts with its first
/// round, whatever the job's phase. A job that is authenticating takes one
/// verify poll, and a job that is staging takes one staging step.
pub open spec fn pump_update_step<B: BoardCapabilities>(
    pre: DriverState<B>,
    now_millis: u64,
    poll: UpdatePoll,
    post: DriverState<B>,
) -> bool {
    match pre.pending_update {
        None => poll == UpdatePoll::quiet() && post == pre,
        Some(job) => {
            let clocked = DriverState { pending_update: Some(job.clocked(now_millis)), ..pre };
            match job.phase {
                UpdatePhase::Submitted => poll == UpdatePoll::quiet() && post == clocked,
                UpdatePhase::Staged => poll == UpdatePoll::quiet() && post == clocked,
                UpdatePhase::Authenticating => exists|
                    stepped: Result<Step, DriverError>,
                    mid: DriverState<B>,
                | #[trigger]
                    authentication_step(clocked, stepped, mid) && pump_concludes(
                        stepped,
                        mid,
                        now_millis,
                        poll,
                        post,
                    ),
                UpdatePhase::Staging => exists|
                    stepped: Result<Step, DriverError>,
                    mid: DriverState<B>,
                | #[trigger]
                    staging_step(clocked, stepped, mid) && pump_concludes(
                        stepped,
                        mid,
                        now_millis,
                        poll,
                        post,
                    ),
            }
        },
    }
}

/// Staging a component's image: whatever was staged no longer is, and the
/// image is staged if its source opens.
pub open spec fn stage_firmware_step<B: BoardCapabilities>(
    pre: DriverState<B>,
    id: ComponentId,
    answer: Result<(), DriverError>,
    post: DriverState<B>,
) -> bool {
    let i = id.index();
    if !pre.knows(id) {
        &&& answer == Err::<(), _>(DriverError::UnknownComponent)
        &&& post == DriverState { staged: None, ..pre }
    } else {
        exists|opened: Result<(), <B::Image as ImageSource>::Error>| #[trigger]
            B::Image::opens(pre.images[i], opened, post.images[i]) && {
                &&& answer == (match opened {
                    Ok(_) => Ok(()),
                    Err(_) => Err(DriverError::ImageUnavailable),
                })
                &&& post == DriverState {
                    images: pre.images.update(i, post.images[i]),
                    staged: if opened is Ok {
                        Some(id)
                    } else {
                        None
                    },
                    ..pre
                }
            }
    }
}

/// Judging a staged image: the verifier is asked about the component and its
/// image. An authenticated image's SVN is kept, a rejection clears it, and a
/// check that could not run leaves it.
pub open spec fn verify_firmware_step<B: BoardCapabilities>(
    pre: DriverState<B>,
    id: ComponentId,
    answer: Result<Event, DriverError>,
    post: DriverState<B>,
) -> bool {
    let i = id.index();
    if !pre.knows(id) {
        answer == Err::<Event, _>(DriverError::UnknownComponent) && post == pre
    } else if pre.staged != Some(id) {
        answer == Err::<Event, _>(DriverError::NotStaged) && post == pre
    } else {
        exists|judged: Result<Verdict, <B::Verifier as Verifier<B::Image>>::Error>| #[trigger]
            B::Verifier::judges(
                pre.verifier,
                id,
                pre.images[i],
                judged,
                post.images[i],
                post.verifier,
            ) && {
                &&& answer == (match judged {
                    Ok(Verdict::Authenticated { svn: _ }) => Ok(Event::VerificationPassed(id)),
                    Ok(Verdict::Rejected) => Ok(Event::VerificationFailed(id)),
                    Err(_) => Err(DriverError::VerifierFault),
                })
                &&& post == DriverState {
                    images: pre.images.update(i, post.images[i]),
                    verifier: post.verifier,
                    verified_svn: match judged {
                        Ok(Verdict::Authenticated { svn }) => pre.verified_svn.update(i, Some(svn)),
                        Ok(Verdict::Rejected) => pre.verified_svn.update(i, None),
                        Err(_) => pre.verified_svn,
                    },
                    ..pre
                }
            }
    }
}

/// Raising a component's floor to the SVN of its verified image. A component
/// that keeps its own floor is left to it. Nothing but the floor changes.
pub open spec fn commit_svn_floor_step<B: BoardCapabilities>(
    pre: DriverState<B>,
    id: ComponentId,
    answer: Result<(), DriverError>,
    post: DriverState<B>,
) -> bool {
    let i = id.index();
    if !pre.knows(id) {
        answer == Err::<(), _>(DriverError::UnknownComponent) && post == pre
    } else {
        match (pre.svn_floors[i], pre.verified_svn[i]) {
            (SvnFloorBinding::SelfManaged, _) => answer == Ok::<(), DriverError>(()) && post == pre,
            (SvnFloorBinding::Erot(_), None) => {
                answer == Err::<(), _>(DriverError::NoVerifiedImage) && post == pre
            },
            (SvnFloorBinding::Erot(floor), Some(svn)) => {
                &&& post.svn_floors[i] matches SvnFloorBinding::Erot(floor_post)
                &&& exists|advanced: Result<(), <B::SvnFloor as SvnFloor>::Error>| #[trigger]
                    B::SvnFloor::advances(floor, svn, advanced, floor_post) && answer == (
                    match advanced {
                        Ok(_) => Ok(()),
                        Err(_) => Err(DriverError::SvnFloorFault),
                    })
                &&& post == DriverState {
                    svn_floors: pre.svn_floors.update(i, post.svn_floors[i]),
                    ..pre
                }
            },
        }
    }
}

/// Releasing a component from reset: its walk is armed afresh and watched. A
/// line that could not be actuated starts no walk.
pub open spec fn release_reset_step<B: BoardCapabilities>(
    pre: DriverState<B>,
    id: ComponentId,
    answer: Result<(), DriverError>,
    post: DriverState<B>,
) -> bool {
    let i = id.index();
    if !pre.knows(id) {
        answer == Err::<(), _>(DriverError::UnknownComponent) && post == pre
    } else {
        exists|released: Result<(), <B::BootControl as BootControl>::Error>| #[trigger]
            B::BootControl::releases(pre.boot_controls[i], released, post.boot_controls[i]) && {
                let controls = pre.boot_controls.update(i, post.boot_controls[i]);
                match released {
                    Err(_) => {
                        &&& answer == Err::<(), _>(DriverError::BootControlFault)
                        &&& post == DriverState { boot_controls: controls, ..pre }
                    },
                    Ok(_) => {
                        &&& answer == Ok::<(), DriverError>(())
                        &&& B::BootWatch::arms(pre.boot_watches[i], post.boot_watches[i])
                        &&& post == DriverState {
                            boot_controls: controls,
                            boot_watches: pre.boot_watches.update(i, post.boot_watches[i]),
                            watching: pre.watching.update(i, true),
                            ..pre
                        }
                    },
                }
            }
    }
}

/// Holding a component in reset: its walk is no longer watched. A line that
/// could not be actuated leaves the walk as it was.
pub open spec fn assert_reset_step<B: BoardCapabilities>(
    pre: DriverState<B>,
    id: ComponentId,
    answer: Result<(), DriverError>,
    post: DriverState<B>,
) -> bool {
    let i = id.index();
    if !pre.knows(id) {
        answer == Err::<(), _>(DriverError::UnknownComponent) && post == pre
    } else {
        exists|held: Result<(), <B::BootControl as BootControl>::Error>| #[trigger]
            B::BootControl::holds(pre.boot_controls[i], held, post.boot_controls[i]) && {
                &&& answer == (match held {
                    Ok(_) => Ok(()),
                    Err(_) => Err(DriverError::BootControlFault),
                })
                &&& post == DriverState {
                    boot_controls: pre.boot_controls.update(i, post.boot_controls[i]),
                    watching: if held is Ok {
                        pre.watching.update(i, false)
                    } else {
                        pre.watching
                    },
                    ..pre
                }
            }
    }
}

/// What was seen ends the round with a terminal verdict.
pub open spec fn ends_in_verdict(seen: Seen) -> bool {
    seen.len() > 0 && (seen.last() matches Some(verdict) && !(verdict is Waiting))
}

/// A round over the boot walks at `now_millis` has seen `seen`: every watched
/// walk among the first components was polled once, and all but the last
/// answered that they wait. No other walk was touched.
pub open spec fn walks_visited<B: BoardCapabilities>(
    pre: DriverState<B>,
    now_millis: u64,
    seen: Seen,
    post: DriverState<B>,
) -> bool {
    &&& seen.len() <= pre.count()
    &&& post.boot_watches.len() == pre.boot_watches.len()
    &&& forall|i: int| #![trigger seen[i]] #![trigger post.boot_watches[i]]
        0 <= i < seen.len() ==> match seen[i] {
            Some(verdict) => pre.watching[i] && B::BootWatch::polls(
                pre.boot_watches[i],
                now_millis,
                verdict,
                post.boot_watches[i],
            ),
            None => !pre.watching[i] && post.boot_watches[i] == pre.boot_watches[i],
        }
    &&& forall|i: int| #![trigger post.boot_watches[i]]
        seen.len() <= i < pre.count() ==> post.boot_watches[i] == pre.boot_watches[i]
    &&& forall|i: int| #![trigger seen[i]]
        0 <= i < seen.len() - 1 ==> (seen[i] matches Some(verdict) ==> verdict is Waiting)
}

/// A whole round over the boot walks saw `seen`: it went over every component
/// or ended at a terminal verdict.
pub open spec fn walks_polled<B: BoardCapabilities>(
    pre: DriverState<B>,
    now_millis: u64,
    seen: Seen,
    post: DriverState<B>,
) -> bool {
    &&& walks_visited(pre, now_millis, seen, post)
    &&& seen.len() == pre.count() || ends_in_verdict(seen)
}

/// What a round that saw `seen` answers: the event of the terminal verdict
/// that ended it, whose walk is no longer watched, and the earliest deadline
/// of the walks seen waiting.
pub open spec fn walks_concluded<B: BoardCapabilities>(
    pre: DriverState<B>,
    seen: Seen,
    poll: BootWalkPoll,
    post: DriverState<B>,
) -> bool {
    let last = seen.len() - 1;
    &&& is_earliest(seen, poll.next_deadline_millis)
    &&& poll.event == (if ends_in_verdict(seen) {
        event_of(ComponentId(last as u8), pre.component_kinds[last], seen.last()->0)
    } else {
        None
    })
    &&& post == DriverState {
        boot_watches: post.boot_watches,
        watching: if ends_in_verdict(seen) {
            pre.watching.update(last, false)
        } else {
            pre.watching
        },
        ..pre
    }
}

/// One round over the boot walks.
pub open spec fn poll_boot_walks_step<B: BoardCapabilities>(
    pre: DriverState<B>,
    now_millis: u64,
    poll: BootWalkPoll,
    post: DriverState<B>,
) -> bool {
    exists|seen: Seen| #[trigger]
        walks_polled(pre, now_millis, seen, post) && walks_concluded(pre, seen, poll, post)
}

/// Restoring a component's image: running out of sources is an event, and
/// only a mechanism that faulted is an error.
pub open spec fn recover_component_step<B: BoardCapabilities>(
    pre: DriverState<B>,
    id: ComponentId,
    attempt: u8,
    answer: Result<Event, DriverError>,
    post: DriverState<B>,
) -> bool {
    let i = id.index();
    if !pre.knows(id) {
        answer == Err::<Event, _>(DriverError::UnknownComponent) && post == pre
    } else {
        exists|restored: Result<RestoreOutcome, <B::Recovery as Recovery>::Error>| #[trigger]
            B::Recovery::restores(pre.recovery[i], attempt, restored, post.recovery[i]) && {
                &&& answer == (match restored {
                    Ok(RestoreOutcome::Restored) => Ok(Event::Restored(id)),
                    Ok(RestoreOutcome::SourceExhausted) => Ok(Event::RecoveryUnavailable(id)),
                    Err(_) => Err(DriverError::RecoveryFault),
                })
                &&& post == DriverState {
                    recovery: pre.recovery.update(i, post.recovery[i]),
                    ..pre
                }
            }
    }
}

/// Handing a report to the board's sink.
pub open spec fn report_step<B: BoardCapabilities>(
    pre: DriverState<B>,
    report: Report,
    post: DriverState<B>,
) -> bool {
    &&& B::ReportSink::takes(pre.report_sink, report, post.report_sink)
    &&& post == DriverState { report_sink: post.report_sink, ..pre }
}

/// Ending an update that the state machine put off or gave up: the session is
/// closed, so that the verifier is free for the next update, the job is gone,
/// and `report` goes to the board's sink.
pub open spec fn end_update_step<B: BoardCapabilities>(
    pre: DriverState<B>,
    report: Report,
    post: DriverState<B>,
) -> bool {
    &&& session_closed(pre, post)
    &&& B::ReportSink::takes(pre.report_sink, report, post.report_sink)
    &&& post == DriverState {
        pending_update: None,
        verify_session: post.verify_session,
        update_verifier: post.update_verifier,
        report_sink: post.report_sink,
        ..pre
    }
}

/// An executor's answer as the state machine sees it: every error is the
/// same.
pub open spec fn effect_answer(answer: Result<(), DriverError>) -> Result<
    Option<Event>,
    EffectError,
> {
    match answer {
        Ok(_) => Ok(None),
        Err(_) => Err(EffectError),
    }
}

/// The answer of an executor that reports an event, as the state machine sees
/// it.
pub open spec fn effect_event(answer: Result<Event, DriverError>) -> Result<
    Option<Event>,
    EffectError,
> {
    match answer {
        Ok(event) => Ok(Some(event)),
        Err(_) => Err(EffectError),
    }
}

/// Carrying out an effect: its executor runs, and no other.
pub open spec fn execute_step<B: BoardCapabilities>(
    pre: DriverState<B>,
    effect: Effect,
    answer: Result<Option<Event>, EffectError>,
    post: DriverState<B>,
) -> bool {
    match effect {
        Effect::ReadFirmware(id) => exists|done: Result<(), DriverError>| #[trigger]
            stage_firmware_step(pre, id, done, post) && answer == effect_answer(done),
        Effect::VerifyFirmware(id) => exists|told: Result<Event, DriverError>| #[trigger]
            verify_firmware_step(pre, id, told, post) && answer == effect_event(told),
        Effect::ReleaseReset(id) => exists|done: Result<(), DriverError>| #[trigger]
            release_reset_step(pre, id, done, post) && answer == effect_answer(done),
        Effect::AssertReset(id) => exists|done: Result<(), DriverError>| #[trigger]
            assert_reset_step(pre, id, done, post) && answer == effect_answer(done),
        Effect::CommitSvnFloor(id) => exists|done: Result<(), DriverError>| #[trigger]
            commit_svn_floor_step(pre, id, done, post) && answer == effect_answer(done),
        Effect::ReportIsolated(id) => {
            report_step(pre, Report::Isolated(id), post) && answer == Ok::<_, EffectError>(
                None::<Event>,
            )
        },
        Effect::ReportRecoveryFailed(id) => {
            report_step(pre, Report::RecoveryFailed(id), post) && answer == Ok::<_, EffectError>(
                None::<Event>,
            )
        },
        Effect::ReportUpdateDeferred => {
            end_update_step(pre, Report::UpdateDeferred, post) && answer == Ok::<_, EffectError>(
                None::<Event>,
            )
        },
        Effect::ReportUpdateAborted => {
            end_update_step(pre, Report::UpdateAborted, post) && answer == Ok::<_, EffectError>(
                None::<Event>,
            )
        },
        Effect::ReportBootFailed { id, checkpoint, kind } => {
            report_step(pre, Report::BootFailed { id, checkpoint, kind }, post) && answer == Ok::<
                _,
                EffectError,
            >(None::<Event>)
        },
        Effect::RecoverComponent { id, attempt } => exists|told: Result<Event, DriverError>|
         #[trigger]
            recover_component_step(pre, id, attempt, told, post) && answer == effect_event(told),
        Effect::AuthenticateUpdate => exists|done: Result<(), DriverError>| #[trigger]
            authenticate_update_step(pre, done, post) && answer == effect_answer(done),
        Effect::StageUpdate => exists|done: Result<(), DriverError>| #[trigger]
            stage_update_step(pre, done, post) && answer == effect_answer(done),
        Effect::ActivateUpdate => exists|done: Result<(), DriverError>| #[trigger]
            activate_update_step(pre, done, post) && answer == effect_answer(done),
        Effect::DiscardStaged => exists|done: Result<(), DriverError>| #[trigger]
            discard_staged_step(pre, done, post) && answer == effect_answer(done),
        // The board has no capability for these.
        Effect::SignAttestation => answer == Err::<Option<Event>, _>(EffectError) && post == pre,
        Effect::LatchLockdown => answer == Err::<Option<Event>, _>(EffectError) && post == pre,
        // The state machine's own channel.
        Effect::Emit(_) => answer == Err::<Option<Event>, _>(EffectError) && post == pre,
    }
}

/// Requesting an update: the event that tells the state machine of it comes
/// only of an update that was recorded.
pub open spec fn request_update_step<B: BoardCapabilities>(
    pre: DriverState<B>,
    target: ComponentId,
    len: u64,
    answer: Result<Event, DriverError>,
    post: DriverState<B>,
) -> bool {
    exists|recorded: Result<(), DriverError>| #[trigger]
        submit_update_step(pre, target, len, recorded, post) && answer == (match recorded {
            Ok(_) => Ok(Event::UpdateRequest),
            Err(e) => Err(e),
        })
}

} // verus!
