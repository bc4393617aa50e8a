//! What carrying out an effect does, and what the state machine is answered.
//!
//! Each law speaks of a call of [`PlatformDriver::execute`]: of the driver
//! before and after it, of its answer, and of what the board answered.
use crate::capabilities::boot::{BootControl, BootWatch};
use crate::capabilities::payload_source::PayloadSource;
use crate::capabilities::recovery::{Recovery, RestoreOutcome};
use crate::capabilities::svn_floor::SvnFloor;
use crate::capabilities::updatable::{Updatable, UpdateError};
use crate::capabilities::verify_session::{SessionVerifier, VerifySession};
use crate::driver::board::{
    BoardCapabilities, ImageSource, Report, ReportSink, SvnFloorBinding, Verdict, Verifier,
};
use crate::driver::job::{UpdateJob, UpdatePhase};
use crate::driver::platform_driver::PlatformDriver;
use crate::driver::state::DriverState;
use crate::platform::{BootFailureKind, ComponentId, Effect, EffectError, Event};
use vstd::prelude::*;

verus! {

/// Reading a component's firmware opens the source of its image: it is staged
/// and answered without an event exactly when the source opened, and is an
/// error with nothing staged otherwise.
pub proof fn law_reading_firmware_opens_the_image<B: BoardCapabilities, const N: usize>(
    driver: &mut PlatformDriver<B, N>,
    id: ComponentId,
    answer: Result<Option<Event>, EffectError>,
)
    requires
        old(driver)@.valid(),
        call_ensures(PlatformDriver::<B, N>::execute, (driver, Effect::ReadFirmware(id)), answer),
    ensures
        ({
            let (pre, post) = (old(driver)@, final(driver)@);
            let i = id.0 as int;
            &&& id.0 >= pre.images.len() ==> {
                &&& answer == Err::<Option<Event>, _>(EffectError)
                &&& post == DriverState { staged: None, ..pre }
            }
            &&& id.0 < pre.images.len() ==> exists|
                opened: Result<(), <B::Image as ImageSource>::Error>,
            | #[trigger]
                B::Image::opens(pre.images[i], opened, post.images[i]) && {
                    &&& opened is Ok <==> answer == Ok::<_, EffectError>(None::<Event>)
                    &&& opened is Err <==> answer == Err::<Option<Event>, _>(EffectError)
                    &&& post == DriverState {
                        images: pre.images.update(i, post.images[i]),
                        staged: if opened is Ok {
                            Some(id)
                        } else {
                            None
                        },
                        ..pre
                    }
                }
        }),
{
}

/// Verifying a staged component's firmware answers that it passed exactly when
/// the board's verifier judged the image authentic, that it failed exactly
/// when it judged it rejected, and an error exactly when the check could not
/// run. A component whose image is not staged, or that the board does not
/// have, is an error, and nothing changes.
pub proof fn law_verifying_firmware_tells_what_was_judged<B: BoardCapabilities, const N: usize>(
    driver: &mut PlatformDriver<B, N>,
    id: ComponentId,
    answer: Result<Option<Event>, EffectError>,
)
    requires
        old(driver)@.valid(),
        call_ensures(PlatformDriver::<B, N>::execute, (driver, Effect::VerifyFirmware(id)), answer),
    ensures
        ({
            let (pre, post) = (old(driver)@, final(driver)@);
            let i = id.0 as int;
            &&& id.0 >= pre.images.len() || pre.staged != Some(id) ==> {
                &&& answer == Err::<Option<Event>, _>(EffectError)
                &&& post == pre
            }
            &&& id.0 < pre.images.len() && pre.staged == Some(id) ==> exists|
                judged: Result<Verdict, <B::Verifier as Verifier<B::Image>>::Error>,
            | #[trigger]
                B::Verifier::judges(
                    pre.verifier,
                    id,
                    pre.images[i],
                    judged,
                    post.images[i],
                    post.verifier,
                ) && {
                    &&& (judged matches Ok(verdict) && verdict is Authenticated) <==> answer
                        == Ok::<_, EffectError>(Some(Event::VerificationPassed(id)))
                    &&& (judged matches Ok(verdict) && verdict is Rejected) <==> answer
                        == Ok::<_, EffectError>(Some(Event::VerificationFailed(id)))
                    &&& judged is Err <==> answer == Err::<Option<Event>, _>(EffectError)
                    &&& post == DriverState {
                        images: pre.images.update(i, post.images[i]),
                        verifier: post.verifier,
                        verified_svn: match judged {
                            Ok(Verdict::Authenticated { svn }) => pre.verified_svn.update(
                                i,
                                Some(svn),
                            ),
                            Ok(Verdict::Rejected) => pre.verified_svn.update(i, None),
                            Err(_) => pre.verified_svn,
                        },
                        ..pre
                    }
                }
        }),
{
}

/// Releasing a component releases its reset line, and then arms and watches
/// its walk. The effect is carried out exactly when the line was released, and
/// is an error otherwise.
pub proof fn law_releasing_reaches_the_line<B: BoardCapabilities, const N: usize>(
    driver: &mut PlatformDriver<B, N>,
    id: ComponentId,
    answer: Result<Option<Event>, EffectError>,
)
    requires
        old(driver)@.valid(),
        call_ensures(PlatformDriver::<B, N>::execute, (driver, Effect::ReleaseReset(id)), answer),
    ensures
        ({
            let (pre, post) = (old(driver)@, final(driver)@);
            let i = id.0 as int;
            &&& id.0 >= pre.images.len() ==> {
                &&& answer == Err::<Option<Event>, _>(EffectError)
                &&& post == pre
            }
            &&& id.0 < pre.images.len() ==> exists|
                released: Result<(), <B::BootControl as BootControl>::Error>,
            | #[trigger]
                B::BootControl::releases(pre.boot_controls[i], released, post.boot_controls[i]) && {
                    &&& released is Ok <==> answer == Ok::<_, EffectError>(None::<Event>)
                    &&& released is Err <==> answer == Err::<Option<Event>, _>(EffectError)
                    &&& released is Ok ==> B::BootWatch::arms(
                        pre.boot_watches[i],
                        post.boot_watches[i],
                    )
                    &&& post == DriverState {
                        boot_controls: pre.boot_controls.update(i, post.boot_controls[i]),
                        boot_watches: if released is Ok {
                            pre.boot_watches.update(i, post.boot_watches[i])
                        } else {
                            pre.boot_watches
                        },
                        watching: if released is Ok {
                            pre.watching.update(i, true)
                        } else {
                            pre.watching
                        },
                        ..pre
                    }
                }
        }),
{
}

/// Holding a component in reset holds its reset line, and then no longer
/// watches its walk. The effect is carried out exactly when the line is held,
/// and is an error otherwise.
pub proof fn law_holding_reaches_the_line<B: BoardCapabilities, const N: usize>(
    driver: &mut PlatformDriver<B, N>,
    id: ComponentId,
    answer: Result<Option<Event>, EffectError>,
)
    requires
        old(driver)@.valid(),
        call_ensures(PlatformDriver::<B, N>::execute, (driver, Effect::AssertReset(id)), answer),
    ensures
        ({
            let (pre, post) = (old(driver)@, final(driver)@);
            let i = id.0 as int;
            &&& id.0 >= pre.images.len() ==> {
                &&& answer == Err::<Option<Event>, _>(EffectError)
                &&& post == pre
            }
            &&& id.0 < pre.images.len() ==> exists|
                held: Result<(), <B::BootControl as BootControl>::Error>,
            | #[trigger]
                B::BootControl::holds(pre.boot_controls[i], held, post.boot_controls[i]) && {
                    &&& held is Ok <==> answer == Ok::<_, EffectError>(None::<Event>)
                    &&& held is Err <==> answer == Err::<Option<Event>, _>(EffectError)
                    &&& post == DriverState {
                        boot_controls: pre.boot_controls.update(i, post.boot_controls[i]),
                        watching: if held is Ok {
                            pre.watching.update(i, false)
                        } else {
                            pre.watching
                        },
                        ..pre
                    }
                }
        }),
{
}

/// Committing a component's floor hands it exactly the SVN that the driver
/// holds for the component. The effect is carried out exactly when the floor
/// took it, or when the component keeps its own floor.
pub proof fn law_committing_hands_over_the_held_svn<B: BoardCapabilities, const N: usize>(
    driver: &mut PlatformDriver<B, N>,
    id: ComponentId,
    answer: Result<Option<Event>, EffectError>,
)
    requires
        old(driver)@.valid(),
        call_ensures(PlatformDriver::<B, N>::execute, (driver, Effect::CommitSvnFloor(id)), answer),
    ensures
        ({
            let (pre, post) = (old(driver)@, final(driver)@);
            let i = id.0 as int;
            &&& id.0 >= pre.images.len() ==> {
                &&& answer == Err::<Option<Event>, _>(EffectError)
                &&& post == pre
            }
            &&& id.0 < pre.images.len() ==> match (pre.svn_floors[i], pre.verified_svn[i]) {
                (SvnFloorBinding::SelfManaged, _) => answer == Ok::<_, EffectError>(None::<Event>) && post == pre,
                (SvnFloorBinding::Erot(_), None) => answer == Err::<Option<Event>, _>(EffectError) && post == pre,
                (SvnFloorBinding::Erot(before), Some(svn)) => exists|
                    after: B::SvnFloor,
                    advanced: Result<(), <B::SvnFloor as SvnFloor>::Error>,
                | #[trigger]
                    B::SvnFloor::advances(before, svn, advanced, after) && {
                        &&& advanced is Ok <==> answer == Ok::<_, EffectError>(None::<Event>)
                        &&& advanced is Err <==> answer == Err::<Option<Event>, _>(EffectError)
                        &&& post == DriverState {
                            svn_floors: pre.svn_floors.update(i, SvnFloorBinding::Erot(after)),
                            ..pre
                        }
                    },
            }
        }),
{
}

/// Recovering a component asks its mechanism for the attempt that the effect
/// names, and answers that the image was restored, or that its sources are
/// exhausted, or an error exactly when the mechanism faulted.
pub proof fn law_recovering_tells_what_came_of_it<B: BoardCapabilities, const N: usize>(
    driver: &mut PlatformDriver<B, N>,
    id: ComponentId,
    attempt: u8,
    answer: Result<Option<Event>, EffectError>,
)
    requires
        old(driver)@.valid(),
        call_ensures(PlatformDriver::<B, N>::execute, (driver, Effect::RecoverComponent { id, attempt }), answer),
    ensures
        ({
            let (pre, post) = (old(driver)@, final(driver)@);
            let i = id.0 as int;
            &&& id.0 >= pre.images.len() ==> {
                &&& answer == Err::<Option<Event>, _>(EffectError)
                &&& post == pre
            }
            &&& id.0 < pre.images.len() ==> exists|
                restored: Result<RestoreOutcome, <B::Recovery as Recovery>::Error>,
            | #[trigger]
                B::Recovery::restores(pre.recovery[i], attempt, restored, post.recovery[i]) && {
                    &&& (restored matches Ok(outcome) && outcome is Restored) <==> answer
                        == Ok::<_, EffectError>(Some(Event::Restored(id)))
                    &&& (restored matches Ok(outcome) && outcome is SourceExhausted) <==> answer
                        == Ok::<_, EffectError>(Some(Event::RecoveryUnavailable(id)))
                    &&& restored is Err <==> answer == Err::<Option<Event>, _>(EffectError)
                    &&& post == DriverState {
                        recovery: pre.recovery.update(i, post.recovery[i]),
                        ..pre
                    }
                }
        }),
{
}

/// An isolated component is reported to the board's sink, as itself.
/// That cannot fail, and nothing but the sink changes.
pub proof fn law_an_isolation_is_reported<B: BoardCapabilities, const N: usize>(
    driver: &mut PlatformDriver<B, N>,
    id: ComponentId,
    answer: Result<Option<Event>, EffectError>,
)
    requires
        old(driver)@.valid(),
        call_ensures(PlatformDriver::<B, N>::execute, (driver, Effect::ReportIsolated(id)), answer),
    ensures
        ({
            let (pre, post) = (old(driver)@, final(driver)@);
            &&& answer == Ok::<_, EffectError>(None::<Event>)
            &&& B::ReportSink::takes(pre.report_sink, Report::Isolated(id), post.report_sink)
            &&& post == DriverState { report_sink: post.report_sink, ..pre }
        }),
{
}

/// A component that could not be recovered is reported to the board's sink,
/// as itself.
/// That cannot fail, and nothing but the sink changes.
pub proof fn law_a_failed_recovery_is_reported<B: BoardCapabilities, const N: usize>(
    driver: &mut PlatformDriver<B, N>,
    id: ComponentId,
    answer: Result<Option<Event>, EffectError>,
)
    requires
        old(driver)@.valid(),
        call_ensures(PlatformDriver::<B, N>::execute, (driver, Effect::ReportRecoveryFailed(id)), answer),
    ensures
        ({
            let (pre, post) = (old(driver)@, final(driver)@);
            &&& answer == Ok::<_, EffectError>(None::<Event>)
            &&& B::ReportSink::takes(pre.report_sink, Report::RecoveryFailed(id), post.report_sink)
            &&& post == DriverState { report_sink: post.report_sink, ..pre }
        }),
{
}

/// A failed boot is reported to the board's sink, with the checkpoint where it
/// died and its kind.
/// That cannot fail, and nothing but the sink changes.
pub proof fn law_a_failed_boot_is_reported<B: BoardCapabilities, const N: usize>(
    driver: &mut PlatformDriver<B, N>,
    id: ComponentId,
    checkpoint: &'static str,
    kind: BootFailureKind,
    answer: Result<Option<Event>, EffectError>,
)
    requires
        old(driver)@.valid(),
        call_ensures(PlatformDriver::<B, N>::execute, (driver, Effect::ReportBootFailed { id, checkpoint, kind }), answer),
    ensures
        ({
            let (pre, post) = (old(driver)@, final(driver)@);
            &&& answer == Ok::<_, EffectError>(None::<Event>)
            &&& B::ReportSink::takes(pre.report_sink, Report::BootFailed { id, checkpoint, kind }, post.report_sink)
            &&& post == DriverState { report_sink: post.report_sink, ..pre }
        }),
{
}

/// An update that is put off or given up, in whatever phase and whether or not
/// there is one, is reported to the board's sink as such. That cannot fail.
/// Its session ends and gives the verifier back to the board, and its job is
/// gone. Nothing else changes.
pub proof fn law_an_update_given_up_is_ended<B: BoardCapabilities, const N: usize>(
    driver: &mut PlatformDriver<B, N>,
    effect: Effect,
    answer: Result<Option<Event>, EffectError>,
)
    requires
        old(driver)@.valid(),
        call_ensures(PlatformDriver::<B, N>::execute, (driver, effect), answer),
        effect is ReportUpdateDeferred || effect is ReportUpdateAborted,
    ensures
        ({
            let (pre, post) = (old(driver)@, final(driver)@);
            let report = if effect is ReportUpdateDeferred {
                Report::UpdateDeferred
            } else {
                Report::UpdateAborted
            };
            &&& answer == Ok::<_, EffectError>(None::<Event>)
            &&& B::ReportSink::takes(pre.report_sink, report, post.report_sink)
            &&& match pre.verify_session {
                Some(session) => post.update_verifier matches Some(verifier) && session.abandons(
                    verifier,
                ),
                None => post.update_verifier == pre.update_verifier,
            }
            &&& post == DriverState {
                pending_update: None,
                verify_session: None,
                update_verifier: post.update_verifier,
                report_sink: post.report_sink,
                ..pre
            }
        }),
{
}

/// Authenticating the update is carried out exactly when there is a submitted
/// job whose candidate fits the length that the staging region reported, and
/// the board has its update verifier: a session of it then runs. Otherwise it
/// is an error, and nothing changes.
pub proof fn law_authenticating_starts_a_session<B: BoardCapabilities, const N: usize>(
    driver: &mut PlatformDriver<B, N>,
    answer: Result<Option<Event>, EffectError>,
)
    requires
        old(driver)@.valid(),
        call_ensures(PlatformDriver::<B, N>::execute, (driver, Effect::AuthenticateUpdate), answer),
    ensures
        ({
            let (pre, post) = (old(driver)@, final(driver)@);
            &&& !(pre.pending_update matches Some(job) && job.phase == UpdatePhase::Submitted)
                ==> answer is Err
            &&& pre.pending_update matches Some(job) ==> (job.phase == UpdatePhase::Submitted
                ==> exists|reported: u64| #[trigger]
                pre.update_staging.reports_len(reported) && (job.len <= reported
                    && pre.update_verifier is Some <==> answer is Ok))
            &&& answer is Err ==> post == pre
            &&& answer is Ok ==> {
                &&& answer == Ok::<_, EffectError>(None::<Event>)
                &&& pre.update_verifier matches Some(verifier)
                &&& post.verify_session matches Some(session)
                &&& verifier.starts(session)
                &&& post == DriverState {
                    update_verifier: None,
                    verify_session: Some(session),
                    pending_update: Some(
                        UpdateJob {
                            phase: UpdatePhase::Authenticating,
                            ..pre.pending_update->0
                        },
                    ),
                    ..pre
                }
            }
        }),
{
}

/// Staging the update is carried out exactly when there is a job, of which it
/// is then asked for. Otherwise it is an error, and nothing changes.
pub proof fn law_staging_asks_it_of_the_job<B: BoardCapabilities, const N: usize>(
    driver: &mut PlatformDriver<B, N>,
    answer: Result<Option<Event>, EffectError>,
)
    requires
        old(driver)@.valid(),
        call_ensures(PlatformDriver::<B, N>::execute, (driver, Effect::StageUpdate), answer),
    ensures
        ({
            let (pre, post) = (old(driver)@, final(driver)@);
            match pre.pending_update {
                None => answer == Err::<Option<Event>, _>(EffectError) && post == pre,
                Some(job) => {
                    &&& answer == Ok::<_, EffectError>(None::<Event>)
                    &&& post == DriverState {
                        pending_update: Some(UpdateJob { stage_requested: true, ..job }),
                        ..pre
                    }
                },
            }
        }),
{
}

/// Activating the update asks the device of its target exactly when the job is
/// staged, and is carried out exactly when the device takes it; only then is
/// the job gone. Otherwise it is an error.
pub proof fn law_activating_reaches_the_device<B: BoardCapabilities, const N: usize>(
    driver: &mut PlatformDriver<B, N>,
    answer: Result<Option<Event>, EffectError>,
)
    requires
        old(driver)@.valid(),
        call_ensures(PlatformDriver::<B, N>::execute, (driver, Effect::ActivateUpdate), answer),
    ensures
        ({
            let (pre, post) = (old(driver)@, final(driver)@);
            &&& !(pre.pending_update matches Some(job) && job.phase == UpdatePhase::Staged) ==> {
                &&& answer == Err::<Option<Event>, _>(EffectError)
                &&& post == pre
            }
            &&& pre.pending_update matches Some(job) ==> (job.phase == UpdatePhase::Staged
                ==> exists|taken: Result<(), UpdateError>| #[trigger]
                B::Updatable::activates(
                    pre.updatables[job.target.0 as int],
                    taken,
                    post.updatables[job.target.0 as int],
                ) && {
                    &&& taken is Ok <==> answer == Ok::<_, EffectError>(None::<Event>)
                    &&& taken is Err <==> answer == Err::<Option<Event>, _>(EffectError)
                    &&& post == DriverState {
                        updatables: pre.updatables.update(
                            job.target.0 as int,
                            post.updatables[job.target.0 as int],
                        ),
                        pending_update: if taken is Ok {
                            None
                        } else {
                            Some(job)
                        },
                        ..pre
                    }
                })
        }),
{
}

/// Discarding the update is carried out exactly when there is a job, of
/// whatever phase: the device of its target is told to drop what it staged,
/// the session gives the verifier back, and the job is gone. Without a job it
/// is an error, and nothing changes.
pub proof fn law_discarding_tells_the_device<B: BoardCapabilities, const N: usize>(
    driver: &mut PlatformDriver<B, N>,
    answer: Result<Option<Event>, EffectError>,
)
    requires
        old(driver)@.valid(),
        call_ensures(PlatformDriver::<B, N>::execute, (driver, Effect::DiscardStaged), answer),
    ensures
        ({
            let (pre, post) = (old(driver)@, final(driver)@);
            &&& pre.pending_update is None ==> answer == Err::<Option<Event>, _>(EffectError) && post == pre
            &&& pre.pending_update matches Some(job) ==> {
                let t = job.target.0 as int;
                &&& answer == Ok::<_, EffectError>(None::<Event>)
                &&& B::Updatable::abandons(pre.updatables[t], post.updatables[t])
                &&& match pre.verify_session {
                    Some(session) => post.update_verifier matches Some(verifier)
                        && session.abandons(verifier),
                    None => post.update_verifier == pre.update_verifier,
                }
                &&& post == DriverState {
                    updatables: pre.updatables.update(t, post.updatables[t]),
                    update_verifier: post.update_verifier,
                    verify_session: None,
                    pending_update: None,
                    ..pre
                }
            }
        }),
{
}

/// What the board has no capability for fails closed: it is an error, and
/// nothing changes.
pub proof fn law_what_no_capability_serves_is_refused<B: BoardCapabilities, const N: usize>(
    driver: &mut PlatformDriver<B, N>,
    effect: Effect,
    answer: Result<Option<Event>, EffectError>,
)
    requires
        old(driver)@.valid(),
        call_ensures(PlatformDriver::<B, N>::execute, (driver, effect), answer),
        effect is SignAttestation || effect is LatchLockdown || effect is Emit,
    ensures
        ({
            let (pre, post) = (old(driver)@, final(driver)@);
            &&& answer == Err::<Option<Event>, _>(EffectError)
            &&& post == pre
        }),
{
}

} // verus!
