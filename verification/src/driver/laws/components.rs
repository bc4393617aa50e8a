//! What a call does to the component it names.
//!
//! Each law speaks of a call of the executor itself: of the driver before and
//! after it, of its answer, and of what the component's device answered.
use crate::capabilities::boot::{BootControl, BootWatch};
use crate::capabilities::recovery::{Recovery, RestoreOutcome};
use crate::capabilities::svn_floor::SvnFloor;
use crate::driver::board::{
    BoardCapabilities, ImageSource, Report, ReportSink, SvnFloorBinding, Verdict, Verifier,
};
use crate::driver::error::DriverError;
use crate::driver::platform_driver::PlatformDriver;
use crate::driver::state::DriverState;
use crate::platform::{ComponentId, Event};
use vstd::prelude::*;

verus! {

/// Staging opens the source of the component's image, and of no other. The
/// image is staged exactly when its source opened, and nothing is staged
/// otherwise, whatever was before. Nothing else changes.
pub proof fn law_staging_opens_the_image<B: BoardCapabilities, const N: usize>(
    driver: &mut PlatformDriver<B, N>,
    id: ComponentId,
    answer: Result<(), DriverError>,
)
    requires
        old(driver)@.valid(),
        call_ensures(PlatformDriver::<B, N>::stage_firmware, (driver, id), answer),
    ensures
        ({
            let (pre, post) = (old(driver)@, final(driver)@);
            let i = id.0 as int;
            &&& id.0 >= pre.images.len() ==> {
                &&& answer == Err::<(), _>(DriverError::UnknownComponent)
                &&& post == DriverState { staged: None, ..pre }
            }
            &&& id.0 < pre.images.len() ==> exists|
                opened: Result<(), <B::Image as ImageSource>::Error>,
            | #[trigger]
                B::Image::opens(pre.images[i], opened, post.images[i]) && {
                    &&& answer is Ok <==> opened is Ok
                    &&& answer is Err ==> answer == Err::<(), _>(DriverError::ImageUnavailable)
                    &&& post.staged == (if opened is Ok {
                        Some(id)
                    } else {
                        None
                    })
                    &&& post == DriverState {
                        images: pre.images.update(i, post.images[i]),
                        staged: post.staged,
                        ..pre
                    }
                }
        }),
{
}

/// Verifying hands the staged image of the component to the board's verifier
/// and tells what it judged: an authentic image passed and its SVN is kept, a
/// rejected one failed and no SVN is, and a check that could not run is an
/// error and leaves what was kept. An image that is not staged is not
/// verified. The SVNs of other components stay, and nothing else changes.
pub proof fn law_a_verification_tells_what_was_judged<B: BoardCapabilities, const N: usize>(
    driver: &mut PlatformDriver<B, N>,
    id: ComponentId,
    answer: Result<Event, DriverError>,
)
    requires
        old(driver)@.valid(),
        call_ensures(PlatformDriver::<B, N>::verify_firmware, (driver, id), answer),
    ensures
        ({
            let (pre, post) = (old(driver)@, final(driver)@);
            let i = id.0 as int;
            &&& id.0 >= pre.images.len() ==> {
                &&& answer == Err::<Event, _>(DriverError::UnknownComponent)
                &&& post == pre
            }
            &&& id.0 < pre.images.len() && pre.staged != Some(id) ==> {
                &&& answer == Err::<Event, _>(DriverError::NotStaged)
                &&& post == pre
            }
            &&& id.0 < pre.images.len() && pre.staged == Some(id) ==> exists|
                judged: Result<Verdict, <B::Verifier as Verifier<B::Image>>::Error>,
            | #[trigger]
                B::Verifier::judges(
                    pre.verifier,
                    id,
                    pre.images[i],
                    judged,
                    post.images[i],
                    post.verifier,
                ) && {
                    &&& match judged {
                        Ok(Verdict::Authenticated { svn }) => {
                            &&& answer == Ok::<_, DriverError>(Event::VerificationPassed(id))
                            &&& post.verified_svn == pre.verified_svn.update(i, Some(svn))
                        },
                        Ok(Verdict::Rejected) => {
                            &&& answer == Ok::<_, DriverError>(Event::VerificationFailed(id))
                            &&& post.verified_svn == pre.verified_svn.update(i, None)
                        },
                        Err(_) => {
                            &&& answer == Err::<Event, _>(DriverError::VerifierFault)
                            &&& post.verified_svn == pre.verified_svn
                        },
                    }
                    &&& post == DriverState {
                        images: pre.images.update(i, post.images[i]),
                        verifier: post.verifier,
                        verified_svn: post.verified_svn,
                        ..pre
                    }
                }
        }),
{
}

/// A commit hands the floor of the component exactly the SVN that the driver
/// holds for it, whatever was staged or verified for other components since,
/// and answers what the floor answered. Without an SVN the floor is not
/// touched, and a component that keeps its own floor is left to it. Nothing
/// but the floor of the component changes.
pub proof fn law_a_commit_hands_over_the_held_svn<B: BoardCapabilities, const N: usize>(
    driver: &mut PlatformDriver<B, N>,
    id: ComponentId,
    answer: Result<(), DriverError>,
)
    requires
        old(driver)@.valid(),
        call_ensures(PlatformDriver::<B, N>::commit_svn_floor, (driver, id), answer),
    ensures
        ({
            let (pre, post) = (old(driver)@, final(driver)@);
            let i = id.0 as int;
            &&& id.0 >= pre.images.len() ==> {
                &&& answer == Err::<(), _>(DriverError::UnknownComponent)
                &&& post == pre
            }
            &&& id.0 < pre.images.len() ==> match (pre.svn_floors[i], pre.verified_svn[i]) {
                (SvnFloorBinding::SelfManaged, _) => answer == Ok::<(), DriverError>(()) && post
                    == pre,
                (SvnFloorBinding::Erot(_), None) => {
                    &&& answer == Err::<(), _>(DriverError::NoVerifiedImage)
                    &&& post == pre
                },
                (SvnFloorBinding::Erot(before), Some(svn)) => exists|
                    after: B::SvnFloor,
                    advanced: Result<(), <B::SvnFloor as SvnFloor>::Error>,
                | #[trigger]
                    B::SvnFloor::advances(before, svn, advanced, after) && {
                        &&& answer is Ok <==> advanced is Ok
                        &&& answer is Err ==> answer == Err::<(), _>(DriverError::SvnFloorFault)
                        &&& post == DriverState {
                            svn_floors: pre.svn_floors.update(i, SvnFloorBinding::Erot(after)),
                            ..pre
                        }
                    },
            }
        }),
{
}

/// A release of a component, whatever its kind, releases its reset line, and
/// no other. It succeeds exactly when the line does; then the component's
/// walk is armed and watched. A line that was not actuated starts no walk.
/// Nothing else changes.
pub proof fn law_a_release_reaches_the_line<B: BoardCapabilities, const N: usize>(
    driver: &mut PlatformDriver<B, N>,
    id: ComponentId,
    answer: Result<(), DriverError>,
)
    requires
        old(driver)@.valid(),
        call_ensures(PlatformDriver::<B, N>::release_reset, (driver, id), answer),
    ensures
        ({
            let (pre, post) = (old(driver)@, final(driver)@);
            let i = id.0 as int;
            &&& id.0 >= pre.images.len() ==> {
                &&& answer == Err::<(), _>(DriverError::UnknownComponent)
                &&& post == pre
            }
            &&& id.0 < pre.images.len() ==> exists|
                released: Result<(), <B::BootControl as BootControl>::Error>,
            | #[trigger]
                B::BootControl::releases(pre.boot_controls[i], released, post.boot_controls[i]) && {
                    &&& answer is Ok <==> released is Ok
                    &&& answer is Err ==> {
                        &&& answer == Err::<(), _>(DriverError::BootControlFault)
                        &&& post == DriverState {
                            boot_controls: pre.boot_controls.update(i, post.boot_controls[i]),
                            ..pre
                        }
                    }
                    &&& answer is Ok ==> {
                        &&& B::BootWatch::arms(pre.boot_watches[i], post.boot_watches[i])
                        &&& post == DriverState {
                            boot_controls: pre.boot_controls.update(i, post.boot_controls[i]),
                            boot_watches: pre.boot_watches.update(i, post.boot_watches[i]),
                            watching: pre.watching.update(i, true),
                            ..pre
                        }
                    }
                }
        }),
{
}

/// Holding a component in reset, whatever its kind, holds its reset line, and
/// no other. It succeeds exactly when the line does, and only then is the
/// component's walk no longer watched. Nothing else changes.
pub proof fn law_a_hold_reaches_the_line<B: BoardCapabilities, const N: usize>(
    driver: &mut PlatformDriver<B, N>,
    id: ComponentId,
    answer: Result<(), DriverError>,
)
    requires
        old(driver)@.valid(),
        call_ensures(PlatformDriver::<B, N>::assert_reset, (driver, id), answer),
    ensures
        ({
            let (pre, post) = (old(driver)@, final(driver)@);
            let i = id.0 as int;
            &&& id.0 >= pre.images.len() ==> {
                &&& answer == Err::<(), _>(DriverError::UnknownComponent)
                &&& post == pre
            }
            &&& id.0 < pre.images.len() ==> exists|
                held: Result<(), <B::BootControl as BootControl>::Error>,
            | #[trigger]
                B::BootControl::holds(pre.boot_controls[i], held, post.boot_controls[i]) && {
                    &&& answer is Ok <==> held is Ok
                    &&& answer is Err ==> answer == Err::<(), _>(DriverError::BootControlFault)
                    &&& post == DriverState {
                        boot_controls: pre.boot_controls.update(i, post.boot_controls[i]),
                        watching: if held is Ok {
                            pre.watching.update(i, false)
                        } else {
                            pre.watching
                        },
                        ..pre
                    }
                }
        }),
{
}

/// A recovery asks the component's mechanism for the attempt it was given, and
/// tells what came of it: an image that was restored, or sources that are
/// exhausted, and an error exactly when the mechanism faulted. Nothing but
/// the mechanism changes.
pub proof fn law_a_recovery_tells_what_came_of_it<B: BoardCapabilities, const N: usize>(
    driver: &mut PlatformDriver<B, N>,
    id: ComponentId,
    attempt: u8,
    answer: Result<Event, DriverError>,
)
    requires
        old(driver)@.valid(),
        call_ensures(PlatformDriver::<B, N>::recover_component, (driver, id, attempt), answer),
    ensures
        ({
            let (pre, post) = (old(driver)@, final(driver)@);
            let i = id.0 as int;
            &&& id.0 >= pre.images.len() ==> {
                &&& answer == Err::<Event, _>(DriverError::UnknownComponent)
                &&& post == pre
            }
            &&& id.0 < pre.images.len() ==> exists|
                restored: Result<RestoreOutcome, <B::Recovery as Recovery>::Error>,
            | #[trigger]
                B::Recovery::restores(pre.recovery[i], attempt, restored, post.recovery[i]) && {
                    &&& answer == (match restored {
                        Ok(RestoreOutcome::Restored) => Ok(Event::Restored(id)),
                        Ok(RestoreOutcome::SourceExhausted) => Ok(Event::RecoveryUnavailable(id)),
                        Err(_) => Err(DriverError::RecoveryFault),
                    })
                    &&& post == DriverState {
                        recovery: pre.recovery.update(i, post.recovery[i]),
                        ..pre
                    }
                }
        }),
{
}

/// A report that is handed to the driver is handed to the board's sink, as it
/// is. Nothing but the sink changes.
pub proof fn law_a_report_reaches_the_sink<B: BoardCapabilities, const N: usize>(
    driver: &mut PlatformDriver<B, N>,
    report: Report,
)
    requires
        old(driver)@.valid(),
        call_ensures(PlatformDriver::<B, N>::report, (driver, report), ()),
    ensures
        B::ReportSink::takes(old(driver)@.report_sink, report, final(driver)@.report_sink),
        final(driver)@ == (DriverState {
            report_sink: final(driver)@.report_sink,
            ..old(driver)@
        }),
{
}

} // verus!
