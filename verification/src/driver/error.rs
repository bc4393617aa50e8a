//! Why the driver could not carry out an effect.
use vstd::prelude::*;

verus! {

/// Why the driver could not carry out an effect.
#[derive(Clone, Copy, PartialEq, Eq, Debug, Structural)]
pub enum DriverError {
    /// The effect names a component the driver has no device for.
    UnknownComponent,
    /// The component's image source could not be opened.
    ImageUnavailable,
    /// Verify was asked for a component whose image was never staged.
    NotStaged,
    /// The verifier could not perform the check.
    VerifierFault,
    /// The component's boot control could not actuate the reset line.
    BootControlFault,
    /// A floor commit was asked for a component with no verified image.
    NoVerifiedImage,
    /// The component's SVN floor could not be advanced.
    SvnFloorFault,
    /// An update is already in flight.
    UpdateBusy,
    /// The device refused to activate what it staged.
    UpdateFault,
    /// The recovery mechanism faulted. Running out of sources is a verdict,
    /// not a fault.
    RecoveryFault,
    /// An update effect ran with no job recorded, or with the job in the
    /// wrong phase.
    NoUpdateJob,
    /// The candidate does not fit the staging region.
    CandidateOutOfRange,
}

impl DriverError {
    /// The error in words.
    pub open spec fn words(self) -> Seq<char> {
        match self {
            DriverError::UnknownComponent => "no device for this component id"@,
            DriverError::ImageUnavailable => "image source could not be opened"@,
            DriverError::NotStaged => "no image staged for this component"@,
            DriverError::VerifierFault => "verifier could not perform the check"@,
            DriverError::BootControlFault => "boot control could not actuate the reset"@,
            DriverError::NoVerifiedImage => "no verified image to commit the floor to"@,
            DriverError::SvnFloorFault => "svn floor could not be advanced"@,
            DriverError::UpdateBusy => "an update is already in flight"@,
            DriverError::UpdateFault => "device refused to activate the staged image"@,
            DriverError::RecoveryFault => "recovery mechanism faulted"@,
            DriverError::NoUpdateJob => "no update job for this effect"@,
            DriverError::CandidateOutOfRange => "candidate does not fit the staging region"@,
        }
    }

    /// The error in words.
    pub fn message(&self) -> (text: &'static str)
        ensures
            text@ == self.words(),
    {
        match self {
            DriverError::UnknownComponent => "no device for this component id",
            DriverError::ImageUnavailable => "image source could not be opened",
            DriverError::NotStaged => "no image staged for this component",
            DriverError::VerifierFault => "verifier could not perform the check",
            DriverError::BootControlFault => "boot control could not actuate the reset",
            DriverError::NoVerifiedImage => "no verified image to commit the floor to",
            DriverError::SvnFloorFault => "svn floor could not be advanced",
            DriverError::UpdateBusy => "an update is already in flight",
            DriverError::UpdateFault => "device refused to activate the staged image",
            DriverError::RecoveryFault => "recovery mechanism faulted",
            DriverError::NoUpdateJob => "no update job for this effect",
            DriverError::CandidateOutOfRange => "candidate does not fit the staging region",
        }
    }
}

} // verus!
