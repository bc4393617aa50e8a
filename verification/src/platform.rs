//! What the orchestrator's state machine and a platform say to each other.
//!
//! The state machine asks for [`Effect`]s, and the platform reports
//! [`Event`]s.
use vstd::prelude::*;

verus! {

/// Names a component of the trust chain. Ids are indices into the board's
/// tables.
#[derive(Debug, Clone, Copy, PartialEq, Eq, Structural)]
pub struct ComponentId(pub u8);

impl ComponentId {
    /// Where in the board's tables the component stands.
    pub open spec fn index(self) -> int {
        self.0 as int
    }

    /// The component with index `index`.
    pub fn new(index: u8) -> (id: Self)
        ensures
            id == ComponentId(index),
    {
        ComponentId(index)
    }

    /// The component's index.
    pub fn get(&self) -> (index: u8)
        ensures
            index == self.index(),
    {
        self.0
    }
}

/// How a component takes part in the boot.
#[derive(Debug, Clone, Copy, PartialEq, Eq, Structural)]
pub enum ComponentKind {
    /// Reports that it is ready and is waited for.
    Active,
    /// Is released and watched, and not waited for.
    Passive,
}

/// What a component that cannot be recovered does to the platform.
#[derive(Debug, Clone, Copy, PartialEq, Eq, Structural)]
pub enum FailurePolicy {
    /// The platform does not run without it.
    Required,
    /// The platform runs on without it.
    Isolable,
}

/// A component's place in the trust chain.
#[derive(Debug, Clone, Copy, PartialEq, Eq, Structural)]
pub struct ComponentAttrs {
    pub kind: ComponentKind,
    pub policy: FailurePolicy,
}

impl ComponentAttrs {
    /// An active component that the platform requires.
    pub fn active_required() -> (attrs: Self)
        ensures
            attrs == (ComponentAttrs {
                kind: ComponentKind::Active,
                policy: FailurePolicy::Required,
            }),
    {
        ComponentAttrs { kind: ComponentKind::Active, policy: FailurePolicy::Required }
    }
}

/// How a failed boot attempt is classified.
#[derive(Debug, Clone, Copy, PartialEq, Eq, Structural)]
pub enum BootFailureKind {
    TimedOut,
    DeviceRetriable,
    DeviceFatal,
}

/// What the platform found at power-on.
#[derive(Debug, Clone, Copy, PartialEq, Eq, Structural)]
pub enum PowerOnResult {
    /// The platform is provisioned.
    Provisioned,
}

/// Something that happened, for the state machine to act on.
#[derive(Debug, Clone, Copy, PartialEq, Eq)]
pub enum Event {
    /// Power is good.
    PowerGood(PowerOnResult),
    /// The component's image authenticated.
    VerificationPassed(ComponentId),
    /// The component's image was rejected.
    VerificationFailed(ComponentId),
    /// An active component finished booting.
    ComponentReady(ComponentId),
    /// A passive component finished booting.
    Booted(ComponentId),
    /// A boot attempt died at `checkpoint`.
    BootFailed { id: ComponentId, checkpoint: &'static str, kind: BootFailureKind },
    /// The component's image was restored.
    Restored(ComponentId),
    /// The component has no recovery source left.
    RecoveryUnavailable(ComponentId),
    /// An update was submitted.
    UpdateRequest,
    /// The update's payload is on the device.
    UpdateVerified,
    /// The update failed.
    UpdateRejected,
}

/// Something the state machine asks the platform to do.
#[derive(Debug, Clone, Copy, PartialEq, Eq)]
pub enum Effect {
    /// Stage the component's image for verification.
    ReadFirmware(ComponentId),
    /// Judge the staged image.
    VerifyFirmware(ComponentId),
    /// Let the component boot.
    ReleaseReset(ComponentId),
    /// Hold the component in reset.
    AssertReset(ComponentId),
    /// Raise the component's anti-rollback floor.
    CommitSvnFloor(ComponentId),
    /// Tell the board that the component was isolated.
    ReportIsolated(ComponentId),
    /// Tell the board that the component could not be recovered.
    ReportRecoveryFailed(ComponentId),
    /// Tell the board that the update was put off.
    ReportUpdateDeferred,
    /// Tell the board that the update was given up.
    ReportUpdateAborted,
    /// Tell the board that a boot attempt failed.
    ReportBootFailed { id: ComponentId, checkpoint: &'static str, kind: BootFailureKind },
    /// Restore the component's image.
    RecoverComponent { id: ComponentId, attempt: u8 },
    /// Start authenticating the update candidate.
    AuthenticateUpdate,
    /// Let the authenticated candidate be staged on its device.
    StageUpdate,
    /// Activate the staged candidate.
    ActivateUpdate,
    /// Drop the update.
    DiscardStaged,
    /// Sign an attestation.
    SignAttestation,
    /// Latch the platform's lockdown.
    LatchLockdown,
    /// The state machine's own channel, which no platform is asked to serve.
    Emit(Event),
}

/// An effect was not carried out.
#[derive(Debug, Clone, Copy, PartialEq, Eq, Structural)]
pub struct EffectError;

} // verus!
