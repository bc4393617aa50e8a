//! What a board supplies to the driver.
use crate::capabilities::boot::{BootControl, BootWatch};
use crate::capabilities::payload_source::PayloadSource;
use crate::capabilities::recovery::Recovery;
use crate::capabilities::svn_floor::{Svn, SvnFloor};
use crate::capabilities::updatable::Updatable;
use crate::capabilities::verify_session::SessionVerifier;
use crate::platform::{BootFailureKind, ComponentId, ComponentKind};
use vstd::prelude::*;

verus! {

/// Where a component's firmware image is read from.
pub trait ImageSource: Sized {
    /// The error reported when the image cannot be opened or read.
    type Error;

    /// Opened, the source in state `pre` may answer `answer` and end in state
    /// `post`.
    open spec fn opens(pre: Self, answer: Result<(), Self::Error>, post: Self) -> bool {
        true
    }

    /// Makes the image readable.
    fn open(&mut self) -> (answer: Result<(), Self::Error>)
        ensures
            Self::opens(*old(self), answer, *final(self)),
    ;

    /// Asked for its size, the source may answer `answer`.
    open spec fn sizes(&self, answer: Result<usize, Self::Error>) -> bool {
        true
    }

    /// A read at `offset` into a buffer that held `before` may answer
    /// `answer`, leave `after` in the buffer, and take the source from state
    /// `pre` to state `post`.
    open spec fn reads(
        pre: Self,
        offset: usize,
        before: Seq<u8>,
        answer: Result<(), Self::Error>,
        after: Seq<u8>,
        post: Self,
    ) -> bool {
        true
    }

    /// Image size in bytes.
    fn size(&self) -> (answer: Result<usize, Self::Error>)
        ensures
            self.sizes(answer),
    ;

    /// Fills `buf` with the image bytes that start at `offset`.
    fn read_at(&mut self, offset: usize, buf: &mut [u8]) -> (answer: Result<(), Self::Error>)
        ensures
            Self::reads(*old(self), offset, old(buf)@, answer, final(buf)@, *final(self)),
    ;
}

/// What a verifier found in an image.
#[derive(Debug, Clone, Copy, PartialEq, Eq, Structural)]
pub enum Verdict {
    /// The image authenticated, and its manifest carries `svn`.
    Authenticated { svn: Svn },
    /// The image is not authentic.
    Rejected,
}

/// Judges firmware images of kind `I` at boot.
pub trait Verifier<I: ImageSource>: Sized {
    /// The error reported when the check cannot be performed. A bad image is
    /// a [`Verdict`].
    type Error;

    /// Asked to judge the image of component `id`, the verifier in state
    /// `pre` may answer `answer`, end in state `post`, and leave the image in
    /// state `image_post`.
    open spec fn judges(
        pre: Self,
        id: ComponentId,
        image: I,
        answer: Result<Verdict, Self::Error>,
        image_post: I,
        post: Self,
    ) -> bool {
        true
    }

    /// Judges the image of component `id`.
    fn verify(&mut self, id: ComponentId, image: &mut I) -> (answer: Result<Verdict, Self::Error>)
        ensures
            Self::judges(*old(self), id, *old(image), answer, *final(image), *final(self)),
    ;
}

/// Something for the platform's management to know.
#[derive(Debug, Clone, Copy, PartialEq, Eq)]
pub enum Report {
    /// The component was isolated.
    Isolated(ComponentId),
    /// The component could not be recovered.
    RecoveryFailed(ComponentId),
    /// A boot attempt died at `checkpoint`.
    BootFailed { id: ComponentId, checkpoint: &'static str, kind: BootFailureKind },
    /// The update was put off.
    UpdateDeferred,
    /// The update was given up.
    UpdateAborted,
}

/// Takes reports. Cannot fail.
pub trait ReportSink: Sized {
    /// Handed `report`, the sink in state `pre` may end in state `post`.
    open spec fn takes(pre: Self, report: Report, post: Self) -> bool {
        true
    }

    /// Takes one report.
    fn report(&mut self, report: Report)
        ensures
            Self::takes(*old(self), report, *final(self)),
    ;
}

/// A board with nobody to tell.
impl ReportSink for () {
    open spec fn takes(pre: (), report: Report, post: ()) -> bool {
        post == pre
    }

    fn report(&mut self, report: Report) {
    }
}

/// Who keeps a component's anti-rollback floor.
#[derive(Debug, PartialEq, Eq)]
pub enum SvnFloorBinding<F> {
    /// The root of trust keeps it.
    Erot(F),
    /// The component keeps its own.
    SelfManaged,
}

/// The types that a board is made of.
pub trait BoardCapabilities: Sized {
    type Image: ImageSource;

    type Verifier: Verifier<Self::Image>;

    type BootControl: BootControl;

    type BootWatch: BootWatch;

    type SvnFloor: SvnFloor;

    type ReportSink: ReportSink;

    type Updatable: Updatable;

    type Recovery: Recovery;

    type Staging: PayloadSource;

    type UpdateVerifier: SessionVerifier;
}

/// A board of `N` components. Component `i` has entry `i` of every table.
pub struct Board<B: BoardCapabilities, const N: usize> {
    /// Where each component's image is read from.
    pub images: [B::Image; N],
    /// Judges images at boot.
    pub verifier: B::Verifier,
    /// The reset lines.
    pub boot_controls: [B::BootControl; N],
    /// The boot walks.
    pub boot_watches: [B::BootWatch; N],
    /// How each component takes part in the boot.
    pub component_kinds: [ComponentKind; N],
    /// Who keeps each component's anti-rollback floor.
    pub svn_floors: [SvnFloorBinding<B::SvnFloor>; N],
    /// Where reports go.
    pub report_sink: B::ReportSink,
    /// The update target of each component.
    pub updatables: [B::Updatable; N],
    /// The recovery mechanism of each component.
    pub recovery: [B::Recovery; N],
    /// The region that holds an update candidate.
    pub update_staging: B::Staging,
    /// Authenticates update candidates. Absent while a session owns it.
    pub update_verifier: Option<B::UpdateVerifier>,
    /// How long an update may make no progress.
    pub update_stall_budget_millis: u64,
}

} // verus!
