//! The driver's state as contracts see it.
use crate::capabilities::svn_floor::Svn;
use crate::capabilities::verify_session::SessionVerifier;
use crate::driver::board::{Board, BoardCapabilities, SvnFloorBinding};
use crate::driver::job::{UpdateJob, UpdatePhase};
use crate::platform::{ComponentId, ComponentKind};
use vstd::prelude::*;

verus! {

/// The verify session of a board's update verifier.
pub type SessionOf<B> = <<B as BoardCapabilities>::UpdateVerifier as SessionVerifier>::Session;

/// The state of a driver: the board it drives, and its own bookkeeping.
#[verifier::ext_equal]
pub struct DriverState<B: BoardCapabilities> {
    pub images: Seq<B::Image>,
    pub verifier: B::Verifier,
    pub boot_controls: Seq<B::BootControl>,
    pub boot_watches: Seq<B::BootWatch>,
    pub component_kinds: Seq<ComponentKind>,
    pub svn_floors: Seq<SvnFloorBinding<B::SvnFloor>>,
    pub report_sink: B::ReportSink,
    pub updatables: Seq<B::Updatable>,
    pub recovery: Seq<B::Recovery>,
    pub update_staging: B::Staging,
    pub update_verifier: Option<B::UpdateVerifier>,
    pub update_stall_budget_millis: u64,
    /// The component whose image is staged for verification.
    pub staged: Option<ComponentId>,
    /// The components that are out of reset with a walk in flight.
    pub watching: Seq<bool>,
    /// The SVN of each component's last authenticated image.
    pub verified_svn: Seq<Option<Svn>>,
    /// The update in flight.
    pub pending_update: Option<UpdateJob>,
    /// The verify session that is running.
    pub verify_session: Option<SessionOf<B>>,
}

impl<B: BoardCapabilities> DriverState<B> {
    /// How many components the board has.
    pub open spec fn count(self) -> nat {
        self.images.len()
    }

    /// The board has a device for component `id`.
    pub open spec fn knows(self, id: ComponentId) -> bool {
        id.index() < self.count()
    }

    /// A driver that has just taken over `board`.
    pub open spec fn fresh<const N: usize>(board: Board<B, N>) -> Self {
        DriverState {
            images: board.images@,
            verifier: board.verifier,
            boot_controls: board.boot_controls@,
            boot_watches: board.boot_watches@,
            component_kinds: board.component_kinds@,
            svn_floors: board.svn_floors@,
            report_sink: board.report_sink,
            updatables: board.updatables@,
            recovery: board.recovery@,
            update_staging: board.update_staging,
            update_verifier: board.update_verifier,
            update_stall_budget_millis: board.update_stall_budget_millis,
            staged: None,
            watching: Seq::new(N as nat, |i: int| false),
            verified_svn: Seq::new(N as nat, |i: int| None),
            pending_update: None,
            verify_session: None,
        }
    }

    /// The state is the one of a driver of `board`.
    pub open spec fn drives<const N: usize>(self, board: Board<B, N>) -> bool {
        self == DriverState {
            staged: self.staged,
            watching: self.watching,
            verified_svn: self.verified_svn,
            pending_update: self.pending_update,
            verify_session: self.verify_session,
            ..Self::fresh(board)
        }
    }

    /// Every table has an entry for every component, and component ids reach
    /// all of them.
    pub open spec fn tabled(self) -> bool {
        &&& self.count() <= 256
        &&& self.boot_controls.len() == self.count()
        &&& self.boot_watches.len() == self.count()
        &&& self.component_kinds.len() == self.count()
        &&& self.svn_floors.len() == self.count()
        &&& self.updatables.len() == self.count()
        &&& self.recovery.len() == self.count()
        &&& self.watching.len() == self.count()
        &&& self.verified_svn.len() == self.count()
    }

    /// A job is authenticating.
    pub open spec fn authenticating(self) -> bool {
        self.pending_update matches Some(job) && job.phase == UpdatePhase::Authenticating
    }

    /// What every executor keeps: the tables are complete, the driver's own
    /// ids name components that the board has, and a verify session runs
    /// exactly while a job is authenticating, with the verifier in it.
    pub open spec fn valid(self) -> bool {
        &&& self.tabled()
        &&& self.staged matches Some(id) ==> self.knows(id)
        &&& self.pending_update matches Some(job) ==> self.knows(job.target)
        &&& self.verify_session is Some <==> self.authenticating()
        &&& self.verify_session is Some ==> self.update_verifier is None
    }

    /// The update verifier is with the driver: on the board, or in the
    /// session that owns it.
    pub open spec fn has_verifier(self) -> bool {
        self.update_verifier is Some || self.verify_session is Some
    }
}

} // verus!
