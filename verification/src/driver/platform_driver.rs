//! The executors.
use crate::capabilities::boot::{BootControl, BootWatch, WalkVerdict};
use crate::capabilities::payload_source::PayloadSource;
use crate::capabilities::payload_window::PayloadWindow;
use crate::capabilities::recovery::{Recovery, RestoreOutcome};
use crate::capabilities::svn_floor::{Svn, SvnFloor};
use crate::capabilities::updatable::{StageProgress, Updatable};
use crate::capabilities::verify_session::{PollOutcome, SessionVerifier, VerifySession};
use crate::driver::board::{
    Board, BoardCapabilities, ImageSource, Report, ReportSink, SvnFloorBinding, Verdict, Verifier,
};
use crate::driver::error::DriverError;
use crate::driver::job::{Step, UpdateJob, UpdatePhase, UpdatePoll};
use crate::driver::state::{DriverState, SessionOf};
use crate::driver::steps::{
    activate_update_step, assert_reset_step, authenticate_update_step, authentication_step,
    commit_svn_floor_step, discard_staged_step, effect_answer, effect_event, end_update_step,
    execute_step, poll_boot_walks_step, polled, pump_update_step, recover_component_step,
    reject_job_step, release_reset_step, report_step, request_update_step, session_closed,
    stage_firmware_step, stage_update_step, staging_step, submit_update_step,
    verify_firmware_step, walks_polled, walks_visited,
};
use crate::driver::walk::{
    earlier, is_earliest, lemma_earliest_with, walk_event, BootWalkPoll, Seen,
};
use crate::platform::{ComponentId, Effect, EffectError, Event};
use vstd::prelude::*;

verus! {

/// The effect executors. Everything device-specific lives in the [`Board`];
/// the driver's own fields are bookkeeping.
pub struct PlatformDriver<B: BoardCapabilities, const N: usize> {
    board: Board<B, N>,
    /// Component whose image is staged for verification.
    staged: Option<ComponentId>,
    /// `watching[i]`: component `i` is out of reset with a walk in flight.
    /// Only watched walks are polled, so that a finished or quiesced walk
    /// yields no stale event.
    watching: [bool; N],
    /// `verified_svn[i]` is the manifest SVN of component `i`'s last
    /// authenticated image, which is the only value a floor commit may trust.
    verified_svn: [Option<Svn>; N],
    /// The update in flight.
    pending_update: Option<UpdateJob>,
    /// The verify session while one is running. Its verifier is back in
    /// `board.update_verifier` on every terminal outcome.
    verify_session: Option<SessionOf<B>>,
}

impl<B: BoardCapabilities, const N: usize> View for PlatformDriver<B, N> {
    type V = DriverState<B>;

    closed spec fn view(&self) -> DriverState<B> {
        DriverState {
            staged: self.staged,
            watching: self.watching@,
            verified_svn: self.verified_svn@,
            pending_update: self.pending_update,
            verify_session: self.verify_session,
            ..DriverState::fresh(self.board)
        }
    }
}

/// The part of the staging region that holds a candidate of `len` bytes.
fn candidate<'a, S: PayloadSource>(staging: &'a S, len: u64) -> (window: Result<
    PayloadWindow<'a, S>,
    DriverError,
>)
    ensures
        exists|reported: u64| #[trigger]
            staging.reports_len(reported) && window == (if len > reported {
                Err(DriverError::CandidateOutOfRange)
            } else {
                Ok(PayloadWindow::over(staging, 0, len))
            }),
{
    match PayloadWindow::new(staging, 0, len) {
        Ok(window) => Ok(window),
        Err(_) => Err(DriverError::CandidateOutOfRange),
    }
}

impl<B: BoardCapabilities, const N: usize> PlatformDriver<B, N> {
    /// Takes over `board`.
    pub fn new(board: Board<B, N>) -> (driver: Self)
        requires
            N <= 256,
        ensures
            driver@ == DriverState::fresh(board),
            driver@.valid(),
    {
        Self {
            board,
            staged: None,
            watching: [false; N],
            verified_svn: [None; N],
            pending_update: None,
            verify_session: None,
        }
    }

    /// The board, read-only.
    pub fn board(&self) -> (board: &Board<B, N>)
        ensures
            self@.drives(*board),
    {
        &self.board
    }

    /// The frontend half of the update handshake: records `target` as the
    /// component the staged candidate is for and `len` as how much of the
    /// staging region it occupies. Must succeed before
    /// [`Event::UpdateRequest`] is dispatched.
    ///
    /// Refuses an unknown id, a candidate that does not fit the staging
    /// region, and a second submit while one update is in flight. Nothing is
    /// stored on refusal.
    pub fn submit_update(&mut self, target: ComponentId, len: u64) -> (answer: Result<
        (),
        DriverError,
    >)
        requires
            old(self)@.valid(),
        ensures
            final(self)@.valid(),
            submit_update_step(old(self)@, target, len, answer, final(self)@),
    {
        if target.get() as usize >= N {
            return Err(DriverError::UnknownComponent);
        }
        if len > self.board.update_staging.len() {
            return Err(DriverError::CandidateOutOfRange);
        }
        if self.pending_update.is_some() {
            return Err(DriverError::UpdateBusy);
        }
        self.pending_update = Some(UpdateJob::new(target, len));
        Ok(())
    }

    /// Discards the in-flight update: abandons any verify session, tells the
    /// device to drop what it staged, and clears the job. The only refusal is
    /// having no job at all.
    pub fn discard_staged(&mut self) -> (answer: Result<(), DriverError>)
        requires
            old(self)@.valid(),
        ensures
            final(self)@.valid(),
            discard_staged_step(old(self)@, answer, final(self)@),
    {
        let job = match self.pending_update.take() {
            Some(job) => job,
            None => return Err(DriverError::NoUpdateJob),
        };
        self.close_session();
        let idx: usize = job.target.get() as usize;
        if idx >= N {
            return Err(DriverError::UnknownComponent);
        }
        self.board.updatables[idx].abandon();
        Ok(())
    }

    /// Starts authenticating the candidate: takes the board's update verifier
    /// and opens a session over it. One poll happens per pump call, not here,
    /// so that the executor returns promptly.
    pub fn authenticate_update(&mut self) -> (answer: Result<(), DriverError>)
        requires
            old(self)@.valid(),
        ensures
            final(self)@.valid(),
            authenticate_update_step(old(self)@, answer, final(self)@),
    {
        let len: u64 = match &self.pending_update {
            Some(job) => {
                if job.phase != UpdatePhase::Submitted {
                    return Err(DriverError::NoUpdateJob);
                }
                job.len
            },
            None => return Err(DriverError::NoUpdateJob),
        };
        // Refused here rather than at the first poll: every later read goes
        // through the window.
        if let Err(e) = candidate(&self.board.update_staging, len) {
            return Err(e);
        }
        let verifier = match self.board.update_verifier.take() {
            Some(verifier) => verifier,
            None => return Err(DriverError::NoUpdateJob),
        };
        self.verify_session = Some(verifier.start());
        if let Some(job) = &mut self.pending_update {
            job.phase = UpdatePhase::Authenticating;
        }
        Ok(())
    }

    /// Records that staging was asked for. The transfer itself runs in
    /// [`pump_update`](Self::pump_update), which does not touch a device
    /// without this.
    pub fn stage_update(&mut self) -> (answer: Result<(), DriverError>)
        requires
            old(self)@.valid(),
        ensures
            final(self)@.valid(),
            stage_update_step(old(self)@, answer, final(self)@),
    {
        match &mut self.pending_update {
            Some(job) => {
                job.stage_requested = true;
                Ok(())
            },
            None => Err(DriverError::NoUpdateJob),
        }
    }

    /// Activates the staged candidate: the device's next boot runs it,
    /// tentatively. Clears the job, which has reached its end.
    pub fn activate_update(&mut self) -> (answer: Result<(), DriverError>)
        requires
            old(self)@.valid(),
        ensures
            final(self)@.valid(),
            activate_update_step(old(self)@, answer, final(self)@),
    {
        let target = match &self.pending_update {
            Some(job) => {
                if job.phase != UpdatePhase::Staged {
                    return Err(DriverError::NoUpdateJob);
                }
                job.target
            },
            None => return Err(DriverError::NoUpdateJob),
        };
        let idx: usize = target.get() as usize;
        if idx >= N {
            return Err(DriverError::UnknownComponent);
        }
        if self.board.updatables[idx].activate().is_err() {
            return Err(DriverError::UpdateFault);
        }
        // Only now: a refused activation leaves the job in flight, so that it
        // can still be discarded.
        self.pending_update = None;
        Ok(())
    }

    /// One step of the in-flight update, called by the event loop between
    /// events, as [`poll_boot_walks`](Self::poll_boot_walks) is.
    ///
    /// Authentication runs first and staging follows, both one bounded step
    /// per call, so that the loop stays live through a transfer that takes
    /// minutes. A job that makes no progress for as long as the board's stall
    /// budget is abandoned.
    ///
    /// The verdict travels as an event: [`Event::UpdateVerified`] once the
    /// device holds the complete payload, [`Event::UpdateRejected`] for a
    /// candidate that failed authentication, a device that faulted, or a
    /// stall. The job stays until the state machine answers with
    /// `ActivateUpdate` or `DiscardStaged`.
    pub fn pump_update(&mut self, now_millis: u64) -> (poll: UpdatePoll)
        requires
            old(self)@.valid(),
        ensures
            final(self)@.valid(),
            pump_update_step(old(self)@, now_millis, poll, final(self)@),
    {
        let phase = match &mut self.pending_update {
            Some(job) => {
                job.start_clock(now_millis);
                job.phase
            },
            None => return UpdatePoll::idle(),
        };
        let stepped = match phase {
            // The executors have not run, or the device already holds the
            // payload and the next move is the state machine's.
            UpdatePhase::Submitted => return UpdatePoll::idle(),
            UpdatePhase::Staged => return UpdatePoll::idle(),
            UpdatePhase::Authenticating => self.poll_authentication(),
            UpdatePhase::Staging => self.poll_staging(),
        };
        let step = match stepped {
            Ok(step) => step,
            Err(_) => return self.reject_job(),
        };
        let settled = match &mut self.pending_update {
            Some(job) => job.settle(step, now_millis, self.board.update_stall_budget_millis),
            None => return UpdatePoll::idle(),
        };
        match settled {
            Some(poll) => poll,
            None => self.reject_job(),
        }
    }

    /// One verify poll over the candidate window. The session comes out of
    /// the driver and goes back in unless it reached a verdict.
    fn poll_authentication(&mut self) -> (stepped: Result<Step, DriverError>)
        ensures
            authentication_step(old(self)@, stepped, final(self)@),
    {
        let ghost pre = self@;
        let len: u64 = match &self.pending_update {
            Some(job) => job.len,
            None => return Err(DriverError::NoUpdateJob),
        };
        if self.verify_session.is_none() {
            return Err(DriverError::NoUpdateJob);
        }
        let window = match candidate(&self.board.update_staging, len) {
            Ok(window) => window,
            Err(e) => return Err(e),
        };
        let session = match self.verify_session.take() {
            Some(session) => session,
            None => return Err(DriverError::NoUpdateJob),
        };
        let outcome = session.poll(&window);
        let ghost seen = outcome;
        let stepped = match outcome {
            PollOutcome::Processing { session, progress } => {
                self.verify_session = Some(session);
                Ok(Step::Working(progress))
            },
            PollOutcome::Authenticated(verifier) => {
                self.board.update_verifier = Some(verifier);
                Ok(Step::Authenticated)
            },
            PollOutcome::Rejected(verifier) => {
                self.board.update_verifier = Some(verifier);
                Ok(Step::Rejected)
            },
            PollOutcome::Fault(verifier, _) => {
                self.board.update_verifier = Some(verifier);
                Ok(Step::Rejected)
            },
        };
        assert(polled(pre, seen, stepped, self@));
        stepped
    }

    /// One staging step. The window over the staging region is read while the
    /// device is written.
    fn poll_staging(&mut self) -> (stepped: Result<Step, DriverError>)
        requires
            old(self)@.tabled(),
        ensures
            staging_step(old(self)@, stepped, final(self)@),
    {
        let (target, len) = match &self.pending_update {
            Some(job) => {
                if !job.stage_requested {
                    return Err(DriverError::NoUpdateJob);
                }
                (job.target, job.len)
            },
            None => return Err(DriverError::NoUpdateJob),
        };
        let window = match candidate(&self.board.update_staging, len) {
            Ok(window) => window,
            Err(e) => return Err(e),
        };
        let idx: usize = target.get() as usize;
        if idx >= N {
            return Err(DriverError::UnknownComponent);
        }
        match self.board.updatables[idx].poll_stage(&window) {
            Ok(StageProgress::Transferring(progress)) => Ok(Step::Working(progress)),
            Ok(StageProgress::Ready) => Ok(Step::Staged),
            Err(_) => Ok(Step::Rejected),
        }
    }

    /// Ends the job the way the state machine understands: the device drops
    /// what it staged and the verdict travels as [`Event::UpdateRejected`].
    /// The job itself stays until it is discarded, so that the two sides never
    /// disagree about whether an update is in flight.
    fn reject_job(&mut self) -> (poll: UpdatePoll)
        requires
            old(self)@.tabled(),
        ensures
            reject_job_step(old(self)@, poll, final(self)@),
    {
        self.close_session();
        if let Some(job) = &mut self.pending_update {
            job.phase = UpdatePhase::Submitted;
            job.stage_requested = false;
            let idx: usize = job.target.get() as usize;
            if idx < N {
                self.board.updatables[idx].abandon();
            }
        }
        UpdatePoll { event: Some(Event::UpdateRejected), progress: None }
    }

    /// Abandons the verify session, if one is open, and puts its verifier back
    /// on the board.
    fn close_session(&mut self)
        ensures
            session_closed(old(self)@, final(self)@),
            final(self)@ == (DriverState {
                verify_session: final(self)@.verify_session,
                update_verifier: final(self)@.update_verifier,
                ..old(self)@
            }),
    {
        if let Some(session) = self.verify_session.take() {
            self.board.update_verifier = Some(session.abandon());
        }
    }

    /// Target of the in-flight update, if one was submitted.
    pub fn pending_update(&self) -> (target: Option<ComponentId>)
        ensures
            target == (match self@.pending_update {
                Some(job) => Some(job.target),
                None => None,
            }),
    {
        match &self.pending_update {
            Some(job) => Some(job.target),
            None => None,
        }
    }

    /// The image source of component `id`. Takes the table rather than the
    /// driver, so that the verifier can be borrowed beside it.
    fn source(images: &mut [B::Image; N], id: ComponentId) -> (source: Result<
        &mut B::Image,
        DriverError,
    >)
        ensures
            match source {
                Ok(image) => {
                    &&& id.index() < N
                    &&& *image == old(images)@[id.index()]
                    &&& final(images)@ == old(images)@.update(id.index(), *final(image))
                },
                Err(e) => {
                    &&& id.index() >= N
                    &&& e == DriverError::UnknownComponent
                    &&& final(images)@ == old(images)@
                },
            },
    {
        let idx: usize = id.get() as usize;
        if idx < N {
            Ok(&mut images[idx])
        } else {
            Err(DriverError::UnknownComponent)
        }
    }

    /// Stages the image of component `id`: opens its source, so that
    /// [`verify_firmware`](Self::verify_firmware) can read it.
    pub fn stage_firmware(&mut self, id: ComponentId) -> (answer: Result<(), DriverError>)
        requires
            old(self)@.valid(),
        ensures
            final(self)@.valid(),
            stage_firmware_step(old(self)@, id, answer, final(self)@),
    {
        self.staged = None;
        let source = match Self::source(&mut self.board.images, id) {
            Ok(source) => source,
            Err(e) => return Err(e),
        };
        if source.open().is_err() {
            return Err(DriverError::ImageUnavailable);
        }
        self.staged = Some(id);
        Ok(())
    }

    /// Has the board's verifier check the staged image: the answer is
    /// [`Event::VerificationPassed`] or [`Event::VerificationFailed`].
    pub fn verify_firmware(&mut self, id: ComponentId) -> (answer: Result<Event, DriverError>)
        requires
            old(self)@.valid(),
        ensures
            final(self)@.valid(),
            verify_firmware_step(old(self)@, id, answer, final(self)@),
    {
        let ghost pre = self@;
        // An unknown component is one even though it can never be staged.
        let source = match Self::source(&mut self.board.images, id) {
            Ok(source) => source,
            Err(e) => return Err(e),
        };
        if self.staged != Some(id) {
            assert(self@ =~= pre);
            return Err(DriverError::NotStaged);
        }
        let judged = self.board.verifier.verify(id, source);
        let ghost i = id.index();
        let ghost told = judged;
        let idx: usize = id.get() as usize;
        let answer = match judged {
            Ok(Verdict::Authenticated { svn }) => {
                self.verified_svn[idx] = Some(svn);
                Ok(Event::VerificationPassed(id))
            },
            Ok(Verdict::Rejected) => {
                self.verified_svn[idx] = None;
                Ok(Event::VerificationFailed(id))
            },
            Err(_) => Err(DriverError::VerifierFault),
        };
        assert(B::Verifier::judges(
            pre.verifier,
            id,
            pre.images[i],
            told,
            self@.images[i],
            self@.verifier,
        ));
        answer
    }

    /// Advances component `id`'s anti-rollback floor to its verified image's
    /// SVN. A self-managed component keeps its own floor; for it the commit
    /// does nothing.
    pub fn commit_svn_floor(&mut self, id: ComponentId) -> (answer: Result<(), DriverError>)
        requires
            old(self)@.valid(),
        ensures
            final(self)@.valid(),
            commit_svn_floor_step(old(self)@, id, answer, final(self)@),
    {
        let ghost pre = self@;
        let idx: usize = id.get() as usize;
        if idx >= N {
            return Err(DriverError::UnknownComponent);
        }
        let verified = self.verified_svn[idx];
        let floor = match &mut self.board.svn_floors[idx] {
            SvnFloorBinding::SelfManaged => {
                assert(self@ =~= pre);
                return Ok(());
            },
            SvnFloorBinding::Erot(floor) => floor,
        };
        let svn = match verified {
            None => {
                assert(self@ =~= pre);
                return Err(DriverError::NoVerifiedImage);
            },
            Some(svn) => svn,
        };
        let ghost before = *floor;
        let advanced = floor.advance(svn);
        let ghost told = advanced;
        assert(self@.svn_floors[idx as int] matches SvnFloorBinding::Erot(after)
            && B::SvnFloor::advances(before, svn, told, after));
        match advanced {
            Ok(_) => Ok(()),
            Err(_) => Err(DriverError::SvnFloorFault),
        }
    }

    /// The reset line of component `id`.
    fn boot_control(&mut self, id: ComponentId) -> (control: Result<
        &mut B::BootControl,
        DriverError,
    >)
        requires
            old(self)@.tabled(),
        ensures
            match control {
                Ok(control) => {
                    &&& old(self)@.knows(id)
                    &&& *control == old(self)@.boot_controls[id.index()]
                    &&& final(self)@ == DriverState {
                        boot_controls: old(self)@.boot_controls.update(
                            id.index(),
                            *final(control),
                        ),
                        ..old(self)@
                    }
                },
                Err(e) => {
                    &&& !old(self)@.knows(id)
                    &&& e == DriverError::UnknownComponent
                    &&& final(self)@ == old(self)@
                },
            },
    {
        let idx: usize = id.get() as usize;
        if idx < N {
            Ok(&mut self.board.boot_controls[idx])
        } else {
            Err(DriverError::UnknownComponent)
        }
    }

    /// Releases component `id` from reset and arms its boot walk;
    /// [`poll_boot_walks`](Self::poll_boot_walks) reports the verdict. Every
    /// release arms, so that a second release starts a fresh walk.
    pub fn release_reset(&mut self, id: ComponentId) -> (answer: Result<(), DriverError>)
        requires
            old(self)@.valid(),
        ensures
            final(self)@.valid(),
            release_reset_step(old(self)@, id, answer, final(self)@),
    {
        let control = match self.boot_control(id) {
            Ok(control) => control,
            Err(e) => return Err(e),
        };
        if control.release().is_err() {
            return Err(DriverError::BootControlFault);
        }
        let idx: usize = id.get() as usize;
        self.board.boot_watches[idx].arm();
        self.watching[idx] = true;
        Ok(())
    }

    /// Holds component `id` in reset: a durable quiesce, not a pulse. Also
    /// stops the boot walk, for a held device gives no boot signal.
    pub fn assert_reset(&mut self, id: ComponentId) -> (answer: Result<(), DriverError>)
        requires
            old(self)@.valid(),
        ensures
            final(self)@.valid(),
            assert_reset_step(old(self)@, id, answer, final(self)@),
    {
        let control = match self.boot_control(id) {
            Ok(control) => control,
            Err(e) => return Err(e),
        };
        if control.hold_in_reset().is_err() {
            return Err(DriverError::BootControlFault);
        }
        self.watching[id.get() as usize] = false;
        Ok(())
    }

    /// Polls every watched walk at `now_millis` and answers the first terminal
    /// verdict as its event. The finished walk stops being watched, so that
    /// each verdict is delivered once.
    ///
    /// Returns at the first event; drain by calling until
    /// [`BootWalkPoll::event`] is `None`. Only that last poll carries a
    /// complete [`BootWalkPoll::next_deadline_millis`].
    pub fn poll_boot_walks(&mut self, now_millis: u64) -> (poll: BootWalkPoll)
        requires
            old(self)@.valid(),
        ensures
            final(self)@.valid(),
            poll_boot_walks_step(old(self)@, now_millis, poll, final(self)@),
    {
        let ghost pre = self@;
        let ghost mut seen: Seen = Seq::empty();
        let mut next_deadline_millis: Option<u64> = None;
        let mut idx: usize = 0;
        while idx < N
            invariant
                idx <= N,
                pre == old(self)@,
                pre.valid(),
                pre.count() == N,
                seen.len() == idx,
                self@ == (DriverState { boot_watches: self@.boot_watches, ..pre }),
                walks_visited(pre, now_millis, seen, self@),
                forall|i: int| #![trigger seen[i]]
                    0 <= i < idx ==> (seen[i] matches Some(verdict) ==> verdict is Waiting),
                is_earliest(seen, next_deadline_millis),
            decreases N - idx,
        {
            let mut verdict: Option<WalkVerdict> = None;
            if self.watching[idx] {
                verdict = Some(self.board.boot_watches[idx].poll(now_millis));
            }
            proof {
                lemma_earliest_with(seen, next_deadline_millis, verdict);
                let more = seen.push(verdict);
                assert forall|i: int| #![trigger more[i]] #![trigger self@.boot_watches[i]]
                    0 <= i < more.len() implies match more[i] {
                    Some(verdict) => pre.watching[i] && B::BootWatch::polls(
                        pre.boot_watches[i],
                        now_millis,
                        verdict,
                        self@.boot_watches[i],
                    ),
                    None => !pre.watching[i] && self@.boot_watches[i] == pre.boot_watches[i],
                } by {}
                seen = more;
            }
            if let Some(verdict) = verdict {
                if let WalkVerdict::Waiting { deadline_millis } = verdict {
                    next_deadline_millis = Some(earlier(next_deadline_millis, deadline_millis));
                } else {
                    self.watching[idx] = false;
                    let id = ComponentId::new(idx as u8);
                    let event = walk_event(id, self.board.component_kinds[idx], verdict);
                    assert(walks_polled(pre, now_millis, seen, self@));
                    return BootWalkPoll { event, next_deadline_millis };
                }
            }
            idx = idx + 1;
        }
        assert(walks_polled(pre, now_millis, seen, self@));
        BootWalkPoll { event: None, next_deadline_millis }
    }

    /// Restores component `id`'s image from its recovery source. The verdict
    /// travels as an event: a mechanism that faulted is the only error.
    pub fn recover_component(&mut self, id: ComponentId, attempt: u8) -> (answer: Result<
        Event,
        DriverError,
    >)
        requires
            old(self)@.valid(),
        ensures
            final(self)@.valid(),
            recover_component_step(old(self)@, id, attempt, answer, final(self)@),
    {
        let idx: usize = id.get() as usize;
        if idx >= N {
            return Err(DriverError::UnknownComponent);
        }
        match self.board.recovery[idx].restore(attempt) {
            Ok(RestoreOutcome::Restored) => Ok(Event::Restored(id)),
            Ok(RestoreOutcome::SourceExhausted) => Ok(Event::RecoveryUnavailable(id)),
            Err(_) => Err(DriverError::RecoveryFault),
        }
    }

    /// Hands one report to the board's sink. Cannot fail, so that reporting
    /// stays off the fail-closed path; reports arrive in the order they were
    /// made.
    pub fn report(&mut self, report: Report)
        requires
            old(self)@.valid(),
        ensures
            final(self)@.valid(),
            report_step(old(self)@, report, final(self)@),
    {
        self.board.report_sink.report(report);
    }

    /// Ends the update in flight, which the state machine put off or gave up,
    /// and reports it. The session is closed, so that neither the job nor the
    /// verifier is held back from the next update.
    fn end_update(&mut self, report: Report)
        requires
            old(self)@.valid(),
        ensures
            final(self)@.valid(),
            end_update_step(old(self)@, report, final(self)@),
    {
        self.close_session();
        self.pending_update = None;
        self.report(report);
    }

    /// Routes each effect to its executor. Verdicts that are ready at once come
    /// back as the answered event; every executor error is the same
    /// [`EffectError`], for the state machine treats all actuation failures
    /// alike and fails closed.
    pub fn execute(&mut self, effect: Effect) -> (answer: Result<Option<Event>, EffectError>)
        requires
            old(self)@.valid(),
        ensures
            final(self)@.valid(),
            execute_step(old(self)@, effect, answer, final(self)@),
    {
        match effect {
            Effect::ReadFirmware(id) => done(self.stage_firmware(id)),
            Effect::VerifyFirmware(id) => told(self.verify_firmware(id)),
            Effect::ReleaseReset(id) => done(self.release_reset(id)),
            Effect::AssertReset(id) => done(self.assert_reset(id)),
            Effect::CommitSvnFloor(id) => done(self.commit_svn_floor(id)),
            // Reports carry no error, so they never reach the fail-closed
            // group below.
            Effect::ReportIsolated(id) => {
                self.report(Report::Isolated(id));
                Ok(None)
            },
            Effect::ReportRecoveryFailed(id) => {
                self.report(Report::RecoveryFailed(id));
                Ok(None)
            },
            Effect::ReportUpdateDeferred => {
                self.end_update(Report::UpdateDeferred);
                Ok(None)
            },
            Effect::ReportUpdateAborted => {
                self.end_update(Report::UpdateAborted);
                Ok(None)
            },
            Effect::ReportBootFailed { id, checkpoint, kind } => {
                self.report(Report::BootFailed { id, checkpoint, kind });
                Ok(None)
            },
            Effect::RecoverComponent { id, attempt } => told(self.recover_component(id, attempt)),
            Effect::AuthenticateUpdate => done(self.authenticate_update()),
            Effect::StageUpdate => done(self.stage_update()),
            Effect::ActivateUpdate => done(self.activate_update()),
            Effect::DiscardStaged => done(self.discard_staged()),
            // The board has no capability for these, so they fail closed.
            Effect::SignAttestation => Err(EffectError),
            Effect::LatchLockdown => Err(EffectError),
            // The state machine's own channel; receiving one is a mistake.
            Effect::Emit(_) => Err(EffectError),
        }
    }
}

/// An executor's answer as the state machine sees it.
fn done(answer: Result<(), DriverError>) -> (seen: Result<Option<Event>, EffectError>)
    ensures
        seen == effect_answer(answer),
{
    match answer {
        Ok(_) => Ok(None),
        Err(_) => Err(EffectError),
    }
}

/// The answer of an executor that reports an event, as the state machine sees
/// it.
fn told(answer: Result<Event, DriverError>) -> (seen: Result<Option<Event>, EffectError>)
    ensures
        seen == effect_event(answer),
{
    match answer {
        Ok(event) => Ok(Some(event)),
        Err(_) => Err(EffectError),
    }
}

/// The connection between an update frontend and the state machine: called
/// once a complete candidate for `target` sits in the staging region. Records
/// the job first, and answers the event to inject. That order matters: staging
/// can never run without a target. On refusal there is no event, and the
/// frontend answers the requester over its own protocol.
pub fn request_update<B: BoardCapabilities, const N: usize>(
    driver: &mut PlatformDriver<B, N>,
    target: ComponentId,
    len: u64,
) -> (answer: Result<Event, DriverError>)
    requires
        old(driver)@.valid(),
    ensures
        final(driver)@.valid(),
        request_update_step(old(driver)@, target, len, answer, final(driver)@),
{
    match driver.submit_update(target, len) {
        Ok(_) => Ok(Event::UpdateRequest),
        Err(e) => Err(e),
    }
}

} // verus!
