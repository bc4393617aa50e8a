//! The executors, on a board of mocks.
use orchestrator::capabilities::boot::{BootControl, BootWatch, FailureCause, WalkVerdict};
use orchestrator::capabilities::payload_source::{PayloadReadError, PayloadSource};
use orchestrator::capabilities::progress::Progress;
use orchestrator::capabilities::recovery::{Recovery, RestoreOutcome};
use orchestrator::capabilities::svn_floor::{Svn, SvnFloor};
use orchestrator::capabilities::updatable::{StageProgress, Updatable, UpdateError};
use orchestrator::capabilities::verify_session::{PollOutcome, SessionVerifier, VerifySession};
use orchestrator::driver::board::{
    Board, BoardCapabilities, ImageSource, Report, ReportSink, SvnFloorBinding, Verdict, Verifier,
};
use orchestrator::driver::error::DriverError;
use orchestrator::driver::platform_driver::{request_update, PlatformDriver};
use orchestrator::platform::{
    BootFailureKind, ComponentId, ComponentKind, Effect, EffectError, Event,
};
use std::cell::Cell;
use std::rc::Rc;

const C0: ComponentId = ComponentId(0);

// Test image convention: 4 magic bytes,
// payload, final byte makes the XOR over the image zero. A board-side
// stand-in for signature + SVN verification.
const IMAGE_MAGIC: [u8; 4] = *b"OPRT";
const IMAGE_LEN: usize = 16;

fn valid_image() -> Vec<u8> {
    let mut image = vec![0u8; IMAGE_LEN];
    image[..4].copy_from_slice(&IMAGE_MAGIC);
    image[4..IMAGE_LEN - 1].fill(0xAB);
    image[IMAGE_LEN - 1] = image[..IMAGE_LEN - 1].iter().fold(0, |acc, b| acc ^ b);
    image
}

#[derive(Debug)]
struct MemFault;

/// RAM-backed image source — the seam satisfied without a HAL. A re-flash
/// can be queued: it lands on the first re-open (a re-stage), the way real
/// flash changes underneath a source between stagings — never on the
/// initial staging.
struct MemImage {
    data: Vec<u8>,
    reflash: Option<Vec<u8>>,
    opened: bool,
    fail_open: bool,
    fail_read: bool,
}

impl MemImage {
    fn holding(data: Vec<u8>) -> Self {
        Self {
            data,
            reflash: None,
            opened: false,
            fail_open: false,
            fail_read: false,
        }
    }

    /// Queue a re-flash: the first re-open stages `data` instead.
    fn reflash_on_reopen(mut self, data: Vec<u8>) -> Self {
        self.reflash = Some(data);
        self
    }
}

impl ImageSource for MemImage {
    type Error = MemFault;

    fn open(&mut self) -> Result<(), MemFault> {
        if self.fail_open {
            return Err(MemFault);
        }
        if let Some(data) = self.reflash.take_if(|_| self.opened) {
            self.data = data;
        }
        self.opened = true;
        Ok(())
    }

    fn size(&self) -> Result<usize, MemFault> {
        Ok(self.data.len())
    }

    fn read_at(&mut self, offset: usize, buf: &mut [u8]) -> Result<(), MemFault> {
        if self.fail_read {
            return Err(MemFault);
        }
        buf.copy_from_slice(&self.data[offset..offset + buf.len()]);
        Ok(())
    }
}

#[derive(Debug)]
struct VerifierError;

/// The magic + XOR-zero check as a board-supplied verifier, reading in
/// chunks.
struct XorVerifier {
    fault: bool,
    /// The manifest SVN this verifier reports for an authenticated image.
    /// A real verifier reads it from the signed manifest of the image it
    /// just checked; the test image format has no manifest, so tests pin it.
    svn: u32,
}

impl<I: ImageSource> Verifier<I> for XorVerifier {
    type Error = VerifierError;

    fn verify(
        &mut self,
        _id: ComponentId,
        image: &mut I,
    ) -> Result<Verdict, VerifierError> {
        if self.fault {
            return Err(VerifierError);
        }
        let len = image.size().map_err(|_| VerifierError)?;
        let mut magic = [0u8; 4];
        let mut xor = 0u8;
        let mut offset = 0;
        let mut chunk = [0u8; 4];
        while offset < len {
            let take = chunk.len().min(len - offset);
            image
                .read_at(offset, &mut chunk[..take])
                .map_err(|_| VerifierError)?;
            if offset == 0 && take >= 4 {
                magic.copy_from_slice(&chunk[..4]);
            }
            xor = chunk[..take].iter().fold(xor, |acc, b| acc ^ b);
            offset += take;
        }
        let ok = len > IMAGE_MAGIC.len() && magic == IMAGE_MAGIC && xor == 0;
        Ok(if ok {
            Verdict::Authenticated { svn: Svn(self.svn) }
        } else {
            Verdict::Rejected
        })
    }
}

#[derive(Debug)]
struct ResetFault;

/// Reset actuation without a HAL; `held` is shared so tests can observe the
/// line after the control moves into the driver.
struct MockReset {
    held: Rc<Cell<bool>>,
    fail: bool,
    /// Actuations that still work, if they are numbered.
    left: Option<usize>,
}

impl MockReset {
    fn new() -> Self {
        Self {
            held: Rc::new(Cell::new(true)),
            fail: false,
            left: None,
        }
    }

    /// A line that works `actuations` times and no more.
    fn failing_after(actuations: usize) -> Self {
        Self {
            left: Some(actuations),
            ..Self::new()
        }
    }

    fn actuate(&mut self, held: bool) -> Result<(), ResetFault> {
        if self.fail || self.left == Some(0) {
            return Err(ResetFault);
        }
        self.left = self.left.map(|left| left - 1);
        self.held.set(held);
        Ok(())
    }
}

impl BootControl for MockReset {
    type Error = ResetFault;

    fn hold_in_reset(&mut self) -> Result<(), ResetFault> {
        self.actuate(true)
    }

    fn release(&mut self) -> Result<(), ResetFault> {
        self.actuate(false)
    }
}

/// Boot walk without a device; scripted verdicts. An exhausted script
/// holds its last verdict; an empty script waits forever. `arm` rewinds
/// to the script start, so a fresh attempt is observable from the
/// verdicts alone — no poll or arm counters needed.
struct MockWalk {
    verdicts: Vec<WalkVerdict>,
    next: usize,
}

const IDLE_DEADLINE: u64 = 60_000;

impl MockWalk {
    fn scripted(verdicts: Vec<WalkVerdict>) -> Self {
        Self { verdicts, next: 0 }
    }

    /// A walk that reports "still waiting" forever.
    fn idle() -> Self {
        Self::scripted(Vec::new())
    }
}

impl BootWatch for MockWalk {
    fn arm(&mut self) {
        self.next = 0;
    }

    fn poll(&mut self, _now_millis: u64) -> WalkVerdict {
        match self.verdicts.get(self.next) {
            Some(v) => {
                self.next += 1;
                *v
            }
            // Exhausted: repeat the last verdict, like a real finished
            // walk. A driver bug that re-polls one then shows up as a
            // duplicate event in the exactly-once assertions instead of
            // panicking here.
            None => self
                .verdicts
                .last()
                .copied()
                .unwrap_or(WalkVerdict::Waiting {
                    deadline_millis: IDLE_DEADLINE,
                }),
        }
    }
}

#[derive(Debug, PartialEq, Eq)]
struct FloorFaultInjected;

/// An SVN floor without storage; tests read it back through the
/// capability's own `floor()` via `PlatformDriver::board`.
struct MockFloor {
    floor: u32,
    fail: bool,
}

impl MockFloor {
    fn new() -> Self {
        Self {
            floor: 0,
            fail: false,
        }
    }
}

/// A device without a HAL, which stages in as many steps as it is told.
struct MockUpdatable {
    ready: bool,
    active: bool,
    abandons: usize,
    /// Transferring steps before the device reports Ready.
    steps: usize,
    written: u64,
    /// Answers Transferring forever without moving `written`: the stall
    /// the pump's budget exists for.
    stalls: bool,
    /// Fails every step.
    faults: bool,
    /// Refuses every activation.
    refuses: bool,
}

/// Bytes one staging step writes.
const STAGE_CHUNK: u64 = 8;

impl MockUpdatable {
    /// Reports Ready on the first step.
    fn new() -> Self {
        Self {
            ready: false,
            active: false,
            abandons: 0,
            steps: 0,
            written: 0,
            stalls: false,
            faults: false,
            refuses: false,
        }
    }

    /// Transfers in `steps` steps before reporting Ready.
    fn stepping(steps: usize) -> Self {
        Self {
            steps,
            ..Self::new()
        }
    }

    fn stalling() -> Self {
        Self {
            stalls: true,
            ..Self::new()
        }
    }

    /// Stages, and then refuses to activate.
    fn refusing() -> Self {
        Self {
            refuses: true,
            ..Self::new()
        }
    }

    fn faulting() -> Self {
        Self {
            faults: true,
            ..Self::new()
        }
    }
}

/// The staging region: a fixed buffer an update source would have
/// written into.
struct MemStaging {
    bytes: [u8; STAGING_LEN],
}

/// How long a job may make no progress before the pump abandons it.
const STALL_BUDGET_MILLIS: u64 = 1_000;

/// Room for the candidate plus slack, so a test can tell the region's
/// length from the candidate's.
const STAGING_LEN: usize = 64;

/// What `mock_board` declares as its candidate length: shorter than the
/// region, so the job's window has to be the thing that bounds reads.
const CANDIDATE_LEN: u64 = 32;

impl MemStaging {
    fn new() -> Self {
        Self {
            bytes: core::array::from_fn(|i| i as u8),
        }
    }
}

impl PayloadSource for MemStaging {
    fn len(&self) -> u64 {
        self.bytes.len() as u64
    }

    fn read_at(&self, offset: u64, buf: &mut [u8]) -> Result<(), PayloadReadError> {
        let start = offset as usize;
        let end = start
            .checked_add(buf.len())
            .ok_or(PayloadReadError::OutOfRange)?;
        if end > self.bytes.len() {
            return Err(PayloadReadError::OutOfRange);
        }
        buf.copy_from_slice(&self.bytes[start..end]);
        Ok(())
    }
}

#[derive(Debug, PartialEq, Eq)]
struct CandidateVerifierFault;

/// What the candidate verifier decides once it has read the whole
/// candidate.
#[derive(Debug, Clone, Copy, PartialEq, Eq)]
enum CandidateVerdict {
    Authentic,
    Invalid,
    Faulting,
}

/// Authenticates a candidate in fixed steps, with the verdict decided up
/// front. Counts the polls so a test can tell one bounded step from a
/// whole verification.
#[derive(Debug, PartialEq, Eq)]
struct MockCandidateVerifier {
    verdict: CandidateVerdict,
    polls: usize,
}

impl MockCandidateVerifier {
    fn new() -> Self {
        Self::deciding(CandidateVerdict::Authentic)
    }

    fn deciding(verdict: CandidateVerdict) -> Self {
        Self { verdict, polls: 0 }
    }
}

/// Bytes one verify poll reads.
const VERIFY_CHUNK: u64 = 8;

#[derive(Debug, PartialEq, Eq)]
struct MockVerifySession {
    verifier: MockCandidateVerifier,
    done: u64,
}

impl SessionVerifier for MockCandidateVerifier {
    type Session = MockVerifySession;

    fn start(self) -> MockVerifySession {
        MockVerifySession {
            verifier: self,
            done: 0,
        }
    }
}

impl VerifySession for MockVerifySession {
    type Verifier = MockCandidateVerifier;
    type Error = CandidateVerifierFault;

    fn poll<P: PayloadSource>(
        mut self,
        payload: &P,
    ) -> PollOutcome<Self, MockCandidateVerifier, CandidateVerifierFault> {
        self.verifier.polls += 1;
        let total = payload.len();
        // An empty payload is a fault, never a vacuous Authenticated.
        if total == 0 {
            return PollOutcome::Fault(self.verifier, CandidateVerifierFault);
        }
        self.done = (self.done + VERIFY_CHUNK).min(total);
        if self.done < total {
            let progress = Progress {
                done: self.done,
                total,
            };
            return PollOutcome::Processing {
                session: self,
                progress,
            };
        }
        match self.verifier.verdict {
            CandidateVerdict::Authentic => PollOutcome::Authenticated(self.verifier),
            CandidateVerdict::Invalid => PollOutcome::Rejected(self.verifier),
            CandidateVerdict::Faulting => PollOutcome::Fault(self.verifier, CandidateVerifierFault),
        }
    }

    fn abandon(self) -> MockCandidateVerifier {
        self.verifier
    }
}

impl SvnFloor for MockFloor {
    type Error = FloorFaultInjected;

    fn floor(&self) -> Result<Svn, FloorFaultInjected> {
        if self.fail {
            return Err(FloorFaultInjected);
        }
        Ok(Svn(self.floor))
    }

    fn advance(&mut self, to: Svn) -> Result<(), FloorFaultInjected> {
        if self.fail {
            return Err(FloorFaultInjected);
        }
        self.floor = self.floor.max(to.0);
        Ok(())
    }
}

impl Updatable for MockUpdatable {
    fn poll_stage<P: PayloadSource>(
        &mut self,
        payload: &P,
    ) -> Result<StageProgress, UpdateError> {
        if self.faults {
            return Err(UpdateError::Device);
        }
        let total = payload.len();
        if self.stalls {
            return Ok(StageProgress::Transferring(
                Progress {
                    done: self.written,
                    total,
                },
            ));
        }
        if self.steps > 0 {
            self.steps -= 1;
            self.written = (self.written + STAGE_CHUNK).min(total);
            return Ok(StageProgress::Transferring(
                Progress {
                    done: self.written,
                    total,
                },
            ));
        }
        self.ready = true;
        Ok(StageProgress::Ready)
    }

    fn abandon(&mut self) {
        self.ready = false;
        self.abandons += 1;
    }

    fn activate(&mut self) -> Result<(), UpdateError> {
        if !self.ready {
            return Err(UpdateError::NothingStaged);
        }
        if self.refuses {
            return Err(UpdateError::Device);
        }
        self.active = true;
        Ok(())
    }
}

/// The test board's type choices.
struct MockBoard;

impl BoardCapabilities for MockBoard {
    type Image = MemImage;
    type Verifier = XorVerifier;
    type BootControl = MockReset;
    type BootWatch = MockWalk;
    type SvnFloor = MockFloor;
    type ReportSink = RecordingSink;
    type Updatable = MockUpdatable;
    type Recovery = ();
    type Staging = MemStaging;
    type UpdateVerifier = MockCandidateVerifier;
}

/// The SVN `mock_board`'s verifier vouches for. Tests that read the floor
/// back assert against it.
const MOCK_SVN: u32 = 5;

/// Happy-path wiring for `N` components. Tests override the one field
/// they exercise with `..mock_board()`.
fn mock_board<const N: usize>() -> Board<MockBoard, N> {
    Board {
        images: core::array::from_fn(|_| MemImage::holding(valid_image())),
        verifier: XorVerifier {
            fault: false,
            svn: MOCK_SVN,
        },
        boot_controls: core::array::from_fn(|_| MockReset::new()),
        boot_watches: core::array::from_fn(|_| MockWalk::idle()),
        component_kinds: core::array::from_fn(|_| ComponentKind::Passive),
        svn_floors: core::array::from_fn(|_| SvnFloorBinding::Erot(MockFloor::new())),
        report_sink: RecordingSink::new(),
        updatables: core::array::from_fn(|_| MockUpdatable::new()),
        recovery: core::array::from_fn(|_| ()),
        update_staging: MemStaging::new(),
        update_verifier: Some(MockCandidateVerifier::new()),
        update_stall_budget_millis: STALL_BUDGET_MILLIS,
    }
}

fn driver(images: [MemImage; 1]) -> PlatformDriver<MockBoard, 1> {
    PlatformDriver::new(Board {
        images,
        ..mock_board()
    })
}

#[test]
fn corrupt_image_fails_verification() {
    let mut corrupt = valid_image();
    corrupt[7] ^= 0x01;
    let mut driver = driver([MemImage::holding(corrupt)]);

    driver.stage_firmware(C0).unwrap();

    assert_eq!(
        driver.verify_firmware(C0),
        Ok(Event::VerificationFailed(C0))
    );
}

#[test]
fn verify_without_read_is_refused() {
    let mut driver = driver([MemImage::holding(valid_image())]);

    assert_eq!(driver.verify_firmware(C0), Err(DriverError::NotStaged));
}

const C1: ComponentId = ComponentId(1);

#[test]
fn verify_for_a_different_component_is_refused() {
    let mut driver = PlatformDriver::<MockBoard, 2>::new(mock_board());

    driver.stage_firmware(C0).unwrap();

    assert_eq!(driver.verify_firmware(C1), Err(DriverError::NotStaged));
}

#[test]
fn unknown_component_is_refused() {
    let mut driver = driver([MemImage::holding(valid_image())]);

    assert_eq!(
        driver.stage_firmware(ComponentId::new(9)),
        Err(DriverError::UnknownComponent)
    );
}

// An unknown id is reported as such even though it is also never staged.
#[test]
fn verify_of_unknown_component_is_refused() {
    let mut driver = driver([MemImage::holding(valid_image())]);

    assert_eq!(
        driver.verify_firmware(ComponentId::new(9)),
        Err(DriverError::UnknownComponent)
    );
}

#[test]
fn reset_release_and_assert_reach_the_boot_control() {
    let mut driver = PlatformDriver::<MockBoard, 1>::new(mock_board());

    driver.release_reset(C0).unwrap();
    assert!(!driver.board().boot_controls[0].held.get());

    driver.assert_reset(C0).unwrap();
    assert!(driver.board().boot_controls[0].held.get());
}

#[test]
fn reset_of_unknown_component_is_refused() {
    let mut driver = driver([MemImage::holding(valid_image())]);

    assert_eq!(
        driver.release_reset(ComponentId::new(9)),
        Err(DriverError::UnknownComponent)
    );
    assert_eq!(
        driver.assert_reset(ComponentId::new(9)),
        Err(DriverError::UnknownComponent)
    );
}

#[test]
fn reset_line_fault_is_reported() {
    let mut control = MockReset::new();
    control.fail = true;
    let mut driver = PlatformDriver::<MockBoard, 1>::new(Board {
        boot_controls: [control],
        ..mock_board()
    });

    assert_eq!(driver.release_reset(C0), Err(DriverError::BootControlFault));
    assert_eq!(driver.assert_reset(C0), Err(DriverError::BootControlFault));
}

// Effect::Emit is the orchestrator's internal channel and must never reach
// a Platform; the driver refuses it rather than acting on it.
#[test]
fn emit_is_refused() {
    let mut driver = driver([MemImage::holding(valid_image())]);

    assert_eq!(
        driver.execute(Effect::Emit(Event::UpdateRequest)),
        Err(EffectError)
    );
}

// The verdict is the returned event of the VerifyFirmware effect.
#[test]
fn execute_returns_the_verdict_event() {
    let mut driver = driver([MemImage::holding(valid_image())]);

    assert_eq!(driver.execute(Effect::ReadFirmware(C0)), Ok(None));
    assert_eq!(
        driver.execute(Effect::VerifyFirmware(C0)),
        Ok(Some(Event::VerificationPassed(C0)))
    );
}

/// Wraps [`XorVerifier`] and snapshots the reset line as the check runs,
/// so the test can see the line state inside the verification window.
struct LineWatchingVerifier {
    inner: XorVerifier,
    line: Rc<Cell<bool>>,
    held_during_verify: Rc<Cell<bool>>,
}

impl<I: ImageSource> Verifier<I> for LineWatchingVerifier {
    type Error = VerifierError;

    fn verify(
        &mut self,
        id: ComponentId,
        image: &mut I,
    ) -> Result<Verdict, VerifierError> {
        self.held_during_verify.set(self.line.get());
        self.inner.verify(id, image)
    }
}

struct WatchBoard;

impl BoardCapabilities for WatchBoard {
    type Image = MemImage;
    type Verifier = LineWatchingVerifier;
    type BootControl = MockReset;
    type BootWatch = MockWalk;
    type SvnFloor = MockFloor;
    // A board with nothing to tell: exercises the no-op sink.
    type ReportSink = ();
    type Updatable = MockUpdatable;
    type Recovery = ();
    type Staging = MemStaging;
    type UpdateVerifier = MockCandidateVerifier;
}

// ---------------------------------------------------------------------------
// Boot-walk supervision.
// ---------------------------------------------------------------------------

/// A 2-component driver with per-component scripted walks and kinds;
/// everything else is the happy-path mock.
fn walk_driver(
    walks: [MockWalk; 2],
    component_kinds: [ComponentKind; 2],
) -> PlatformDriver<MockBoard, 2> {
    PlatformDriver::new(Board {
        boot_watches: walks,
        component_kinds,
        ..mock_board()
    })
}

// A completed walk becomes ComponentReady for Active, Booted for Passive.
// One event per call, drained in index order; a finished walk never
// reports twice.
#[test]
fn completed_walks_report_by_kind() {
    let mut driver = walk_driver(
        [
            MockWalk::scripted(vec![WalkVerdict::Complete]),
            MockWalk::scripted(vec![WalkVerdict::Complete]),
        ],
        [ComponentKind::Active, ComponentKind::Passive],
    );
    driver.release_reset(C0).unwrap();
    driver.release_reset(C1).unwrap();

    assert_eq!(
        driver.poll_boot_walks(0).event,
        Some(Event::ComponentReady(C0))
    );
    assert_eq!(driver.poll_boot_walks(0).event, Some(Event::Booted(C1)));

    let quiet = driver.poll_boot_walks(0);
    assert_eq!(quiet.event, None, "verdicts are delivered exactly once");
    assert_eq!(quiet.next_deadline_millis, None, "no walk left waiting");
}

// A failed walk becomes BootFailed, preserving the checkpoint name and
// classified cause so the SM can differentiate retry decisions later.
#[test]
fn failed_walks_map_to_boot_failed() {
    let mut driver = walk_driver(
        [
            MockWalk::scripted(vec![WalkVerdict::Failed {
                checkpoint: "heartbeat",
                cause: FailureCause::TimedOut,
            }]),
            MockWalk::scripted(vec![WalkVerdict::Failed {
                checkpoint: "self-test",
                cause: FailureCause::DeviceFatal,
            }]),
        ],
        [ComponentKind::Active, ComponentKind::Passive],
    );
    driver.release_reset(C0).unwrap();
    driver.release_reset(C1).unwrap();

    assert_eq!(
        driver.poll_boot_walks(0).event,
        Some(Event::BootFailed {
            id: C0,
            checkpoint: "heartbeat",
            kind: BootFailureKind::TimedOut,
        })
    );
    assert_eq!(
        driver.poll_boot_walks(0).event,
        Some(Event::BootFailed {
            id: C1,
            checkpoint: "self-test",
            kind: BootFailureKind::DeviceFatal,
        })
    );
    assert_eq!(driver.poll_boot_walks(0).event, None);
}

// An event-carrying poll returns before visiting later walks, so its
// deadline is partial and must not be trusted; the drain's final,
// event-free poll visits every remaining walk and reports the earliest
// deadline.
#[test]
fn deadline_is_authoritative_only_when_no_event() {
    let mut driver = walk_driver(
        [
            MockWalk::scripted(vec![WalkVerdict::Complete]),
            MockWalk::scripted(vec![WalkVerdict::Waiting {
                deadline_millis: 1_000,
            }]),
        ],
        [ComponentKind::Passive, ComponentKind::Passive],
    );
    driver.release_reset(C0).unwrap();
    driver.release_reset(C1).unwrap();

    let first = driver.poll_boot_walks(0);
    assert_eq!(first.event, Some(Event::Booted(C0)));
    assert_eq!(
        first.next_deadline_millis, None,
        "returned before the waiting walk was visited"
    );

    let last = driver.poll_boot_walks(0);
    assert_eq!(last.event, None);
    assert_eq!(last.next_deadline_millis, Some(1_000));
}

// While every watched walk waits, the poll carries the earliest deadline
// as the run loop's next wake-up.
#[test]
fn waiting_walks_report_the_earliest_deadline() {
    let mut driver = walk_driver(
        [
            MockWalk::scripted(vec![WalkVerdict::Waiting {
                deadline_millis: 9_000,
            }]),
            MockWalk::scripted(vec![WalkVerdict::Waiting {
                deadline_millis: 4_000,
            }]),
        ],
        [ComponentKind::Passive, ComponentKind::Passive],
    );
    driver.release_reset(C0).unwrap();
    driver.release_reset(C1).unwrap();

    let poll = driver.poll_boot_walks(0);
    assert_eq!(poll.event, None);
    assert_eq!(poll.next_deadline_millis, Some(4_000));
}

// A walk is watched only between release and terminal verdict. Without that
// rule the script's end would surface as an event: there is no event before
// release, no stale event after assert_reset, and the verdict
// still arrives once the device is actually released.
#[test]
fn only_released_components_are_watched() {
    let mut driver = walk_driver(
        [
            MockWalk::scripted(vec![WalkVerdict::Complete]),
            MockWalk::idle(),
        ],
        [ComponentKind::Passive, ComponentKind::Passive],
    );

    assert_eq!(
        driver.poll_boot_walks(0).event,
        None,
        "unreleased: no event"
    );

    driver.release_reset(C0).unwrap();
    driver.assert_reset(C0).unwrap();
    assert_eq!(
        driver.poll_boot_walks(0).event,
        None,
        "back in reset: no stale event"
    );

    driver.release_reset(C0).unwrap();
    assert_eq!(driver.poll_boot_walks(0).event, Some(Event::Booted(C0)));
}

// Every release re-arms the walk: a retry judges a new attempt from the
// first checkpoint, not the failed one resumed. With a script of
// [Failed, Complete], a resumed walk would report Complete on the second
// attempt; a fresh one reports Failed again.
#[test]
fn rerelease_arms_a_fresh_walk() {
    let mut driver = walk_driver(
        [
            MockWalk::scripted(vec![
                WalkVerdict::Failed {
                    checkpoint: "heartbeat",
                    cause: FailureCause::TimedOut,
                },
                WalkVerdict::Complete,
            ]),
            MockWalk::idle(),
        ],
        [ComponentKind::Passive, ComponentKind::Passive],
    );

    driver.release_reset(C0).unwrap();
    assert_eq!(
        driver.poll_boot_walks(0).event,
        Some(Event::BootFailed {
            id: C0,
            checkpoint: "heartbeat",
            kind: BootFailureKind::TimedOut,
        })
    );

    driver.release_reset(C0).unwrap();
    assert_eq!(
        driver.poll_boot_walks(0).event,
        Some(Event::BootFailed {
            id: C0,
            checkpoint: "heartbeat",
            kind: BootFailureKind::TimedOut,
        }),
        "fresh attempt from the first checkpoint, not the old walk resumed"
    );
}

// ---------------------------------------------------------------------------
// Recovery executor.
// ---------------------------------------------------------------------------

struct MockRecovery {
    sources: u8,
    fail_on: Option<u8>,
}

#[derive(Debug)]
struct RecoveryActuationFault;

impl Recovery for MockRecovery {
    type Error = RecoveryActuationFault;

    fn restore(&mut self, attempt: u8) -> Result<RestoreOutcome, Self::Error> {
        if self.fail_on == Some(attempt) {
            return Err(RecoveryActuationFault);
        }
        if attempt >= self.sources {
            return Ok(RestoreOutcome::SourceExhausted);
        }
        Ok(RestoreOutcome::Restored)
    }
}

struct RecoverableBoard;

impl BoardCapabilities for RecoverableBoard {
    type Image = MemImage;
    type Verifier = XorVerifier;
    type BootControl = MockReset;
    type BootWatch = MockWalk;
    type SvnFloor = MockFloor;
    type ReportSink = RecordingSink;
    type Updatable = MockUpdatable;
    type Recovery = MockRecovery;
    type Staging = MemStaging;
    type UpdateVerifier = MockCandidateVerifier;
}

fn recoverable_board<const N: usize>(sources: u8) -> Board<RecoverableBoard, N> {
    Board {
        images: core::array::from_fn(|_| MemImage::holding(valid_image())),
        verifier: XorVerifier {
            fault: false,
            svn: MOCK_SVN,
        },
        boot_controls: core::array::from_fn(|_| MockReset::new()),
        boot_watches: core::array::from_fn(|_| MockWalk::idle()),
        component_kinds: core::array::from_fn(|_| ComponentKind::Passive),
        svn_floors: core::array::from_fn(|_| SvnFloorBinding::Erot(MockFloor::new())),
        report_sink: RecordingSink::new(),
        updatables: core::array::from_fn(|_| MockUpdatable::new()),
        recovery: core::array::from_fn(|_| MockRecovery {
            sources,
            fail_on: None,
        }),
        update_staging: MemStaging::new(),
        update_verifier: Some(MockCandidateVerifier::new()),
        update_stall_budget_millis: STALL_BUDGET_MILLIS,
    }
}

// RecoverComponent with a successful restore returns Restored(id).
#[test]
fn recover_component_returns_restored() {
    let mut driver = PlatformDriver::<RecoverableBoard, 1>::new(recoverable_board(2));

    assert_eq!(driver.recover_component(C0, 0), Ok(Event::Restored(C0)));
    assert_eq!(driver.recover_component(C0, 1), Ok(Event::Restored(C0)));
}

// RecoverComponent past the last source returns RecoveryUnavailable(id).
#[test]
fn recover_component_returns_unavailable_when_exhausted() {
    let mut driver = PlatformDriver::<RecoverableBoard, 1>::new(recoverable_board(1));

    assert_eq!(driver.recover_component(C0, 0), Ok(Event::Restored(C0)));
    assert_eq!(
        driver.recover_component(C0, 1),
        Ok(Event::RecoveryUnavailable(C0))
    );
}

// A faulting mechanism returns RecoveryFault; the next attempt still
// succeeds, so a fault does not poison the path.
#[test]
fn recovery_fault_is_reported() {
    let mut driver = PlatformDriver::<RecoverableBoard, 1>::new(Board {
        recovery: [MockRecovery {
            sources: 2,
            fail_on: Some(0),
        }],
        ..recoverable_board(2)
    });

    assert_eq!(
        driver.recover_component(C0, 0),
        Err(DriverError::RecoveryFault)
    );
    // The next attempt succeeds: a fault does not poison the path.
    assert_eq!(driver.recover_component(C0, 1), Ok(Event::Restored(C0)));
}

// An unknown component is refused before the mechanism is consulted.
#[test]
fn recover_unknown_component_is_refused() {
    let mut driver = PlatformDriver::<RecoverableBoard, 1>::new(recoverable_board(2));

    assert_eq!(
        driver.recover_component(ComponentId::new(9), 0),
        Err(DriverError::UnknownComponent)
    );
}

// The `()` impl reports exhaustion on every attempt: no sources exist.
#[test]
fn unit_recovery_always_exhausted() {
    let mut driver = PlatformDriver::<MockBoard, 1>::new(mock_board());

    assert_eq!(
        driver.recover_component(C0, 0),
        Ok(Event::RecoveryUnavailable(C0))
    );
}

// RecoverComponent through the Platform seam: a successful restore returns
// Some(Restored), a faulting mechanism returns EffectError.
#[test]
fn execute_routes_recover_component() {
    let mut driver = PlatformDriver::<RecoverableBoard, 1>::new(recoverable_board(2));

    assert_eq!(
        driver.execute(Effect::RecoverComponent { id: C0, attempt: 0 }),
        Ok(Some(Event::Restored(C0)))
    );

    let mut faulting_driver = PlatformDriver::<RecoverableBoard, 1>::new(Board {
        recovery: [MockRecovery {
            sources: 2,
            fail_on: Some(0),
        }],
        ..recoverable_board(2)
    });

    assert_eq!(
        faulting_driver.execute(Effect::RecoverComponent { id: C0, attempt: 0 }),
        Err(EffectError)
    );
}

// ---------------------------------------------------------------------------
// Report sink.
// ---------------------------------------------------------------------------

/// Records what it is handed: the seam satisfied without a management
/// transport. Tests read `seen` back through `PlatformDriver::board`.
#[derive(Default)]
struct RecordingSink {
    seen: Vec<Report>,
}

impl RecordingSink {
    fn new() -> Self {
        Self::default()
    }
}

impl ReportSink for RecordingSink {
    fn report(&mut self, report: Report) {
        self.seen.push(report);
    }
}

/// One of each report, so a test covers the whole enum.
fn every_report() -> [Report; 5] {
    [
        Report::Isolated(C0),
        Report::RecoveryFailed(C0),
        Report::BootFailed {
            id: C0,
            checkpoint: "self-test",
            kind: BootFailureKind::DeviceFatal,
        },
        Report::UpdateDeferred,
        Report::UpdateAborted,
    ]
}

fn tell<S: ReportSink>(sink: &mut S, reports: [Report; 5]) {
    for report in reports {
        sink.report(report);
    }
}

// Every report is deliverable through the seam alone, in the order handed
// over; the unit sink is a wiring choice and satisfies the same caller.
#[test]
fn every_report_reaches_a_sink() {
    let mut recording = RecordingSink::new();
    tell(&mut recording, every_report());
    assert_eq!(recording.seen, every_report());

    tell(&mut (), every_report());
}

// ---------------------------------------------------------------------------
// Anti-rollback floor commits.
// ---------------------------------------------------------------------------

// The floor may only move to the SVN the verifier vouched for, and only
// after a verification has passed — the two halves of the commit contract.
#[test]
fn commit_advances_the_floor_to_the_verified_svn() {
    let mut driver = PlatformDriver::<MockBoard, 1>::new(mock_board());

    driver
        .execute(Effect::ReadFirmware(C0))
        .expect("stage failed");
    driver
        .execute(Effect::VerifyFirmware(C0))
        .expect("verify failed");

    assert_eq!(driver.execute(Effect::CommitSvnFloor(C0)), Ok(None));
    // Read back through the capability's own seam.
    let SvnFloorBinding::Erot(floor) = &driver.board().svn_floors[0] else {
        panic!("C0 is wired with an eRoT floor");
    };
    assert_eq!(
        floor.floor(),
        Ok(Svn(MOCK_SVN)),
        "floor advanced to the verifier's SVN"
    );
}

// A component wired without an eRoT floor tracks its own SVN. The commit
// succeeds even with no verified image cached: there is no floor to
// mis-advance.
#[test]
fn commit_without_an_erot_floor_is_a_no_op() {
    let mut driver = PlatformDriver::<MockBoard, 1>::new(Board {
        svn_floors: [SvnFloorBinding::SelfManaged],
        ..mock_board()
    });

    assert_eq!(driver.execute(Effect::CommitSvnFloor(C0)), Ok(None));
}

#[test]
fn commit_without_a_verified_image_fails_closed() {
    let mut driver = driver([MemImage::holding(valid_image())]);

    assert_eq!(
        driver.commit_svn_floor(C0),
        Err(DriverError::NoVerifiedImage)
    );
}

// A rejection must clear the cached SVN, or the floor could commit against
// an image that is no longer the authenticated one.
#[test]
fn rejected_image_clears_the_verified_svn() {
    let mut corrupt = valid_image();
    corrupt[7] ^= 0x01;
    let mut driver = PlatformDriver::<MockBoard, 1>::new(Board {
        images: [MemImage::holding(valid_image()).reflash_on_reopen(corrupt)],
        ..mock_board()
    });

    driver.stage_firmware(C0).expect("stage failed");
    assert_eq!(
        driver.verify_firmware(C0),
        Ok(Event::VerificationPassed(C0))
    );

    // The queued re-flash lands on the re-stage; the rejection must take
    // the cached SVN with it.
    driver.stage_firmware(C0).expect("re-stage failed");
    assert_eq!(
        driver.verify_firmware(C0),
        Ok(Event::VerificationFailed(C0))
    );

    assert_eq!(
        driver.commit_svn_floor(C0),
        Err(DriverError::NoVerifiedImage)
    );
}

#[test]
fn floor_fault_is_reported() {
    let mut mock = MockFloor::new();
    mock.fail = true;
    let mut driver = PlatformDriver::<MockBoard, 1>::new(Board {
        svn_floors: [SvnFloorBinding::Erot(mock)],
        ..mock_board()
    });

    driver.stage_firmware(C0).expect("stage failed");
    driver.verify_firmware(C0).expect("verify failed");

    assert_eq!(driver.commit_svn_floor(C0), Err(DriverError::SvnFloorFault));
}

// Every report effect reaches the board's sink, in emission order, and none
// hands back an error for the SM to fail closed on.
#[test]
fn reports_reach_the_board_sink() {
    let mut driver = PlatformDriver::<MockBoard, 1>::new(Board {
        verifier: XorVerifier {
            fault: false,
            svn: 0,
        },
        ..mock_board()
    });

    for effect in [
        Effect::ReportIsolated(C0),
        Effect::ReportRecoveryFailed(C0),
        Effect::ReportBootFailed {
            id: C0,
            checkpoint: "self-test",
            kind: BootFailureKind::DeviceFatal,
        },
        Effect::ReportUpdateDeferred,
        Effect::ReportUpdateAborted,
    ] {
        assert_eq!(driver.execute(effect), Ok(None));
    }

    assert_eq!(driver.board().report_sink.seen, every_report());
}

#[test]
fn submit_update_refuses_an_unknown_component() {
    let mut driver = driver([MemImage::holding(valid_image())]);

    assert_eq!(
        driver.submit_update(ComponentId::new(9), CANDIDATE_LEN),
        Err(DriverError::UnknownComponent)
    );
    assert_eq!(driver.pending_update(), None);
}

// Single update in flight by construction: a second submit is refused and
// the first job's target survives untouched.
#[test]
fn submit_update_refuses_a_second_in_flight() {
    let mut driver = driver([MemImage::holding(valid_image())]);

    driver.submit_update(C0, CANDIDATE_LEN).unwrap();
    assert_eq!(
        driver.submit_update(C0, CANDIDATE_LEN),
        Err(DriverError::UpdateBusy)
    );
    assert_eq!(driver.pending_update(), Some(C0));
}

// The candidate is described by the offer, not by the region it sits in:
// a length past the end of the staging region is refused before anything
// is recorded.
#[test]
fn submit_update_refuses_a_candidate_past_the_staging_region() {
    let mut driver = driver([MemImage::holding(valid_image())]);

    assert_eq!(
        driver.submit_update(C0, STAGING_LEN as u64 + 1),
        Err(DriverError::CandidateOutOfRange)
    );
    assert_eq!(driver.pending_update(), None);
}

// AuthenticateUpdate opens a session and returns: the verifier moves out
// of the board, and no polling happens in the executor.
#[test]
fn authenticate_update_opens_a_session_without_polling() {
    let mut driver = driver([MemImage::holding(valid_image())]);
    driver.submit_update(C0, CANDIDATE_LEN).unwrap();

    driver.authenticate_update().expect("authenticate failed");

    assert!(
        driver.board().update_verifier.is_none(),
        "the session holds the verifier"
    );
}

// The job is recorded by the frontend before the SM emits anything, so an
// authenticate with no job means the two have drifted apart.
#[test]
fn authenticate_update_without_a_job_is_refused() {
    let mut driver = driver([MemImage::holding(valid_image())]);

    assert_eq!(driver.authenticate_update(), Err(DriverError::NoUpdateJob));
}

// One session per job: the phase guard refuses a second start, which
// would otherwise find the verifier already taken.
#[test]
fn authenticate_update_twice_is_refused() {
    let mut driver = driver([MemImage::holding(valid_image())]);
    driver.submit_update(C0, CANDIDATE_LEN).unwrap();
    driver.authenticate_update().unwrap();

    assert_eq!(driver.authenticate_update(), Err(DriverError::NoUpdateJob));
}

// DiscardStaged is the SM's way back to Ready: the job is gone, the
// device dropped what it staged, and the verifier is back on the board so
// the next update can start a session.
#[test]
fn discard_staged_clears_the_job_and_returns_the_verifier() {
    let mut driver = driver([MemImage::holding(valid_image())]);
    driver.submit_update(C0, CANDIDATE_LEN).unwrap();
    driver.authenticate_update().unwrap();

    driver.discard_staged().expect("discard failed");

    assert_eq!(driver.pending_update(), None);
    assert!(driver.board().update_verifier.is_some());
    assert_eq!(driver.board().updatables[0].abandons, 1);
}

// Discarding before any session started still abandons the device: the
// SM emits DiscardStaged for a rejection that happened in either phase.
#[test]
fn discard_staged_without_a_session_still_abandons_the_device() {
    let mut driver = driver([MemImage::holding(valid_image())]);
    driver.submit_update(C0, CANDIDATE_LEN).unwrap();

    driver.discard_staged().expect("discard failed");

    assert_eq!(driver.pending_update(), None);
    assert_eq!(driver.board().updatables[0].abandons, 1);
}

// Same drift as the authenticate case: the SM only emits DiscardStaged
// with an update in flight.
#[test]
fn discard_staged_without_a_job_is_refused() {
    let mut driver = driver([MemImage::holding(valid_image())]);

    assert_eq!(driver.discard_staged(), Err(DriverError::NoUpdateJob));
}

// ReportUpdateDeferred clears pending_update so the next request is not
// permanently blocked.
#[test]
fn deferred_report_clears_pending_update() {
    let mut driver = driver([MemImage::holding(valid_image())]);
    driver.submit_update(C0, CANDIDATE_LEN).unwrap();
    assert_eq!(driver.pending_update(), Some(C0));

    driver.execute(Effect::ReportUpdateDeferred).unwrap();

    assert_eq!(
        driver.pending_update(),
        None,
        "deferred report must clear the pending job"
    );

    // A subsequent submit succeeds: the slot is free.
    driver.submit_update(C0, CANDIDATE_LEN).unwrap();
    assert_eq!(driver.pending_update(), Some(C0));
}

// ReportUpdateAborted clears pending_update so an update superseded by
// recovery does not block future requests.
#[test]
fn aborted_update_clears_pending_update() {
    let mut driver = driver([MemImage::holding(valid_image())]);
    driver.submit_update(C0, CANDIDATE_LEN).unwrap();

    driver.execute(Effect::ReportUpdateAborted).unwrap();

    assert_eq!(
        driver.pending_update(),
        None,
        "aborted report must clear the pending job"
    );

    driver.submit_update(C0, CANDIDATE_LEN).unwrap();
    assert_eq!(driver.pending_update(), Some(C0));
}

struct SlicePayload(&'static [u8]);

impl PayloadSource for SlicePayload {
    fn len(&self) -> u64 {
        self.0.len() as u64
    }

    fn read_at(&self, offset: u64, buf: &mut [u8]) -> Result<(), PayloadReadError> {
        let start = usize::try_from(offset).map_err(|_| PayloadReadError::OutOfRange)?;
        let end = start
            .checked_add(buf.len())
            .ok_or(PayloadReadError::OutOfRange)?;
        buf.copy_from_slice(self.0.get(start..end).ok_or(PayloadReadError::OutOfRange)?);
        Ok(())
    }
}

// The mock keeps the device's ordering rule: nothing is activated before it
// was staged.
#[test]
fn updatable_seam_is_satisfiable_by_the_mock() {
    let mut dev = MockUpdatable::new();

    assert_eq!(
        dev.activate(),
        Err(UpdateError::NothingStaged)
    );
    assert_eq!(
        dev.poll_stage(&SlicePayload(b"image")),
        Ok(StageProgress::Ready)
    );
    dev.activate().expect("activate failed");
    assert!(dev.active);
}

// ---------------------------------------------------------------------------
// The update pump
// ---------------------------------------------------------------------------

/// A driver whose device and candidate verifier the test chooses.
fn update_driver(
    updatable: MockUpdatable,
    verifier: MockCandidateVerifier,
) -> PlatformDriver<MockBoard, 1> {
    PlatformDriver::new(Board {
        updatables: [updatable],
        update_verifier: Some(verifier),
        ..mock_board()
    })
}

/// Submits a job and runs both entry executors, as entry to `Updating`
/// does.
fn updating(driver: &mut PlatformDriver<MockBoard, 1>) {
    driver.submit_update(C0, CANDIDATE_LEN).unwrap();
    driver.authenticate_update().unwrap();
    driver.stage_update().unwrap();
}

// Nothing in flight, nothing to do: the event loop may pump on every
// tick.
#[test]
fn pumping_without_a_job_is_idle() {
    let mut driver = driver([MemImage::holding(valid_image())]);

    let poll = driver.pump_update(0);

    assert_eq!(poll.event, None);
    assert_eq!(poll.progress, None);
}

// A submitted job that no executor has touched is not pumped either:
// entry to Updating is what starts the work.
#[test]
fn pumping_a_submitted_job_is_idle() {
    let mut driver = driver([MemImage::holding(valid_image())]);
    driver.submit_update(C0, CANDIDATE_LEN).unwrap();

    assert_eq!(driver.pump_update(0).event, None);
}

// Authentication is polled, not run to completion in one call: the
// candidate is 32 bytes and the verifier reads 8 per poll.
#[test]
fn authentication_advances_one_bounded_step_per_pump() {
    let mut driver = update_driver(MockUpdatable::new(), MockCandidateVerifier::new());
    updating(&mut driver);

    let first = driver.pump_update(0);

    assert_eq!(first.event, None);
    assert_eq!(
        first.progress,
        Some(Progress {
            done: VERIFY_CHUNK,
            total: CANDIDATE_LEN
        })
    );
}

// The whole flow with a device that stages in one step: authenticate,
// stage, then the SM is told the payload is on the device.
#[test]
fn a_pumped_job_reaches_update_verified() {
    let mut driver = update_driver(MockUpdatable::new(), MockCandidateVerifier::new());
    updating(&mut driver);

    let mut event = None;
    for tick in 0..8 {
        let poll = driver.pump_update(tick);
        if let Some(e) = poll.event {
            event = Some(e);
            break;
        }
    }

    assert_eq!(event, Some(Event::UpdateVerified));
    assert!(driver.board().updatables[0].ready);
    // The verifier came back when the session reached its verdict.
    assert!(driver.board().update_verifier.is_some());
}

// Staging is polled too: a device that takes four steps is not waited
// out inside one pump call.
#[test]
fn staging_advances_one_bounded_step_per_pump() {
    let mut driver = update_driver(MockUpdatable::stepping(4), MockCandidateVerifier::new());
    updating(&mut driver);

    let mut polls = 0;
    loop {
        let poll = driver.pump_update(polls);
        polls += 1;
        if poll.event.is_some() {
            break;
        }
        assert!(polls < 20, "pump never reached a verdict");
    }

    // 32 bytes at 8 per verify poll is 4 polls, the last of which also
    // moves the job to staging; then 4 transfer steps and the Ready step.
    assert_eq!(polls, 9);
}

// A candidate that fails authentication never reaches the device.
#[test]
fn a_rejected_candidate_is_never_staged() {
    let mut driver = update_driver(
        MockUpdatable::new(),
        MockCandidateVerifier::deciding(CandidateVerdict::Invalid),
    );
    updating(&mut driver);

    let mut event = None;
    for tick in 0..8 {
        if let Some(e) = driver.pump_update(tick).event {
            event = Some(e);
            break;
        }
    }

    assert_eq!(event, Some(Event::UpdateRejected));
    assert!(!driver.board().updatables[0].ready, "nothing was staged");
    assert!(driver.board().update_verifier.is_some());
}

// A verifier that cannot run is the same answer as a bad candidate: the
// platform is healthy, only the update failed.
#[test]
fn a_verifier_fault_rejects_the_update() {
    let mut driver = update_driver(
        MockUpdatable::new(),
        MockCandidateVerifier::deciding(CandidateVerdict::Faulting),
    );
    updating(&mut driver);

    let mut event = None;
    for tick in 0..8 {
        if let Some(e) = driver.pump_update(tick).event {
            event = Some(e);
            break;
        }
    }

    assert_eq!(event, Some(Event::UpdateRejected));
    assert!(driver.board().update_verifier.is_some());
}

// A device that fails a staging step ends the job the same way.
#[test]
fn a_device_fault_rejects_the_update() {
    let mut driver = update_driver(MockUpdatable::faulting(), MockCandidateVerifier::new());
    updating(&mut driver);

    let mut event = None;
    for tick in 0..8 {
        if let Some(e) = driver.pump_update(tick).event {
            event = Some(e);
            break;
        }
    }

    assert_eq!(event, Some(Event::UpdateRejected));
    assert_eq!(driver.board().updatables[0].abandons, 1);
}

// A transfer that stops moving is abandoned once the budget is spent,
// rather than held open for a device that stopped answering.
#[test]
fn a_stalled_transfer_is_rejected_at_the_budget() {
    let mut driver = update_driver(MockUpdatable::stalling(), MockCandidateVerifier::new());
    updating(&mut driver);

    // Authentication (4 polls) and the phase change, all at t=0.
    for _ in 0..5 {
        assert_eq!(driver.pump_update(0).event, None);
    }
    // The device answers Transferring without moving.
    assert_eq!(driver.pump_update(0).event, None);
    assert_eq!(driver.pump_update(STALL_BUDGET_MILLIS - 1).event, None);

    let poll = driver.pump_update(STALL_BUDGET_MILLIS);

    assert_eq!(poll.event, Some(Event::UpdateRejected));
    assert_eq!(driver.board().updatables[0].abandons, 1);
}

// Progress restarts the budget: a slow transfer that keeps moving is not
// a stalled one.
#[test]
fn progress_restarts_the_stall_budget() {
    let mut driver = update_driver(MockUpdatable::stepping(4), MockCandidateVerifier::new());
    updating(&mut driver);

    // One step per budget window: every call moves `written`, so the
    // budget never runs out even though each step takes nearly all of it.
    let mut tick = 0;
    let mut event = None;
    for _ in 0..12 {
        tick += STALL_BUDGET_MILLIS - 1;
        if let Some(e) = driver.pump_update(tick).event {
            event = Some(e);
            break;
        }
    }

    assert_eq!(event, Some(Event::UpdateVerified));
}

// The SM emits StageUpdate next to AuthenticateUpdate. A job missing it
// means the two sides drifted, so the pump refuses rather than pushing
// bytes the SM never asked for.
#[test]
fn a_job_the_sm_never_asked_to_stage_is_rejected() {
    let mut driver = update_driver(MockUpdatable::new(), MockCandidateVerifier::new());
    driver.submit_update(C0, CANDIDATE_LEN).unwrap();
    driver.authenticate_update().unwrap();

    // Authentication still completes; staging is where it stops.
    let mut event = None;
    for tick in 0..8 {
        if let Some(e) = driver.pump_update(tick).event {
            event = Some(e);
            break;
        }
    }

    assert_eq!(event, Some(Event::UpdateRejected));
    assert!(!driver.board().updatables[0].ready);
}

// Activation is the SM's answer to UpdateVerified, and it only applies
// to a job the device has actually staged.
#[test]
fn activate_update_requires_a_staged_job() {
    let mut driver = update_driver(MockUpdatable::new(), MockCandidateVerifier::new());
    updating(&mut driver);

    assert_eq!(driver.activate_update(), Err(DriverError::NoUpdateJob));
    assert_eq!(
        driver.pending_update(),
        Some(C0),
        "the job survives, so DiscardStaged still finds it"
    );
}

// The job ends at activation: the device runs the candidate on its next
// boot, tentatively, and the driver is free for the next update.
#[test]
fn activate_update_ends_the_job() {
    let mut driver = update_driver(MockUpdatable::new(), MockCandidateVerifier::new());
    updating(&mut driver);
    for tick in 0..8 {
        if driver.pump_update(tick).event.is_some() {
            break;
        }
    }

    driver.activate_update().expect("activate failed");

    assert!(driver.board().updatables[0].active);
    assert_eq!(driver.pending_update(), None);
}

// ---------------------------------------------------------------------------
// Failing closed.
// ---------------------------------------------------------------------------

// A source that cannot be opened is a failed actuation, not a verdict.
#[test]
fn an_unopenable_source_is_an_effect_error() {
    let mut image = MemImage::holding(valid_image());
    image.fail_open = true;
    let mut driver = driver([image]);

    assert_eq!(driver.execute(Effect::ReadFirmware(C0)), Err(EffectError));
    assert_eq!(driver.stage_firmware(C0), Err(DriverError::ImageUnavailable));
    assert_eq!(driver.verify_firmware(C0), Err(DriverError::NotStaged));
}

// A source that opens but cannot be read fails through the verifier.
#[test]
fn an_unreadable_source_is_an_effect_error() {
    let mut image = MemImage::holding(valid_image());
    image.fail_read = true;
    let mut driver = driver([image]);

    assert_eq!(driver.execute(Effect::ReadFirmware(C0)), Ok(None));
    assert_eq!(driver.execute(Effect::VerifyFirmware(C0)), Err(EffectError));
}

/// Vouches for the first image it is shown, and cannot run after that.
struct OnceVerifier {
    spent: bool,
}

impl<I: ImageSource> Verifier<I> for OnceVerifier {
    type Error = VerifierError;

    fn verify(
        &mut self,
        _id: ComponentId,
        _image: &mut I,
    ) -> Result<Verdict, VerifierError> {
        if self.spent {
            return Err(VerifierError);
        }
        self.spent = true;
        Ok(Verdict::Authenticated { svn: Svn(6) })
    }
}

struct OnceBoard;

impl BoardCapabilities for OnceBoard {
    type Image = MemImage;
    type Verifier = OnceVerifier;
    type BootControl = MockReset;
    type BootWatch = MockWalk;
    type SvnFloor = MockFloor;
    type ReportSink = ();
    type Updatable = MockUpdatable;
    type Recovery = ();
    type Staging = MemStaging;
    type UpdateVerifier = MockCandidateVerifier;
}

// A check that could not run leaves the SVN of the last image that passed,
// and vouches for none by itself.
#[test]
fn a_verifier_fault_keeps_the_verified_svn() {
    let mut driver = PlatformDriver::<OnceBoard, 2>::new(Board {
        images: core::array::from_fn(|_| MemImage::holding(valid_image())),
        verifier: OnceVerifier { spent: false },
        boot_controls: core::array::from_fn(|_| MockReset::new()),
        boot_watches: core::array::from_fn(|_| MockWalk::idle()),
        component_kinds: [ComponentKind::Passive, ComponentKind::Passive],
        svn_floors: core::array::from_fn(|_| SvnFloorBinding::Erot(MockFloor::new())),
        report_sink: (),
        updatables: core::array::from_fn(|_| MockUpdatable::new()),
        recovery: [(), ()],
        update_staging: MemStaging::new(),
        update_verifier: Some(MockCandidateVerifier::new()),
        update_stall_budget_millis: STALL_BUDGET_MILLIS,
    });
    driver.stage_firmware(C0).unwrap();
    assert_eq!(
        driver.verify_firmware(C0),
        Ok(Event::VerificationPassed(C0))
    );

    assert_eq!(driver.verify_firmware(C0), Err(DriverError::VerifierFault));
    assert_eq!(driver.commit_svn_floor(C0), Ok(()));

    driver.stage_firmware(C1).unwrap();
    assert_eq!(driver.verify_firmware(C1), Err(DriverError::VerifierFault));
    assert_eq!(
        driver.commit_svn_floor(C1),
        Err(DriverError::NoVerifiedImage)
    );
}

// Staging for a component the board does not have drops what was staged.
#[test]
fn staging_an_unknown_component_drops_what_was_staged() {
    let mut driver = driver([MemImage::holding(valid_image())]);
    driver.stage_firmware(C0).unwrap();

    assert_eq!(
        driver.stage_firmware(ComponentId::new(1)),
        Err(DriverError::UnknownComponent)
    );

    assert_eq!(driver.verify_firmware(C0), Err(DriverError::NotStaged));
}

#[test]
fn unserved_effects_fail_closed() {
    let mut driver = driver([MemImage::holding(valid_image())]);

    assert_eq!(driver.execute(Effect::SignAttestation), Err(EffectError));
    assert_eq!(driver.execute(Effect::LatchLockdown), Err(EffectError));
    assert_eq!(
        driver.execute(Effect::Emit(Event::UpdateVerified)),
        Err(EffectError)
    );
}

#[test]
fn every_effect_on_an_unknown_component_is_refused() {
    let unknown = ComponentId::new(200);
    let mut driver = driver([MemImage::holding(valid_image())]);

    for effect in [
        Effect::ReadFirmware(unknown),
        Effect::VerifyFirmware(unknown),
        Effect::ReleaseReset(unknown),
        Effect::AssertReset(unknown),
        Effect::CommitSvnFloor(unknown),
        Effect::RecoverComponent {
            id: unknown,
            attempt: 0,
        },
    ] {
        assert_eq!(driver.execute(effect), Err(EffectError));
    }
}

// The component is still held while its image is verified, and a board may
// have nobody to report to.
#[test]
fn a_component_is_held_until_it_is_released() {
    let control = MockReset::new();
    let held = control.held.clone();
    let held_during_verify = Rc::new(Cell::new(false));
    let mut driver = PlatformDriver::<WatchBoard, 1>::new(Board {
        images: [MemImage::holding(valid_image())],
        verifier: LineWatchingVerifier {
            inner: XorVerifier {
                fault: false,
                svn: MOCK_SVN,
            },
            line: held.clone(),
            held_during_verify: held_during_verify.clone(),
        },
        boot_controls: [control],
        boot_watches: [MockWalk::idle()],
        component_kinds: [ComponentKind::Passive],
        svn_floors: [SvnFloorBinding::Erot(MockFloor::new())],
        report_sink: (),
        updatables: [MockUpdatable::new()],
        recovery: [()],
        update_staging: MemStaging::new(),
        update_verifier: Some(MockCandidateVerifier::new()),
        update_stall_budget_millis: STALL_BUDGET_MILLIS,
    });

    driver.execute(Effect::ReadFirmware(C0)).unwrap();
    assert_eq!(
        driver.execute(Effect::VerifyFirmware(C0)),
        Ok(Some(Event::VerificationPassed(C0)))
    );
    assert!(held_during_verify.get());
    assert!(held.get());

    driver.execute(Effect::ReleaseReset(C0)).unwrap();
    assert!(!held.get());
    assert_eq!(driver.execute(Effect::ReportIsolated(C0)), Ok(None));
}

// ---------------------------------------------------------------------------
// Boot walks, on concrete values.
// ---------------------------------------------------------------------------

// A line that could not be actuated starts no walk.
#[test]
fn a_failed_release_starts_no_walk() {
    let mut control = MockReset::new();
    control.fail = true;
    let held = control.held.clone();
    let mut driver = PlatformDriver::<MockBoard, 1>::new(Board {
        boot_controls: [control],
        boot_watches: [MockWalk::scripted(vec![WalkVerdict::Complete])],
        ..mock_board()
    });

    assert_eq!(driver.execute(Effect::ReleaseReset(C0)), Err(EffectError));

    assert!(held.get());
    assert_eq!(driver.poll_boot_walks(0).event, None);
}

#[test]
fn a_retriable_failure_keeps_its_kind() {
    let mut driver = walk_driver(
        [
            MockWalk::scripted(vec![WalkVerdict::Failed {
                checkpoint: "fuses",
                cause: FailureCause::DeviceRetriable,
            }]),
            MockWalk::idle(),
        ],
        [ComponentKind::Active, ComponentKind::Active],
    );
    driver.release_reset(C0).unwrap();

    assert_eq!(
        driver.poll_boot_walks(0).event,
        Some(Event::BootFailed {
            id: C0,
            checkpoint: "fuses",
            kind: BootFailureKind::DeviceRetriable,
        })
    );
}

// The round reports the deadlines that it saw before its event.
#[test]
fn an_event_carries_the_deadlines_seen_before_it() {
    let mut driver = walk_driver(
        [
            MockWalk::scripted(vec![WalkVerdict::Waiting {
                deadline_millis: 700,
            }]),
            MockWalk::scripted(vec![WalkVerdict::Complete]),
        ],
        [ComponentKind::Passive, ComponentKind::Active],
    );
    driver.release_reset(C0).unwrap();
    driver.release_reset(C1).unwrap();

    let poll = driver.poll_boot_walks(0);

    assert_eq!(poll.event, Some(Event::ComponentReady(C1)));
    assert_eq!(poll.next_deadline_millis, Some(700));
}

#[test]
fn a_board_with_every_id_is_watched_to_the_last() {
    let last = ComponentId::new(255);
    let mut driver = PlatformDriver::<MockBoard, 256>::new(Board {
        boot_watches: core::array::from_fn(|_| MockWalk::scripted(vec![WalkVerdict::Complete])),
        ..mock_board()
    });

    driver.release_reset(last).unwrap();

    assert_eq!(driver.poll_boot_walks(0).event, Some(Event::Booted(last)));
    assert_eq!(driver.poll_boot_walks(0).event, None);
}

#[test]
fn a_board_without_components_is_silent() {
    let mut driver = PlatformDriver::<MockBoard, 0>::new(mock_board());

    let poll = driver.poll_boot_walks(0);

    assert_eq!(poll.event, None);
    assert_eq!(poll.next_deadline_millis, None);
    assert_eq!(
        driver.submit_update(C0, 0),
        Err(DriverError::UnknownComponent)
    );
}

// ---------------------------------------------------------------------------
// Floors, on concrete values.
// ---------------------------------------------------------------------------

// A floor above the verified image stays, and a second commit moves nothing.
#[test]
fn a_commit_never_lowers_a_floor_and_a_replay_is_harmless() {
    let mut driver = PlatformDriver::<MockBoard, 2>::new(Board {
        svn_floors: [
            SvnFloorBinding::Erot(MockFloor {
                floor: 9,
                fail: false,
            }),
            SvnFloorBinding::Erot(MockFloor {
                floor: 3,
                fail: false,
            }),
        ],
        ..mock_board()
    });
    for id in [C0, C1] {
        driver.stage_firmware(id).unwrap();
        driver.verify_firmware(id).unwrap();
        assert_eq!(driver.commit_svn_floor(id), Ok(()));
        assert_eq!(driver.commit_svn_floor(id), Ok(()));
    }

    let floors: Vec<Option<Result<Svn, FloorFaultInjected>>> = driver
        .board()
        .svn_floors
        .iter()
        .map(|binding| match binding {
            SvnFloorBinding::Erot(floor) => Some(floor.floor()),
            SvnFloorBinding::SelfManaged => None,
        })
        .collect();
    assert_eq!(floors, vec![Some(Ok(Svn(9))), Some(Ok(Svn(5)))]);
}

#[test]
fn an_svn_is_kept_per_component() {
    let mut driver = PlatformDriver::<MockBoard, 2>::new(mock_board());
    driver.stage_firmware(C0).unwrap();
    driver.verify_firmware(C0).unwrap();

    assert_eq!(
        driver.commit_svn_floor(C1),
        Err(DriverError::NoVerifiedImage)
    );
    assert_eq!(driver.commit_svn_floor(C0), Ok(()));
}

// ---------------------------------------------------------------------------
// Updates, on concrete values.
// ---------------------------------------------------------------------------

#[test]
fn a_recorded_request_answers_the_event_to_inject() {
    let mut driver = driver([MemImage::holding(valid_image())]);

    assert_eq!(
        request_update(&mut driver, C0, CANDIDATE_LEN),
        Ok(Event::UpdateRequest)
    );
    assert_eq!(driver.pending_update(), Some(C0));
}

#[test]
fn a_refused_request_answers_no_event() {
    let mut driver = driver([MemImage::holding(valid_image())]);

    assert_eq!(
        request_update(&mut driver, ComponentId::new(9), CANDIDATE_LEN),
        Err(DriverError::UnknownComponent)
    );
    assert_eq!(driver.pending_update(), None);

    request_update(&mut driver, C0, CANDIDATE_LEN).unwrap();
    assert_eq!(
        request_update(&mut driver, C0, CANDIDATE_LEN),
        Err(DriverError::UpdateBusy)
    );
}

// An unknown component is refused before the length is looked at, and the
// length before the job in flight.
#[test]
fn a_submit_is_refused_for_its_first_fault() {
    let mut driver = driver([MemImage::holding(valid_image())]);
    driver.submit_update(C0, STAGING_LEN as u64).unwrap();

    assert_eq!(
        driver.submit_update(ComponentId::new(9), u64::MAX),
        Err(DriverError::UnknownComponent)
    );
    assert_eq!(
        driver.submit_update(C0, u64::MAX),
        Err(DriverError::CandidateOutOfRange)
    );
    assert_eq!(
        driver.submit_update(C0, 0),
        Err(DriverError::UpdateBusy)
    );
}

#[test]
fn an_update_runs_through_its_effects() {
    let mut driver = update_driver(MockUpdatable::stepping(2), MockCandidateVerifier::new());
    request_update(&mut driver, C0, CANDIDATE_LEN).unwrap();
    assert_eq!(driver.execute(Effect::AuthenticateUpdate), Ok(None));
    assert_eq!(driver.execute(Effect::StageUpdate), Ok(None));

    let mut event = None;
    for tick in 0..16 {
        if let Some(e) = driver.pump_update(tick).event {
            event = Some(e);
            break;
        }
    }

    assert_eq!(event, Some(Event::UpdateVerified));
    assert_eq!(driver.pump_update(99).event, None, "told once");
    assert_eq!(driver.execute(Effect::ActivateUpdate), Ok(None));
    assert!(driver.board().updatables[0].active);
    assert_eq!(driver.pending_update(), None);
}

// A rejected job stays until it is discarded, and stays silent.
#[test]
fn a_rejected_job_is_silent_until_it_is_discarded() {
    let mut driver = update_driver(
        MockUpdatable::new(),
        MockCandidateVerifier::deciding(CandidateVerdict::Invalid),
    );
    updating(&mut driver);

    let mut events = Vec::new();
    for tick in 0..16 {
        events.extend(driver.pump_update(tick).event);
    }

    assert_eq!(events, vec![Event::UpdateRejected]);
    assert_eq!(driver.pending_update(), Some(C0));
    assert_eq!(driver.execute(Effect::DiscardStaged), Ok(None));
    assert_eq!(driver.pending_update(), None);
    assert!(!driver.board().updatables[0].active);
    assert_eq!(driver.execute(Effect::DiscardStaged), Err(EffectError));
}

// After a rejection both entry effects have to run again.
#[test]
fn a_rejected_job_can_start_over() {
    let mut driver = update_driver(MockUpdatable::new(), MockCandidateVerifier::new());
    driver.submit_update(C0, CANDIDATE_LEN).unwrap();
    driver.authenticate_update().unwrap();
    let mut event = None;
    for tick in 0..8 {
        if let Some(e) = driver.pump_update(tick).event {
            event = Some(e);
            break;
        }
    }
    assert_eq!(event, Some(Event::UpdateRejected));

    driver.authenticate_update().unwrap();
    driver.stage_update().unwrap();

    let mut event = None;
    for tick in 8..16 {
        if let Some(e) = driver.pump_update(tick).event {
            event = Some(e);
            break;
        }
    }
    assert_eq!(event, Some(Event::UpdateVerified));
}

// The device refuses, the job survives, and the discard finds it.
#[test]
fn a_refused_activation_can_be_discarded() {
    let mut driver = update_driver(MockUpdatable::refusing(), MockCandidateVerifier::new());
    updating(&mut driver);
    for tick in 0..8 {
        if driver.pump_update(tick).event.is_some() {
            break;
        }
    }

    assert_eq!(driver.activate_update(), Err(DriverError::UpdateFault));
    assert_eq!(driver.pending_update(), Some(C0));
    assert_eq!(driver.discard_staged(), Ok(()));
    assert_eq!(driver.pending_update(), None);
}

#[test]
fn update_effects_without_a_job_are_refused() {
    let mut driver = driver([MemImage::holding(valid_image())]);

    assert_eq!(driver.stage_update(), Err(DriverError::NoUpdateJob));
    assert_eq!(driver.activate_update(), Err(DriverError::NoUpdateJob));
    assert_eq!(
        driver.execute(Effect::AuthenticateUpdate),
        Err(EffectError)
    );
}

#[test]
fn a_board_without_a_verifier_authenticates_nothing() {
    let mut driver = PlatformDriver::<MockBoard, 1>::new(Board {
        update_verifier: None,
        ..mock_board()
    });
    driver.submit_update(C0, CANDIDATE_LEN).unwrap();

    assert_eq!(driver.authenticate_update(), Err(DriverError::NoUpdateJob));
    assert_eq!(driver.pending_update(), Some(C0));
}

// An empty candidate is never authentic.
#[test]
fn an_empty_candidate_is_rejected() {
    let mut driver = update_driver(MockUpdatable::new(), MockCandidateVerifier::new());
    driver.submit_update(C0, 0).unwrap();
    driver.authenticate_update().unwrap();
    driver.stage_update().unwrap();

    assert_eq!(driver.pump_update(0).event, Some(Event::UpdateRejected));
    assert!(driver.board().update_verifier.is_some());
}

// Authentication starts the job's clock, and its stall is judged the same
// way: the first pump of a job never finds it stalled.
#[test]
fn the_first_pump_starts_the_clock() {
    let mut driver = update_driver(MockUpdatable::stalling(), MockCandidateVerifier::new());
    updating(&mut driver);

    assert_eq!(driver.pump_update(u64::MAX - 1).event, None);
    assert_eq!(driver.pump_update(0).event, None, "a clock that went back");
}

// The reads of the device and of the verifier end where the candidate does.
#[test]
fn progress_is_counted_against_the_candidate() {
    let mut driver = update_driver(MockUpdatable::stepping(1), MockCandidateVerifier::new());
    updating(&mut driver);

    let mut seen = Vec::new();
    for tick in 0..5 {
        seen.push(driver.pump_update(tick).progress);
    }

    let total = CANDIDATE_LEN;
    assert_eq!(
        seen,
        vec![
            Some(Progress { done: 8, total }),
            Some(Progress { done: 16, total }),
            Some(Progress { done: 24, total }),
            Some(Progress { done: 0, total }),
            Some(Progress { done: 8, total }),
        ]
    );
}

// An update that is put off or given up while its session runs gives the
// verifier back, so that the next one is authenticated and staged.
#[test]
fn an_update_given_up_in_its_session_does_not_block_the_next() {
    for (effect, report) in [
        (Effect::ReportUpdateDeferred, Report::UpdateDeferred),
        (Effect::ReportUpdateAborted, Report::UpdateAborted),
    ] {
        let mut driver = driver([MemImage::holding(valid_image())]);
        driver.submit_update(C0, CANDIDATE_LEN).unwrap();
        driver.authenticate_update().unwrap();
        assert_eq!(driver.pump_update(0).event, None);
        assert!(driver.board().update_verifier.is_none());

        assert_eq!(driver.execute(effect), Ok(None));

        assert_eq!(driver.board().report_sink.seen, [report]);
        assert_eq!(driver.pending_update(), None);
        assert!(driver.board().update_verifier.is_some());
        assert_eq!(driver.board().updatables[0].abandons, 0);

        driver.submit_update(C0, CANDIDATE_LEN).unwrap();
        assert_eq!(driver.authenticate_update(), Ok(()));
        driver.stage_update().unwrap();
        let mut event = None;
        for tick in 0..8 {
            if let Some(e) = driver.pump_update(tick).event {
                event = Some(e);
                break;
            }
        }
        assert_eq!(event, Some(Event::UpdateVerified));
    }
}

// A request to stage that came for one update does not stand for the next.
#[test]
fn every_update_has_to_be_asked_to_stage() {
    let mut driver = driver([MemImage::holding(valid_image())]);
    driver.submit_update(C0, CANDIDATE_LEN).unwrap();
    driver.stage_update().unwrap();
    driver.execute(Effect::ReportUpdateAborted).unwrap();

    driver.submit_update(C0, CANDIDATE_LEN).unwrap();
    driver.authenticate_update().unwrap();
    let mut event = None;
    for tick in 0..8 {
        if let Some(e) = driver.pump_update(tick).event {
            event = Some(e);
            break;
        }
    }

    assert_eq!(event, Some(Event::UpdateRejected));
    assert!(!driver.board().updatables[0].ready);
}

// A release that the reset line refused brings no second verdict.
#[test]
fn a_refused_release_brings_no_second_verdict() {
    let mut driver = PlatformDriver::<MockBoard, 1>::new(Board {
        boot_controls: [MockReset::failing_after(1)],
        boot_watches: [MockWalk::scripted(vec![WalkVerdict::Complete])],
        ..mock_board()
    });
    driver.release_reset(C0).unwrap();
    assert_eq!(driver.poll_boot_walks(0).event, Some(Event::Booted(C0)));

    assert_eq!(driver.release_reset(C0), Err(DriverError::BootControlFault));

    assert_eq!(driver.poll_boot_walks(0).event, None);
}

// A job that is started over keeps its progress and its clock: its session
// starts from zero, behind what the job remembers, so that it is stalled at
// its first poll once the budget of the attempt before is spent.
#[test]
fn a_job_that_is_started_over_keeps_its_clock() {
    let len = Rc::new(Cell::new(64));
    let mut driver = shrinking_driver(len.clone());
    driver.submit_update(C0, CANDIDATE_LEN).unwrap();
    driver.authenticate_update().unwrap();
    assert_eq!(driver.pump_update(0).event, None);
    assert_eq!(driver.pump_update(0).event, None);
    len.set(0);
    assert_eq!(driver.pump_update(0).event, Some(Event::UpdateRejected));
    len.set(64);

    driver.authenticate_update().unwrap();

    assert_eq!(
        driver.pump_update(STALL_BUDGET_MILLIS).event,
        Some(Event::UpdateRejected)
    );
}

// ---------------------------------------------------------------------------
// A staging region that shrinks under a job.
// ---------------------------------------------------------------------------

struct ShrinkingStaging {
    len: Rc<Cell<u64>>,
}

impl PayloadSource for ShrinkingStaging {
    fn len(&self) -> u64 {
        self.len.get()
    }

    fn read_at(&self, _offset: u64, _buf: &mut [u8]) -> Result<(), PayloadReadError> {
        Err(PayloadReadError::Storage)
    }
}

struct ShrinkingBoard;

impl BoardCapabilities for ShrinkingBoard {
    type Image = MemImage;
    type Verifier = XorVerifier;
    type BootControl = MockReset;
    type BootWatch = MockWalk;
    type SvnFloor = MockFloor;
    type ReportSink = ();
    type Updatable = MockUpdatable;
    type Recovery = ();
    type Staging = ShrinkingStaging;
    type UpdateVerifier = MockCandidateVerifier;
}

fn shrinking_driver(len: Rc<Cell<u64>>) -> PlatformDriver<ShrinkingBoard, 1> {
    PlatformDriver::new(Board {
        images: [MemImage::holding(valid_image())],
        verifier: XorVerifier {
            fault: false,
            svn: MOCK_SVN,
        },
        boot_controls: [MockReset::new()],
        boot_watches: [MockWalk::idle()],
        component_kinds: [ComponentKind::Passive],
        svn_floors: [SvnFloorBinding::SelfManaged],
        report_sink: (),
        updatables: [MockUpdatable::new()],
        recovery: [()],
        update_staging: ShrinkingStaging { len },
        update_verifier: Some(MockCandidateVerifier::new()),
        update_stall_budget_millis: STALL_BUDGET_MILLIS,
    })
}

#[test]
fn a_candidate_that_no_longer_fits_is_not_authenticated() {
    let len = Rc::new(Cell::new(64));
    let mut driver = shrinking_driver(len.clone());
    driver.submit_update(C0, CANDIDATE_LEN).unwrap();
    len.set(CANDIDATE_LEN - 1);

    assert_eq!(
        driver.authenticate_update(),
        Err(DriverError::CandidateOutOfRange)
    );
    assert!(driver.board().update_verifier.is_some());
}

// The session is abandoned and the verifier comes back, so that the next
// update can start one.
#[test]
fn a_candidate_that_no_longer_fits_gives_the_verifier_back() {
    let len = Rc::new(Cell::new(64));
    let mut driver = shrinking_driver(len.clone());
    driver.submit_update(C0, CANDIDATE_LEN).unwrap();
    driver.authenticate_update().unwrap();
    driver.stage_update().unwrap();
    len.set(CANDIDATE_LEN - 1);

    let poll = driver.pump_update(0);

    assert_eq!(poll.event, Some(Event::UpdateRejected));
    assert!(driver.board().update_verifier.is_some());
    assert_eq!(driver.board().updatables[0].abandons, 1);

    len.set(64);
    driver.discard_staged().unwrap();
    driver.submit_update(C0, CANDIDATE_LEN).unwrap();
    assert_eq!(driver.authenticate_update(), Ok(()));
}
