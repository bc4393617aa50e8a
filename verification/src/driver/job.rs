//! The update job and the rules that move it.
use crate::capabilities::progress::Progress;
use crate::platform::{ComponentId, Event};
use vstd::prelude::*;

verus! {

/// How far the in-flight update has come.
#[derive(Debug, Clone, Copy, PartialEq, Eq, Structural)]
pub enum UpdatePhase {
    /// Recorded, and no executor has run yet.
    Submitted,
    /// A verify session is running over the candidate.
    Authenticating,
    /// The candidate authenticated and is on its way to the device.
    Staging,
    /// The device holds the complete payload, and the job waits to be
    /// activated or discarded.
    Staged,
}

/// One in-flight update.
#[derive(Debug, Clone, Copy, PartialEq, Eq, Structural)]
pub struct UpdateJob {
    /// The component to update.
    pub target: ComponentId,
    /// Candidate length in bytes: how much of the staging region holds it.
    pub len: u64,
    pub phase: UpdatePhase,
    /// Staging was asked for. The pump pushes nothing to a device without
    /// it.
    pub stage_requested: bool,
    /// Progress at the last pump call.
    pub progress: Progress,
    /// When progress last moved. `None` until the first pump call.
    pub progress_since_millis: Option<u64>,
}

/// What one step of the pump established, before the stall rule is applied.
#[derive(Debug, Clone, Copy, PartialEq, Eq, Structural)]
pub enum Step {
    /// The step ran and moved the job this far.
    Working(Progress),
    /// The candidate authenticated; staging is next.
    Authenticated,
    /// The device holds the complete payload.
    Staged,
    /// The candidate failed, or the device did.
    Rejected,
}

/// One round of the update pump.
#[derive(Clone, Copy, PartialEq, Eq, Debug)]
pub struct UpdatePoll {
    /// The verdict, once the job reached one: [`Event::UpdateVerified`] when
    /// the device holds the payload, [`Event::UpdateRejected`] when the
    /// candidate, the device or the stall budget ended the job.
    pub event: Option<Event>,
    /// How far the job has come. `None` when there is nothing to report.
    pub progress: Option<Progress>,
}

impl UpdatePoll {
    /// There is no job, or the job's next move is not the pump's.
    pub open spec fn quiet() -> UpdatePoll {
        UpdatePoll { event: None, progress: None }
    }

    /// There is no job, or the job's next move is not the pump's.
    pub fn idle() -> (poll: Self)
        ensures
            poll == Self::quiet(),
    {
        Self { event: None, progress: None }
    }

    /// The job goes on.
    pub open spec fn working(progress: Progress) -> UpdatePoll {
        UpdatePoll { event: None, progress: Some(progress) }
    }

    /// The job reached the verdict `event`.
    pub open spec fn verdict(event: Event) -> UpdatePoll {
        UpdatePoll { event: Some(event), progress: None }
    }
}

/// Progress that last moved at `since` has stalled at `now`: `budget`
/// milliseconds or more have gone by. A clock that went back has let none go
/// by.
pub open spec fn stalled(since: u64, now: u64, budget: u64) -> bool {
    budget == 0 || now - since >= budget
}

impl UpdateJob {
    /// A job as it is recorded.
    pub open spec fn submitted(target: ComponentId, len: u64) -> UpdateJob {
        UpdateJob {
            target,
            len,
            phase: UpdatePhase::Submitted,
            stage_requested: false,
            progress: Progress { done: 0, total: len },
            progress_since_millis: None,
        }
    }

    /// Records a job for `target`, whose candidate is `len` bytes long.
    pub fn new(target: ComponentId, len: u64) -> (job: Self)
        ensures
            job == Self::submitted(target, len),
    {
        Self {
            target,
            len,
            phase: UpdatePhase::Submitted,
            stage_requested: false,
            progress: Progress::none(len),
            progress_since_millis: None,
        }
    }

    /// When the job's progress last moved, if it is pumped at `now`: the first
    /// pump call starts the clock.
    pub open spec fn since(self, now: u64) -> u64 {
        match self.progress_since_millis {
            Some(since) => since,
            None => now,
        }
    }

    /// The job with its clock running.
    pub open spec fn clocked(self, now: u64) -> UpdateJob {
        UpdateJob { progress_since_millis: Some(self.since(now)), ..self }
    }

    /// Starts the job's clock at `now`, unless it is running.
    pub fn start_clock(&mut self, now: u64)
        ensures
            *final(self) == old(self).clocked(now),
    {
        if self.progress_since_millis.is_none() {
            self.progress_since_millis = Some(now);
        }
    }

    /// The job as a rejection leaves it: submitted, with staging to be asked
    /// for anew. Its progress and its clock stay, so that a job that is
    /// started over may count as stalled from its first poll on.
    pub open spec fn rejected(self) -> UpdateJob {
        UpdateJob { phase: UpdatePhase::Submitted, stage_requested: false, ..self }
    }

    /// Where the job stands after `step` at `now`, and what the pump reports:
    /// nothing if the job is to be rejected.
    ///
    /// * Bytes that moved restart the stall budget. A step that moved none is
    ///   reported until the budget is spent, and then ends the job.
    /// * An authenticated candidate goes on to staging, from zero.
    /// * A staged payload is the state machine's to activate.
    pub open spec fn settled(self, step: Step, now: u64, budget: u64) -> (
        UpdateJob,
        Option<UpdatePoll>,
    ) {
        match step {
            Step::Working(progress) => {
                let moved = UpdateJob { progress, ..self };
                if progress.done > self.progress.done {
                    (
                        UpdateJob { progress_since_millis: Some(now), ..moved },
                        Some(UpdatePoll::working(progress)),
                    )
                } else if stalled(self.since(now), now, budget) {
                    (moved, None)
                } else {
                    (moved, Some(UpdatePoll::working(progress)))
                }
            },
            Step::Authenticated => {
                let none = Progress { done: 0, total: self.len };
                (
                    UpdateJob {
                        phase: UpdatePhase::Staging,
                        progress: none,
                        progress_since_millis: Some(now),
                        ..self
                    },
                    Some(UpdatePoll::working(none)),
                )
            },
            Step::Staged => (
                UpdateJob { phase: UpdatePhase::Staged, ..self },
                Some(UpdatePoll::verdict(Event::UpdateVerified)),
            ),
            Step::Rejected => (self, None),
        }
    }

    /// Applies `step`, taken at `now` under a stall budget of `budget`
    /// milliseconds. Answers what the pump reports, or `None` if the job is to
    /// be rejected.
    pub fn settle(&mut self, step: Step, now: u64, budget: u64) -> (poll: Option<UpdatePoll>)
        ensures
            (*final(self), poll) == old(self).settled(step, now, budget),
    {
        match step {
            Step::Working(progress) => {
                let before: u64 = self.progress.done;
                let since: u64 = match self.progress_since_millis {
                    Some(since) => since,
                    None => now,
                };
                self.progress = progress;
                if progress.done > before {
                    self.progress_since_millis = Some(now);
                } else if now.saturating_sub(since) >= budget {
                    return None;
                }
                Some(UpdatePoll { event: None, progress: Some(progress) })
            },
            // Staging starts on the next call, so that this one stays a
            // bounded step.
            Step::Authenticated => {
                self.phase = UpdatePhase::Staging;
                self.progress = Progress::none(self.len);
                self.progress_since_millis = Some(now);
                Some(UpdatePoll { event: None, progress: Some(self.progress) })
            },
            Step::Staged => {
                self.phase = UpdatePhase::Staged;
                Some(UpdatePoll { event: Some(Event::UpdateVerified), progress: None })
            },
            Step::Rejected => None,
        }
    }
}

} // verus!
