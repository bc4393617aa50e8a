//! What a boot walk's verdict means to the state machine.
use crate::capabilities::boot::{FailureCause, WalkVerdict};
use crate::platform::{BootFailureKind, ComponentId, ComponentKind, Event};
use vstd::prelude::*;

verus! {

/// One round over the boot walks.
#[derive(Clone, Copy, PartialEq, Eq, Debug)]
pub struct BootWalkPoll {
    /// The first terminal verdict's event; `None` when every watched walk is
    /// still waiting.
    pub event: Option<Event>,
    /// Earliest deadline among the walks seen waiting this round. Complete
    /// only when there is no event, for a round ends at its first event.
    pub next_deadline_millis: Option<u64>,
}

/// How the state machine classifies a failure.
pub open spec fn kind_of(cause: FailureCause) -> BootFailureKind {
    match cause {
        FailureCause::TimedOut => BootFailureKind::TimedOut,
        FailureCause::DeviceRetriable => BootFailureKind::DeviceRetriable,
        FailureCause::DeviceFatal => BootFailureKind::DeviceFatal,
    }
}

/// The event that tells the end of the walk of component `id`: `None` while
/// the walk waits.
pub open spec fn event_of(id: ComponentId, kind: ComponentKind, verdict: WalkVerdict) -> Option<
    Event,
> {
    match verdict {
        WalkVerdict::Waiting { .. } => None,
        WalkVerdict::Complete => Some(
            match kind {
                ComponentKind::Active => Event::ComponentReady(id),
                ComponentKind::Passive => Event::Booted(id),
            },
        ),
        WalkVerdict::Failed { checkpoint, cause } => Some(
            Event::BootFailed { id, checkpoint, kind: kind_of(cause) },
        ),
    }
}

/// The event that tells the end of the walk of component `id`: `None` while
/// the walk waits.
pub fn walk_event(id: ComponentId, kind: ComponentKind, verdict: WalkVerdict) -> (event: Option<
    Event,
>)
    ensures
        event == event_of(id, kind, verdict),
{
    match verdict {
        WalkVerdict::Waiting { .. } => None,
        WalkVerdict::Complete => Some(
            match kind {
                ComponentKind::Active => Event::ComponentReady(id),
                ComponentKind::Passive => Event::Booted(id),
            },
        ),
        WalkVerdict::Failed { checkpoint, cause } => {
            let kind = match cause {
                FailureCause::TimedOut => BootFailureKind::TimedOut,
                FailureCause::DeviceRetriable => BootFailureKind::DeviceRetriable,
                FailureCause::DeviceFatal => BootFailureKind::DeviceFatal,
            };
            Some(Event::BootFailed { id, checkpoint, kind })
        },
    }
}

/// What a round saw, in component order: the verdict of each walk that was
/// polled, and nothing for a component that is not watched.
pub type Seen = Seq<Option<WalkVerdict>>;

/// Entry `i` of what was seen is a walk that waits until `deadline`.
pub open spec fn waits_until(seen: Seen, i: int, deadline: u64) -> bool {
    seen[i] == Some(WalkVerdict::Waiting { deadline_millis: deadline })
}

/// `deadline` is the earliest deadline among the waiting walks that were
/// seen, or `None` if none was waiting.
pub open spec fn is_earliest(seen: Seen, deadline: Option<u64>) -> bool {
    match deadline {
        None => forall|i: int, d: u64| 0 <= i < seen.len() ==> !#[trigger] waits_until(seen, i, d),
        Some(earliest) => {
            &&& exists|i: int| 0 <= i < seen.len() && #[trigger] waits_until(seen, i, earliest)
            &&& forall|i: int, d: u64|
                0 <= i < seen.len() && #[trigger] waits_until(seen, i, d) ==> earliest <= d
        },
    }
}

/// The earliest deadline after one more component was looked at.
pub open spec fn earliest_with(so_far: Option<u64>, next: Option<WalkVerdict>) -> Option<u64> {
    match (next, so_far) {
        (Some(WalkVerdict::Waiting { deadline_millis }), Some(d)) => Some(
            if d < deadline_millis {
                d
            } else {
                deadline_millis
            },
        ),
        (Some(WalkVerdict::Waiting { deadline_millis }), None) => Some(deadline_millis),
        _ => so_far,
    }
}

/// Looking at one more component moves the earliest deadline as
/// [`earliest_with`] says.
pub proof fn lemma_earliest_with(seen: Seen, so_far: Option<u64>, next: Option<WalkVerdict>)
    requires
        is_earliest(seen, so_far),
    ensures
        is_earliest(seen.push(next), earliest_with(so_far, next)),
{
    let more = seen.push(next);
    assert forall|i: int, d: u64| 0 <= i < seen.len() implies #[trigger] waits_until(more, i, d)
        == waits_until(seen, i, d) by {}
    if let Some(earliest) = so_far {
        let i = choose|i: int| 0 <= i < seen.len() && #[trigger] waits_until(seen, i, earliest);
        assert(waits_until(more, i, earliest));
    }
    if let Some(WalkVerdict::Waiting { deadline_millis }) = next {
        assert(waits_until(more, seen.len() as int, deadline_millis));
        assert forall|i: int, d: u64|
            0 <= i < more.len() && #[trigger] waits_until(more, i, d) implies earliest_with(
            so_far,
            next,
        )->0 <= d by {
            if i < seen.len() {
                assert(waits_until(seen, i, d));
            }
        }
        assert(exists|i: int|
            0 <= i < more.len() && #[trigger] waits_until(
                more,
                i,
                earliest_with(so_far, next)->0,
            ));
    } else {
        assert forall|i: int, d: u64|
            0 <= i < more.len() && #[trigger] waits_until(more, i, d) implies i < seen.len() by {}
    }
}

/// The earlier of a deadline seen so far and one more.
pub fn earlier(so_far: Option<u64>, deadline: u64) -> (earlier: u64)
    ensures
        Some(earlier) == earliest_with(
            so_far,
            Some(WalkVerdict::Waiting { deadline_millis: deadline }),
        ),
{
    match so_far {
        Some(d) => {
            if d < deadline {
                d
            } else {
                deadline
            }
        },
        None => deadline,
    }
}

} // verus!
