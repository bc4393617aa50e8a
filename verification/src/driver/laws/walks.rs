//! What a round over the boot walks does, and what it answers.
use crate::capabilities::boot::{BootWatch, FailureCause, WalkVerdict};
use crate::driver::board::BoardCapabilities;
use crate::driver::platform_driver::PlatformDriver;
use crate::driver::state::DriverState;
use crate::driver::steps::{walks_concluded, walks_polled};
use crate::driver::walk::{earlier, waits_until, walk_event, BootWalkPoll, Seen};
use crate::platform::{BootFailureKind, ComponentId, ComponentKind, Event};
use vstd::prelude::*;

verus! {

/// A round without an event polled every watched walk once, at the time it
/// was given, and each of them waits. Its deadline is the earliest of theirs,
/// and there is none exactly when no walk is watched. No other walk was
/// touched, the same walks are watched as before, and nothing else changes.
pub proof fn law_a_quiet_round_polled_every_watched_walk<B: BoardCapabilities, const N: usize>(
    driver: &mut PlatformDriver<B, N>,
    now: u64,
    poll: BootWalkPoll,
)
    requires
        old(driver)@.valid(),
        call_ensures(PlatformDriver::<B, N>::poll_boot_walks, (driver, now), poll),
        poll.event is None,
    ensures
        ({
            let (pre, post) = (old(driver)@, final(driver)@);
            &&& post.boot_watches.len() == pre.boot_watches.len()
            &&& post == DriverState { boot_watches: post.boot_watches, ..pre }
            &&& forall|i: int| #![trigger post.boot_watches[i]]
                0 <= i < pre.watching.len() && !pre.watching[i] ==> post.boot_watches[i]
                    == pre.boot_watches[i]
            &&& exists|deadlines: Seq<u64>|
                {
                    &&& #[trigger] deadlines.len() == pre.watching.len()
                    &&& forall|i: int| #![trigger deadlines[i]] #![trigger post.boot_watches[i]]
                        0 <= i < pre.watching.len() && pre.watching[i] ==> {
                            &&& B::BootWatch::polls(
                                pre.boot_watches[i],
                                now,
                                WalkVerdict::Waiting { deadline_millis: deadlines[i] },
                                post.boot_watches[i],
                            )
                            &&& poll.next_deadline_millis matches Some(earliest) && earliest
                                <= deadlines[i]
                        }
                    &&& poll.next_deadline_millis matches Some(earliest) ==> exists|i: int|
                        0 <= i < pre.watching.len() && pre.watching[i] && #[trigger] deadlines[i]
                            == earliest
                }
        }),
{
    let (pre, post) = (old(driver)@, final(driver)@);
    let seen = choose|seen: Seen| #[trigger]
        walks_polled(pre, now, seen, post) && walks_concluded(pre, seen, poll, post);
    let deadlines = Seq::new(seen.len(), |i: int| seen[i]->0->deadline_millis);
    assert forall|i: int| #![trigger deadlines[i]] #![trigger post.boot_watches[i]]
        0 <= i < pre.watching.len() && pre.watching[i] implies {
        &&& B::BootWatch::polls(
            pre.boot_watches[i],
            now,
            WalkVerdict::Waiting { deadline_millis: deadlines[i] },
            post.boot_watches[i],
        )
        &&& poll.next_deadline_millis matches Some(earliest) && earliest <= deadlines[i]
    } by {
        if i == seen.len() - 1 {
            assert(seen[i] == seen.last());
        }
        assert(seen[i] is Some);
        assert(waits_until(seen, i, deadlines[i]));
    }
    if let Some(earliest) = poll.next_deadline_millis {
        let i = choose|i: int| 0 <= i < seen.len() && #[trigger] waits_until(seen, i, earliest);
        assert(seen[i] is Some);
        assert(deadlines[i] == earliest);
    }
    assert(deadlines.len() == pre.watching.len());
}

/// A round with an event polled the watched walks from the first component
/// on, up to one that ended and no further. Those before it wait, and the
/// deadline is the earliest of theirs. The event tells of the walk that
/// ended, as it ended: an active component that completed is ready, a passive
/// one has booted, and one that failed did so at its checkpoint, of its
/// cause. That walk is no longer watched. No other walk was touched, and
/// nothing else changes.
pub proof fn law_an_event_tells_of_the_first_walk_that_ended<
    B: BoardCapabilities,
    const N: usize,
>(driver: &mut PlatformDriver<B, N>, now: u64, poll: BootWalkPoll, event: Event)
    requires
        old(driver)@.valid(),
        call_ensures(PlatformDriver::<B, N>::poll_boot_walks, (driver, now), poll),
        poll.event == Some(event),
    ensures
        ({
            let (pre, post) = (old(driver)@, final(driver)@);
            &&& post.boot_watches.len() == pre.boot_watches.len()
            &&& exists|k: int, verdict: WalkVerdict, deadlines: Seq<u64>|
                {
                    &&& 0 <= k < pre.watching.len()
                    &&& #[trigger] deadlines.len() == k
                    &&& pre.watching[k]
                    &&& #[trigger] B::BootWatch::polls(
                        pre.boot_watches[k],
                        now,
                        verdict,
                        post.boot_watches[k],
                    )
                    &&& match verdict {
                        WalkVerdict::Waiting { .. } => false,
                        WalkVerdict::Complete => event == (if pre.component_kinds[k]
                            == ComponentKind::Active {
                            Event::ComponentReady(ComponentId(k as u8))
                        } else {
                            Event::Booted(ComponentId(k as u8))
                        }),
                        WalkVerdict::Failed { checkpoint, cause } => {
                            &&& event matches Event::BootFailed { id, checkpoint: died, kind }
                            &&& id == ComponentId(k as u8)
                            &&& died == checkpoint
                            &&& cause == FailureCause::TimedOut <==> kind
                                == BootFailureKind::TimedOut
                            &&& cause == FailureCause::DeviceRetriable <==> kind
                                == BootFailureKind::DeviceRetriable
                            &&& cause == FailureCause::DeviceFatal <==> kind
                                == BootFailureKind::DeviceFatal
                        },
                    }
                    &&& post == DriverState {
                        boot_watches: post.boot_watches,
                        watching: pre.watching.update(k, false),
                        ..pre
                    }
                    &&& forall|i: int| #![trigger post.boot_watches[i]]
                        0 <= i < pre.watching.len() && (i > k || !pre.watching[i])
                            ==> post.boot_watches[i] == pre.boot_watches[i]
                    &&& forall|i: int| #![trigger deadlines[i]] #![trigger post.boot_watches[i]]
                        0 <= i < k && pre.watching[i] ==> {
                            &&& B::BootWatch::polls(
                                pre.boot_watches[i],
                                now,
                                WalkVerdict::Waiting { deadline_millis: deadlines[i] },
                                post.boot_watches[i],
                            )
                            &&& poll.next_deadline_millis matches Some(earliest) && earliest
                                <= deadlines[i]
                        }
                    &&& poll.next_deadline_millis matches Some(earliest) ==> exists|i: int|
                        0 <= i < k && pre.watching[i] && #[trigger] deadlines[i] == earliest
                }
        }),
{
    let (pre, post) = (old(driver)@, final(driver)@);
    let seen = choose|seen: Seen| #[trigger]
        walks_polled(pre, now, seen, post) && walks_concluded(pre, seen, poll, post);
    let k = seen.len() - 1;
    let deadlines = Seq::new(k as nat, |i: int| seen[i]->0->deadline_millis);
    let verdict = seen.last()->0;
    assert(seen[k] == Some(verdict));
    assert(deadlines.len() == k);
    assert(B::BootWatch::polls(pre.boot_watches[k], now, verdict, post.boot_watches[k]));
    assert forall|i: int| #![trigger deadlines[i]] #![trigger post.boot_watches[i]]
        0 <= i < k && pre.watching[i] implies {
        &&& B::BootWatch::polls(
            pre.boot_watches[i],
            now,
            WalkVerdict::Waiting { deadline_millis: deadlines[i] },
            post.boot_watches[i],
        )
        &&& poll.next_deadline_millis matches Some(earliest) && earliest <= deadlines[i]
    } by {
        assert(seen[i] is Some);
        assert(waits_until(seen, i, deadlines[i]));
    }
    if let Some(earliest) = poll.next_deadline_millis {
        let i = choose|i: int| 0 <= i < seen.len() && #[trigger] waits_until(seen, i, earliest);
        assert(seen[i] is Some);
        assert(deadlines[i] == earliest);
    }
}

/// A walk that waits has no event. One that ended has one, which names its
/// component and tells how it ended.
pub proof fn law_a_walk_is_told_as_it_ended(
    id: ComponentId,
    kind: ComponentKind,
    verdict: WalkVerdict,
    event: Option<Event>,
)
    requires
        call_ensures(walk_event, (id, kind, verdict), event),
    ensures
        verdict is Waiting <==> event is None,
        event == Some(Event::ComponentReady(id)) <==> verdict is Complete && kind
            == ComponentKind::Active,
        event == Some(Event::Booted(id)) <==> verdict is Complete && kind
            == ComponentKind::Passive,
        verdict matches WalkVerdict::Failed { checkpoint, cause } ==> {
            &&& event matches Some(Event::BootFailed { id: failed, checkpoint: died, kind: of })
            &&& failed == id
            &&& died == checkpoint
            &&& cause == FailureCause::TimedOut <==> of == BootFailureKind::TimedOut
            &&& cause == FailureCause::DeviceRetriable <==> of == BootFailureKind::DeviceRetriable
            &&& cause == FailureCause::DeviceFatal <==> of == BootFailureKind::DeviceFatal
        },
{
}

/// The earlier of two deadlines is one of them, and is after neither. With
/// one deadline it is that one.
pub proof fn law_the_earlier_deadline_is_after_neither(
    so_far: Option<u64>,
    deadline: u64,
    found: u64,
)
    requires
        call_ensures(earlier, (so_far, deadline), found),
    ensures
        found <= deadline,
        found == deadline || so_far == Some(found),
        so_far matches Some(other) ==> found <= other,
{
}

} // verus!
