//! Staging, verifying, releasing and watching components.
use crate::capabilities::boot::{BootControl, BootWatch};
use crate::driver::board::{BoardCapabilities, ImageSource};
use crate::driver::calls::{called, went_through, Call};
use crate::driver::error::DriverError;
use crate::driver::laws::invariants::{
    law_every_call_keeps_the_driver_valid, law_the_wiring_is_fixed,
};
use crate::driver::state::DriverState;
use crate::driver::steps::{
    assert_reset_step, ends_in_verdict, execute_step, poll_boot_walks_step, release_reset_step,
    stage_firmware_step, walks_concluded, walks_polled,
};
use crate::driver::walk::{is_earliest, waits_until, BootWalkPoll, Seen};
use crate::platform::{ComponentId, Effect, EffectError, Event};
use vstd::prelude::*;

verus! {

/// Only an image whose source opened is verified: the image that is staged
/// after a call was so before it, or the call opened it.
pub proof fn law_only_opened_images_are_staged<B: BoardCapabilities>(
    pre: DriverState<B>,
    call: Call,
    post: DriverState<B>,
    id: ComponentId,
)
    requires
        pre.valid(),
        called(pre, call, post),
        post.staged == Some(id),
    ensures
        pre.staged == Some(id) || (call == Call::Execute(Effect::ReadFirmware(id))
            && B::Image::opens(pre.images[id.index()], Ok(()), post.images[id.index()])),
{
    if call is Execute && call->Execute_0 is ReadFirmware {
        let read = call->Execute_0->ReadFirmware_0;
        let answer = choose|answer: Result<Option<Event>, EffectError>| #[trigger]
            execute_step(pre, call->Execute_0, answer, post);
        let done = choose|done: Result<(), DriverError>| #[trigger]
            stage_firmware_step(pre, read, done, post);
        let opened = choose|opened: Result<(), <B::Image as ImageSource>::Error>| #[trigger]
            B::Image::opens(pre.images[read.index()], opened, post.images[read.index()])
                && post.staged == (if opened is Ok {
                Some(read)
            } else {
                None
            });
        assert(pre.knows(read));
        assert(opened->Ok_0 == ());
    }
}

/// The component whose boot walk the event tells of.
pub open spec fn walker(event: Event) -> Option<ComponentId> {
    match event {
        Event::ComponentReady(id) => Some(id),
        Event::Booted(id) => Some(id),
        Event::BootFailed { id, checkpoint: _, kind: _ } => Some(id),
        _ => None,
    }
}

/// A round over the walks tells only of a walk that was watched, which it no
/// longer is; the other walks are watched as before.
pub proof fn law_only_watched_walks_report<B: BoardCapabilities>(
    pre: DriverState<B>,
    now: u64,
    poll: BootWalkPoll,
    post: DriverState<B>,
)
    requires
        pre.valid(),
        poll_boot_walks_step(pre, now, poll, post),
    ensures
        match poll.event {
            Some(event) => walker(event) matches Some(id) && {
                &&& pre.knows(id)
                &&& pre.watching[id.index()]
                &&& post.watching == pre.watching.update(id.index(), false)
            },
            None => post.watching == pre.watching,
        },
{
    let seen = choose|seen: Seen| #[trigger]
        walks_polled(pre, now, seen, post) && walks_concluded(pre, seen, poll, post);
    if ends_in_verdict(seen) {
        let last = seen.len() - 1;
        assert(seen[last] == seen.last());
        assert(pre.watching[last]);
    }
}

/// A round that tells of no walk has polled every watched one and found it
/// waiting, and its deadline is the earliest among all of them.
pub proof fn law_the_deadline_is_complete_without_an_event<B: BoardCapabilities>(
    pre: DriverState<B>,
    now: u64,
    poll: BootWalkPoll,
    post: DriverState<B>,
)
    requires
        pre.valid(),
        poll_boot_walks_step(pre, now, poll, post),
        poll.event is None,
    ensures
        exists|seen: Seen|
            {
                &&& seen.len() == pre.count()
                &&& #[trigger] is_earliest(seen, poll.next_deadline_millis)
                &&& forall|i: int| #![trigger seen[i]]
                    0 <= i < pre.count() ==> match seen[i] {
                        Some(verdict) => {
                            &&& pre.watching[i]
                            &&& verdict is Waiting
                            &&& B::BootWatch::polls(
                                pre.boot_watches[i],
                                now,
                                verdict,
                                post.boot_watches[i],
                            )
                        },
                        None => !pre.watching[i],
                    }
            },
{
    let seen = choose|seen: Seen| #[trigger]
        walks_polled(pre, now, seen, post) && walks_concluded(pre, seen, poll, post);
    assert(is_earliest(seen, poll.next_deadline_millis));
    assert forall|i: int| #![trigger seen[i]] 0 <= i < pre.count() implies match seen[i] {
        Some(verdict) => {
            &&& pre.watching[i]
            &&& verdict is Waiting
            &&& B::BootWatch::polls(pre.boot_watches[i], now, verdict, post.boot_watches[i])
        },
        None => !pre.watching[i],
    } by {
        if i == seen.len() - 1 {
            assert(seen[i] == seen.last());
        }
    }
}

/// A round without an event when nothing is watched has no deadline either.
pub proof fn law_no_walk_no_deadline<B: BoardCapabilities>(
    pre: DriverState<B>,
    now: u64,
    poll: BootWalkPoll,
    post: DriverState<B>,
)
    requires
        pre.valid(),
        poll_boot_walks_step(pre, now, poll, post),
        forall|i: int| 0 <= i < pre.count() ==> !#[trigger] pre.watching[i],
    ensures
        poll == (BootWalkPoll { event: None, next_deadline_millis: None }),
        post == pre,
{
    let seen = choose|seen: Seen| #[trigger]
        walks_polled(pre, now, seen, post) && walks_concluded(pre, seen, poll, post);
    assert forall|i: int| #![trigger seen[i]] 0 <= i < seen.len() implies seen[i] is None by {
        assert(!pre.watching[i]);
    }
    if ends_in_verdict(seen) {
        assert(seen[seen.len() - 1] is None);
    }
    if let Some(d) = poll.next_deadline_millis {
        let i = choose|i: int| 0 <= i < seen.len() && #[trigger] waits_until(seen, i, d);
        assert(seen[i] is None);
    }
    assert(post.boot_watches =~= pre.boot_watches);
}

/// A walk becomes watched only by a release of its component that the reset
/// line took, and that release armed it afresh.
pub proof fn law_only_a_release_starts_a_walk<B: BoardCapabilities>(
    pre: DriverState<B>,
    call: Call,
    post: DriverState<B>,
    id: ComponentId,
)
    requires
        pre.valid(),
        called(pre, call, post),
        pre.knows(id),
        post.watching[id.index()],
    ensures
        pre.watching[id.index()] || (call == Call::Execute(Effect::ReleaseReset(id)) && {
            &&& B::BootControl::releases(
                pre.boot_controls[id.index()],
                Ok(()),
                post.boot_controls[id.index()],
            )
            &&& B::BootWatch::arms(pre.boot_watches[id.index()], post.boot_watches[id.index()])
        }),
{
    match call {
        Call::Execute(Effect::ReleaseReset(other)) => {
            let i = other.index();
            if pre.knows(other) {
                let released = choose|
                    released: Result<(), <B::BootControl as BootControl>::Error>,
                | #[trigger]
                    B::BootControl::releases(
                        pre.boot_controls[i],
                        released,
                        post.boot_controls[i],
                    ) && (released is Err ==> post.watching == pre.watching) && (released is Ok
                        ==> post.watching == pre.watching.update(i, true) && B::BootWatch::arms(
                        pre.boot_watches[i],
                        post.boot_watches[i],
                    ));
                if released is Ok {
                    assert(released->Ok_0 == ());
                }
            }
        },
        Call::PollWalks(now) => {
            let poll = choose|poll: BootWalkPoll| #[trigger]
                poll_boot_walks_step(pre, now, poll, post);
            law_only_watched_walks_report(pre, now, poll, post);
        },
        _ => {},
    }
}

/// The call was a round that told of the walk of component `id`.
pub open spec fn told_of_walk<B: BoardCapabilities>(
    pre: DriverState<B>,
    call: Call,
    id: ComponentId,
    post: DriverState<B>,
) -> bool {
    &&& call matches Call::PollWalks(now)
    &&& exists|poll: BootWalkPoll| #[trigger]
        poll_boot_walks_step(pre, now, poll, post) && (poll.event matches Some(event) && walker(
            event,
        ) == Some(id))
}

/// The call was a release of component `id` that the reset line took.
pub open spec fn released<B: BoardCapabilities>(
    pre: DriverState<B>,
    call: Call,
    id: ComponentId,
    post: DriverState<B>,
) -> bool {
    &&& call == Call::Execute(Effect::ReleaseReset(id))
    &&& release_reset_step(pre, id, Ok(()), post)
}

/// A walk that is watched after a call, and was not before, was started by a
/// release of its component that the reset line took.
proof fn lemma_watched_by_release<B: BoardCapabilities>(
    pre: DriverState<B>,
    call: Call,
    id: ComponentId,
    post: DriverState<B>,
)
    requires
        pre.valid(),
        called(pre, call, post),
        pre.knows(id),
        !pre.watching[id.index()],
        post.watching[id.index()],
    ensures
        released(pre, call, id, post),
{
    law_only_a_release_starts_a_walk(pre, call, post, id);
    let answer = choose|answer: Result<Option<Event>, EffectError>| #[trigger]
        execute_step(pre, call->Execute_0, answer, post);
    let done = choose|done: Result<(), DriverError>| #[trigger]
        release_reset_step(pre, id, done, post);
    if done is Ok {
        assert(done->Ok_0 == ());
    }
}

/// While no release of component `id` is taken, a walk that is not watched
/// stays so.
proof fn lemma_unwatched_until_released<B: BoardCapabilities>(
    states: Seq<DriverState<B>>,
    calls: Seq<Call>,
    id: ComponentId,
    from: int,
    to: int,
)
    requires
        went_through(states, calls),
        0 <= from <= to < states.len(),
        states[from].valid(),
        states[from].knows(id),
        !states[from].watching[id.index()],
        forall|r: int| #![trigger calls[r]]
            from <= r < to ==> !released(states[r], calls[r], id, states[r + 1]),
    ensures
        states[to].valid(),
        states[to].knows(id),
        !states[to].watching[id.index()],
    decreases to - from,
{
    if from < to {
        lemma_unwatched_until_released(states, calls, id, from, to - 1);
        assert(called(states[to - 1], calls[to - 1], states[to]));
        law_every_call_keeps_the_driver_valid(states[to - 1], calls[to - 1], states[to]);
        law_the_wiring_is_fixed(states[to - 1], calls[to - 1], states[to]);
        if states[to].watching[id.index()] {
            lemma_watched_by_release(states[to - 1], calls[to - 1], id, states[to]);
            assert(released(states[to - 1], calls[to - 1], id, states[to - 1 + 1]));
        }
    }
}

/// Each verdict is delivered once: between two rounds that tell of the same
/// component's walk, the component was released again, and the reset line
/// took it.
pub proof fn law_each_verdict_is_delivered_once<B: BoardCapabilities>(
    states: Seq<DriverState<B>>,
    calls: Seq<Call>,
    id: ComponentId,
    first: int,
    second: int,
)
    requires
        went_through(states, calls),
        0 <= first < second < calls.len(),
        states[first].valid(),
        told_of_walk(states[first], calls[first], id, states[first + 1]),
        told_of_walk(states[second], calls[second], id, states[second + 1]),
    ensures
        exists|r: int| #![trigger calls[r]]
            first < r < second && released(states[r], calls[r], id, states[r + 1]),
{
    assert(called(states[first], calls[first], states[first + 1]));
    law_every_call_keeps_the_driver_valid(states[first], calls[first], states[first + 1]);
    law_the_wiring_is_fixed(states[first], calls[first], states[first + 1]);
    let now = calls[first]->PollWalks_0;
    let poll = choose|poll: BootWalkPoll| #[trigger]
        poll_boot_walks_step(states[first], now, poll, states[first + 1]) && (
        poll.event matches Some(event) && walker(event) == Some(id));
    law_only_watched_walks_report(states[first], now, poll, states[first + 1]);
    if forall|r: int| #![trigger calls[r]]
        first + 1 <= r < second ==> !released(states[r], calls[r], id, states[r + 1]) {
        lemma_unwatched_until_released(states, calls, id, first + 1, second);
        let now = calls[second]->PollWalks_0;
        let poll = choose|poll: BootWalkPoll| #[trigger]
            poll_boot_walks_step(states[second], now, poll, states[second + 1]) && (
            poll.event matches Some(event) && walker(event) == Some(id));
        law_only_watched_walks_report(states[second], now, poll, states[second + 1]);
    }
}

/// A component that is held in reset yields no stale event: no round tells of
/// its walk until it is released again, and the reset line takes it.
pub proof fn law_a_held_component_yields_no_event<B: BoardCapabilities>(
    states: Seq<DriverState<B>>,
    calls: Seq<Call>,
    id: ComponentId,
    held: int,
    told: int,
)
    requires
        went_through(states, calls),
        0 <= held < told < calls.len(),
        states[held].valid(),
        assert_reset_step(states[held], id, Ok(()), states[held + 1]),
        calls[held] == Call::Execute(Effect::AssertReset(id)),
        told_of_walk(states[told], calls[told], id, states[told + 1]),
    ensures
        exists|r: int| #![trigger calls[r]]
            held < r < told && released(states[r], calls[r], id, states[r + 1]),
{
    assert(called(states[held], calls[held], states[held + 1]));
    law_every_call_keeps_the_driver_valid(states[held], calls[held], states[held + 1]);
    law_the_wiring_is_fixed(states[held], calls[held], states[held + 1]);
    if forall|r: int| #![trigger calls[r]]
        held + 1 <= r < told ==> !released(states[r], calls[r], id, states[r + 1]) {
        lemma_unwatched_until_released(states, calls, id, held + 1, told);
        let now = calls[told]->PollWalks_0;
        let poll = choose|poll: BootWalkPoll| #[trigger]
            poll_boot_walks_step(states[told], now, poll, states[told + 1]) && (
            poll.event matches Some(event) && walker(event) == Some(id));
        law_only_watched_walks_report(states[told], now, poll, states[told + 1]);
    }
}

} // verus!
