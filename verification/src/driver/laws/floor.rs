//! The anti-rollback floors.
use crate::capabilities::svn_floor::{keeps_floor, Svn, SvnFloor};
use crate::driver::board::{Board, BoardCapabilities, SvnFloorBinding, Verdict, Verifier};
use crate::driver::calls::{called, history, went_through, Call};
use crate::driver::error::DriverError;
use crate::driver::laws::invariants::{
    law_a_driver_stays_valid, law_every_call_keeps_the_driver_valid, law_the_wiring_is_fixed,
};
use crate::driver::state::DriverState;
use crate::driver::steps::{commit_svn_floor_step, verify_firmware_step};
use crate::platform::{ComponentId, Effect, Event};
use vstd::prelude::*;

verus! {

/// The call verified the staged image of component `id`, and the verifier
/// answered that it is authentic and carries `svn`.
pub open spec fn vouched_by<B: BoardCapabilities>(
    pre: DriverState<B>,
    call: Call,
    id: ComponentId,
    svn: Svn,
    post: DriverState<B>,
) -> bool {
    &&& call == Call::Execute(Effect::VerifyFirmware(id))
    &&& pre.staged == Some(id)
    &&& B::Verifier::judges(
        pre.verifier,
        id,
        pre.images[id.index()],
        Ok(Verdict::Authenticated { svn }),
        post.images[id.index()],
        post.verifier,
    )
}

/// The driver trusts an SVN only from a verification that passed: what it
/// holds for a component after a call it held before, or the call is the
/// verification that vouched for it.
pub proof fn law_a_trusted_svn_was_vouched_for<B: BoardCapabilities>(
    pre: DriverState<B>,
    call: Call,
    post: DriverState<B>,
    id: ComponentId,
    svn: Svn,
)
    requires
        pre.valid(),
        called(pre, call, post),
        pre.knows(id),
        post.verified_svn[id.index()] == Some(svn),
    ensures
        pre.verified_svn[id.index()] == Some(svn) || vouched_by(pre, call, id, svn, post),
{
}

/// Whenever a driver holds an SVN for a component, an earlier call verified
/// the component's image and the verifier vouched for that SVN, and the
/// driver has held it ever since.
pub proof fn law_every_trusted_svn_was_vouched_for<B: BoardCapabilities, const N: usize>(
    board: Board<B, N>,
    states: Seq<DriverState<B>>,
    calls: Seq<Call>,
    k: int,
    id: ComponentId,
    svn: Svn,
) -> (j: int)
    requires
        history(board, states, calls),
        0 <= k < states.len(),
        states[k].knows(id),
        states[k].verified_svn[id.index()] == Some(svn),
    ensures
        0 <= j < k,
        vouched_by(states[j], calls[j], id, svn, states[j + 1]),
        forall|i: int| #![trigger states[i]]
            j < i <= k ==> states[i].verified_svn[id.index()] == Some(svn),
    decreases k,
{
    assert(k > 0);
    law_a_driver_stays_valid(board, states, calls, k - 1);
    assert(called(states[k - 1], calls[k - 1], states[k]));
    law_the_wiring_is_fixed(states[k - 1], calls[k - 1], states[k]);
    law_a_trusted_svn_was_vouched_for(states[k - 1], calls[k - 1], states[k], id, svn);
    if vouched_by(states[k - 1], calls[k - 1], id, svn, states[k]) {
        k - 1
    } else {
        law_every_trusted_svn_was_vouched_for(board, states, calls, k - 1, id, svn)
    }
}

/// A floor moves only by a commit for its component, and is handed no version
/// but the one that the driver trusts for it. Who keeps a floor never
/// changes.
pub proof fn law_a_floor_is_handed_only_the_trusted_svn<B: BoardCapabilities>(
    pre: DriverState<B>,
    call: Call,
    post: DriverState<B>,
    id: ComponentId,
)
    requires
        pre.valid(),
        called(pre, call, post),
        pre.knows(id),
    ensures
        match (pre.svn_floors[id.index()], post.svn_floors[id.index()]) {
            (SvnFloorBinding::Erot(before), SvnFloorBinding::Erot(after)) => after == before || {
                &&& call == Call::Execute(Effect::CommitSvnFloor(id))
                &&& pre.verified_svn[id.index()] matches Some(svn)
                &&& exists|answer: Result<(), <B::SvnFloor as SvnFloor>::Error>| #[trigger]
                    B::SvnFloor::advances(before, svn, answer, after)
            },
            (SvnFloorBinding::SelfManaged, SvnFloorBinding::SelfManaged) => true,
            _ => false,
        },
{
}

/// A rejection takes the trusted SVN with it: a commit that follows is
/// refused, unless the component keeps its own floor.
pub proof fn law_a_rejected_image_cannot_be_committed<B: BoardCapabilities>(
    pre: DriverState<B>,
    id: ComponentId,
    mid: DriverState<B>,
    answer: Result<(), DriverError>,
    post: DriverState<B>,
)
    requires
        pre.valid(),
        verify_firmware_step(pre, id, Ok(Event::VerificationFailed(id)), mid),
        commit_svn_floor_step(mid, id, answer, post),
    ensures
        mid.verified_svn[id.index()] is None,
        mid.svn_floors[id.index()] is Erot ==> answer == Err::<(), _>(DriverError::NoVerifiedImage),
        post == mid,
{
}

/// A commit after a verification that passed hands the floor the SVN that the
/// verifier vouched for.
pub proof fn law_a_verified_image_can_be_committed<B: BoardCapabilities>(
    pre: DriverState<B>,
    id: ComponentId,
    mid: DriverState<B>,
    answer: Result<(), DriverError>,
    post: DriverState<B>,
    before: B::SvnFloor,
    after: B::SvnFloor,
)
    requires
        pre.valid(),
        verify_firmware_step(pre, id, Ok(Event::VerificationPassed(id)), mid),
        commit_svn_floor_step(mid, id, answer, post),
        mid.svn_floors[id.index()] == SvnFloorBinding::Erot(before),
        post.svn_floors[id.index()] == SvnFloorBinding::Erot(after),
    ensures
        exists|svn: Svn, advanced: Result<(), <B::SvnFloor as SvnFloor>::Error>|
            {
                &&& #[trigger] B::SvnFloor::advances(before, svn, advanced, after)
                &&& vouched_by(pre, Call::Execute(Effect::VerifyFirmware(id)), id, svn, mid)
                &&& answer == (match advanced {
                    Ok(_) => Ok(()),
                    Err(_) => Err(DriverError::SvnFloorFault),
                })
            },
{
    let i = id.index();
    let judged = choose|judged: Result<Verdict, <B::Verifier as Verifier<B::Image>>::Error>| #[trigger]
        B::Verifier::judges(pre.verifier, id, pre.images[i], judged, mid.images[i], mid.verifier)
            && (judged matches Ok(Verdict::Authenticated { svn }) && mid.verified_svn[i] == Some(
            svn,
        ));
    let svn = judged->Ok_0->svn;
    assert(vouched_by(pre, Call::Execute(Effect::VerifyFirmware(id)), id, svn, mid));
}

/// A replayed commit is harmless, and no commit lowers a floor: with a floor
/// that keeps its level, a commit that succeeds leaves it at least as high as
/// before and at the trusted SVN, and a second one that succeeds moves it no
/// further.
pub proof fn law_a_replayed_commit_is_harmless<B: BoardCapabilities>(
    level: spec_fn(B::SvnFloor) -> u32,
    pre: DriverState<B>,
    id: ComponentId,
    once: DriverState<B>,
    twice: DriverState<B>,
    floors: (B::SvnFloor, B::SvnFloor, B::SvnFloor),
)
    requires
        keeps_floor(level),
        pre.valid(),
        pre.knows(id),
        commit_svn_floor_step(pre, id, Ok(()), once),
        commit_svn_floor_step(once, id, Ok(()), twice),
        pre.svn_floors[id.index()] == SvnFloorBinding::Erot(floors.0),
        once.svn_floors[id.index()] == SvnFloorBinding::Erot(floors.1),
        twice.svn_floors[id.index()] == SvnFloorBinding::Erot(floors.2),
    ensures
        level(floors.1) >= level(floors.0),
        pre.verified_svn[id.index()] matches Some(svn) && level(floors.1) >= svn.0,
        level(floors.1) == level(floors.0) || Some(Svn(level(floors.1)))
            == pre.verified_svn[id.index()],
        level(floors.2) == level(floors.1),
{
    let i = id.index();
    let svn = pre.verified_svn[i]->0;
    let first = choose|advanced: Result<(), <B::SvnFloor as SvnFloor>::Error>| #[trigger]
        B::SvnFloor::advances(floors.0, svn, advanced, floors.1) && advanced is Ok;
    let second = choose|advanced: Result<(), <B::SvnFloor as SvnFloor>::Error>| #[trigger]
        B::SvnFloor::advances(floors.1, svn, advanced, floors.2) && advanced is Ok;
    assert(first->Ok_0 == () && second->Ok_0 == ());
}

/// The call was a verification of component `id` that came to a verdict.
pub open spec fn verified_anew<B: BoardCapabilities>(
    pre: DriverState<B>,
    call: Call,
    id: ComponentId,
    post: DriverState<B>,
) -> bool {
    &&& call == Call::Execute(Effect::VerifyFirmware(id))
    &&& exists|judged: Result<Verdict, <B::Verifier as Verifier<B::Image>>::Error>| #[trigger]
        B::Verifier::judges(
            pre.verifier,
            id,
            pre.images[id.0 as int],
            judged,
            post.images[id.0 as int],
            post.verifier,
        ) && judged is Ok
}

/// The SVN that the driver holds for a component stays through every call
/// that is not a new verdict on that component: staging, verifying and
/// committing other components do not touch it.
pub proof fn law_a_held_svn_stays<B: BoardCapabilities>(
    pre: DriverState<B>,
    call: Call,
    post: DriverState<B>,
    id: ComponentId,
)
    requires
        pre.valid(),
        called(pre, call, post),
        id.0 < pre.images.len(),
        !verified_anew(pre, call, id, post),
    ensures
        post.verified_svn[id.0 as int] == pre.verified_svn[id.0 as int],
        post.images.len() == pre.images.len(),
{
}

/// A component whose last verification passed can be committed at any later
/// time, whatever was done to other components since: the commit hands its
/// floor the SVN that the verifier vouched for then, and answers what the
/// floor answers.
pub proof fn law_a_passed_component_can_be_committed_later<B: BoardCapabilities>(
    states: Seq<DriverState<B>>,
    calls: Seq<Call>,
    id: ComponentId,
    verified: int,
    answer: Result<(), DriverError>,
    post: DriverState<B>,
    before: B::SvnFloor,
)
    requires
        went_through(states, calls),
        0 <= verified < calls.len(),
        states[verified].valid(),
        verify_firmware_step(
            states[verified],
            id,
            Ok(Event::VerificationPassed(id)),
            states[verified + 1],
        ),
        calls[verified] == Call::Execute(Effect::VerifyFirmware(id)),
        forall|r: int| #![trigger calls[r]]
            verified < r < calls.len() ==> !verified_anew(states[r], calls[r], id, states[r + 1]),
        states.last().svn_floors[id.0 as int] == SvnFloorBinding::Erot(before),
        commit_svn_floor_step(states.last(), id, answer, post),
    ensures
        exists|svn: Svn, advanced: Result<(), <B::SvnFloor as SvnFloor>::Error>, after: B::SvnFloor|
            {
                &&& #[trigger] B::SvnFloor::advances(before, svn, advanced, after)
                &&& post.svn_floors[id.0 as int] == SvnFloorBinding::Erot(after)
                &&& answer is Ok <==> advanced is Ok
                &&& B::Verifier::judges(
                    states[verified].verifier,
                    id,
                    states[verified].images[id.0 as int],
                    Ok(Verdict::Authenticated { svn }),
                    states[verified + 1].images[id.0 as int],
                    states[verified + 1].verifier,
                )
            },
{
    let i = id.0 as int;
    let (pre, mid) = (states[verified], states[verified + 1]);
    assert(called(pre, calls[verified], mid));
    law_every_call_keeps_the_driver_valid(pre, calls[verified], mid);
    lemma_held_since(states, calls, id, verified + 1, states.len() - 1);
    let judged = choose|judged: Result<Verdict, <B::Verifier as Verifier<B::Image>>::Error>|
     #[trigger]
        B::Verifier::judges(pre.verifier, id, pre.images[i], judged, mid.images[i], mid.verifier)
            && (judged matches Ok(Verdict::Authenticated { svn }) && mid.verified_svn[i] == Some(
            svn,
        ));
    let svn = judged->Ok_0->svn;
    assert(states.last().verified_svn[i] == Some(svn));
    let after = post.svn_floors[i]->Erot_0;
    let advanced = choose|advanced: Result<(), <B::SvnFloor as SvnFloor>::Error>| #[trigger]
        B::SvnFloor::advances(before, svn, advanced, after) && (answer is Ok <==> advanced is Ok);
    assert(B::SvnFloor::advances(before, svn, advanced, after));
}

/// Without a new verdict on component `id`, what is held for it stays.
proof fn lemma_held_since<B: BoardCapabilities>(
    states: Seq<DriverState<B>>,
    calls: Seq<Call>,
    id: ComponentId,
    from: int,
    to: int,
)
    requires
        went_through(states, calls),
        0 <= from <= to < states.len(),
        states[from].valid(),
        id.0 < states[from].images.len(),
        forall|r: int| #![trigger calls[r]]
            from <= r < to ==> !verified_anew(states[r], calls[r], id, states[r + 1]),
    ensures
        states[to].valid(),
        states[to].images.len() == states[from].images.len(),
        states[to].verified_svn[id.0 as int] == states[from].verified_svn[id.0 as int],
    decreases to - from,
{
    if from < to {
        lemma_held_since(states, calls, id, from, to - 1);
        let call = calls[to - 1];
        assert(called(states[to - 1], call, states[to]));
        law_every_call_keeps_the_driver_valid(states[to - 1], call, states[to]);
        assert(!verified_anew(states[to - 1], call, id, states[to - 1 + 1]));
        law_a_held_svn_stays(states[to - 1], call, states[to], id);
    }
}

} // verus!
