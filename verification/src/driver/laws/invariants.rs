//! What every call keeps.
use crate::driver::board::{Board, BoardCapabilities};
use crate::driver::calls::{called, history, Call};
use crate::driver::error::DriverError;
use crate::driver::state::DriverState;
use crate::driver::steps::{
    activate_update_step, assert_reset_step, authenticate_update_step, commit_svn_floor_step,
    discard_staged_step, effect_answer, effect_event, execute_step, recover_component_step,
    release_reset_step, request_update_step, stage_firmware_step, stage_update_step,
    submit_update_step, verify_firmware_step,
};
use crate::platform::{ComponentId, Effect, Event};
use vstd::prelude::*;

verus! {

/// Every call on a valid driver leaves a valid driver.
pub proof fn law_every_call_keeps_the_driver_valid<B: BoardCapabilities>(
    pre: DriverState<B>,
    call: Call,
    post: DriverState<B>,
)
    requires
        pre.valid(),
        called(pre, call, post),
    ensures
        post.valid(),
{
}

/// A driver is valid from the moment it takes over its board, whatever it is
/// called to do.
pub proof fn law_a_driver_stays_valid<B: BoardCapabilities, const N: usize>(
    board: Board<B, N>,
    states: Seq<DriverState<B>>,
    calls: Seq<Call>,
    k: int,
)
    requires
        history(board, states, calls),
        0 <= k < states.len(),
    ensures
        states[k].valid(),
    decreases k,
{
    if k > 0 {
        law_a_driver_stays_valid(board, states, calls, k - 1);
        assert(called(states[k - 1], calls[k - 1], states[k]));
        law_every_call_keeps_the_driver_valid(states[k - 1], calls[k - 1], states[k]);
    }
}

/// The board's wiring is fixed: no call changes how many components there
/// are, their kinds, the staging region, or the stall budget.
pub proof fn law_the_wiring_is_fixed<B: BoardCapabilities>(
    pre: DriverState<B>,
    call: Call,
    post: DriverState<B>,
)
    requires
        pre.valid(),
        called(pre, call, post),
    ensures
        post.count() == pre.count(),
        post.component_kinds == pre.component_kinds,
        post.update_staging == pre.update_staging,
        post.update_stall_budget_millis == pre.update_stall_budget_millis,
{
}

/// The executor of `effect`, called by itself, may take the driver from state
/// `pre` to state `post`. It answers `done`, or `told` if it reports an event.
pub open spec fn executed_alone<B: BoardCapabilities>(
    pre: DriverState<B>,
    effect: Effect,
    done: Result<(), DriverError>,
    told: Result<Event, DriverError>,
    post: DriverState<B>,
) -> bool {
    match effect {
        Effect::ReadFirmware(id) => stage_firmware_step(pre, id, done, post),
        Effect::VerifyFirmware(id) => verify_firmware_step(pre, id, told, post),
        Effect::ReleaseReset(id) => release_reset_step(pre, id, done, post),
        Effect::AssertReset(id) => assert_reset_step(pre, id, done, post),
        Effect::CommitSvnFloor(id) => commit_svn_floor_step(pre, id, done, post),
        Effect::RecoverComponent { id, attempt } => recover_component_step(pre, id, attempt, told, post),
        Effect::AuthenticateUpdate => authenticate_update_step(pre, done, post),
        Effect::StageUpdate => stage_update_step(pre, done, post),
        Effect::ActivateUpdate => activate_update_step(pre, done, post),
        Effect::DiscardStaged => discard_staged_step(pre, done, post),
        _ => false,
    }
}

/// An executor that is called by itself is a call as any other: what it may
/// do, its effect may do.
pub proof fn law_executors_do_what_their_effects_do<B: BoardCapabilities>(
    pre: DriverState<B>,
    effect: Effect,
    done: Result<(), DriverError>,
    told: Result<Event, DriverError>,
    post: DriverState<B>,
)
    requires
        executed_alone(pre, effect, done, told, post),
    ensures
        called(pre, Call::Execute(effect), post),
{
    match effect {
        Effect::VerifyFirmware(_) => {
            assert(execute_step(pre, effect, effect_event(told), post));
        },
        Effect::RecoverComponent { id: _, attempt: _ } => {
            assert(execute_step(pre, effect, effect_event(told), post));
        },
        _ => {
            assert(execute_step(pre, effect, effect_answer(done), post));
        },
    }
}

/// A request for an update is a submit.
pub proof fn law_a_request_is_a_submit<B: BoardCapabilities>(
    pre: DriverState<B>,
    target: ComponentId,
    len: u64,
    answer: Result<Event, DriverError>,
    post: DriverState<B>,
)
    requires
        request_update_step(pre, target, len, answer, post),
    ensures
        called(pre, Call::Submit(target, len), post),
{
    let recorded = choose|recorded: Result<(), DriverError>| #[trigger]
        submit_update_step(pre, target, len, recorded, post);
    let call = Call::Submit(target, len);
    if let Call::Submit(target, len) = call {
        assert(submit_update_step(pre, target, len, recorded, post));
    }
}

} // verus!
