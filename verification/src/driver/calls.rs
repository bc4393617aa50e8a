//! Calls on a driver, and histories of them.
use crate::driver::board::{Board, BoardCapabilities, Report};
use crate::driver::error::DriverError;
use crate::driver::job::UpdatePoll;
use crate::driver::state::DriverState;
use crate::driver::steps::{
    execute_step, poll_boot_walks_step, pump_update_step, report_step, submit_update_step,
};
use crate::driver::walk::BootWalkPoll;
use crate::platform::{ComponentId, Effect, EffectError, Event};
use vstd::prelude::*;

verus! {

/// A call that may change a driver. An executor that is called by itself does
/// what its effect does.
pub enum Call {
    /// Carry out an effect.
    Execute(Effect),
    /// Record an update for a component, with a candidate of so many bytes.
    Submit(ComponentId, u64),
    /// Pump the update in flight at a time.
    Pump(u64),
    /// Poll the boot walks at a time.
    PollWalks(u64),
    /// Hand over a report.
    Tell(Report),
}

/// The call may take the driver from state `pre` to state `post`.
pub open spec fn called<B: BoardCapabilities>(
    pre: DriverState<B>,
    call: Call,
    post: DriverState<B>,
) -> bool {
    match call {
        Call::Execute(effect) => exists|answer: Result<Option<Event>, EffectError>| #[trigger]
            execute_step(pre, effect, answer, post),
        Call::Submit(target, len) => exists|answer: Result<(), DriverError>| #[trigger]
            submit_update_step(pre, target, len, answer, post),
        Call::Pump(now) => exists|poll: UpdatePoll| #[trigger]
            pump_update_step(pre, now, poll, post),
        Call::PollWalks(now) => exists|poll: BootWalkPoll| #[trigger]
            poll_boot_walks_step(pre, now, poll, post),
        Call::Tell(report) => report_step(pre, report, post),
    }
}

/// The driver went through `states`, from the first to the last, by `calls`.
pub open spec fn went_through<B: BoardCapabilities>(
    states: Seq<DriverState<B>>,
    calls: Seq<Call>,
) -> bool {
    &&& states.len() == calls.len() + 1
    &&& forall|k: int| #![trigger calls[k]]
        0 <= k < calls.len() ==> called(states[k], calls[k], states[k + 1])
}

/// The driver took over `board` and then went through `states` by `calls`.
pub open spec fn history<B: BoardCapabilities, const N: usize>(
    board: Board<B, N>,
    states: Seq<DriverState<B>>,
    calls: Seq<Call>,
) -> bool {
    &&& N <= 256
    &&& went_through(states, calls)
    &&& states[0] == DriverState::fresh(board)
}

} // verus!
