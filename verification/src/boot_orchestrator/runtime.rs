//! What the service's runtime decides: the trust chain it brings up, the
//! event it starts with, and how it answers each wake-up of its event loop.
use crate::platform::{ComponentAttrs, ComponentId, Effect, EffectError, Event, PowerOnResult};
use vstd::prelude::*;

verus! {

/// Trust-chain capacity: the most components that the orchestrator walks.
pub const CHAIN_CAP: usize = 3;

/// Effect-buffer capacity. The state machine needs room for two effects per
/// component, and two more.
pub const EFFECT_CAP: usize = 2 * CHAIN_CAP + 2;

/// How often the state machine retries a failed component.
pub const MAX_RETRY: u8 = 3;

/// A fixed-capacity vector, stored inline.
#[verifier::external_type_specification]
#[verifier::external_body]
#[verifier::reject_recursive_types(T)]
pub struct ExHeaplessVec<T, const N: usize>(heapless::Vec<T, N>);

/// The entries of a trust chain, from the first component walked to the
/// last.
pub uninterp spec fn chain_entries(
    chain: heapless::Vec<(ComponentId, ComponentAttrs), CHAIN_CAP>,
) -> Seq<(ComponentId, ComponentAttrs)>;

/// Calls `heapless::Vec::new`, which makes a vector that holds nothing.
#[verifier::external_body]
fn empty_chain() -> (chain: heapless::Vec<(ComponentId, ComponentAttrs), CHAIN_CAP>)
    ensures
        chain_entries(chain) == Seq::<(ComponentId, ComponentAttrs)>::empty(),
{
    heapless::Vec::new()
}

/// Calls `heapless::Vec::push`, which appends the entry while the vector
/// holds fewer entries than its capacity, and otherwise leaves the vector as
/// it is and hands the entry back.
#[verifier::external_body]
fn push_entry(
    chain: &mut heapless::Vec<(ComponentId, ComponentAttrs), CHAIN_CAP>,
    entry: (ComponentId, ComponentAttrs),
) -> (answer: Result<(), (ComponentId, ComponentAttrs)>)
    ensures
        chain_entries(*old(chain)).len() < CHAIN_CAP ==> {
            &&& answer is Ok
            &&& chain_entries(*final(chain)) == chain_entries(*old(chain)).push(entry)
        },
        chain_entries(*old(chain)).len() >= CHAIN_CAP ==> {
            &&& answer == Err::<(), (ComponentId, ComponentAttrs)>(entry)
            &&& chain_entries(*final(chain)) == chain_entries(*old(chain))
        },
{
    chain.push(entry)
}

/// The platform's trust chain: one active component that the platform
/// requires.
pub fn platform_chain() -> (chain: heapless::Vec<(ComponentId, ComponentAttrs), CHAIN_CAP>)
    ensures
        chain_entries(chain) == seq![
            (
                ComponentId(0),
                ComponentAttrs {
                    kind: crate::platform::ComponentKind::Active,
                    policy: crate::platform::FailurePolicy::Required,
                },
            ),
        ],
{
    let mut chain = empty_chain();
    let _ = push_entry(&mut chain, (ComponentId::new(0), ComponentAttrs::active_required()));
    chain
}

/// The event that brings up a provisioned platform.
pub fn power_on_event() -> (event: Event)
    ensures
        event == Event::PowerGood(PowerOnResult::Provisioned),
{
    Event::PowerGood(PowerOnResult::Provisioned)
}

/// A stand-in board, which accepts every effect and actuates nothing.
pub struct Board;

impl Board {
    /// Accepts `effect`.
    pub fn execute(&mut self, _effect: Effect) -> (answer: Result<(), EffectError>)
        ensures
            answer == Ok::<(), EffectError>(()),
            *final(self) == *old(self),
    {
        Ok(())
    }
}

/// A wake-up of the event loop's wait group.
#[derive(Debug, Clone, Copy, PartialEq, Eq, Structural)]
pub struct WakeUp {
    /// The wait ended because the object became readable.
    pub readable: bool,
    /// What the object was registered with: its channel handle, in the low 32
    /// bits.
    pub user_data: u64,
}

/// What the event loop does next.
#[derive(Debug, Clone, Copy, PartialEq, Eq, Structural)]
pub enum LoopStep {
    /// Wait again.
    Wait,
    /// Read one request from `channel`, drop it, and wait again.
    Drain { channel: u32 },
}

/// Answers the end of a wait, which failed if it brought no wake-up: only a
/// readable channel is read.
pub fn next_step(wake_up: Option<WakeUp>) -> (step: LoopStep)
    ensures
        step == (match wake_up {
            Some(w) if w.readable => LoopStep::Drain {
                channel: (w.user_data % 0x1_0000_0000) as u32,
            },
            _ => LoopStep::Wait,
        }),
{
    match wake_up {
        Some(w) => {
            if w.readable {
                LoopStep::Drain { channel: (w.user_data % 0x1_0000_0000) as u32 }
            } else {
                LoopStep::Wait
            }
        },
        None => LoopStep::Wait,
    }
}

/// A channel is drained exactly when the wait brought a readable object, and
/// it is the one in the low half of what the object was registered with. The
/// loop waits again otherwise.
pub proof fn law_only_a_readable_channel_is_drained(wake_up: Option<WakeUp>, step: LoopStep)
    requires
        call_ensures(next_step, (wake_up,), step),
    ensures
        step is Drain <==> (wake_up matches Some(w) && w.readable),
        step matches LoopStep::Drain { channel } ==> exists|high: u64|
            wake_up->0.user_data == #[trigger] (high * 0x1_0000_0000) + channel,
{
    if let LoopStep::Drain { channel } = step {
        let high = (wake_up->0.user_data / 0x1_0000_0000) as u64;
        assert(wake_up->0.user_data == (high * 0x1_0000_0000) + channel);
    }
}

/// The stand-in board accepts every effect.
pub proof fn law_the_stand_in_board_accepts_everything(
    board: &mut Board,
    effect: Effect,
    answer: Result<(), EffectError>,
)
    requires
        call_ensures(Board::execute, (board, effect), answer),
    ensures
        answer is Ok,
{
}

} // verus!
