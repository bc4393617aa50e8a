//! The platform side of a boot orchestrator.
//!
//! * [`capabilities`]: the seams a board implements (reset lines, boot
//!   watches, recovery sources, update targets, payload storage) and the
//!   small types that cross them.
//! * [`platform`]: the vocabulary shared with the orchestrator's state
//!   machine: component ids, events, effects.
//! * [`driver`]: the [`driver::PlatformDriver`], which carries out effects
//!   on a board and reports what happened as events.
//! * [`boot_orchestrator`]: the wire types and the start-up decisions of
//!   the boot orchestrator service.
use vstd::prelude::*;

pub mod boot_orchestrator;
pub mod capabilities;
pub mod driver;
pub mod platform;

verus! {

} // verus!
