//! The platform driver: one executor per effect, over a board.
//!
//! * [`board`]: what a board supplies.
//! * [`error`]: why an executor refused.
//! * [`job`]: the update job and the rules that move it.
//! * [`walk`]: what a boot walk's verdict means to the state machine.
//! * [`state`]: the driver's state as contracts see it.
//! * [`steps`]: what each executor may do to that state.
//! * [`platform_driver`]: the executors.
//! * [`calls`]: calls on a driver, and histories of them.
//! * [`laws`]: what holds over several calls.
pub mod board;
pub mod calls;
pub mod error;
pub mod job;
pub mod laws;
pub mod platform_driver;
pub mod state;
pub mod steps;
pub mod walk;

pub use crate::driver::board::{Board, BoardCapabilities};
pub use crate::driver::error::DriverError;
pub use crate::driver::job::UpdatePoll;
pub use crate::driver::platform_driver::{request_update, PlatformDriver};
pub use crate::driver::walk::BootWalkPoll;
