//! The seams between the platform driver and a board.
//!
//! Each trait carries spec functions that relate the state of an
//! implementor before a call, the answer it gave, and its state after.
//! An implementor chooses those relations, and may leave them as loose as
//! its hardware is unpredictable: no trait promises that a call succeeds.
//! What the driver proves is said over the relations: which calls it makes,
//! on what, with what arguments, and what it does with every answer.
pub mod boot;
pub mod incremental_verifier;
pub mod payload_source;
pub mod payload_window;
pub mod progress;
pub mod recovery;
pub mod svn_floor;
pub mod trial_boot;
pub mod updatable;
pub mod verify_session;
