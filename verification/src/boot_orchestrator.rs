//! The boot orchestrator service: its wire types, its request handling, and
//! what its runtime decides.
pub mod api;
pub mod runtime;
pub mod server;
