//! What holds of the driver's operations, one by one and over several calls.
//!
//! Of one call, in terms of its inputs, its answer and the board's answers:
//!
//! * [`components`]: staging, verifying, committing, releasing, holding and
//!   recovering a component, and reporting.
//! * [`in_flight`]: submitting, authenticating, staging, pumping, activating
//!   and discarding an update.
//! * [`walks`]: polling the boot walks.
//! * [`effects`]: carrying out each effect.
//! * [`bookkeeping`]: new drivers and jobs, and how a job moves.
//!
//! Of several calls:
//!
//! * [`invariants`]: what every call keeps.
//! * [`update`]: the update's way from the request to the device.
//! * [`progress`]: how an update's progress counts.
//! * [`boot`]: staging, verifying, releasing and watching components.
//! * [`floor`]: the anti-rollback floors.
//! * [`reports`]: reports and effects that fail closed.
pub mod bookkeeping;
pub mod boot;
pub mod components;
pub mod effects;
pub mod floor;
pub mod in_flight;
pub mod invariants;
pub mod progress;
pub mod reports;
pub mod update;
pub mod walks;
