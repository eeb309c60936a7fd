//! Service-side adapter for sensor readings: a bounded handoff queue
//! decouples call handling from the consumer that processes each reading,
//! and a single-use reply correlator matches the consumer's answer back to
//! the specific waiting call.

pub mod adapter;
pub mod correlator;
pub mod queue;
pub mod record;
pub mod wire;
