//! Reactive-state and persistence core for a tick-driven simulation:
//! observable cells with weak readers, durable per-field persistence,
//! transactional flushing, and a cooperative delayed-effect scheduler.
pub mod codec;
pub mod registry;
pub mod store;
pub mod field;
pub mod state;
pub mod effects;
pub mod runner;
