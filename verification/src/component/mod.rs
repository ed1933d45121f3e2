//! The parts of the dashboard: each holds its own state, the events it takes
//! and the keys it binds.

pub mod debug;
pub mod pubsub;
pub mod reusable;
pub mod setup;
pub mod topics;
