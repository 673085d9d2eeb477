//! Decision core of a placement-driver worker: the node-local agent that
//! reports telemetry to the cluster director and turns the director's
//! directives into Raft admin commands.

pub mod command;
pub mod laws;
pub mod meta;
pub mod metrics;
pub mod model;
pub mod pd;
pub mod runner;
pub mod store;
pub mod task;
