//! Supervision of one auxiliary worker process: parsing the readiness line it
//! prints at startup, holding the discovered port in a write-once shared cell,
//! and driving the lifecycle state machine from spawn to forced termination.

pub mod commands;
pub mod parser;
pub mod readiness;
pub mod supervisor;
