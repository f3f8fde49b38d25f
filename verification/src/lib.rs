//! Supervision of one local backend service: endpoint normalisation, health
//! probing, port negotiation, launch planning, readiness waiting, graceful
//! termination and the supervisor's own state.
//!
//! The library decides; the program around it performs the socket, process
//! and clock operations and reports their outcomes back as plain values.

pub mod config;
pub mod text;
pub mod endpoint;
pub mod probe;
pub mod negotiation;
pub mod snapshot;
pub mod termination;
pub mod supervisor;
pub mod error;
pub mod readiness;
pub mod launcher;
pub mod startup;
