//! Lifecycle controller for a single managed application instance on a
//! remote platform. One run executes exactly one of three workflows —
//! provision, rotate credentials, or tear down — by generating a fresh
//! authentication token where the workflow hands one off, building the
//! exact argument vector for the external platform client, and turning
//! the client's outcome into either an operator hand-off or an error
//! that carries the client's diagnostic text.

pub mod controller;
pub mod token;
