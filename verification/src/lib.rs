//! Request validation, access decisions, list framing and record presentation of the
//! Sylvia-IoT broker HTTP API, with their contracts.

pub mod corelib;
pub mod models;
pub mod routes;
