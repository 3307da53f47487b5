//! Core engine of an API-testing tool: it takes a user-supplied HTTP request
//! description, turns it into an outbound call, and normalizes every possible
//! outcome (success, HTTP error status, network failure, timeout, malformed
//! method, unreadable response) into one uniform result shape with timing and
//! size metrics.

pub mod method;
pub mod text;
pub mod json;
pub mod descriptor;
pub mod outcome;
pub mod transport;
pub mod result;
pub mod engine;
pub mod state;
pub mod config;
pub mod dto;
