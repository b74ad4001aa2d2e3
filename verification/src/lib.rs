//! Verified core of a five-stage rail-ticket booking workflow: the wire-string
//! codec for suffix-tagged ticket counts and positional identity keys, the
//! extraction of structured results from returned HTML documents, and the
//! session state machine that drives a booking from first page load to the
//! final confirmation summary.

pub mod codec;
pub mod forms;
pub mod models;
pub mod parser;
pub mod presets;
pub mod query;
pub mod workflow;
