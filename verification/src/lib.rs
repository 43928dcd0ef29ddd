//! Zero-copy handoff of an execution log's data payload to a foreign runtime.
//!
//! [`log`] holds the record and its conversion, [`handoff`] the life of one
//! payload that the runtime reads in place, and [`laws`] what holds of every
//! such life.

pub mod handoff;
pub mod laws;
pub mod log;
