//! Humidity and temperature datalogger: the sampling and delivery logic.
//!
//! The sensor, the clock, the signal handler and the files are driven from
//! outside; this crate decides what to do with what they hand over.

pub mod text;
pub mod args;
pub mod error;
pub mod measure;
pub mod sampler;
pub mod sink;
