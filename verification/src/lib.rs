//! A validating relay for telemetry envelopes: newline-delimited submissions
//! carrying a destination descriptor that is parsed, authorized against
//! allow-lists, and forwarded byte-exactly to its upstream collector.

pub mod config;
pub mod digits;
pub mod envelope;
pub mod gateway;
