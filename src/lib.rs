//! NTP client core: timestamp codec, round-trip samples and offset estimation.
//!
//! The network exchange, the local clock and the floating-point weighted mean
//! live with the caller; this crate holds the decisions they rely on.

pub mod config;
pub mod timestamp;
pub mod message;
pub mod sample;
pub mod estimate;
