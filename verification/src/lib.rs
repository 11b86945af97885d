//! Resolution pipeline of a transit companion: from the device's public
//! address, through an offline geo record, to a place description and the
//! transit stops around it.
//!
//! The crate holds the decisions and the data; every network call, file read
//! and widget lives with the caller, which reports outcomes as plain values.

pub mod address;
pub mod geo_locator;
pub mod laws;
pub mod names;
pub mod orchestrator;
pub mod position;
pub mod stop_finder;
