//! Supervision of a single station-mode Wi-Fi link.
//!
//! The crate models the connection supervisor as an explicit state machine
//! (phases, driver events, requested actions), keeps the observable link
//! state (MAC address, network name, current IPv4 address) in a record that
//! is only ever replaced whole, and renders the status responses served by
//! the reporting endpoint.

pub mod config;
pub mod link;
pub mod render;
pub mod supervisor;
