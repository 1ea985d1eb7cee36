//! Availability monitoring: probe counters, availability tiers, the host
//! registry, the probe session state machine and the badge responses.

pub mod color;
pub mod uptime;
pub mod metric;
pub mod state;
pub mod probe;
pub mod badge;
pub mod route;
pub mod handler;
