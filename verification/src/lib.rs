//! A time gate: a deterministic, time-driven router that rotates through an
//! ordered list of destinations, one per fixed-width interval, starting at a
//! configured calendar instant.

pub mod contract;
pub mod cycle_start;
pub mod decimal;
pub mod error;
pub mod msg;
pub mod rotation;
pub mod state;
