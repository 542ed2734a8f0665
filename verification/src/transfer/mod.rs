//! The token transfer module that the relayed packets drive.

pub mod contract;
pub mod denom;
pub mod funds;
pub mod protocol;
pub mod types;
