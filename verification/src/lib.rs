//! A resource-mining economy with machine-checked rules.
//!
//! Accounts own mines that accrue a metal over time; a mine is harvested at
//! most once an hour and can be upgraded up to a fixed level. Beside the mines
//! stands a register of players with experience, levels and activity.
//!
//! The crate holds no clock and no notion of who is calling: each operation
//! takes the current time in seconds, and the operations that an owner alone
//! may perform take the identity of the caller.

pub mod address;
pub mod error;
pub mod metal;
pub mod mine;
pub mod mining;
pub mod player;
pub mod progression;
pub mod mining_laws;
pub mod progression_laws;
