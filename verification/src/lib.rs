//! The economic core of a tokenized index fund, written as explicit state
//! machines.
//!
//! Each component owns its state, takes the calling account and the block
//! timestamp as arguments, receives the answers of its collaborators as plain
//! values, and records the events it raises in a log that its host drains.

pub mod account_map;
pub mod dex;
pub mod feed;
pub mod math;
pub mod oracle;
pub mod portfolio;
pub mod registry;
pub mod shared;
pub mod staking;
