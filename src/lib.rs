//! An IBC contract that turns balance requests received over a channel into
//! interchain queries and sends the query results back over that channel.
//!
//! The host-facing decisions are verified state transitions on
//! [`state::ContractState`]; storage, JSON and host queries stay outside.

pub mod contract;
pub mod error;
pub mod ibc;
pub mod laws;
pub mod msg;
pub mod sdk;
pub mod state;
pub mod table;

pub use crate::error::ContractError;
