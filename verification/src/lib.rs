//! A permissioned property-listing registry.
//!
//! A single administrator designates trusted broker identities; only brokers
//! may create property offers, which are stored under sequentially assigned
//! integer identifiers and can be looked up by id. The whole persistent state
//! is modeled as an explicit [`state::Store`] value threaded through every
//! operation, so the access-control and ledger logic can be verified in
//! isolation from any particular storage engine or transport.

pub mod contract;
pub mod error;
pub mod msg;
pub mod state;
