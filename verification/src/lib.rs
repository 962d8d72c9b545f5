//! Destination-chain half of a hash time-locked escrow: a deposit bound at
//! initialization to an immutable record is released to the designated taker
//! only on revealing the preimage of a stored commitment within the
//! authorized time window.

pub mod contract;
pub mod error;
pub mod hash;
pub mod states;
