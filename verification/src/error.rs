//! Error taxonomy of the escrow: every value is a terminal rejection of the
//! current operation; no error leaves partial state behind.

use vstd::prelude::*;

verus! {

/// Every way an escrow operation can fail.
#[derive(Clone, Copy, Debug, PartialEq, Eq, Structural)]
pub enum ContractError {
    /// Initialization funds do not match the declared escrowed asset.
    UnmatchedDenomOrAmount,
    /// Withdrawal attempted by an identity other than the designated taker.
    OnlyTaker,
    /// Withdrawal attempted before the authorized window opens.
    DestWithdrawTimeLimit,
    /// Withdrawal attempted after the authorized window has closed.
    DestCancelTimeLimit,
    /// The revealed secret's digest does not match the stored commitment.
    InvalidSecret,
    /// Escrow state was read before initialization completed.
    NotInitialized,
}

} // verus!
