//! Data model of one escrow instance: the write-once `Immutables` record,
//! its `Timelocks` thresholds, the escrowed asset, and the shared protocol
//! stage vocabulary.

use vstd::prelude::*;

verus! {

/// An unsigned 256-bit scalar, held as two 128-bit halves
/// (`hi * 2^128 + lo`). The escrow stores one as its rescue delay and never
/// computes with it.
#[derive(Clone, Copy, Debug, PartialEq, Eq, Structural)]
pub struct Uint256 {
    pub hi: u128,
    pub lo: u128,
}

/// One asset: a denomination and an exact amount.
#[derive(Clone, Debug)]
pub struct Coin {
    pub denom: String,
    pub amount: u128,
}

/// Two coins match when they name the same denomination and the same amount.
pub open spec fn coin_matches(a: Coin, b: Coin) -> bool {
    a.denom@ == b.denom@ && a.amount == b.amount
}

/// Four epoch-second thresholds, measured from a shared reference point,
/// that bound the protocol's stages. Only `withdrawal` and
/// `dest_cancellation` are enforced by this component.
#[derive(Clone, Copy, Debug, PartialEq, Eq, Structural)]
pub struct Timelocks {
    pub withdrawal: u64,
    pub public_withdrawal: u64,
    pub dest_cancellation: u64,
    pub src_cancellation: u64,
}

/// The full, write-once description of one escrow instance.
#[derive(Clone, Debug)]
pub struct Immutables {
    /// Opaque identifier correlating this escrow to its source-chain
    /// counterpart.
    pub order_hash: Vec<u8>,
    /// Commitment to the secret that authorizes release: the case-normalized
    /// digest of the secret's bytes.
    pub hashlock: Vec<u8>,
    /// Identity of the deposit originator.
    pub maker: String,
    /// Identity of the only party authorized to withdraw.
    pub taker: String,
    /// The escrowed asset.
    pub token: Coin,
    pub timelocks: Timelocks,
}

impl Immutables {
    /// The sender is the designated taker.
    pub open spec fn taker_authorized(self, sender: Seq<char>) -> bool {
        sender == self.taker@
    }

    /// The moment lies inside the authorized withdrawal window,
    /// inclusive on both ends.
    pub open spec fn in_withdraw_window(self, now: u64) -> bool {
        self.timelocks.withdrawal <= now <= self.timelocks.dest_cancellation
    }
}

/// Every protocol phase of the two-sided swap. Only `DstWithdrawal` and
/// `DstCancellation` have active semantics in this component; the rest are
/// vocabulary shared with the source-chain escrow.
#[derive(Clone, Copy, Debug, PartialEq, Eq, Structural)]
pub enum Stage {
    SrcWithdrawal,
    SrcPublicWithdrawal,
    SrcCancellation,
    SrcPublicCancellation,
    DstWithdrawal,
    DstPublicWithdrawal,
    DstCancellation,
}

} // verus!
