//! The escrow state machine: invariant-checked initialization that binds the
//! write-once record to attached funds, and the guarded withdrawal that
//! releases custody only to the authorized taker, inside the time window,
//! against a valid preimage of the stored commitment.

use crate::error::ContractError;
use crate::hash::{ascii_lowercase_bytes, bytes_eq, hashlock_of, keccak256_str};
use crate::states::{coin_matches, Coin, Immutables, Uint256};
use vstd::prelude::*;

verus! {

/// One escrow instance's durable state: the rescue-delay scalar and the
/// write-once `Immutables` record, each empty until initialization.
pub struct EscrowDest {
    pub rescue_delay: Option<Uint256>,
    pub immutables: Option<Immutables>,
}

/// Everything an initialization carries: the rescue delay and the full
/// description of the escrow being created.
pub struct InstantiateMsgData {
    pub rescue_delay: Uint256,
    pub dst_immutables: Immutables,
}

/// A withdrawal request: the revealed secret.
#[derive(Clone, Debug)]
pub struct WithdrawMsg {
    pub secret: String,
}

/// The output of a successful withdrawal: the escrowed asset directed to a
/// recipient. Actual settlement is the ledger's concern.
#[derive(Clone, Debug)]
pub struct DisbursementInstruction {
    pub recipient: String,
    pub token: Coin,
}

/// Response shape reserved for a count query; carried for interface
/// compatibility, unused by the escrow's own operations.
#[derive(Clone, Copy, Debug, PartialEq, Eq, Structural)]
pub struct CountResponse {
    pub count: u64,
}

/// At least one of `funds` exactly matches `token` in denomination and
/// amount.
pub open spec fn fund_matched(funds: Seq<Coin>, token: Coin) -> bool {
    exists|i: int| 0 <= i < funds.len() && coin_matches(funds[i], token)
}

impl EscrowDest {
    /// A fresh, uninitialized escrow store.
    pub fn new() -> (r: EscrowDest)
        ensures
            r.rescue_delay is None,
            r.immutables is None,
    {
        EscrowDest { rescue_delay: None, immutables: None }
    }

    /// Store the rescue delay.
    pub fn save_rescue_delay(&mut self, value: Uint256)
        ensures
            final(self).rescue_delay == Some(value),
            final(self).immutables == old(self).immutables,
    {
        self.rescue_delay = Some(value);
    }

    /// Store the immutable record.
    pub fn save_immutables(&mut self, value: Immutables)
        ensures
            final(self).immutables == Some(value),
            final(self).rescue_delay == old(self).rescue_delay,
    {
        self.immutables = Some(value);
    }

    /// Read the rescue delay; fails before initialization.
    pub fn load_rescue_delay(&self) -> (r: Result<Uint256, ContractError>)
        ensures
            match self.rescue_delay {
                Some(v) => r == Ok::<Uint256, ContractError>(v),
                None => r == Err::<Uint256, ContractError>(ContractError::NotInitialized),
            },
    {
        match self.rescue_delay {
            Some(v) => Ok(v),
            None => Err(ContractError::NotInitialized),
        }
    }

    /// Read the immutable record; fails before initialization.
    pub fn load_immutables(&self) -> (r: Result<&Immutables, ContractError>)
        ensures
            match self.immutables {
                Some(imm) => r matches Ok(i) && *i == imm,
                None => r matches Err(e) && e == ContractError::NotInitialized,
            },
    {
        match &self.immutables {
            Some(imm) => Ok(imm),
            None => Err(ContractError::NotInitialized),
        }
    }

    /// Create the escrow: succeeds, and persists `rescue_delay` and the
    /// record verbatim, exactly when some attached fund equals the declared
    /// escrowed asset; otherwise rejects with `UnmatchedDenomOrAmount` and
    /// leaves no state behind.
    pub fn instantiate(&mut self, funds: &Vec<Coin>, data: InstantiateMsgData) -> (r: Result<
        (),
        ContractError,
    >)
        ensures
            r is Ok <==> fund_matched(funds@, data.dst_immutables.token),
            r is Ok ==> final(self).rescue_delay == Some(data.rescue_delay),
            r is Ok ==> final(self).immutables == Some(data.dst_immutables),
            r is Err ==> r == Err::<(), ContractError>(ContractError::UnmatchedDenomOrAmount)
                && *final(self) == *old(self),
    {
        let mut ok = false;
        let mut i: usize = 0;
        while i < funds.len()
            invariant
                i <= funds@.len(),
                ok <==> exists|j: int|
                    0 <= j < i && coin_matches(funds@[j], data.dst_immutables.token),
            decreases funds@.len() - i,
        {
            let asset = &funds[i];
            if asset.denom == data.dst_immutables.token.denom && asset.amount
                == data.dst_immutables.token.amount {
                ok = true;
                proof {
                    assert(coin_matches(funds@[i as int], data.dst_immutables.token));
                }
            }
            i += 1;
        }
        if !ok {
            return Err(ContractError::UnmatchedDenomOrAmount);
        }
        self.save_rescue_delay(data.rescue_delay);
        self.save_immutables(data.dst_immutables);
        Ok(())
    }

    /// Withdraw the escrowed asset. Guards run in a fixed order, and the
    /// first failing one names the error: the record must exist, the sender
    /// must be the taker, the current time must lie inside the
    /// `[withdrawal, dest_cancellation]` window (inclusive on both ends),
    /// and the lowercased Keccak-256 digest of the revealed secret must
    /// equal the stored hashlock. Success directs the escrowed asset to the
    /// taker and mutates nothing.
    pub fn withdraw(&self, sender: &String, current_time: u64, msg: &WithdrawMsg) -> (r: Result<
        DisbursementInstruction,
        ContractError,
    >)
        ensures
            r is Ok <==> (self.immutables matches Some(imm) && imm.taker_authorized(sender@)
                && imm.in_withdraw_window(current_time) && hashlock_of(msg.secret@)
                == imm.hashlock@),
            self.immutables is None ==> r == Err::<DisbursementInstruction, ContractError>(
                ContractError::NotInitialized,
            ),
            self.immutables matches Some(imm) ==> if !imm.taker_authorized(sender@) {
                r == Err::<DisbursementInstruction, ContractError>(ContractError::OnlyTaker)
            } else if current_time < imm.timelocks.withdrawal {
                r == Err::<DisbursementInstruction, ContractError>(
                    ContractError::DestWithdrawTimeLimit,
                )
            } else if current_time > imm.timelocks.dest_cancellation {
                r == Err::<DisbursementInstruction, ContractError>(
                    ContractError::DestCancelTimeLimit,
                )
            } else if hashlock_of(msg.secret@) != imm.hashlock@ {
                r == Err::<DisbursementInstruction, ContractError>(ContractError::InvalidSecret)
            } else {
                &&& r matches Ok(d)
                &&& d.recipient@ == imm.taker@
                &&& coin_matches(d.token, imm.token)
            },
    {
        let immutables = match &self.immutables {
            Some(imm) => imm,
            None => {
                return Err(ContractError::NotInitialized);
            },
        };

        if !(*sender == immutables.taker) {
            return Err(ContractError::OnlyTaker);
        }

        if immutables.timelocks.withdrawal > current_time {
            return Err(ContractError::DestWithdrawTimeLimit);
        }
        if immutables.timelocks.dest_cancellation < current_time {
            return Err(ContractError::DestCancelTimeLimit);
        }

        let computed_hash = keccak256_str(msg.secret.as_str());
        let lowered = ascii_lowercase_bytes(&computed_hash);

        if !bytes_eq(&lowered, &immutables.hashlock) {
            return Err(ContractError::InvalidSecret);
        }

        Ok(
            DisbursementInstruction {
                recipient: immutables.taker.clone(),
                token: Coin {
                    denom: immutables.token.denom.clone(),
                    amount: immutables.token.amount,
                },
            },
        )
    }
}

} // verus!
