//! The two reward pools: segregated spendable balances, depleted by claims
//! and replenished or reset by each mint cycle.

use vstd::prelude::*;
use crate::errors::TokenError;
use crate::params::{
    RAFFLE_INITIAL_AMOUNT, RAFFLE_POOL_ID, TAPPING_POOL_ID, TAPPING_RESET_AMOUNT,
};

verus! {

/// The raffle pool: its spendable balance is decayed once per mint cycle
/// after the first, and the cycle's balance is added to `total_amount`, a
/// monotone audit counter that is never spent.
#[derive(Clone, Copy, Debug, PartialEq, Eq, Structural)]
pub struct RafflePool {
    pub pool_id: u32,
    pub amount: u128,
    pub total_amount: u128,
}

/// The tapping pool: its spendable balance is reset to a fixed constant on
/// every mint cycle.
#[derive(Clone, Copy, Debug, PartialEq, Eq, Structural)]
pub struct TappingPool {
    pub pool_id: u32,
    pub amount: u128,
}

impl RafflePool {
    /// The pool carries its fixed key.
    pub open spec fn wf(self) -> bool {
        self.pool_id == RAFFLE_POOL_ID
    }

    /// The pool as seeded at initialization: the configured opening balance
    /// and a zero audit total.
    pub fn fresh() -> (p: RafflePool)
        ensures
            p == (RafflePool {
                pool_id: RAFFLE_POOL_ID,
                amount: RAFFLE_INITIAL_AMOUNT,
                total_amount: 0,
            }),
    {
        RafflePool { pool_id: RAFFLE_POOL_ID, amount: RAFFLE_INITIAL_AMOUNT, total_amount: 0 }
    }

    /// Debit a claim from the spendable balance. The audit total is
    /// untouched; a claim above the balance is refused and changes nothing.
    pub fn debit(&mut self, amount: u128) -> (r: Result<(), TokenError>)
        ensures
            final(self).pool_id == old(self).pool_id,
            final(self).total_amount == old(self).total_amount,
            match r {
                Ok(()) => amount <= old(self).amount && final(self).amount == old(self).amount
                    - amount,
                Err(e) => e == TokenError::InsufficientPoolBalance && amount > old(self).amount
                    && *final(self) == *old(self),
            },
    {
        if amount <= self.amount {
            self.amount = self.amount - amount;
            Ok(())
        } else {
            Err(TokenError::InsufficientPoolBalance)
        }
    }
}

impl TappingPool {
    /// The pool carries its fixed key.
    pub open spec fn wf(self) -> bool {
        self.pool_id == TAPPING_POOL_ID
    }

    /// The pool as seeded at initialization: the same constant every mint
    /// cycle resets it to.
    pub fn fresh() -> (p: TappingPool)
        ensures
            p == (TappingPool { pool_id: TAPPING_POOL_ID, amount: TAPPING_RESET_AMOUNT }),
    {
        TappingPool { pool_id: TAPPING_POOL_ID, amount: TAPPING_RESET_AMOUNT }
    }

    /// Debit a claim from the spendable balance; a claim above the balance
    /// is refused and changes nothing.
    pub fn debit(&mut self, amount: u128) -> (r: Result<(), TokenError>)
        ensures
            final(self).pool_id == old(self).pool_id,
            match r {
                Ok(()) => amount <= old(self).amount && final(self).amount == old(self).amount
                    - amount,
                Err(e) => e == TokenError::InsufficientPoolBalance && amount > old(self).amount
                    && *final(self) == *old(self),
            },
    {
        if amount <= self.amount {
            self.amount = self.amount - amount;
            Ok(())
        } else {
            Err(TokenError::InsufficientPoolBalance)
        }
    }
}

} // verus!
