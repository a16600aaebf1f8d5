//! The external-ledger work a successful call asks the host to perform.
//! The engine decides; the host executes the action and relies on call-level
//! atomicity: a failed call performs nothing.

use vstd::prelude::*;

verus! {

/// After a successful mint: credit `amount` to `owner`'s ledger balance and
/// emit the mint notification.
#[derive(Clone, Debug)]
pub struct MintAction {
    pub owner: String,
    pub amount: u128,
}

/// After a successful burn: withdraw `amount` from `owner`'s ledger balance
/// and emit the burn notification.
#[derive(Clone, Debug)]
pub struct BurnAction {
    pub owner: String,
    pub amount: u128,
}

/// After a successful claim: if `register_user` is set, register `user` with
/// the ledger through a storage deposit first; then transfer `amount` from
/// the contract's balance to `user`, with a memo naming `pool_id`.
#[derive(Clone, Debug)]
pub struct ClaimAction {
    pub register_user: bool,
    pub user: String,
    pub amount: u128,
    pub pool_id: u32,
}

} // verus!
