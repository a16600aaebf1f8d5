//! Why a call was refused. Every precondition violation aborts the whole
//! call: the caller observes one of these reasons and no state change.

use vstd::prelude::*;

verus! {

/// The failure taxonomy of the engine.
#[derive(Clone, Copy, Debug, PartialEq, Eq, Structural)]
pub enum TokenError {
    /// Caller is not the identity the operation demands (current owner or
    /// proposed owner), or the authentication token was not attached.
    Unauthorized,
    /// No emissions account exists for the current owner.
    NotInitialized,
    /// Less than one full period has elapsed since the last mint.
    IntervalNotElapsed,
    /// A zero claim or burn amount, an unknown pool id, or a proposed owner
    /// equal to the current owner.
    InvalidArgument,
    /// The targeted pool holds less than the claimed amount.
    InsufficientPoolBalance,
    /// The caller's ledger balance is less than the burn amount.
    InsufficientBalance,
    /// The attached value is below the ledger's minimum storage deposit
    /// needed to register the recipient.
    InsufficientDeposit,
    /// A checked addition on a pool total or the period counter would wrap.
    ArithmeticOverflow,
    /// No ownership transfer is pending.
    NoPendingTransfer,
}

} // verus!
