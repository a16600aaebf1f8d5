//! The fixed constants of the monetary policy.

use vstd::prelude::*;

verus! {

/// Emission baseline seeded into every fresh emissions account.
pub const INITIAL_EMISSIONS: u64 = 3_000_000_000;

/// Numerator of the per-period decay factor 0.8705505633, held as the exact
/// rational DECAY_NUMERATOR / DECAY_DENOMINATOR.
pub const DECAY_NUMERATOR: u64 = 8_705_505_633;

/// Denominator of the per-period decay factor.
pub const DECAY_DENOMINATOR: u64 = 10_000_000_000;

/// Length of one emission period in seconds: 30 days.
pub const SECONDS_IN_A_MONTH: u64 = 30 * 24 * 60 * 60;

/// The host clock reads nanoseconds; interval checks compare whole seconds.
pub const NANOS_PER_SECOND: u64 = 1_000_000_000;

/// Key of the raffle pool.
pub const RAFFLE_POOL_ID: u32 = 1;

/// Key of the tapping pool.
pub const TAPPING_POOL_ID: u32 = 2;

/// Balance the raffle pool is seeded with at initialization.
pub const RAFFLE_INITIAL_AMOUNT: u128 = 5_000_000_000_000;

/// Balance the tapping pool is seeded with and reset to on every mint cycle.
pub const TAPPING_RESET_AMOUNT: u128 = 100_000_000_000_000;

/// Decimal scaling applied to the emission size to obtain the minted amount.
pub const MINT_SCALE: u128 = 100_000;

/// The authentication token: the minimal attached value that proves
/// deliberate, signed intent for a privileged call.
pub const ONE_YOCTO: u128 = 1;

} // verus!
