//! The per-owner decaying emission schedule: how large the next mint is and
//! when it may happen.

use vstd::prelude::*;
use crate::decay::{decay_spec, lemma_decay_le};
use crate::params::INITIAL_EMISSIONS;

verus! {

/// One owner's emission schedule. `current_month` counts elapsed periods;
/// zero means no period has elapsed yet. `current_emissions` is the amount
/// (before decimal scaling) that the next mint will credit; it is decayed in
/// place before every mint after the first.
#[derive(Clone, Copy, Debug, PartialEq, Eq, Structural)]
pub struct EmissionsAccount {
    pub initial_emissions: u64,
    pub current_month: u32,
    pub current_emissions: u64,
    pub last_mint_timestamp: u64,
}

/// The emission size after `n` elapsed periods: the baseline through the
/// first period, floor-decayed once per period beyond it.
pub open spec fn emissions_after(initial: nat, n: nat) -> nat
    decreases n,
{
    if n <= 1 {
        initial
    } else {
        decay_spec(emissions_after(initial, (n - 1) as nat))
    }
}

/// Law: the emission size never grows along the schedule, and never exceeds
/// the baseline.
pub proof fn lemma_emissions_after_le(initial: nat, n: nat)
    ensures
        emissions_after(initial, n) <= initial,
        n >= 1 ==> emissions_after(initial, n + 1) <= emissions_after(initial, n),
    decreases n,
{
    if n > 1 {
        lemma_emissions_after_le(initial, (n - 1) as nat);
        lemma_decay_le(emissions_after(initial, (n - 1) as nat));
    }
    if n >= 1 {
        lemma_decay_le(emissions_after(initial, n));
    }
}

/// Law: one mint step keeps the schedule invariant. A well-formed account
/// whose period counter is advanced by one, and whose emission size is
/// decayed once in place (except before the first mint), is well-formed
/// again — so after `n` successful mints from a fresh account the counter
/// reads `n` and the emission size is the baseline decayed `n - 1` times.
pub proof fn lemma_schedule_step(acc: EmissionsAccount, stepped: EmissionsAccount)
    requires
        acc.wf(),
        acc.current_month < u32::MAX,
        stepped.initial_emissions == acc.initial_emissions,
        stepped.current_month == acc.current_month + 1,
        stepped.current_emissions == if acc.current_month == 0 {
            acc.current_emissions as nat
        } else {
            decay_spec(acc.current_emissions as nat)
        },
    ensures
        stepped.wf(),
{
}

impl EmissionsAccount {
    /// The schedule invariant: the held emission size is exactly the
    /// baseline decayed once per period beyond the first.
    pub open spec fn wf(self) -> bool {
        self.current_emissions == emissions_after(
            self.initial_emissions as nat,
            self.current_month as nat,
        )
    }

    /// A freshly seeded account: full baseline, no elapsed period, the
    /// creation time as its last-mint timestamp.
    pub fn fresh(now_nanos: u64) -> (acc: EmissionsAccount)
        ensures
            acc == (EmissionsAccount {
                initial_emissions: INITIAL_EMISSIONS,
                current_month: 0,
                current_emissions: INITIAL_EMISSIONS,
                last_mint_timestamp: now_nanos,
            }),
            acc.wf(),
    {
        EmissionsAccount {
            initial_emissions: INITIAL_EMISSIONS,
            current_month: 0,
            current_emissions: INITIAL_EMISSIONS,
            last_mint_timestamp: now_nanos,
        }
    }
}

} // verus!
