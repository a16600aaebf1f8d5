//! The contract core: the ownership register, the per-owner emission
//! schedules, the two reward pools, and the privileged entry points that
//! change them.
//!
//! Every entry point receives the host-supplied facts it needs (caller
//! identity, attached value, clock reading, ledger facts) as plain values,
//! and either commits its whole state change and returns the ledger action
//! the host must perform, or refuses with an error and changes nothing.

use vstd::prelude::*;
use vstd::arithmetic::div_mod::lemma_div_is_ordered;
use vstd::arithmetic::mul::lemma_mul_inequality;
use crate::actions::{BurnAction, ClaimAction, MintAction};
use crate::decay::{decay_spec, decay_u128, decay_u64};
use crate::errors::TokenError;
use crate::params::{
    INITIAL_EMISSIONS, MINT_SCALE, NANOS_PER_SECOND, ONE_YOCTO, RAFFLE_INITIAL_AMOUNT,
    RAFFLE_POOL_ID, SECONDS_IN_A_MONTH, TAPPING_POOL_ID, TAPPING_RESET_AMOUNT,
};
use crate::pools::{RafflePool, TappingPool};
use crate::schedule::EmissionsAccount;

verus! {

/// One owner's emissions account, keyed by that owner's identity. Records
/// are created for an owner at initialization or when that owner first
/// accepts a transfer, and persist for the lifetime of the contract.
#[derive(Clone, Debug)]
pub struct EmissionsRecord {
    pub owner: String,
    pub account: EmissionsAccount,
}

/// Whether some record in `s` belongs to `owner`.
pub open spec fn has_account(s: Seq<EmissionsRecord>, owner: Seq<char>) -> bool {
    exists|i: int| 0 <= i < s.len() && s[i].owner@ == owner
}

/// The index of `owner`'s record in `s`.
pub open spec fn account_index(s: Seq<EmissionsRecord>, owner: Seq<char>) -> int {
    choose|i: int| 0 <= i < s.len() && s[i].owner@ == owner
}

/// `owner`'s account in `s`.
pub open spec fn account_of(s: Seq<EmissionsRecord>, owner: Seq<char>) -> EmissionsAccount {
    s[account_index(s, owner)].account
}

/// No two records share an owner.
pub open spec fn unique_owners(s: Seq<EmissionsRecord>) -> bool {
    forall|i: int, j: int| 0 <= i < j < s.len() ==> s[i].owner@ != s[j].owner@
}

/// With unique owners, any index holding `owner`'s record is the index the
/// specification picks.
pub proof fn lemma_account_index(s: Seq<EmissionsRecord>, owner: Seq<char>, i: int)
    requires
        unique_owners(s),
        0 <= i < s.len(),
        s[i].owner@ == owner,
    ensures
        has_account(s, owner),
        account_index(s, owner) == i,
{
    assert(has_account(s, owner));
    let j = account_index(s, owner);
    assert(0 <= j < s.len() && s[j].owner@ == owner);
    if i < j {
        assert(s[i].owner@ != s[j].owner@);
    } else if j < i {
        assert(s[j].owner@ != s[i].owner@);
    }
}

/// Whether the attached value can pay the recipient's registration: either
/// the recipient is already registered, or it covers the ledger's minimum
/// storage deposit.
pub open spec fn deposit_covers(
    user_registered: bool,
    attached_yocto: u128,
    min_storage_deposit: u128,
) -> bool {
    user_registered || attached_yocto >= min_storage_deposit
}

/// The persisted contract state the engine governs.
pub struct Contract {
    pub owner_id: String,
    pub proposed_owner: Option<String>,
    pub emissions_accounts: Vec<EmissionsRecord>,
    pub loot_raffle_pool: RafflePool,
    pub global_tapping_pool: TappingPool,
}

impl Contract {
    /// Well-formedness: the pools carry their fixed keys, a pending
    /// proposal never names the current owner, record owners are unique,
    /// the current owner always has a record, and every recorded schedule
    /// satisfies its own invariant.
    pub open spec fn wf(self) -> bool {
        &&& self.loot_raffle_pool.wf()
        &&& self.global_tapping_pool.wf()
        &&& (match self.proposed_owner {
            Some(p) => p@ != self.owner_id@,
            None => true,
        })
        &&& unique_owners(self.emissions_accounts@)
        &&& has_account(self.emissions_accounts@, self.owner_id@)
        &&& (forall|i: int|
            0 <= i < self.emissions_accounts@.len() ==> (
            #[trigger] self.emissions_accounts@[i]).account.wf())
    }

    /// The current owner's emissions account.
    pub open spec fn owner_account(self) -> EmissionsAccount {
        account_of(self.emissions_accounts@, self.owner_id@)
    }

    /// The authentication gate of `mint`: the exact one-yocto token is
    /// attached and the caller is the current owner.
    pub open spec fn mint_authorized(self, caller: Seq<char>, attached_yocto: u128) -> bool {
        attached_yocto == ONE_YOCTO && caller == self.owner_id@
    }

    /// The interval gate of `mint`: before the first mint there is none;
    /// afterwards one full period must have elapsed, measured in whole
    /// seconds of the nanosecond clock.
    pub open spec fn mint_interval_ok(self, now_nanos: u64) -> bool {
        let acc = self.owner_account();
        acc.current_month == 0 || now_nanos as int / NANOS_PER_SECOND as int
            - acc.last_mint_timestamp as int / NANOS_PER_SECOND as int >= SECONDS_IN_A_MONTH
    }

    /// The emission size a mint occurring now would credit, before decimal
    /// scaling: decayed once in place, except for the first mint.
    pub open spec fn minted_emissions(self) -> nat {
        let acc = self.owner_account();
        if acc.current_month == 0 {
            acc.current_emissions as nat
        } else {
            decay_spec(acc.current_emissions as nat)
        }
    }

    /// The raffle balance after the mint's replenish step: decayed once,
    /// except on the first cycle, which keeps the configured amount.
    pub open spec fn minted_raffle_amount(self) -> nat {
        if self.owner_account().current_month == 0 {
            self.loot_raffle_pool.amount as nat
        } else {
            decay_spec(self.loot_raffle_pool.amount as nat)
        }
    }

    /// Whether the mint's two checked additions stay in range: the raffle
    /// audit total and the period counter.
    pub open spec fn mint_no_overflow(self) -> bool {
        &&& self.loot_raffle_pool.total_amount + self.minted_raffle_amount() <= u128::MAX
        &&& self.owner_account().current_month < u32::MAX
    }

    /// The authentication gate of `claim_rewards`: the caller is the
    /// current owner and the authentication token is attached.
    pub open spec fn claim_authorized(self, caller: Seq<char>, attached_yocto: u128) -> bool {
        caller == self.owner_id@ && attached_yocto >= ONE_YOCTO
    }

    /// Index of `owner`'s record, if one exists.
    fn find_account(&self, owner: &String) -> (r: Option<usize>)
        ensures
            match r {
                Some(i) => i < self.emissions_accounts@.len() && self.emissions_accounts@[
                    i as int
                ].owner@ == owner@,
                None => !has_account(self.emissions_accounts@, owner@),
            },
    {
        let n = self.emissions_accounts.len();
        let mut k: usize = 0;
        while k < n
            invariant
                n == self.emissions_accounts@.len(),
                k <= n,
                forall|j: int|
                    0 <= j < k ==> (#[trigger] self.emissions_accounts@[j]).owner@ != owner@,
            decreases n - k,
        {
            if self.emissions_accounts[k].owner == *owner {
                return Some(k);
            }
            k += 1;
        }
        None
    }

    /// The emissions account recorded for `owner`, if any.
    pub fn emissions_account_of(&self, owner: &String) -> (r: Option<EmissionsAccount>)
        requires
            self.wf(),
        ensures
            match r {
                Some(acc) => has_account(self.emissions_accounts@, owner@) && acc == account_of(
                    self.emissions_accounts@,
                    owner@,
                ),
                None => !has_account(self.emissions_accounts@, owner@),
            },
    {
        match self.find_account(owner) {
            Some(i) => {
                proof {
                    lemma_account_index(self.emissions_accounts@, owner@, i as int);
                }
                Some(self.emissions_accounts[i].account)
            },
            None => None,
        }
    }

    /// Initialize the contract for `caller` as first owner: a fresh
    /// emissions account, the two pools at their configured amounts, no
    /// pending proposal. The returned action credits the whole initial
    /// supply to the owner's ledger balance.
    pub fn new_default_meta(caller: String, total_supply: u128, now_nanos: u64) -> (r: (
        Contract,
        MintAction,
    ))
        ensures
            r.0.wf(),
            r.0.owner_id@ == caller@,
            r.0.proposed_owner is None,
            r.0.emissions_accounts@.len() == 1,
            r.0.emissions_accounts@[0].owner@ == caller@,
            r.0.owner_account() == (EmissionsAccount {
                initial_emissions: INITIAL_EMISSIONS,
                current_month: 0,
                current_emissions: INITIAL_EMISSIONS,
                last_mint_timestamp: now_nanos,
            }),
            r.0.loot_raffle_pool == (RafflePool {
                pool_id: RAFFLE_POOL_ID,
                amount: RAFFLE_INITIAL_AMOUNT,
                total_amount: 0,
            }),
            r.0.global_tapping_pool == (TappingPool {
                pool_id: TAPPING_POOL_ID,
                amount: TAPPING_RESET_AMOUNT,
            }),
            r.1.owner@ == caller@,
            r.1.amount == total_supply,
    {
        let account = EmissionsAccount::fresh(now_nanos);
        let mut records: Vec<EmissionsRecord> = Vec::new();
        records.push(EmissionsRecord { owner: caller.clone(), account });
        let contract = Contract {
            owner_id: caller.clone(),
            proposed_owner: None,
            emissions_accounts: records,
            loot_raffle_pool: RafflePool::fresh(),
            global_tapping_pool: TappingPool::fresh(),
        };
        proof {
            lemma_account_index(contract.emissions_accounts@, contract.owner_id@, 0);
        }
        (contract, MintAction { owner: caller, amount: total_supply })
    }

    /// Read the current and proposed owner.
    pub fn get_owners(&self) -> (r: (String, Option<String>))
        ensures
            r.0 == self.owner_id,
            r.1 == self.proposed_owner,
    {
        let proposed = match &self.proposed_owner {
            Some(p) => Some(p.clone()),
            None => None,
        };
        (self.owner_id.clone(), proposed)
    }

    /// Propose `new_owner` as the next owner. Only the current owner, with
    /// the authentication token attached, may propose, and never itself; a
    /// new proposal overwrites any pending one.
    pub fn initiate_ownership_transfer(
        &mut self,
        caller: &String,
        attached_yocto: u128,
        new_owner: String,
    ) -> (r: Result<(), TokenError>)
        requires
            old(self).wf(),
        ensures
            final(self).wf(),
            final(self).owner_id == old(self).owner_id,
            final(self).emissions_accounts == old(self).emissions_accounts,
            final(self).loot_raffle_pool == old(self).loot_raffle_pool,
            final(self).global_tapping_pool == old(self).global_tapping_pool,
            match r {
                Ok(()) => attached_yocto == ONE_YOCTO && caller@ == old(self).owner_id@
                    && new_owner@ != old(self).owner_id@ && (match final(self).proposed_owner {
                    Some(p) => p == new_owner,
                    None => false,
                }),
                Err(e) => *final(self) == *old(self) && (match e {
                    TokenError::Unauthorized => attached_yocto != ONE_YOCTO || caller@ != old(
                        self,
                    ).owner_id@,
                    TokenError::InvalidArgument => attached_yocto == ONE_YOCTO && caller@ == old(
                        self,
                    ).owner_id@ && new_owner@ == old(self).owner_id@,
                    _ => false,
                }),
            },
    {
        if attached_yocto != ONE_YOCTO {
            return Err(TokenError::Unauthorized);
        }
        if !(*caller == self.owner_id) {
            return Err(TokenError::Unauthorized);
        }
        if new_owner == self.owner_id {
            return Err(TokenError::InvalidArgument);
        }
        self.proposed_owner = Some(new_owner);
        Ok(())
    }

    /// Finalize a pending transfer. Only the proposed owner, with the
    /// authentication token attached, may accept; acceptance installs it as
    /// owner, clears the proposal, and seeds a fresh emissions account if
    /// the new owner has none yet.
    pub fn accept_ownership(&mut self, caller: &String, attached_yocto: u128, now_nanos: u64) -> (r:
        Result<(), TokenError>)
        requires
            old(self).wf(),
        ensures
            final(self).wf(),
            final(self).loot_raffle_pool == old(self).loot_raffle_pool,
            final(self).global_tapping_pool == old(self).global_tapping_pool,
            match r {
                Ok(()) => attached_yocto == ONE_YOCTO && (match old(self).proposed_owner {
                    Some(p) => {
                        &&& caller@ == p@
                        &&& final(self).owner_id == p
                        &&& final(self).proposed_owner is None
                        &&& has_account(final(self).emissions_accounts@, p@)
                        &&& if has_account(old(self).emissions_accounts@, p@) {
                            final(self).emissions_accounts == old(self).emissions_accounts
                        } else {
                            final(self).emissions_accounts@ == old(self).emissions_accounts@.push(
                                (EmissionsRecord {
                                    owner: p,
                                    account: EmissionsAccount {
                                        initial_emissions: INITIAL_EMISSIONS,
                                        current_month: 0,
                                        current_emissions: INITIAL_EMISSIONS,
                                        last_mint_timestamp: now_nanos,
                                    },
                                }),
                            )
                        }
                    },
                    None => false,
                }),
                Err(e) => *final(self) == *old(self) && (match e {
                    TokenError::Unauthorized => attached_yocto != ONE_YOCTO || (match old(
                        self,
                    ).proposed_owner {
                        Some(p) => caller@ != p@,
                        None => false,
                    }),
                    TokenError::NoPendingTransfer => attached_yocto == ONE_YOCTO && old(
                        self,
                    ).proposed_owner is None,
                    _ => false,
                }),
            },
    {
        if attached_yocto != ONE_YOCTO {
            return Err(TokenError::Unauthorized);
        }
        let proposed = match &self.proposed_owner {
            Some(p) => p.clone(),
            None => {
                return Err(TokenError::NoPendingTransfer);
            },
        };
        if !(*caller == proposed) {
            return Err(TokenError::Unauthorized);
        }
        self.owner_id = proposed;
        self.proposed_owner = None;
        if self.find_account(&self.owner_id).is_none() {
            let account = EmissionsAccount::fresh(now_nanos);
            let owner_copy = self.owner_id.clone();
            self.emissions_accounts.push(EmissionsRecord { owner: owner_copy, account });
            proof {
                lemma_account_index(
                    self.emissions_accounts@,
                    self.owner_id@,
                    self.emissions_accounts@.len() - 1,
                );
            }
        }
        Ok(())
    }

    /// Withdraw `amount` from the caller's own ledger balance. A
    /// self-service pass-through: no owner check, no pool interaction; it
    /// validates the amount against the caller's balance and hands back the
    /// withdrawal the host must perform.
    pub fn burn(&self, caller: &String, caller_balance: u128, amount: u128) -> (r: Result<
        BurnAction,
        TokenError,
    >)
        ensures
            match r {
                Ok(a) => amount > 0 && caller_balance >= amount && a.owner@ == caller@ && a.amount
                    == amount,
                Err(e) => match e {
                    TokenError::InvalidArgument => amount == 0,
                    TokenError::InsufficientBalance => amount > 0 && caller_balance < amount,
                    _ => false,
                },
            },
    {
        if amount == 0 {
            return Err(TokenError::InvalidArgument);
        }
        if caller_balance < amount {
            return Err(TokenError::InsufficientBalance);
        }
        Ok(BurnAction { owner: caller.clone(), amount })
    }

    /// Advance the emission schedule one period and mint the cycle's
    /// emission: decay the emission size in place (except for the first
    /// mint), reset the tapping pool to its constant, decay the raffle pool
    /// (except on the first cycle) and add the cycle's raffle balance to
    /// the audit total. The whole step succeeds atomically or refuses and
    /// changes nothing. The returned action credits the scaled emission to
    /// the owner's ledger balance.
    ///
    /// The host clock is monotonic: the reading handed in is never earlier
    /// than the one stored by the last successful mint.
    pub fn mint(&mut self, caller: &String, attached_yocto: u128, now_nanos: u64) -> (r: Result<
        MintAction,
        TokenError,
    >)
        requires
            old(self).wf(),
            now_nanos >= old(self).owner_account().last_mint_timestamp,
        ensures
            final(self).wf(),
            final(self).owner_id == old(self).owner_id,
            final(self).proposed_owner == old(self).proposed_owner,
            final(self).loot_raffle_pool.total_amount >= old(self).loot_raffle_pool.total_amount,
            match r {
                Ok(action) => {
                    &&& old(self).mint_authorized(caller@, attached_yocto)
                    &&& old(self).mint_interval_ok(now_nanos)
                    &&& old(self).mint_no_overflow()
                    &&& final(self).owner_account() == (EmissionsAccount {
                        initial_emissions: old(self).owner_account().initial_emissions,
                        current_month: (old(self).owner_account().current_month + 1) as u32,
                        current_emissions: old(self).minted_emissions() as u64,
                        last_mint_timestamp: now_nanos,
                    })
                    &&& final(self).emissions_accounts@.len() == old(
                        self,
                    ).emissions_accounts@.len()
                    &&& (forall|i: int|
                        0 <= i < old(self).emissions_accounts@.len()
                            && (#[trigger] old(self).emissions_accounts@[i]).owner@
                            != old(self).owner_id@
                            ==> final(self).emissions_accounts@[i]
                            == old(self).emissions_accounts@[i])
                    &&& final(self).global_tapping_pool.amount == TAPPING_RESET_AMOUNT
                    &&& final(self).loot_raffle_pool.amount == old(self).minted_raffle_amount()
                    &&& final(self).loot_raffle_pool.total_amount == old(
                        self,
                    ).loot_raffle_pool.total_amount + old(self).minted_raffle_amount()
                    &&& action.owner@ == old(self).owner_id@
                    &&& action.amount == old(self).minted_emissions() * MINT_SCALE
                },
                Err(e) => *final(self) == *old(self) && (match e {
                    TokenError::Unauthorized => !old(self).mint_authorized(
                        caller@,
                        attached_yocto,
                    ),
                    TokenError::IntervalNotElapsed => old(self).mint_authorized(
                        caller@,
                        attached_yocto,
                    ) && !old(self).mint_interval_ok(now_nanos),
                    TokenError::ArithmeticOverflow => old(self).mint_authorized(
                        caller@,
                        attached_yocto,
                    ) && old(self).mint_interval_ok(now_nanos) && !old(self).mint_no_overflow(),
                    _ => false,
                }),
            },
    {
        if attached_yocto != ONE_YOCTO {
            return Err(TokenError::Unauthorized);
        }
        if !(*caller == self.owner_id) {
            return Err(TokenError::Unauthorized);
        }
        let idx = match self.find_account(&self.owner_id) {
            Some(i) => i,
            None => {
                return Err(TokenError::NotInitialized);
            },
        };
        proof {
            lemma_account_index(self.emissions_accounts@, self.owner_id@, idx as int);
        }
        let acc = self.emissions_accounts[idx].account;

        // The interval gate compares whole seconds of the nanosecond clock.
        let current_timestamp: u64 = now_nanos / NANOS_PER_SECOND;
        if acc.current_month > 0 {
            let last_mint_timestamp: u64 = acc.last_mint_timestamp / NANOS_PER_SECOND;
            proof {
                lemma_div_is_ordered(
                    acc.last_mint_timestamp as int,
                    now_nanos as int,
                    NANOS_PER_SECOND as int,
                );
            }
            if current_timestamp - last_mint_timestamp < SECONDS_IN_A_MONTH {
                return Err(TokenError::IntervalNotElapsed);
            }
        }
        // Decay the emission size in place before every mint but the first.
        let new_emissions: u64 = if acc.current_month > 0 {
            decay_u64(acc.current_emissions)
        } else {
            acc.current_emissions
        };
        proof {
            lemma_mul_inequality(new_emissions as int, u64::MAX as int, MINT_SCALE as int);
        }
        let mint_amount: u128 = (new_emissions as u128) * MINT_SCALE;

        // The raffle pool decays with the same factor from the second cycle on.
        let new_raffle_amount: u128 = if acc.current_month > 0 {
            decay_u128(self.loot_raffle_pool.amount)
        } else {
            self.loot_raffle_pool.amount
        };
        // Both checked additions are decided before any state is touched,
        // so a refused mint changes nothing.
        if self.loot_raffle_pool.total_amount > u128::MAX - new_raffle_amount {
            return Err(TokenError::ArithmeticOverflow);
        }
        if acc.current_month == u32::MAX {
            return Err(TokenError::ArithmeticOverflow);
        }

        self.global_tapping_pool.amount = TAPPING_RESET_AMOUNT;
        self.loot_raffle_pool.amount = new_raffle_amount;
        self.loot_raffle_pool.total_amount = self.loot_raffle_pool.total_amount
            + new_raffle_amount;
        let new_account = EmissionsAccount {
            initial_emissions: acc.initial_emissions,
            current_month: acc.current_month + 1,
            current_emissions: new_emissions,
            last_mint_timestamp: now_nanos,
        };
        self.emissions_accounts[idx].account = new_account;
        proof {
            assert(unique_owners(self.emissions_accounts@));
            lemma_account_index(self.emissions_accounts@, self.owner_id@, idx as int);
        }
        Ok(MintAction { owner: self.owner_id.clone(), amount: mint_amount })
    }

    /// Disburse `amount` from the selected pool to `user_account`:
    /// owner-initiated, token-gated, and atomic. The recipient's
    /// registration is settled first — an unregistered recipient needs the
    /// attached value to cover the ledger's minimum storage deposit — then
    /// exactly one pool is debited and the returned action carries the
    /// transfer (and the registration, if one is owed) for the host to
    /// perform.
    pub fn claim_rewards(
        &mut self,
        caller: &String,
        attached_yocto: u128,
        user_registered: bool,
        min_storage_deposit: u128,
        amount: u128,
        pool_id: u32,
        user_account: &String,
    ) -> (r: Result<ClaimAction, TokenError>)
        requires
            old(self).wf(),
        ensures
            final(self).wf(),
            final(self).owner_id == old(self).owner_id,
            final(self).proposed_owner == old(self).proposed_owner,
            final(self).emissions_accounts == old(self).emissions_accounts,
            final(self).loot_raffle_pool.total_amount == old(self).loot_raffle_pool.total_amount,
            match r {
                Ok(action) => {
                    &&& old(self).claim_authorized(caller@, attached_yocto)
                    &&& amount > 0
                    &&& deposit_covers(user_registered, attached_yocto, min_storage_deposit)
                    &&& (pool_id == RAFFLE_POOL_ID || pool_id == TAPPING_POOL_ID)
                    &&& (pool_id == RAFFLE_POOL_ID ==> amount <= old(self).loot_raffle_pool.amount
                        && final(self).loot_raffle_pool.amount == old(self).loot_raffle_pool.amount
                        - amount && final(self).global_tapping_pool == old(
                        self,
                    ).global_tapping_pool)
                    &&& (pool_id == TAPPING_POOL_ID ==> amount <= old(
                        self,
                    ).global_tapping_pool.amount && final(self).global_tapping_pool.amount == old(
                        self,
                    ).global_tapping_pool.amount - amount && final(self).loot_raffle_pool == old(
                        self,
                    ).loot_raffle_pool)
                    &&& action.register_user == !user_registered
                    &&& action.user@ == user_account@
                    &&& action.amount == amount
                    &&& action.pool_id == pool_id
                },
                Err(e) => *final(self) == *old(self) && (match e {
                    TokenError::Unauthorized => !old(self).claim_authorized(
                        caller@,
                        attached_yocto,
                    ),
                    TokenError::InvalidArgument => old(self).claim_authorized(
                        caller@,
                        attached_yocto,
                    ) && (amount == 0 || (deposit_covers(
                        user_registered,
                        attached_yocto,
                        min_storage_deposit,
                    ) && pool_id != RAFFLE_POOL_ID && pool_id != TAPPING_POOL_ID)),
                    TokenError::InsufficientDeposit => old(self).claim_authorized(
                        caller@,
                        attached_yocto,
                    ) && amount > 0 && !deposit_covers(
                        user_registered,
                        attached_yocto,
                        min_storage_deposit,
                    ),
                    TokenError::InsufficientPoolBalance => old(self).claim_authorized(
                        caller@,
                        attached_yocto,
                    ) && amount > 0 && deposit_covers(
                        user_registered,
                        attached_yocto,
                        min_storage_deposit,
                    ) && ((pool_id == RAFFLE_POOL_ID && amount > old(self).loot_raffle_pool.amount)
                        || (pool_id == TAPPING_POOL_ID && amount > old(
                        self,
                    ).global_tapping_pool.amount)),
                    _ => false,
                }),
            },
    {
        if !(*caller == self.owner_id) || attached_yocto < ONE_YOCTO {
            return Err(TokenError::Unauthorized);
        }
        if amount == 0 {
            return Err(TokenError::InvalidArgument);
        }
        // Settle the recipient's registration before any pool is touched.
        if !user_registered && attached_yocto < min_storage_deposit {
            return Err(TokenError::InsufficientDeposit);
        }
        if pool_id == RAFFLE_POOL_ID {
            match self.loot_raffle_pool.debit(amount) {
                Ok(()) => {},
                Err(e) => {
                    return Err(e);
                },
            }
        } else if pool_id == TAPPING_POOL_ID {
            match self.global_tapping_pool.debit(amount) {
                Ok(()) => {},
                Err(e) => {
                    return Err(e);
                },
            }
        } else {
            return Err(TokenError::InvalidArgument);
        }
        Ok(
            ClaimAction {
                register_user: !user_registered,
                user: user_account.clone(),
                amount,
                pool_id,
            },
        )
    }
}

} // verus!
