use ptb_token::contract::Contract;
use ptb_token::errors::TokenError;

const MONTH_NANOS: u64 = 2_592_000 * 1_000_000_000;

fn owner() -> String {
    "owner.testnet".to_string()
}

fn setup() -> Contract {
    let (contract, action) = Contract::new_default_meta(owner(), 1_000_000_000_000, 0);
    assert_eq!(action.owner, "owner.testnet");
    assert_eq!(action.amount, 1_000_000_000_000);
    contract
}

#[test]
fn test_new_default_meta() {
    let contract = setup();
    let (owner_id, proposed) = contract.get_owners();
    assert_eq!(owner_id, "owner.testnet");
    assert!(proposed.is_none());

    let account = contract.emissions_account_of(&owner()).unwrap();
    assert_eq!(account.initial_emissions, 3_000_000_000);
    assert_eq!(account.current_emissions, 3_000_000_000);
    assert_eq!(account.current_month, 0);
    assert_eq!(account.last_mint_timestamp, 0);

    assert_eq!(contract.loot_raffle_pool.pool_id, 1);
    assert_eq!(contract.loot_raffle_pool.amount, 5_000_000_000_000);
    assert_eq!(contract.loot_raffle_pool.total_amount, 0);
    assert_eq!(contract.global_tapping_pool.pool_id, 2);
    assert_eq!(contract.global_tapping_pool.amount, 100_000_000_000_000);
}

#[test]
fn test_first_mint() {
    let mut contract = setup();
    let action = contract.mint(&owner(), 1, 60 * 1_000_000_000).unwrap();

    // The first mint credits the undecayed baseline, scaled by 100,000.
    assert_eq!(action.owner, "owner.testnet");
    assert_eq!(action.amount, 300_000_000_000_000);

    let account = contract.emissions_account_of(&owner()).unwrap();
    assert_eq!(account.current_month, 1);
    assert_eq!(account.current_emissions, 3_000_000_000);
    assert_eq!(account.last_mint_timestamp, 60 * 1_000_000_000);

    // The raffle pool keeps its configured amount on the first cycle and
    // books it once into the audit total.
    assert_eq!(contract.loot_raffle_pool.amount, 5_000_000_000_000);
    assert_eq!(contract.loot_raffle_pool.total_amount, 5_000_000_000_000);
    assert_eq!(contract.global_tapping_pool.amount, 100_000_000_000_000);
}

#[test]
fn test_second_mint_decays() {
    let mut contract = setup();
    contract.mint(&owner(), 1, 0).unwrap();
    let action = contract.mint(&owner(), 1, MONTH_NANOS).unwrap();

    // floor(3_000_000_000 * 0.8705505633) == 2_611_651_689
    let account = contract.emissions_account_of(&owner()).unwrap();
    assert_eq!(account.current_month, 2);
    assert_eq!(account.current_emissions, 2_611_651_689);
    assert_eq!(action.amount, 261_165_168_900_000);

    // floor(5_000_000_000_000 * 0.8705505633) == 4_352_752_816_500
    assert_eq!(contract.loot_raffle_pool.amount, 4_352_752_816_500);
    assert_eq!(
        contract.loot_raffle_pool.total_amount,
        5_000_000_000_000 + 4_352_752_816_500
    );
}

#[test]
fn test_third_mint_decays_again() {
    let mut contract = setup();
    contract.mint(&owner(), 1, 0).unwrap();
    contract.mint(&owner(), 1, MONTH_NANOS).unwrap();
    contract.mint(&owner(), 1, 2 * MONTH_NANOS).unwrap();

    // floor(2_611_651_689 * 0.8705505633) == 2_273_574_849
    let account = contract.emissions_account_of(&owner()).unwrap();
    assert_eq!(account.current_month, 3);
    assert_eq!(account.current_emissions, 2_273_574_849);
}

#[test]
fn test_mint_before_interval_fails() {
    let mut contract = setup();
    contract.mint(&owner(), 1, 0).unwrap();
    let before = snapshot(&contract);

    // One nanosecond short of a full period.
    let r = contract.mint(&owner(), 1, MONTH_NANOS - 1);
    assert_eq!(r.unwrap_err(), TokenError::IntervalNotElapsed);
    assert_eq!(snapshot(&contract), before);
}

#[test]
fn test_mint_requires_owner_and_token() {
    let mut contract = setup();
    let before = snapshot(&contract);

    let r = contract.mint(&"intruder.testnet".to_string(), 1, 0);
    assert_eq!(r.unwrap_err(), TokenError::Unauthorized);
    assert_eq!(snapshot(&contract), before);

    let r = contract.mint(&owner(), 0, 0);
    assert_eq!(r.unwrap_err(), TokenError::Unauthorized);
    let r = contract.mint(&owner(), 2, 0);
    assert_eq!(r.unwrap_err(), TokenError::Unauthorized);
    assert_eq!(snapshot(&contract), before);
}

#[test]
fn test_mint_resets_tapping_pool_after_claims() {
    let mut contract = setup();
    contract.mint(&owner(), 1, 0).unwrap();
    contract
        .claim_rewards(&owner(), 1, true, 0, 7_000_000, 2, &"user.testnet".to_string())
        .unwrap();
    assert_eq!(contract.global_tapping_pool.amount, 100_000_000_000_000 - 7_000_000);

    contract.mint(&owner(), 1, MONTH_NANOS).unwrap();
    assert_eq!(contract.global_tapping_pool.amount, 100_000_000_000_000);
}

#[test]
fn test_audit_total_accumulates_inflows_only() {
    let mut contract = setup();

    // First cycle books the opening raffle balance.
    contract.mint(&owner(), 1, 0).unwrap();
    assert_eq!(contract.loot_raffle_pool.total_amount, 5_000_000_000_000);

    // Claims deplete the spendable balance but never the audit total.
    contract
        .claim_rewards(&owner(), 1, true, 0, 1_000_000_000_000, 1, &"user.testnet".to_string())
        .unwrap();
    assert_eq!(contract.loot_raffle_pool.amount, 4_000_000_000_000);
    assert_eq!(contract.loot_raffle_pool.total_amount, 5_000_000_000_000);

    // The next cycle books the decayed remaining balance on top.
    contract.mint(&owner(), 1, MONTH_NANOS).unwrap();
    // floor(4_000_000_000_000 * 0.8705505633) == 3_482_202_253_200
    assert_eq!(contract.loot_raffle_pool.amount, 3_482_202_253_200);
    assert_eq!(
        contract.loot_raffle_pool.total_amount,
        5_000_000_000_000 + 3_482_202_253_200
    );
}

#[test]
fn test_mint_overflow_on_audit_total() {
    let mut contract = setup();
    contract.loot_raffle_pool.total_amount = u128::MAX;
    let before = snapshot(&contract);

    let r = contract.mint(&owner(), 1, 0);
    assert_eq!(r.unwrap_err(), TokenError::ArithmeticOverflow);
    assert_eq!(snapshot(&contract), before);
}

/// All engine state that a refused call must leave untouched.
fn snapshot(contract: &Contract) -> (String, Option<String>, Vec<(String, u64, u32, u64, u64)>, (u32, u128, u128), (u32, u128)) {
    (
        contract.owner_id.clone(),
        contract.proposed_owner.clone(),
        contract
            .emissions_accounts
            .iter()
            .map(|r| {
                (
                    r.owner.clone(),
                    r.account.initial_emissions,
                    r.account.current_month,
                    r.account.current_emissions,
                    r.account.last_mint_timestamp,
                )
            })
            .collect(),
        (
            contract.loot_raffle_pool.pool_id,
            contract.loot_raffle_pool.amount,
            contract.loot_raffle_pool.total_amount,
        ),
        (contract.global_tapping_pool.pool_id, contract.global_tapping_pool.amount),
    )
}
