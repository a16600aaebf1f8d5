use ptb_token::contract::Contract;
use ptb_token::errors::TokenError;

fn owner() -> String {
    "owner.testnet".to_string()
}

fn user() -> String {
    "user1234test.testnet".to_string()
}

fn setup() -> Contract {
    Contract::new_default_meta(owner(), 1_000_000_000_000, 0).0
}

#[test]
fn test_claim_from_raffle_pool() {
    let mut contract = setup();
    let action = contract
        .claim_rewards(&owner(), 1, true, 0, 1_000_000, 1, &user())
        .unwrap();

    assert_eq!(contract.loot_raffle_pool.amount, 4_999_999_000_000);
    assert_eq!(contract.loot_raffle_pool.total_amount, 0);
    assert_eq!(contract.global_tapping_pool.amount, 100_000_000_000_000);
    assert!(!action.register_user);
    assert_eq!(action.user, "user1234test.testnet");
    assert_eq!(action.amount, 1_000_000);
    assert_eq!(action.pool_id, 1);
}

#[test]
fn test_claim_from_tapping_pool() {
    let mut contract = setup();
    let action = contract
        .claim_rewards(&owner(), 1, true, 0, 2_500_000, 2, &user())
        .unwrap();

    assert_eq!(contract.global_tapping_pool.amount, 100_000_000_000_000 - 2_500_000);
    assert_eq!(contract.loot_raffle_pool.amount, 5_000_000_000_000);
    assert_eq!(action.amount, 2_500_000);
    assert_eq!(action.pool_id, 2);
}

#[test]
fn test_claim_whole_pool_balance() {
    let mut contract = setup();
    let action = contract
        .claim_rewards(&owner(), 1, true, 0, 5_000_000_000_000, 1, &user())
        .unwrap();
    assert_eq!(contract.loot_raffle_pool.amount, 0);
    assert_eq!(action.amount, 5_000_000_000_000);
}

#[test]
fn test_claim_invalid_pool_id() {
    let mut contract = setup();
    let r = contract.claim_rewards(&owner(), 1, true, 0, 1_000_000, 3, &user());
    assert_eq!(r.unwrap_err(), TokenError::InvalidArgument);
    assert_eq!(contract.loot_raffle_pool.amount, 5_000_000_000_000);
    assert_eq!(contract.loot_raffle_pool.total_amount, 0);
    assert_eq!(contract.global_tapping_pool.amount, 100_000_000_000_000);

    let r = contract.claim_rewards(&owner(), 1, true, 0, 1_000_000, 0, &user());
    assert_eq!(r.unwrap_err(), TokenError::InvalidArgument);
}

#[test]
fn test_claim_above_pool_balance() {
    let mut contract = setup();
    let r = contract.claim_rewards(&owner(), 1, true, 0, 5_000_000_000_001, 1, &user());
    assert_eq!(r.unwrap_err(), TokenError::InsufficientPoolBalance);
    assert_eq!(contract.loot_raffle_pool.amount, 5_000_000_000_000);

    let r = contract.claim_rewards(&owner(), 1, true, 0, 100_000_000_000_001, 2, &user());
    assert_eq!(r.unwrap_err(), TokenError::InsufficientPoolBalance);
    assert_eq!(contract.global_tapping_pool.amount, 100_000_000_000_000);
}

#[test]
fn test_claim_zero_amount() {
    let mut contract = setup();
    let r = contract.claim_rewards(&owner(), 1, true, 0, 0, 1, &user());
    assert_eq!(r.unwrap_err(), TokenError::InvalidArgument);
}

#[test]
fn test_claim_requires_owner_and_token() {
    let mut contract = setup();
    let r = contract.claim_rewards(&user(), 1, true, 0, 1_000_000, 1, &user());
    assert_eq!(r.unwrap_err(), TokenError::Unauthorized);

    let r = contract.claim_rewards(&owner(), 0, true, 0, 1_000_000, 1, &user());
    assert_eq!(r.unwrap_err(), TokenError::Unauthorized);
    assert_eq!(contract.loot_raffle_pool.amount, 5_000_000_000_000);
}

#[test]
fn test_claim_for_unregistered_user() {
    let mut contract = setup();
    let min_deposit = 1_250_000_000_000_000_000_000;

    // The attached value does not cover the registration.
    let r = contract.claim_rewards(&owner(), 1, false, min_deposit, 1_000_000, 1, &user());
    assert_eq!(r.unwrap_err(), TokenError::InsufficientDeposit);
    assert_eq!(contract.loot_raffle_pool.amount, 5_000_000_000_000);

    // A covering deposit succeeds and asks the host to register the user.
    let action = contract
        .claim_rewards(&owner(), min_deposit, false, min_deposit, 1_000_000, 1, &user())
        .unwrap();
    assert!(action.register_user);
    assert_eq!(contract.loot_raffle_pool.amount, 4_999_999_000_000);
}

#[test]
fn test_burn() {
    let contract = setup();
    let action = contract.burn(&user(), 10_000, 4_000).unwrap();
    assert_eq!(action.owner, "user1234test.testnet");
    assert_eq!(action.amount, 4_000);
}

#[test]
fn test_burn_zero_amount() {
    let contract = setup();
    let r = contract.burn(&user(), 10_000, 0);
    assert_eq!(r.unwrap_err(), TokenError::InvalidArgument);
}

#[test]
fn test_burn_above_balance() {
    let contract = setup();
    let r = contract.burn(&user(), 10_000, 10_001);
    assert_eq!(r.unwrap_err(), TokenError::InsufficientBalance);
    let action = contract.burn(&user(), 10_000, 10_000).unwrap();
    assert_eq!(action.amount, 10_000);
}
