use fyrst::constants::{MIN_COLLATERAL, SAFE_PERIOD};
use fyrst::errors::FyrstError;
use fyrst::escrow::{create_escrow, release_escrow, release_escrow_guarded};
use fyrst::protocol::{init_protocol, mark_rugged};
use fyrst::state::EscrowVault;

const DEPLOYER: u64 = 11;
const MINT: u64 = 7;

#[test]
fn create_escrow_enforces_minimum() {
    assert_eq!(
        create_escrow(DEPLOYER, MINT, 9_999_999, 1_000),
        Err(FyrstError::InsufficientCollateral)
    );
    let vault = create_escrow(DEPLOYER, MINT, 10_000_000, 1_000).unwrap();
    assert_eq!(
        vault,
        EscrowVault {
            deployer: DEPLOYER,
            token_mint: MINT,
            collateral_amount: 10_000_000,
            created_at: 1_000,
            released: false,
            rugged: false,
        }
    );
    assert_eq!(MIN_COLLATERAL, 10_000_000);
}

#[test]
fn release_respects_time_lock() {
    let created: i64 = 1_000;
    let mut vault = create_escrow(DEPLOYER, MINT, MIN_COLLATERAL, created).unwrap();
    assert_eq!(
        release_escrow(&mut vault, DEPLOYER, created + SAFE_PERIOD - 1),
        Err(FyrstError::SafePeriodActive)
    );
    assert!(!vault.released);
    let paid = release_escrow(&mut vault, DEPLOYER, created + SAFE_PERIOD).unwrap();
    assert_eq!(paid, MIN_COLLATERAL);
    assert_eq!(vault.collateral_amount, 0);
    assert!(vault.released);
    // A second release finds the vault already released.
    assert_eq!(
        release_escrow(&mut vault, DEPLOYER, created + SAFE_PERIOD + 1),
        Err(FyrstError::EscrowAlreadyReleased)
    );
}

#[test]
fn release_rejects_other_callers() {
    let mut vault = create_escrow(DEPLOYER, MINT, MIN_COLLATERAL, 0).unwrap();
    assert_eq!(
        release_escrow(&mut vault, DEPLOYER + 1, SAFE_PERIOD),
        Err(FyrstError::Unauthorized)
    );
    assert!(!vault.released);
}

#[test]
fn baseline_release_ignores_rug_flag() {
    let config = init_protocol(1, 2);
    let mut vault = create_escrow(DEPLOYER, MINT, MIN_COLLATERAL, 0).unwrap();
    mark_rugged(&config, 1, &mut vault).unwrap();
    // The literal behaviour: the deployer can still reclaim after the lock.
    let paid = release_escrow(&mut vault, DEPLOYER, SAFE_PERIOD).unwrap();
    assert_eq!(paid, MIN_COLLATERAL);
}

#[test]
fn guarded_release_blocks_rugged_vault() {
    let config = init_protocol(1, 2);
    let mut vault = create_escrow(DEPLOYER, MINT, MIN_COLLATERAL, 0).unwrap();
    mark_rugged(&config, 1, &mut vault).unwrap();
    assert_eq!(
        release_escrow_guarded(&mut vault, DEPLOYER, SAFE_PERIOD),
        Err(FyrstError::TokenIsRugged)
    );
    assert!(!vault.released);
    assert_eq!(vault.collateral_amount, MIN_COLLATERAL);
}

#[test]
fn guarded_release_behaves_normally_without_rug() {
    let mut vault = create_escrow(DEPLOYER, MINT, MIN_COLLATERAL, 0).unwrap();
    assert_eq!(
        release_escrow_guarded(&mut vault, DEPLOYER, SAFE_PERIOD - 1),
        Err(FyrstError::SafePeriodActive)
    );
    let paid = release_escrow_guarded(&mut vault, DEPLOYER, SAFE_PERIOD).unwrap();
    assert_eq!(paid, MIN_COLLATERAL);
}

#[test]
fn mark_rugged_is_authority_only_and_one_way() {
    let config = init_protocol(1, 2);
    let mut vault = create_escrow(DEPLOYER, MINT, MIN_COLLATERAL, 0).unwrap();
    assert_eq!(
        mark_rugged(&config, 99, &mut vault),
        Err(FyrstError::Unauthorized)
    );
    assert!(!vault.rugged);
    mark_rugged(&config, 1, &mut vault).unwrap();
    assert!(vault.rugged);
    assert_eq!(
        mark_rugged(&config, 1, &mut vault),
        Err(FyrstError::EscrowIsRugged)
    );
    assert!(vault.rugged);
}
