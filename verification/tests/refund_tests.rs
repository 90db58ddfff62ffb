use fyrst::errors::FyrstError;
use fyrst::refund::{process_refund, record_buyer};
use fyrst::state::{BondingCurve, BuyerRecord, EscrowVault, ProtocolConfig};

const AUTHORITY: u64 = 1;
const BUYER: u64 = 21;
const MINT: u64 = 7;

fn config() -> ProtocolConfig {
    ProtocolConfig {
        authority: AUTHORITY,
        treasury: 2,
        graduation_threshold: 85_000_000_000,
    }
}

fn rugged_vault(collateral: u64) -> EscrowVault {
    EscrowVault {
        deployer: 11,
        token_mint: MINT,
        collateral_amount: collateral,
        created_at: 0,
        released: false,
        rugged: true,
    }
}

fn curve_with_collected(total: u64) -> BondingCurve {
    BondingCurve {
        token_mint: MINT,
        current_supply: 0,
        base_price: 1_000_000,
        slope: 100,
        reserve_balance: 0,
        total_value_collected: total,
        graduated: false,
        deployer: 11,
    }
}

fn record_with_spent(spent: u64) -> BuyerRecord {
    BuyerRecord {
        buyer: BUYER,
        token_mint: MINT,
        total_bought: 1,
        total_value_spent: spent,
        avg_price: 0,
        refund_claimed: false,
        first_buy_at: 5,
    }
}

#[test]
fn record_buyer_first_purchase() {
    let mut record = BuyerRecord::default();
    record_buyer(&mut record, BUYER, MINT, 1_000_000, 2_000_000, 42).unwrap();
    assert_eq!(
        record,
        BuyerRecord {
            buyer: BUYER,
            token_mint: MINT,
            total_bought: 1_000_000,
            total_value_spent: 2_000_000,
            avg_price: 2_000_000,
            refund_claimed: false,
            first_buy_at: 42,
        }
    );
}

#[test]
fn record_buyer_accumulates_and_averages() {
    let mut record = BuyerRecord::default();
    record_buyer(&mut record, BUYER, MINT, 1_000_000, 2_000_000, 42).unwrap();
    record_buyer(&mut record, BUYER, MINT, 1_000_000, 4_000_000, 50).unwrap();
    assert_eq!(record.total_bought, 2_000_000);
    assert_eq!(record.total_value_spent, 6_000_000);
    // Average price is value-weighted: 6_000_000 scaled over 2_000_000 bought.
    assert_eq!(record.avg_price, 3_000_000);
    // The identity fields and first-purchase time stay from the first call.
    assert_eq!(record.first_buy_at, 42);
}

#[test]
fn record_buyer_floors_partial_subunits() {
    let mut record = BuyerRecord::default();
    // 3 subunits at price 500_000 are worth 1.5 value units; the ledger floors.
    record_buyer(&mut record, BUYER, MINT, 3, 500_000, 0).unwrap();
    assert_eq!(record.total_value_spent, 1);
    assert_eq!(record.total_bought, 3);
}

#[test]
fn record_buyer_reinitializes_zero_bought_record() {
    // A record whose total_bought is zero counts as fresh, so a new
    // purchase re-initializes it — including clearing the claim flag.
    let mut record = BuyerRecord {
        buyer: 99,
        token_mint: 99,
        total_bought: 0,
        total_value_spent: 0,
        avg_price: 0,
        refund_claimed: true,
        first_buy_at: 1,
    };
    record_buyer(&mut record, BUYER, MINT, 1_000_000, 1_000_000, 77).unwrap();
    assert_eq!(record.buyer, BUYER);
    assert_eq!(record.token_mint, MINT);
    assert_eq!(record.first_buy_at, 77);
    assert!(!record.refund_claimed);
}

#[test]
fn record_buyer_overflow_leaves_record_unchanged() {
    let mut record = BuyerRecord::default();
    record_buyer(&mut record, BUYER, MINT, 5, 1_000_000, 9).unwrap();
    let before = record;
    assert_eq!(
        record_buyer(&mut record, BUYER, MINT, u64::MAX, u64::MAX, 9),
        Err(FyrstError::MathOverflow)
    );
    assert_eq!(record, before);
}

#[test]
fn refund_scenario_full_collateral() {
    let cfg = config();
    let mut vault = rugged_vault(10_000_000);
    let mut record = record_with_spent(985_000_000);
    let curve = curve_with_collected(985_000_000);
    let paid = process_refund(&cfg, AUTHORITY, &mut vault, &mut record, &curve).unwrap();
    assert_eq!(paid, 10_000_000);
    assert_eq!(vault.collateral_amount, 0);
    assert!(record.refund_claimed);
    // The same buyer cannot claim twice.
    assert_eq!(
        process_refund(&cfg, AUTHORITY, &mut vault, &mut record, &curve),
        Err(FyrstError::RefundAlreadyProcessed)
    );
}

#[test]
fn refund_pro_rata_share() {
    let cfg = config();
    let mut vault = rugged_vault(10_000_000);
    let mut record = record_with_spent(197_000_000);
    let curve = curve_with_collected(985_000_000);
    // 197_000_000 / 985_000_000 of the collateral, floored.
    let paid = process_refund(&cfg, AUTHORITY, &mut vault, &mut record, &curve).unwrap();
    assert_eq!(paid, 2_000_000);
    assert_eq!(vault.collateral_amount, 8_000_000);
}

#[test]
fn refund_drains_first_come_first_served() {
    let cfg = config();
    let mut vault = rugged_vault(10_000_000);
    let curve = curve_with_collected(985_000_000);
    // The first claimant's share equals the whole pool and drains it.
    let mut first = record_with_spent(985_000_000);
    assert_eq!(
        process_refund(&cfg, AUTHORITY, &mut vault, &mut first, &curve).unwrap(),
        10_000_000
    );
    assert_eq!(vault.collateral_amount, 0);
    // A later, otherwise-valid claim computes a zero share of the empty pool.
    let mut second = record_with_spent(500_000_000);
    assert_eq!(
        process_refund(&cfg, AUTHORITY, &mut vault, &mut second, &curve),
        Err(FyrstError::NoBuyerRecord)
    );
    assert!(!second.refund_claimed);
}

#[test]
fn refund_without_collections_pays_spend_up_to_collateral() {
    let cfg = config();
    let curve = curve_with_collected(0);
    let mut vault = rugged_vault(10_000_000);
    let mut record = record_with_spent(4_000_000);
    assert_eq!(
        process_refund(&cfg, AUTHORITY, &mut vault, &mut record, &curve).unwrap(),
        4_000_000
    );
    assert_eq!(vault.collateral_amount, 6_000_000);
    let mut big_spender = record_with_spent(u64::MAX);
    assert_eq!(
        process_refund(&cfg, AUTHORITY, &mut vault, &mut big_spender, &curve).unwrap(),
        6_000_000
    );
    assert_eq!(vault.collateral_amount, 0);
}

#[test]
fn refund_requires_rug_flag() {
    let cfg = config();
    let mut vault = rugged_vault(10_000_000);
    vault.rugged = false;
    let mut record = record_with_spent(985_000_000);
    let curve = curve_with_collected(985_000_000);
    assert_eq!(
        process_refund(&cfg, AUTHORITY, &mut vault, &mut record, &curve),
        Err(FyrstError::SafePeriodExpired)
    );
}

#[test]
fn refund_is_authority_only() {
    let cfg = config();
    let mut vault = rugged_vault(10_000_000);
    let mut record = record_with_spent(985_000_000);
    let curve = curve_with_collected(985_000_000);
    assert_eq!(
        process_refund(&cfg, BUYER, &mut vault, &mut record, &curve),
        Err(FyrstError::Unauthorized)
    );
    assert!(!record.refund_claimed);
    assert_eq!(vault.collateral_amount, 10_000_000);
}

#[test]
fn refund_zero_share_is_rejected() {
    let cfg = config();
    let mut vault = rugged_vault(10_000_000);
    let mut record = record_with_spent(0);
    let curve = curve_with_collected(985_000_000);
    assert_eq!(
        process_refund(&cfg, AUTHORITY, &mut vault, &mut record, &curve),
        Err(FyrstError::NoBuyerRecord)
    );
}

#[test]
fn refund_beyond_collateral_is_rejected() {
    let cfg = config();
    // Recorded spend far above the curve's collected total gives a share
    // larger than the pool; the payout-time balance check fails it.
    let mut vault = rugged_vault(5_000);
    let mut record = record_with_spent(1_000_000);
    let curve = curve_with_collected(1_000);
    assert_eq!(
        process_refund(&cfg, AUTHORITY, &mut vault, &mut record, &curve),
        Err(FyrstError::InsufficientFunds)
    );
    assert_eq!(vault.collateral_amount, 5_000);
    assert!(!record.refund_claimed);
}
