use vstd::prelude::*;

use crate::constants::UNITS_PER_WHOLE;
use crate::errors::FyrstError;
use crate::state::{BondingCurve, BuyerRecord, EscrowVault, ProtocolConfig};

verus! {

/// What recording a purchase does to a buyer's record. A record whose
/// `total_bought` is zero counts as fresh: its identity fields and the
/// first-purchase timestamp are (re)initialized. The value spent is
/// recomputed here from `amount` and `price`, independently of the fees
/// the trade itself deducted; the two bookkeeping paths are two separate
/// atomic operations by design.
pub open spec fn spec_record_buyer(
    rec: BuyerRecord,
    buyer: u64,
    token_mint: u64,
    amount: u64,
    price: u64,
    now: i64,
) -> Result<BuyerRecord, FyrstError> {
    let base = if rec.total_bought == 0 {
        BuyerRecord { buyer, token_mint, first_buy_at: now, refund_claimed: false, ..rec }
    } else {
        rec
    };
    let spent: int = (amount * price) / (UNITS_PER_WHOLE as int);
    if spent > u64::MAX || base.total_bought + amount > u64::MAX || base.total_value_spent + spent
        > u64::MAX {
        Err(FyrstError::MathOverflow)
    } else {
        let new_bought: int = base.total_bought + amount;
        let new_spent: int = base.total_value_spent + spent;
        if new_bought > 0 {
            let avg: int = (new_spent * UNITS_PER_WHOLE) / new_bought;
            if avg > u64::MAX {
                Err(FyrstError::MathOverflow)
            } else {
                Ok(
                    BuyerRecord {
                        total_bought: new_bought as u64,
                        total_value_spent: new_spent as u64,
                        avg_price: avg as u64,
                        ..base
                    },
                )
            }
        } else {
            Ok(
                BuyerRecord {
                    total_bought: new_bought as u64,
                    total_value_spent: new_spent as u64,
                    ..base
                },
            )
        }
    }
}

/// What processing a refund does: the drained vault and the claimed
/// record paired with the payout, or the error with both untouched.
/// The share is pro rata against the vault's remaining collateral, so
/// early claimants can drain it before later ones are processed.
pub open spec fn spec_process_refund(
    config: ProtocolConfig,
    caller: u64,
    escrow: EscrowVault,
    rec: BuyerRecord,
    curve: BondingCurve,
) -> Result<(EscrowVault, BuyerRecord, u64), FyrstError> {
    if caller != config.authority {
        Err(FyrstError::Unauthorized)
    } else if rec.refund_claimed {
        Err(FyrstError::RefundAlreadyProcessed)
    } else if !escrow.rugged {
        Err(FyrstError::SafePeriodExpired)
    } else {
        let refund: int = if curve.total_value_collected > 0 {
            (rec.total_value_spent * escrow.collateral_amount) / (curve.total_value_collected
                as int)
        } else if rec.total_value_spent <= escrow.collateral_amount {
            rec.total_value_spent as int
        } else {
            escrow.collateral_amount as int
        };
        if refund > u64::MAX {
            Err(FyrstError::MathOverflow)
        } else if refund == 0 {
            Err(FyrstError::NoBuyerRecord)
        } else if refund > escrow.collateral_amount {
            Err(FyrstError::InsufficientFunds)
        } else {
            Ok(
                (
                    EscrowVault {
                        collateral_amount: (escrow.collateral_amount - refund) as u64,
                        ..escrow
                    },
                    BuyerRecord { refund_claimed: true, ..rec },
                    refund as u64,
                ),
            )
        }
    }
}

/// Record a buyer's purchase for refund eligibility. On any error the
/// record is unchanged.
pub fn record_buyer(
    record: &mut BuyerRecord,
    buyer: u64,
    token_mint: u64,
    amount: u64,
    price: u64,
    now: i64,
) -> (r: Result<(), FyrstError>)
    ensures
        match spec_record_buyer(*old(record), buyer, token_mint, amount, price, now) {
            Ok(next) => r == Ok::<(), FyrstError>(()) && *final(record) == next,
            Err(e) => r == Err::<(), FyrstError>(e) && *final(record) == *old(record),
        },
{
    let fresh: bool = record.total_bought == 0;
    proof {
        vstd::arithmetic::mul::lemma_mul_upper_bound(
            amount as int,
            u64::MAX as int,
            price as int,
            u64::MAX as int,
        );
    }
    let spent_num: u128 = (amount as u128) * (price as u128);
    let spent128: u128 = spent_num / (UNITS_PER_WHOLE as u128);
    if spent128 > u64::MAX as u128 {
        return Err(FyrstError::MathOverflow);
    }
    let spent: u64 = spent128 as u64;
    if amount > u64::MAX - record.total_bought {
        return Err(FyrstError::MathOverflow);
    }
    let new_bought: u64 = record.total_bought + amount;
    if spent > u64::MAX - record.total_value_spent {
        return Err(FyrstError::MathOverflow);
    }
    let new_spent: u64 = record.total_value_spent + spent;
    if new_bought > 0 {
        let avg_num: u128 = (new_spent as u128) * (UNITS_PER_WHOLE as u128);
        let avg128: u128 = avg_num / (new_bought as u128);
        if avg128 > u64::MAX as u128 {
            return Err(FyrstError::MathOverflow);
        }
        record.avg_price = avg128 as u64;
    }
    if fresh {
        record.buyer = buyer;
        record.token_mint = token_mint;
        record.first_buy_at = now;
        record.refund_claimed = false;
    }
    record.total_bought = new_bought;
    record.total_value_spent = new_spent;
    Ok(())
}

/// Process one buyer's pro-rata refund out of the escrow (authority
/// only). Returns the payout the caller moves to the buyer. On any
/// error neither the vault nor the record changes.
pub fn process_refund(
    config: &ProtocolConfig,
    caller: u64,
    escrow: &mut EscrowVault,
    record: &mut BuyerRecord,
    curve: &BondingCurve,
) -> (r: Result<u64, FyrstError>)
    ensures
        match spec_process_refund(*config, caller, *old(escrow), *old(record), *curve) {
            Ok(next) => r == Ok::<u64, FyrstError>(next.2) && *final(escrow) == next.0
                && *final(record) == next.1,
            Err(e) => r == Err::<u64, FyrstError>(e) && *final(escrow) == *old(escrow)
                && *final(record) == *old(record),
        },
        final(escrow).collateral_amount <= old(escrow).collateral_amount,
        caller == config.authority && old(record).refund_claimed ==> r == Err::<u64, FyrstError>(
            FyrstError::RefundAlreadyProcessed,
        ),
{
    if caller != config.authority {
        return Err(FyrstError::Unauthorized);
    }
    if record.refund_claimed {
        return Err(FyrstError::RefundAlreadyProcessed);
    }
    if !escrow.rugged {
        return Err(FyrstError::SafePeriodExpired);
    }
    let refund: u64 = if curve.total_value_collected > 0 {
        proof {
            vstd::arithmetic::mul::lemma_mul_upper_bound(
                record.total_value_spent as int,
                u64::MAX as int,
                escrow.collateral_amount as int,
                u64::MAX as int,
            );
        }
        let refund_num: u128 = (record.total_value_spent as u128) * (escrow.collateral_amount
            as u128);
        let refund128: u128 = refund_num / (curve.total_value_collected as u128);
        if refund128 > u64::MAX as u128 {
            return Err(FyrstError::MathOverflow);
        }
        refund128 as u64
    } else if record.total_value_spent <= escrow.collateral_amount {
        record.total_value_spent
    } else {
        escrow.collateral_amount
    };
    if refund == 0 {
        return Err(FyrstError::NoBuyerRecord);
    }
    if refund > escrow.collateral_amount {
        return Err(FyrstError::InsufficientFunds);
    }
    escrow.collateral_amount = escrow.collateral_amount - refund;
    record.refund_claimed = true;
    Ok(refund)
}

} // verus!
