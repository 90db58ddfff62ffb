use vstd::prelude::*;

use crate::constants::{MIN_COLLATERAL, SAFE_PERIOD};
use crate::errors::FyrstError;
use crate::state::EscrowVault;

verus! {

/// What creating an escrow does: the vault holding the collateral, or
/// `InsufficientCollateral` below the minimum.
pub open spec fn spec_create_escrow(
    deployer: u64,
    token_mint: u64,
    collateral_amount: u64,
    now: i64,
) -> Result<EscrowVault, FyrstError> {
    if collateral_amount < MIN_COLLATERAL {
        Err(FyrstError::InsufficientCollateral)
    } else {
        Ok(
            EscrowVault {
                deployer,
                token_mint,
                collateral_amount,
                created_at: now,
                released: false,
                rugged: false,
            },
        )
    }
}

/// What releasing an escrow does. With `gate_on_rugged` the release is
/// additionally blocked on a rugged vault; the baseline behaviour does
/// not gate on the rug flag, which lets a flagged deployer reclaim the
/// collateral once the time lock has elapsed.
pub open spec fn spec_release_escrow(
    e: EscrowVault,
    caller: u64,
    now: i64,
    gate_on_rugged: bool,
) -> Result<(EscrowVault, u64), FyrstError> {
    if caller != e.deployer {
        Err(FyrstError::Unauthorized)
    } else if e.released {
        Err(FyrstError::EscrowAlreadyReleased)
    } else if gate_on_rugged && e.rugged {
        Err(FyrstError::TokenIsRugged)
    } else if now < e.created_at + SAFE_PERIOD {
        Err(FyrstError::SafePeriodActive)
    } else {
        Ok((EscrowVault { collateral_amount: 0, released: true, ..e }, e.collateral_amount))
    }
}

/// Create an escrow vault for a deployer's launch. The caller moves
/// `collateral_amount` from the deployer into the vault's custody on
/// success.
pub fn create_escrow(deployer: u64, token_mint: u64, collateral_amount: u64, now: i64) -> (r:
    Result<EscrowVault, FyrstError>)
    ensures
        r == spec_create_escrow(deployer, token_mint, collateral_amount, now),
{
    if collateral_amount < MIN_COLLATERAL {
        return Err(FyrstError::InsufficientCollateral);
    }
    Ok(
        EscrowVault {
            deployer,
            token_mint,
            collateral_amount,
            created_at: now,
            released: false,
            rugged: false,
        },
    )
}

/// Release the whole remaining collateral back to the deployer once the
/// safe period has elapsed. Returns the amount to pay out. This is the
/// baseline behaviour: a rugged vault can still be released.
pub fn release_escrow(escrow: &mut EscrowVault, caller: u64, now: i64) -> (r: Result<
    u64,
    FyrstError,
>)
    requires
        now >= 0,
    ensures
        match spec_release_escrow(*old(escrow), caller, now, false) {
            Ok(next) => r == Ok::<u64, FyrstError>(next.1) && *final(escrow) == next.0,
            Err(e) => r == Err::<u64, FyrstError>(e) && *final(escrow) == *old(escrow),
        },
        final(escrow).collateral_amount <= old(escrow).collateral_amount,
        old(escrow).released ==> *final(escrow) == *old(escrow),
{
    release_with_gate(escrow, caller, now, false)
}

/// Release with the hardened gate: a vault marked rugged cannot be
/// released, so the collateral stays for refunds. Everything else is as
/// in `release_escrow`.
pub fn release_escrow_guarded(escrow: &mut EscrowVault, caller: u64, now: i64) -> (r: Result<
    u64,
    FyrstError,
>)
    requires
        now >= 0,
    ensures
        match spec_release_escrow(*old(escrow), caller, now, true) {
            Ok(next) => r == Ok::<u64, FyrstError>(next.1) && *final(escrow) == next.0,
            Err(e) => r == Err::<u64, FyrstError>(e) && *final(escrow) == *old(escrow),
        },
        old(escrow).rugged ==> r is Err && *final(escrow) == *old(escrow),
{
    release_with_gate(escrow, caller, now, true)
}

fn release_with_gate(escrow: &mut EscrowVault, caller: u64, now: i64, gate_on_rugged: bool) -> (r:
    Result<u64, FyrstError>)
    requires
        now >= 0,
    ensures
        match spec_release_escrow(*old(escrow), caller, now, gate_on_rugged) {
            Ok(next) => r == Ok::<u64, FyrstError>(next.1) && *final(escrow) == next.0,
            Err(e) => r == Err::<u64, FyrstError>(e) && *final(escrow) == *old(escrow),
        },
{
    if caller != escrow.deployer {
        return Err(FyrstError::Unauthorized);
    }
    if escrow.released {
        return Err(FyrstError::EscrowAlreadyReleased);
    }
    if gate_on_rugged && escrow.rugged {
        return Err(FyrstError::TokenIsRugged);
    }
    if now - SAFE_PERIOD < escrow.created_at {
        return Err(FyrstError::SafePeriodActive);
    }
    let amount: u64 = escrow.collateral_amount;
    escrow.collateral_amount = 0;
    escrow.released = true;
    Ok(amount)
}

} // verus!
