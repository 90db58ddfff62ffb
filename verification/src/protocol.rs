use vstd::prelude::*;

use crate::constants::GRADUATION_THRESHOLD;
use crate::errors::FyrstError;
use crate::state::{BondingCurve, EscrowVault, ProtocolConfig};

verus! {

/// What marking an escrow rugged does: authority only, and at most once.
/// The flag gates refund eligibility; it moves no funds by itself.
pub open spec fn spec_mark_rugged(e: EscrowVault, config: ProtocolConfig, caller: u64) -> Result<
    EscrowVault,
    FyrstError,
> {
    if caller != config.authority {
        Err(FyrstError::Unauthorized)
    } else if e.rugged {
        Err(FyrstError::EscrowIsRugged)
    } else {
        Ok(EscrowVault { rugged: true, ..e })
    }
}

/// What an explicit graduation request does: flip the one-way flag once
/// the reserve has met the threshold.
pub open spec fn spec_graduate(c: BondingCurve, threshold: u64) -> Result<
    BondingCurve,
    FyrstError,
> {
    if c.graduated {
        Err(FyrstError::AlreadyGraduated)
    } else if c.reserve_balance < threshold {
        Err(FyrstError::InsufficientFunds)
    } else {
        Ok(BondingCurve { graduated: true, ..c })
    }
}

/// One-time protocol setup: fix the authority, the fee treasury, and the
/// graduation threshold. First-call-wins is the host's concern.
pub fn init_protocol(authority: u64, treasury: u64) -> (config: ProtocolConfig)
    ensures
        config == (ProtocolConfig { authority, treasury, graduation_threshold: GRADUATION_THRESHOLD }),
{
    ProtocolConfig { authority, treasury, graduation_threshold: GRADUATION_THRESHOLD }
}

/// Mark an escrow vault rugged (authority only). On any error the vault
/// is unchanged; the flag is never cleared again.
pub fn mark_rugged(config: &ProtocolConfig, caller: u64, escrow: &mut EscrowVault) -> (r: Result<
    (),
    FyrstError,
>)
    ensures
        match spec_mark_rugged(*old(escrow), *config, caller) {
            Ok(next) => r == Ok::<(), FyrstError>(()) && *final(escrow) == next,
            Err(e) => r == Err::<(), FyrstError>(e) && *final(escrow) == *old(escrow),
        },
        old(escrow).rugged ==> *final(escrow) == *old(escrow),
{
    if caller != config.authority {
        return Err(FyrstError::Unauthorized);
    }
    if escrow.rugged {
        return Err(FyrstError::EscrowIsRugged);
    }
    escrow.rugged = true;
    Ok(())
}

/// Graduate a bonding curve on explicit request once its reserve meets
/// the configured threshold. Terminal: it disables further trading.
pub fn graduate(curve: &mut BondingCurve, config: &ProtocolConfig) -> (r: Result<(), FyrstError>)
    ensures
        match spec_graduate(*old(curve), config.graduation_threshold) {
            Ok(next) => r == Ok::<(), FyrstError>(()) && *final(curve) == next,
            Err(e) => r == Err::<(), FyrstError>(e) && *final(curve) == *old(curve),
        },
        old(curve).graduated ==> r == Err::<(), FyrstError>(FyrstError::AlreadyGraduated),
        final(curve).graduated == (r is Ok || old(curve).graduated),
{
    if curve.graduated {
        return Err(FyrstError::AlreadyGraduated);
    }
    if curve.reserve_balance < config.graduation_threshold {
        return Err(FyrstError::InsufficientFunds);
    }
    curve.graduated = true;
    Ok(())
}

} // verus!
