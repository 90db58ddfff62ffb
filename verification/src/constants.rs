use vstd::prelude::*;

verus! {

/// Minimum collateral, in base value units, a deployer must post when
/// creating an escrow vault.
pub const MIN_COLLATERAL: u64 = 10_000_000;

/// Time lock, in seconds, after escrow creation before the deployer may
/// reclaim the collateral.
pub const SAFE_PERIOD: i64 = 86_400;

/// Protocol fee charged on buys, in basis points.
pub const PROTOCOL_FEE_BPS: u64 = 50;

/// Trade fee charged on buys and sells, in basis points.
pub const TRADE_FEE_BPS: u64 = 100;

/// Basis-points denominator.
pub const BPS_DENOMINATOR: u64 = 10_000;

/// Reserve threshold at which a bonding curve graduates.
pub const GRADUATION_THRESHOLD: u64 = 85_000_000_000;

/// Decimals of the minted asset.
pub const TOKEN_DECIMALS: u8 = 6;

/// Raw token subunits per whole token: ten to the `TOKEN_DECIMALS`.
/// The curve slope applies per whole token, not per subunit.
pub const UNITS_PER_WHOLE: u64 = 1_000_000;

} // verus!
