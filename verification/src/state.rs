use vstd::prelude::*;

verus! {

/// Global protocol configuration. Created once at startup; every other
/// operation reads it through a shared reference.
#[derive(Clone, Copy, Debug, PartialEq, Eq, Structural)]
pub struct ProtocolConfig {
    /// Identity allowed to mark escrows rugged and to process refunds.
    pub authority: u64,
    /// Destination of the protocol fee taken on buys.
    pub treasury: u64,
    /// Reserve level at which a bonding curve graduates.
    pub graduation_threshold: u64,
}

/// Bonding curve state for one asset.
#[derive(Clone, Copy, Debug, PartialEq, Eq, Structural)]
pub struct BondingCurve {
    /// Identity of the asset traded on this curve.
    pub token_mint: u64,
    /// Token subunits currently outstanding (minted minus burned).
    pub current_supply: u64,
    /// Price of the first whole token, in base value units.
    pub base_price: u64,
    /// Price increase per whole token of supply.
    pub slope: u64,
    /// Spendable value held against the outstanding supply.
    pub reserve_balance: u64,
    /// Lifetime net value received from buys; never decreases, and is
    /// the denominator of the pro-rata refund share.
    pub total_value_collected: u64,
    /// One-way flag: once set, trading on this curve is disabled forever.
    pub graduated: bool,
    /// Identity of the deployer who launched the asset.
    pub deployer: u64,
}

impl BondingCurve {
    /// The spendable reserve never exceeds the lifetime collected total:
    /// both grow by the same net amount on a buy, and only the reserve
    /// shrinks on a sell.
    pub open spec fn wf(self) -> bool {
        self.reserve_balance <= self.total_value_collected
    }
}

/// Escrow vault holding a deployer's collateral for one asset.
#[derive(Clone, Copy, Debug, PartialEq, Eq, Structural)]
pub struct EscrowVault {
    /// Identity of the deployer who posted the collateral.
    pub deployer: u64,
    /// Identity of the asset the collateral backs.
    pub token_mint: u64,
    /// Collateral still held in the vault; set at creation, and only
    /// ever lowered by a release or by refund payouts.
    pub collateral_amount: u64,
    /// Timestamp of creation; start of the safe-period time lock.
    pub created_at: i64,
    /// One-way flag: the collateral went back to the deployer.
    pub released: bool,
    /// One-way flag set by the authority; gates refund eligibility.
    pub rugged: bool,
}

/// Running purchase history of one buyer on one asset, used only to
/// compute that buyer's refund share.
#[derive(Clone, Copy, Debug, PartialEq, Eq, Structural)]
pub struct BuyerRecord {
    /// Identity of the buyer.
    pub buyer: u64,
    /// Identity of the asset bought.
    pub token_mint: u64,
    /// Token subunits bought in total.
    pub total_bought: u64,
    /// Value spent in total, as recorded purchase by purchase.
    pub total_value_spent: u64,
    /// Average unit price paid, scaled by `UNITS_PER_WHOLE`.
    pub avg_price: u64,
    /// One-way flag: this buyer's refund was paid.
    pub refund_claimed: bool,
    /// Timestamp of the first recorded purchase.
    pub first_buy_at: i64,
}

impl Default for BuyerRecord {
    /// The empty record the host hands to a buyer's first purchase.
    fn default() -> (r: Self)
        ensures
            r == (BuyerRecord {
                buyer: 0,
                token_mint: 0,
                total_bought: 0,
                total_value_spent: 0,
                avg_price: 0,
                refund_claimed: false,
                first_buy_at: 0,
            }),
    {
        BuyerRecord {
            buyer: 0,
            token_mint: 0,
            total_bought: 0,
            total_value_spent: 0,
            avg_price: 0,
            refund_claimed: false,
            first_buy_at: 0,
        }
    }
}

} // verus!
