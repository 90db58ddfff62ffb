use vstd::prelude::*;

use vstd::arithmetic::div_mod::{
    lemma_div_is_ordered, lemma_div_multiples_vanish, lemma_fundamental_div_mod, lemma_mod_bound,
};
use vstd::arithmetic::mul::{lemma_mul_inequality, lemma_mul_is_commutative};

use crate::constants::UNITS_PER_WHOLE;
use crate::curve::{price_at, spec_buy, spec_price, spec_sell, BuyQuote, SellQuote};
use crate::errors::FyrstError;
use crate::protocol::spec_graduate;
use crate::refund::spec_record_buyer;
use crate::state::{BondingCurve, BuyerRecord};

verus! {

/// One trading request against a curve.
pub enum TradeOp {
    Buy { value_in: u64 },
    Sell { token_amount: u64 },
}

/// The curve after one trading request; a failed request leaves it
/// untouched.
pub open spec fn apply_trade(c: BondingCurve, threshold: u64, op: TradeOp) -> BondingCurve {
    match op {
        TradeOp::Buy { value_in } => match spec_buy(c, threshold, value_in) {
            Ok(next) => next.0,
            Err(_) => c,
        },
        TradeOp::Sell { token_amount } => match spec_sell(c, token_amount) {
            Ok(next) => next.0,
            Err(_) => c,
        },
    }
}

/// The curve after a sequence of trading requests.
pub open spec fn run_trades(c: BondingCurve, threshold: u64, ops: Seq<TradeOp>) -> BondingCurve
    decreases ops.len(),
{
    if ops.len() == 0 {
        c
    } else {
        run_trades(apply_trade(c, threshold, ops[0]), threshold, ops.drop_first())
    }
}

/// Token subunits minted by the successful buys of a run.
pub open spec fn tokens_minted(c: BondingCurve, threshold: u64, ops: Seq<TradeOp>) -> int
    decreases ops.len(),
{
    if ops.len() == 0 {
        0
    } else {
        let here: int = match ops[0] {
            TradeOp::Buy { value_in } => match spec_buy(c, threshold, value_in) {
                Ok(next) => next.1.tokens as int,
                Err(_) => 0,
            },
            TradeOp::Sell { .. } => 0,
        };
        here + tokens_minted(apply_trade(c, threshold, ops[0]), threshold, ops.drop_first())
    }
}

/// Token subunits burned by the successful sells of a run.
pub open spec fn tokens_burned(c: BondingCurve, threshold: u64, ops: Seq<TradeOp>) -> int
    decreases ops.len(),
{
    if ops.len() == 0 {
        0
    } else {
        let here: int = match ops[0] {
            TradeOp::Buy { .. } => 0,
            TradeOp::Sell { token_amount } => match spec_sell(c, token_amount) {
                Ok(_) => token_amount as int,
                Err(_) => 0,
            },
        };
        here + tokens_burned(apply_trade(c, threshold, ops[0]), threshold, ops.drop_first())
    }
}

/// The curve price never decreases as supply grows, for any fixed base
/// price and slope.
pub proof fn lemma_price_nondecreasing(base_price: u64, slope: u64, s1: u64, s2: u64)
    requires
        s1 <= s2,
    ensures
        price_at(base_price, slope, s1) <= price_at(base_price, slope, s2),
{
    let u: int = UNITS_PER_WHOLE as int;
    lemma_div_is_ordered(s1 as int, s2 as int, u);
    lemma_mul_inequality(s1 as int / u, s2 as int / u, slope as int);
    lemma_mul_is_commutative(slope as int, s1 as int / u);
    lemma_mul_is_commutative(slope as int, s2 as int / u);
}

/// A successful buy mints exactly the quoted tokens, adds exactly the
/// quoted net value to both the reserve and the lifetime total, and
/// its quote's parts add back up to the value paid in.
pub proof fn lemma_buy_effects(c: BondingCurve, threshold: u64, value_in: u64)
    ensures
        spec_buy(c, threshold, value_in) matches Ok(next) ==> {
            &&& !c.graduated
            &&& next.0.current_supply == c.current_supply + next.1.tokens
            &&& next.0.reserve_balance == c.reserve_balance + next.1.net_value
            &&& next.0.total_value_collected == c.total_value_collected + next.1.net_value
            &&& next.1.net_value + next.1.trade_fee + next.1.protocol_fee == value_in
            &&& next.0.base_price == c.base_price
            &&& next.0.slope == c.slope
            &&& next.0.token_mint == c.token_mint
            &&& next.0.deployer == c.deployer
        },
{
}

/// A successful sell burns exactly the requested tokens, pays exactly
/// the quoted net out of the reserve, never more than the reserve
/// holds, and leaves the lifetime total untouched.
pub proof fn lemma_sell_effects(c: BondingCurve, token_amount: u64)
    ensures
        spec_sell(c, token_amount) matches Ok(next) ==> {
            &&& !c.graduated
            &&& token_amount <= c.current_supply
            &&& next.0.current_supply == c.current_supply - token_amount
            &&& next.1.net <= c.reserve_balance
            &&& next.0.reserve_balance == c.reserve_balance - next.1.net
            &&& next.0.total_value_collected == c.total_value_collected
            &&& next.1.net + next.1.fee == next.1.gross
            &&& next.0.graduated == c.graduated
            &&& next.0.base_price == c.base_price
            &&& next.0.slope == c.slope
            &&& next.0.token_mint == c.token_mint
            &&& next.0.deployer == c.deployer
        },
{
}

/// Conservation of supply: after any sequence of trading requests, the
/// outstanding supply equals the initial supply plus every token minted
/// minus every token burned along the run.
pub proof fn lemma_supply_conservation(c: BondingCurve, threshold: u64, ops: Seq<TradeOp>)
    ensures
        run_trades(c, threshold, ops).current_supply == c.current_supply + tokens_minted(
            c,
            threshold,
            ops,
        ) - tokens_burned(c, threshold, ops),
    decreases ops.len(),
{
    if ops.len() > 0 {
        match ops[0] {
            TradeOp::Buy { value_in } => {
                lemma_buy_effects(c, threshold, value_in);
            },
            TradeOp::Sell { token_amount } => {
                lemma_sell_effects(c, token_amount);
            },
        }
        lemma_supply_conservation(apply_trade(c, threshold, ops[0]), threshold, ops.drop_first());
    }
}

/// Single requests on a graduated curve fail with `AlreadyGraduated`.
pub proof fn lemma_graduated_rejects(
    c: BondingCurve,
    threshold: u64,
    value_in: u64,
    token_amount: u64,
)
    requires
        c.graduated,
    ensures
        spec_buy(c, threshold, value_in) == Err::<(BondingCurve, BuyQuote), FyrstError>(
            FyrstError::AlreadyGraduated,
        ),
        spec_sell(c, token_amount) == Err::<(BondingCurve, SellQuote), FyrstError>(
            FyrstError::AlreadyGraduated,
        ),
        spec_graduate(c, threshold) == Err::<BondingCurve, FyrstError>(
            FyrstError::AlreadyGraduated,
        ),
{
}

/// A graduated curve is terminal: any sequence of trading requests
/// leaves it exactly as it is — supply and reserve included.
pub proof fn lemma_graduated_is_terminal(c: BondingCurve, threshold: u64, ops: Seq<TradeOp>)
    requires
        c.graduated,
    ensures
        run_trades(c, threshold, ops) == c,
    decreases ops.len(),
{
    if ops.len() > 0 {
        lemma_graduated_is_terminal(c, threshold, ops.drop_first());
    }
}

/// Graduation is one-way: once the flag is observed set, it stays set
/// across every later trading request.
pub proof fn lemma_graduation_monotone(c: BondingCurve, threshold: u64, ops: Seq<TradeOp>)
    ensures
        c.graduated ==> run_trades(c, threshold, ops).graduated,
{
    if c.graduated {
        lemma_graduated_is_terminal(c, threshold, ops);
    }
}

/// The spendable reserve stays within the lifetime collected total
/// across any sequence of trading requests.
pub proof fn lemma_trades_preserve_wf(c: BondingCurve, threshold: u64, ops: Seq<TradeOp>)
    requires
        c.wf(),
    ensures
        run_trades(c, threshold, ops).wf(),
    decreases ops.len(),
{
    if ops.len() > 0 {
        match ops[0] {
            TradeOp::Buy { value_in } => {
                lemma_buy_effects(c, threshold, value_in);
            },
            TradeOp::Sell { token_amount } => {
                lemma_sell_effects(c, token_amount);
            },
        }
        lemma_trades_preserve_wf(apply_trade(c, threshold, ops[0]), threshold, ops.drop_first());
    }
}

/// A buyer record keeps its average-price invariant: whenever anything
/// was bought, the stored average is the total spend scaled per whole
/// token over the total bought, floored.
pub proof fn lemma_record_keeps_average(
    rec: BuyerRecord,
    buyer: u64,
    token_mint: u64,
    amount: u64,
    price: u64,
    now: i64,
)
    ensures
        spec_record_buyer(rec, buyer, token_mint, amount, price, now) matches Ok(next) ==> (
        next.total_bought > 0 ==> next.avg_price == (next.total_value_spent * UNITS_PER_WHOLE) / (
        next.total_bought as int)),
{
}

/// A round trip loses value: buying with `value_in` and immediately
/// selling the minted tokens back, while the unit price is unchanged,
/// returns at most `value_in` minus all three fee legs — and strictly
/// less than `value_in` whenever any fee is nonzero. (A large buy with
/// a nonzero slope can raise the unit price before the sell; the bound
/// is stated for the unchanged-price case.)
pub proof fn lemma_round_trip_loses_value(c: BondingCurve, threshold: u64, value_in: u64)
    ensures
        spec_buy(c, threshold, value_in) matches Ok(bought) ==> (spec_price(bought.0)
            == spec_price(c) ==> (spec_sell(bought.0, bought.1.tokens) matches Ok(sold) ==> {
            &&& sold.1.net + bought.1.trade_fee + bought.1.protocol_fee + sold.1.fee <= value_in
            &&& bought.1.trade_fee + bought.1.protocol_fee + sold.1.fee > 0 ==> sold.1.net
                < value_in
        })),
{
    if let Ok(bought) = spec_buy(c, threshold, value_in) {
        if spec_price(bought.0) == spec_price(c) {
            if let Ok(sold) = spec_sell(bought.0, bought.1.tokens) {
                let u: int = UNITS_PER_WHOLE as int;
                let p: int = spec_price(c);
                let net: int = bought.1.net_value as int;
                let t: int = bought.1.tokens as int;
                // The buy floors t at net * u / p, so t * p cannot exceed net * u.
                lemma_fundamental_div_mod(net * u, p);
                lemma_mod_bound(net * u, p);
                lemma_mul_is_commutative(p, (net * u) / p);
                lemma_mul_is_commutative(t, p);
                // The sell grosses t * p / u, which therefore stays within net.
                lemma_div_is_ordered(t * p, net * u, u);
                lemma_mul_is_commutative(net, u);
                lemma_div_multiples_vanish(net, u);
            }
        }
    }
}

} // verus!
