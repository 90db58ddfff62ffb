use vstd::prelude::*;

use crate::constants::{BPS_DENOMINATOR, PROTOCOL_FEE_BPS, TRADE_FEE_BPS, UNITS_PER_WHOLE};
use crate::errors::FyrstError;
use crate::state::{BondingCurve, ProtocolConfig};

verus! {

/// Price and fee breakdown of a successful buy. The caller routes
/// `trade_fee + protocol_fee` to the fee destinations and `net_value`
/// into the curve's custody.
#[derive(Clone, Copy, Debug, PartialEq, Eq, Structural)]
pub struct BuyQuote {
    /// Unit price the trade executed at.
    pub price: u64,
    /// Trade fee taken from the value paid in.
    pub trade_fee: u64,
    /// Protocol fee taken from the value paid in.
    pub protocol_fee: u64,
    /// Value added to the reserve: the payment minus both fees.
    pub net_value: u64,
    /// Token subunits minted to the buyer.
    pub tokens: u64,
}

/// Price and fee breakdown of a successful sell. The caller pays
/// `net` out of the curve's custody to the seller.
#[derive(Clone, Copy, Debug, PartialEq, Eq, Structural)]
pub struct SellQuote {
    /// Unit price the trade executed at.
    pub price: u64,
    /// Value of the tokens sold, before the fee.
    pub gross: u64,
    /// Trade fee kept back from the gross value.
    pub fee: u64,
    /// Value paid out to the seller.
    pub net: u64,
}

/// Linear curve price: the base price plus the slope once per whole
/// token of accumulated supply.
pub open spec fn price_at(base_price: u64, slope: u64, supply: u64) -> int {
    base_price + slope * (supply as int / (UNITS_PER_WHOLE as int))
}

/// The current unit price of a curve.
pub open spec fn spec_price(c: BondingCurve) -> int {
    price_at(c.base_price, c.slope, c.current_supply)
}

/// What a buy of `value_in` does to a curve: either the follow-up state
/// paired with the quote, or the error, with the state untouched.
pub open spec fn spec_buy(c: BondingCurve, threshold: u64, value_in: u64) -> Result<
    (BondingCurve, BuyQuote),
    FyrstError,
> {
    if c.graduated {
        Err(FyrstError::AlreadyGraduated)
    } else if value_in == 0 {
        Err(FyrstError::InsufficientFunds)
    } else if spec_price(c) > u64::MAX {
        Err(FyrstError::MathOverflow)
    } else if spec_price(c) == 0 {
        Err(FyrstError::InvalidPrice)
    } else if value_in * TRADE_FEE_BPS > u64::MAX || value_in * PROTOCOL_FEE_BPS > u64::MAX {
        Err(FyrstError::MathOverflow)
    } else {
        let price: int = spec_price(c);
        let trade_fee: int = (value_in * TRADE_FEE_BPS) / (BPS_DENOMINATOR as int);
        let protocol_fee: int = (value_in * PROTOCOL_FEE_BPS) / (BPS_DENOMINATOR as int);
        let net: int = value_in - trade_fee - protocol_fee;
        let tokens: int = (net * UNITS_PER_WHOLE) / price;
        if tokens > u64::MAX || c.current_supply + tokens > u64::MAX || c.reserve_balance + net
            > u64::MAX || c.total_value_collected + net > u64::MAX {
            Err(FyrstError::MathOverflow)
        } else {
            let new_reserve: u64 = (c.reserve_balance + net) as u64;
            Ok(
                (
                    BondingCurve {
                        current_supply: (c.current_supply + tokens) as u64,
                        reserve_balance: new_reserve,
                        total_value_collected: (c.total_value_collected + net) as u64,
                        graduated: new_reserve >= threshold,
                        ..c
                    },
                    BuyQuote {
                        price: price as u64,
                        trade_fee: trade_fee as u64,
                        protocol_fee: protocol_fee as u64,
                        net_value: net as u64,
                        tokens: tokens as u64,
                    },
                ),
            )
        }
    }
}

/// What a sell of `token_amount` does to a curve. The lifetime collected
/// total is deliberately left untouched: it is the refund denominator.
pub open spec fn spec_sell(c: BondingCurve, token_amount: u64) -> Result<
    (BondingCurve, SellQuote),
    FyrstError,
> {
    if c.graduated {
        Err(FyrstError::AlreadyGraduated)
    } else if token_amount == 0 {
        Err(FyrstError::InsufficientTokens)
    } else if token_amount > c.current_supply {
        Err(FyrstError::InsufficientTokens)
    } else if spec_price(c) > u64::MAX {
        Err(FyrstError::MathOverflow)
    } else {
        let price: int = spec_price(c);
        let gross: int = (token_amount * price) / (UNITS_PER_WHOLE as int);
        if gross > u64::MAX || gross * TRADE_FEE_BPS > u64::MAX {
            Err(FyrstError::MathOverflow)
        } else {
            let fee: int = (gross * TRADE_FEE_BPS) / (BPS_DENOMINATOR as int);
            let net: int = gross - fee;
            if net > c.reserve_balance {
                Err(FyrstError::InsufficientFunds)
            } else {
                Ok(
                    (
                        BondingCurve {
                            current_supply: (c.current_supply - token_amount) as u64,
                            reserve_balance: (c.reserve_balance - net) as u64,
                            ..c
                        },
                        SellQuote {
                            price: price as u64,
                            gross: gross as u64,
                            fee: fee as u64,
                            net: net as u64,
                        },
                    ),
                )
            }
        }
    }
}

/// Byte limits on the asset metadata: name, symbol, and URI.
pub open spec fn metadata_within_limits(name: Seq<u8>, symbol: Seq<u8>, uri: Seq<u8>) -> bool {
    name.len() <= 64 && symbol.len() <= 20 && uri.len() <= 200
}

/// The four little-endian bytes of a 32-bit length.
pub open spec fn le32_bytes(n: int) -> Seq<u8> {
    seq![
        (n % 256) as u8,
        ((n / 256) % 256) as u8,
        ((n / 65536) % 256) as u8,
        ((n / 16777216) % 256) as u8,
    ]
}

/// A byte string as the metadata registry encodes it: a 32-bit
/// little-endian length, then the bytes.
pub open spec fn length_prefixed(s: Seq<u8>) -> Seq<u8> {
    le32_bytes(s.len() as int) + s
}

/// The payload registering an asset's metadata with the external
/// registry: its instruction discriminator, the three length-prefixed
/// strings, a zero royalty fee, three empty optional sections, a
/// mutability flag, and one more empty optional section.
pub open spec fn metadata_payload_bytes(name: Seq<u8>, symbol: Seq<u8>, uri: Seq<u8>) -> Seq<u8> {
    seq![33u8] + length_prefixed(name) + length_prefixed(symbol) + length_prefixed(uri) + seq![
        0u8,
        0u8,
        0u8,
        0u8,
        0u8,
        1u8,
        0u8,
    ]
}

/// Append one length-prefixed byte string to the payload being built.
fn push_length_prefixed(out: &mut Vec<u8>, s: &Vec<u8>)
    requires
        s@.len() <= 200,
    ensures
        final(out)@ == old(out)@ + length_prefixed(s@),
{
    let len: usize = s.len();
    let b0: u8 = (len % 256) as u8;
    let b1: u8 = ((len / 256) % 256) as u8;
    let b2: u8 = ((len / 65536) % 256) as u8;
    let b3: u8 = ((len / 16777216) % 256) as u8;
    proof {
        assert(seq![b0, b1, b2, b3] =~= le32_bytes(s@.len() as int));
    }
    out.push(b0);
    out.push(b1);
    out.push(b2);
    out.push(b3);
    let mut i: usize = 0;
    while i < s.len()
        invariant
            i <= s@.len(),
            s@.len() <= 200,
            out@ == old(out)@ + le32_bytes(s@.len() as int) + s@.subrange(0, i as int),
        decreases s@.len() - i,
    {
        let b: u8 = s[i];
        out.push(b);
        proof {
            assert(s@.subrange(0, i as int).push(b) =~= s@.subrange(0, i + 1 as int));
        }
        i = i + 1;
    }
    proof {
        assert(s@.subrange(0, s@.len() as int) =~= s@);
        assert(out@ =~= old(out)@ + length_prefixed(s@));
    }
}

/// Launch a bonding curve for a new asset. Checks the metadata byte
/// limits, and returns the zeroed curve state together with the payload
/// the caller submits to the external metadata registry.
pub fn init_bonding_curve(
    token_mint: u64,
    deployer: u64,
    base_price: u64,
    slope: u64,
    name: &Vec<u8>,
    symbol: &Vec<u8>,
    uri: &Vec<u8>,
) -> (r: Result<(BondingCurve, Vec<u8>), FyrstError>)
    ensures
        match r {
            Ok(out) => metadata_within_limits(name@, symbol@, uri@) && out.0 == (BondingCurve {
                token_mint,
                current_supply: 0,
                base_price,
                slope,
                reserve_balance: 0,
                total_value_collected: 0,
                graduated: false,
                deployer,
            }) && out.1@ == metadata_payload_bytes(name@, symbol@, uri@),
            Err(e) => e == FyrstError::InvalidMetadata && !metadata_within_limits(
                name@,
                symbol@,
                uri@,
            ),
        },
{
    if name.len() > 64 {
        return Err(FyrstError::InvalidMetadata);
    }
    if symbol.len() > 20 {
        return Err(FyrstError::InvalidMetadata);
    }
    if uri.len() > 200 {
        return Err(FyrstError::InvalidMetadata);
    }
    let mut payload: Vec<u8> = Vec::new();
    payload.push(33u8);
    push_length_prefixed(&mut payload, name);
    push_length_prefixed(&mut payload, symbol);
    push_length_prefixed(&mut payload, uri);
    payload.push(0u8);
    payload.push(0u8);
    payload.push(0u8);
    payload.push(0u8);
    payload.push(0u8);
    payload.push(1u8);
    payload.push(0u8);
    proof {
        assert(payload@ =~= metadata_payload_bytes(name@, symbol@, uri@));
    }
    let curve = BondingCurve {
        token_mint,
        current_supply: 0,
        base_price,
        slope,
        reserve_balance: 0,
        total_value_collected: 0,
        graduated: false,
        deployer,
    };
    Ok((curve, payload))
}

/// The current unit price of the curve; `MathOverflow` exactly when the
/// price exceeds `u64::MAX`.
pub fn current_price(c: &BondingCurve) -> (r: Result<u64, FyrstError>)
    ensures
        match r {
            Ok(p) => p == spec_price(*c),
            Err(e) => e == FyrstError::MathOverflow && spec_price(*c) > u64::MAX,
        },
{
    let supply_units: u64 = c.current_supply / UNITS_PER_WHOLE;
    proof {
        vstd::arithmetic::mul::lemma_mul_upper_bound(
            c.slope as int,
            u64::MAX as int,
            supply_units as int,
            u64::MAX as int,
        );
    }
    let step: u128 = (c.slope as u128) * (supply_units as u128);
    let price128: u128 = (c.base_price as u128) + step;
    if price128 > u64::MAX as u128 {
        Err(FyrstError::MathOverflow)
    } else {
        Ok(price128 as u64)
    }
}

/// Buy tokens with `value_in`: quote the price, take both fees, mint
/// `tokens` against the net value, and graduate the curve if the new
/// reserve meets the threshold. On any error the curve is unchanged.
pub fn buy_tokens(curve: &mut BondingCurve, config: &ProtocolConfig, value_in: u64) -> (r: Result<
    BuyQuote,
    FyrstError,
>)
    ensures
        match spec_buy(*old(curve), config.graduation_threshold, value_in) {
            Ok(next) => r == Ok::<BuyQuote, FyrstError>(next.1) && *final(curve) == next.0,
            Err(e) => r == Err::<BuyQuote, FyrstError>(e) && *final(curve) == *old(curve),
        },
        old(curve).wf() ==> final(curve).wf(),
{
    if curve.graduated {
        return Err(FyrstError::AlreadyGraduated);
    }
    if value_in == 0 {
        return Err(FyrstError::InsufficientFunds);
    }
    let price: u64 = match current_price(curve) {
        Ok(p) => p,
        Err(e) => {
            return Err(e);
        },
    };
    if price == 0 {
        return Err(FyrstError::InvalidPrice);
    }
    let tf_num: u128 = (value_in as u128) * (TRADE_FEE_BPS as u128);
    if tf_num > u64::MAX as u128 {
        return Err(FyrstError::MathOverflow);
    }
    let trade_fee: u64 = (tf_num / (BPS_DENOMINATOR as u128)) as u64;
    let pf_num: u128 = (value_in as u128) * (PROTOCOL_FEE_BPS as u128);
    if pf_num > u64::MAX as u128 {
        return Err(FyrstError::MathOverflow);
    }
    let protocol_fee: u64 = (pf_num / (BPS_DENOMINATOR as u128)) as u64;
    assert(trade_fee + protocol_fee <= value_in);
    let net: u64 = value_in - trade_fee - protocol_fee;
    let tok_num: u128 = (net as u128) * (UNITS_PER_WHOLE as u128);
    let tokens128: u128 = tok_num / (price as u128);
    if tokens128 > u64::MAX as u128 {
        return Err(FyrstError::MathOverflow);
    }
    let tokens: u64 = tokens128 as u64;
    if tokens > u64::MAX - curve.current_supply {
        return Err(FyrstError::MathOverflow);
    }
    if net > u64::MAX - curve.reserve_balance {
        return Err(FyrstError::MathOverflow);
    }
    if net > u64::MAX - curve.total_value_collected {
        return Err(FyrstError::MathOverflow);
    }
    curve.current_supply = curve.current_supply + tokens;
    curve.reserve_balance = curve.reserve_balance + net;
    curve.total_value_collected = curve.total_value_collected + net;
    if curve.reserve_balance >= config.graduation_threshold {
        curve.graduated = true;
    }
    Ok(BuyQuote { price, trade_fee, protocol_fee, net_value: net, tokens })
}

/// Sell `token_amount` back to the curve: quote the gross value at the
/// current price, keep the trade fee, and pay the net out of the
/// reserve. The lifetime collected total is not lowered. On any error
/// the curve is unchanged.
pub fn sell_tokens(curve: &mut BondingCurve, token_amount: u64) -> (r: Result<
    SellQuote,
    FyrstError,
>)
    ensures
        match spec_sell(*old(curve), token_amount) {
            Ok(next) => r == Ok::<SellQuote, FyrstError>(next.1) && *final(curve) == next.0,
            Err(e) => r == Err::<SellQuote, FyrstError>(e) && *final(curve) == *old(curve),
        },
        old(curve).wf() ==> final(curve).wf(),
{
    if curve.graduated {
        return Err(FyrstError::AlreadyGraduated);
    }
    if token_amount == 0 {
        return Err(FyrstError::InsufficientTokens);
    }
    if token_amount > curve.current_supply {
        return Err(FyrstError::InsufficientTokens);
    }
    let price: u64 = match current_price(curve) {
        Ok(p) => p,
        Err(e) => {
            return Err(e);
        },
    };
    proof {
        vstd::arithmetic::mul::lemma_mul_upper_bound(
            token_amount as int,
            u64::MAX as int,
            price as int,
            u64::MAX as int,
        );
    }
    let gross_num: u128 = (token_amount as u128) * (price as u128);
    let gross128: u128 = gross_num / (UNITS_PER_WHOLE as u128);
    if gross128 > u64::MAX as u128 {
        return Err(FyrstError::MathOverflow);
    }
    let gross: u64 = gross128 as u64;
    let fee_num: u128 = (gross as u128) * (TRADE_FEE_BPS as u128);
    if fee_num > u64::MAX as u128 {
        return Err(FyrstError::MathOverflow);
    }
    let fee: u64 = (fee_num / (BPS_DENOMINATOR as u128)) as u64;
    assert(fee <= gross);
    let net: u64 = gross - fee;
    if net > curve.reserve_balance {
        return Err(FyrstError::InsufficientFunds);
    }
    curve.current_supply = curve.current_supply - token_amount;
    curve.reserve_balance = curve.reserve_balance - net;
    Ok(SellQuote { price, gross, fee, net })
}

} // verus!
