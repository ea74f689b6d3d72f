use vstd::prelude::*;
use crate::errors::ErrorCode;
use crate::math::{lemma_quotient_bounds, mul_div_floor, mul_div_floor_u64};

verus! {

/// Rates are counted in millionths.
pub const FEE_RATE_DENOMINATOR_VALUE: u64 = 1_000_000;

/// How the fee of one trade is shared out.
#[derive(Clone, Copy, Debug, PartialEq, Eq, Structural)]
pub struct FeeSplit {
    /// What stays in the pool for the liquidity providers.
    pub lp_fee: u64,
    /// What the protocol owner may collect.
    pub protocol_fee: u64,
    /// What the fund owner may collect.
    pub fund_fee: u64,
}

impl FeeSplit {
    /// The whole fee: the three shares together.
    pub open spec fn total(self) -> nat {
        (self.lp_fee + self.protocol_fee + self.fund_fee) as nat
    }
}

/// The whole fee of a trade: the amount times the trade rate, in millionths,
/// rounded down.
pub open spec fn trade_fee(trade_amount: u64, trade_fee_rate: u64) -> nat {
    mul_div_floor(trade_amount as nat, trade_fee_rate as nat, FEE_RATE_DENOMINATOR_VALUE as nat)
}

/// The share of the whole fee that belongs to a rate which is itself a part
/// of the trade rate, rounded down. A trade rate of zero leaves no fee to share.
pub open spec fn fee_share(total: nat, rate: u64, trade_fee_rate: u64) -> nat {
    if trade_fee_rate == 0 {
        0
    } else {
        mul_div_floor(total, rate as nat, trade_fee_rate as nat)
    }
}

/// What `split_fee` returns.
///
/// The whole fee and both shares have to fit 64 bits, and the shares
/// together may not exceed the whole.
pub open spec fn spec_split_fee(
    trade_amount: u64,
    trade_fee_rate: u64,
    protocol_fee_rate: u64,
    fund_fee_rate: u64,
) -> Result<FeeSplit, ErrorCode> {
    let total = trade_fee(trade_amount, trade_fee_rate);
    let protocol = fee_share(total, protocol_fee_rate, trade_fee_rate);
    let fund = fee_share(total, fund_fee_rate, trade_fee_rate);
    if total > u64::MAX || protocol > u64::MAX || fund > u64::MAX {
        Err(ErrorCode::ArithmeticOverflow)
    } else if protocol + fund > total {
        Err(ErrorCode::ArithmeticUnderflow)
    } else {
        Ok(
            FeeSplit {
                lp_fee: (total - protocol - fund) as u64,
                protocol_fee: protocol as u64,
                fund_fee: fund as u64,
            },
        )
    }
}

/// The rates of a fee tier are in order when each is below the denominator
/// and the protocol and fund rates together stay within the trade rate.
pub open spec fn rates_in_order(trade_fee_rate: u64, protocol_fee_rate: u64, fund_fee_rate: u64) -> bool {
    &&& trade_fee_rate < FEE_RATE_DENOMINATOR_VALUE
    &&& protocol_fee_rate < FEE_RATE_DENOMINATOR_VALUE
    &&& fund_fee_rate < FEE_RATE_DENOMINATOR_VALUE
    &&& protocol_fee_rate + fund_fee_rate <= trade_fee_rate
}

/// With rates in order the whole fee is less than a positive amount, and the
/// two shares together stay within it.
pub proof fn lemma_fee_within_amount(
    trade_amount: u64,
    trade_fee_rate: u64,
    protocol_fee_rate: u64,
    fund_fee_rate: u64,
)
    requires
        rates_in_order(trade_fee_rate, protocol_fee_rate, fund_fee_rate),
    ensures
        trade_fee(trade_amount, trade_fee_rate) <= trade_amount,
        trade_amount > 0 ==> trade_fee(trade_amount, trade_fee_rate) < trade_amount,
        fee_share(trade_fee(trade_amount, trade_fee_rate), protocol_fee_rate, trade_fee_rate)
            + fee_share(trade_fee(trade_amount, trade_fee_rate), fund_fee_rate, trade_fee_rate)
            <= trade_fee(trade_amount, trade_fee_rate),
        spec_split_fee(trade_amount, trade_fee_rate, protocol_fee_rate, fund_fee_rate) is Ok,
{
    let a = trade_amount as nat;
    let t = trade_fee_rate as nat;
    let p = protocol_fee_rate as nat;
    let f = fund_fee_rate as nat;
    let d = FEE_RATE_DENOMINATOR_VALUE as nat;
    let total = trade_fee(trade_amount, trade_fee_rate);
    lemma_quotient_bounds(a * t, d);
    if a > 0 {
        assert(a * t <= a * d - a) by (nonlinear_arith)
            requires
                t + 1 <= d,
        ;
        assert((a - 1) * d + (d - a) == a * d - a) by (nonlinear_arith);
        if total >= a {
            assert(total * d >= a * d) by (nonlinear_arith)
                requires
                    total >= a,
            ;
        }
    } else {
        assert(a * t == 0) by (nonlinear_arith)
            requires
                a == 0,
        ;
    }
    if t > 0 {
        let x = fee_share(total, protocol_fee_rate, trade_fee_rate);
        let y = fee_share(total, fund_fee_rate, trade_fee_rate);
        lemma_quotient_bounds(total * p, t);
        lemma_quotient_bounds(total * f, t);
        assert((x + y) * t <= total * t) by (nonlinear_arith)
            requires
                x * t <= total * p,
                y * t <= total * f,
                p + f <= t,
        ;
        assert(x + y <= total) by (nonlinear_arith)
            requires
                (x + y) * t <= total * t,
                t > 0,
        ;
    }
}

/// Shares the fee of a trade between the liquidity providers, the protocol
/// and the fund.
///
/// The whole fee is the amount times the trade rate in millionths, rounded
/// down; the protocol and the fund each get the part of it that their rate is
/// of the trade rate, rounded down; the liquidity providers keep the rest.
/// Nothing is counted twice: the three shares add up to the whole fee.
pub fn split_fee(
    trade_amount: u64,
    trade_fee_rate: u64,
    protocol_fee_rate: u64,
    fund_fee_rate: u64,
) -> (r: Result<FeeSplit, ErrorCode>)
    ensures
        r == spec_split_fee(trade_amount, trade_fee_rate, protocol_fee_rate, fund_fee_rate),
        r matches Ok(s) ==> s.total() == trade_fee(trade_amount, trade_fee_rate),
        rates_in_order(trade_fee_rate, protocol_fee_rate, fund_fee_rate) ==> (r matches Ok(s)
            && s.total() <= trade_amount),
{
    proof {
        if rates_in_order(trade_fee_rate, protocol_fee_rate, fund_fee_rate) {
            lemma_fee_within_amount(trade_amount, trade_fee_rate, protocol_fee_rate, fund_fee_rate);
        }
    }
    let total = mul_div_floor_u64(trade_amount, trade_fee_rate, FEE_RATE_DENOMINATOR_VALUE);
    if total > u64::MAX as u128 {
        return Err(ErrorCode::ArithmeticOverflow);
    }
    let total: u64 = total as u64;
    let mut protocol: u128 = 0;
    let mut fund: u128 = 0;
    if trade_fee_rate != 0 {
        protocol = mul_div_floor_u64(total, protocol_fee_rate, trade_fee_rate);
        fund = mul_div_floor_u64(total, fund_fee_rate, trade_fee_rate);
    }
    if protocol > u64::MAX as u128 || fund > u64::MAX as u128 {
        return Err(ErrorCode::ArithmeticOverflow);
    }
    let protocol: u64 = protocol as u64;
    let fund: u64 = fund as u64;
    if protocol as u128 + fund as u128 > total as u128 {
        return Err(ErrorCode::ArithmeticUnderflow);
    }
    Ok(FeeSplit { lp_fee: total - protocol - fund, protocol_fee: protocol, fund_fee: fund })
}

} // verus!
