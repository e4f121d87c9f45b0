//! Split of settlement proceeds between the investor and the platform.
use vstd::prelude::*;

verus! {

/// Basis-point denominator: 10_000 bps is 100%.
pub const BPS_DENOMINATOR: i128 = 10000;

/// The split of a settlement payment: `(investor_return, platform_fee)`.
/// The fee is `fee_bps` of the profit over the invested amount, rounded
/// down; without profit there is no fee.
pub open spec fn spec_calculate_profit(investment_amount: i128, payment_amount: i128, fee_bps: i128) -> (i128, i128) {
    if payment_amount <= investment_amount {
        (payment_amount, 0)
    } else {
        let fee = ((payment_amount - investment_amount) * fee_bps) / 10000;
        ((payment_amount - fee) as i128, fee as i128)
    }
}

proof fn lemma_split_fee(profit: int, bps: int)
    requires
        profit >= 0,
        0 <= bps <= 10000,
    ensures
        (profit / 10000) * bps + ((profit % 10000) * bps) / 10000 == (profit * bps) / 10000,
        0 <= (profit * bps) / 10000 <= profit,
{
    let q = profit / 10000;
    let r = profit % 10000;
    assert(profit == q * 10000 + r && 0 <= r < 10000) by (nonlinear_arith)
        requires
            profit >= 0,
            q == profit / 10000,
            r == profit % 10000,
    ;
    assert(profit * bps == (q * bps) * 10000 + r * bps) by (nonlinear_arith)
        requires
            profit == q * 10000 + r,
    ;
    assert(((q * bps) * 10000 + r * bps) / 10000 == q * bps + (r * bps) / 10000) by {
        vstd::arithmetic::div_mod::lemma_hoist_over_denominator(r * bps, q * bps, 10000);
    }
    assert(0 <= profit * bps <= profit * 10000) by (nonlinear_arith)
        requires
            profit >= 0,
            0 <= bps <= 10000,
    ;
    assert((profit * 10000) / 10000 == profit) by (nonlinear_arith);
    vstd::arithmetic::div_mod::lemma_div_is_ordered(profit * bps, profit * 10000, 10000);
    vstd::arithmetic::div_mod::lemma_div_pos_is_pos(profit * bps, 10000);
}

/// No dust: the investor's return and the platform fee add up to the
/// payment exactly; the fee is never negative, is zero without profit and
/// never exceeds the profit.
pub proof fn lemma_profit_split_exact(investment_amount: i128, payment_amount: i128, fee_bps: i128)
    requires
        investment_amount >= 0,
        payment_amount >= 0,
        0 <= fee_bps <= BPS_DENOMINATOR,
    ensures
        spec_calculate_profit(investment_amount, payment_amount, fee_bps).0 + spec_calculate_profit(
            investment_amount,
            payment_amount,
            fee_bps,
        ).1 == payment_amount,
        0 <= spec_calculate_profit(investment_amount, payment_amount, fee_bps).1,
        payment_amount <= investment_amount ==> spec_calculate_profit(investment_amount, payment_amount, fee_bps).1 == 0,
        payment_amount > investment_amount ==> spec_calculate_profit(investment_amount, payment_amount, fee_bps).1
            <= payment_amount - investment_amount,
{
    if payment_amount > investment_amount {
        lemma_split_fee(payment_amount - investment_amount, fee_bps as int);
    }
}

/// Split a settlement payment into the investor's return and the platform
/// fee. The two parts always add up to the payment.
pub fn calculate_profit(investment_amount: i128, payment_amount: i128, fee_bps: i128) -> (r: (
    i128,
    i128,
))
    requires
        investment_amount >= 0,
        payment_amount >= 0,
        0 <= fee_bps <= BPS_DENOMINATOR,
    ensures
        r == spec_calculate_profit(investment_amount, payment_amount, fee_bps),
        r.0 + r.1 == payment_amount,
        0 <= r.1,
        r.0 >= investment_amount || r.0 == payment_amount,
{
    if payment_amount <= investment_amount {
        return (payment_amount, 0);
    }
    let profit = payment_amount - investment_amount;
    proof {
        lemma_split_fee(profit as int, fee_bps as int);
    }
    let q = profit / BPS_DENOMINATOR;
    let rem = profit % BPS_DENOMINATOR;
    assert(q * fee_bps <= profit) by (nonlinear_arith)
        requires
            q == profit / 10000,
            profit >= 0,
            0 <= fee_bps <= 10000,
    ;
    assert(rem * fee_bps <= 100000000) by (nonlinear_arith)
        requires
            0 <= rem < 10000,
            0 <= fee_bps <= 10000,
    ;
    assert(rem * fee_bps >= 0) by (nonlinear_arith)
        requires
            0 <= rem,
            0 <= fee_bps,
    ;
    assert(q * fee_bps >= 0) by (nonlinear_arith)
        requires
            0 <= q,
            0 <= fee_bps,
    ;
    let fee = q * fee_bps + (rem * fee_bps) / BPS_DENOMINATOR;
    (payment_amount - fee, fee)
}

} // verus!
