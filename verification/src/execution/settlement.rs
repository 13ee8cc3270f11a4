//! The accounting of a completed attempt: what the backrun brought in, what
//! the two transactions cost in gas, and what is reported as profit.

use crate::primitives::{modulus, u256_add, u256_mul, u256_sub, U256};
use vstd::prelude::*;

verus! {

/// What the chain recorded of one submitted transaction.
#[derive(Clone, Copy, Debug, PartialEq, Eq)]
pub struct Receipt {
    pub success: bool,
    pub gas_used: u64,
    pub effective_gas_price: u128,
}

/// What the backrun brought in: the growth of the input-token balance, or
/// nothing when the balance shrank.
pub open spec fn revenue_value(before: nat, after: nat) -> nat {
    if after > before {
        (after - before) as nat
    } else {
        0
    }
}

/// Gas paid for both legs: gas used times effective price, summed.
pub open spec fn gas_cost_value(frontrun: Receipt, backrun: Receipt) -> nat {
    (frontrun.gas_used as nat) * (frontrun.effective_gas_price as nat) + (backrun.gas_used as nat)
        * (backrun.effective_gas_price as nat)
}

/// Reported profit: revenue less gas cost where that is positive, else zero.
pub open spec fn net_profit_value(
    before: nat,
    after: nat,
    frontrun: Receipt,
    backrun: Receipt,
) -> nat {
    let revenue = revenue_value(before, after);
    let cost = gas_cost_value(frontrun, backrun);
    if revenue > cost {
        (revenue - cost) as nat
    } else {
        0
    }
}

/// The gas cost of one leg stays below two to the power 192.
proof fn lemma_leg_cost_bound(gas_used: u64, price: u128)
    ensures
        (gas_used as nat) * (price as nat) < 0x1_0000_0000_0000_0000_0000_0000_0000_0000_0000_0000_0000_0000,
{
    assert((gas_used as nat) * (price as nat) <= 0xffff_ffff_ffff_ffff
        * 0xffff_ffff_ffff_ffff_ffff_ffff_ffff_ffff) by (nonlinear_arith)
        requires
            gas_used <= 0xffff_ffff_ffff_ffff,
            price <= 0xffff_ffff_ffff_ffff_ffff_ffff_ffff_ffff,
    ;
}

/// The revenue between two readings of the input-token balance.
pub fn revenue(before: &U256, after: &U256) -> (r: U256)
    ensures
        r@ == revenue_value(before@, after@),
{
    if after.gt(before) {
        let r = u256_sub(*after, *before);
        assert((after@ - before@) % (modulus() as int) == after@ - before@);
        r
    } else {
        U256::zero()
    }
}

/// The gas paid for both legs. The sum always fits 256 bits.
pub fn gas_cost(frontrun: &Receipt, backrun: &Receipt) -> (r: U256)
    ensures
        r@ == gas_cost_value(*frontrun, *backrun),
{
    proof {
        lemma_leg_cost_bound(frontrun.gas_used, frontrun.effective_gas_price);
        lemma_leg_cost_bound(backrun.gas_used, backrun.effective_gas_price);
    }
    let first = u256_mul(
        U256::from_u64(frontrun.gas_used),
        U256::from_u128(frontrun.effective_gas_price),
    );
    let second = u256_mul(
        U256::from_u64(backrun.gas_used),
        U256::from_u128(backrun.effective_gas_price),
    );
    u256_add(first, second)
}

/// Settles one completed attempt from the two balance readings and the two
/// receipts. A balance that shrank counts as no revenue, and a loss is
/// reported as zero profit.
pub fn net_profit(before: &U256, after: &U256, frontrun: &Receipt, backrun: &Receipt) -> (r: U256)
    ensures
        r@ == net_profit_value(before@, after@, *frontrun, *backrun),
{
    let earned = revenue(before, after);
    let cost = gas_cost(frontrun, backrun);
    if earned.gt(&cost) {
        let r = u256_sub(earned, cost);
        assert((earned@ - cost@) % (modulus() as int) == earned@ - cost@);
        r
    } else {
        U256::zero()
    }
}

/// When the input-token balance did not grow, nothing is reported as
/// profit, whatever the gas cost; and reported profit never exceeds revenue.
pub proof fn lemma_net_profit_bounds(before: nat, after: nat, frontrun: Receipt, backrun: Receipt)
    ensures
        after <= before ==> net_profit_value(before, after, frontrun, backrun) == 0,
        net_profit_value(before, after, frontrun, backrun) <= revenue_value(before, after),
        net_profit_value(before, after, frontrun, backrun) > 0 ==> net_profit_value(
            before,
            after,
            frontrun,
            backrun,
        ) + gas_cost_value(frontrun, backrun) == after - before,
{
}

} // verus!
