//! The filter between the decoder and the executor: which decoded swaps are
//! worth an attempt, and with what parameters.

use crate::mempool::decoder::{
    decode_spec, is_router, DecodedSwap, PendingTransaction, TransactionDecoder,
};
use crate::primitives::{modulus, u256_div, u256_mul, Address, U256};
use vstd::prelude::*;

verus! {

/// The wrapped native token, in which the capital is held.
pub const WETH: [u8; 20] = [
    0xff, 0xf9, 0x97, 0x67, 0x82, 0xd4, 0x6c, 0xc0, 0x56, 0x30,
    0xd1, 0xf6, 0xeb, 0xab, 0x18, 0xb2, 0x32, 0x4d, 0x6b, 0x14,
];

/// The smallest victim input that is worth an attempt.
pub const MIN_VICTIM_AMOUNT: u128 = 1_000_000_000_000_000;

/// The share of the victim's input that the frontrun trades, in percent.
pub const FRONTRUN_PERCENT: u64 = 30;

/// The parameters of one attempt.
#[derive(Clone, Copy, Debug, PartialEq, Eq)]
pub struct Opportunity {
    pub token_in: Address,
    pub token_out: Address,
    pub frontrun_amount: U256,
    pub victim_gas_price: u128,
}

/// Thirty percent of the victim's input, rounded down. The product is
/// formed in 256 bits and wraps around above that.
pub open spec fn frontrun_amount_value(amount_in: nat) -> nat {
    ((amount_in * 30) % modulus()) / 100
}

/// The gas price that the victim bids: its legacy price, or else its fee cap.
pub open spec fn victim_gas_price_spec(tx: PendingTransaction) -> u128 {
    match tx.gas_price {
        Some(price) => price,
        None => tx.max_fee_per_gas,
    }
}

/// Whether a transaction is an opportunity: it goes to a router, decodes to
/// a swap, spends `input_token`, and puts in at least `min_victim_amount`.
pub open spec fn is_opportunity(
    tx: PendingTransaction,
    input_token: Seq<u8>,
    min_victim_amount: nat,
) -> bool {
    &&& tx.to matches Some(to) && is_router(to@)
    &&& decode_spec(tx) matches Some(swap) && swap.token_in == input_token && swap.amount_in
        >= min_victim_amount
}

pub fn frontrun_amount(amount_in: &U256) -> (r: U256)
    ensures
        r@ == frontrun_amount_value(amount_in@),
{
    let scaled = u256_mul(*amount_in, U256::from_u64(FRONTRUN_PERCENT));
    u256_div(scaled, U256::from_u64(100))
}

pub fn victim_gas_price(tx: &PendingTransaction) -> (r: u128)
    ensures
        r == victim_gas_price_spec(*tx),
{
    match tx.gas_price {
        Some(price) => price,
        None => tx.max_fee_per_gas,
    }
}

/// Whether a decoded swap spends `input_token` and is large enough.
pub fn passes_filter(swap: &DecodedSwap, input_token: &Address, min_victim_amount: &U256) -> (r:
    bool)
    ensures
        r <==> swap.token_in@ == input_token@ && swap.amount_in@ >= min_victim_amount@,
{
    swap.token_in.same_as(input_token) && !swap.amount_in.lt(min_victim_amount)
}

/// Screens one pending transaction. Where it is an opportunity, the result
/// names the pair to trade, the amount to frontrun with and the victim's bid.
pub fn screen(tx: &PendingTransaction, input_token: &Address, min_victim_amount: &U256) -> (r:
    Option<Opportunity>)
    ensures
        r is Some <==> is_opportunity(*tx, input_token@, min_victim_amount@),
        r matches Some(found) ==> {
            &&& found.token_in@ == decode_spec(*tx)->0.token_in
            &&& found.token_out@ == decode_spec(*tx)->0.token_out
            &&& found.frontrun_amount@ == frontrun_amount_value(decode_spec(*tx)->0.amount_in)
            &&& found.victim_gas_price == victim_gas_price_spec(*tx)
        },
{
    if !TransactionDecoder::is_dex_swap(tx) {
        return None;
    }
    let swap = match TransactionDecoder::decode_swap(tx) {
        Some(swap) => swap,
        None => {
            return None;
        },
    };
    if !passes_filter(&swap, input_token, min_victim_amount) {
        return None;
    }
    Some(
        Opportunity {
            token_in: swap.token_in,
            token_out: swap.token_out,
            frontrun_amount: frontrun_amount(&swap.amount_in),
            victim_gas_price: victim_gas_price(tx),
        },
    )
}

/// Below the point where thirty times the input leaves 256 bits, the
/// frontrun amount is thirty percent of the input, rounded down.
pub proof fn lemma_frontrun_amount_is_thirty_percent(amount_in: nat)
    requires
        amount_in * 30 < modulus(),
    ensures
        frontrun_amount_value(amount_in) == amount_in * 30 / 100,
        frontrun_amount_value(amount_in) <= amount_in,
{
}

} // verus!
