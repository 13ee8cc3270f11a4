//! Recognition and decoding of swap calldata.
//!
//! Decoding is a closed table: four selectors, each with a fixed layout of
//! 32-byte words after the selector. Anything else decodes to nothing.

use crate::primitives::{
    address_from_slice, be_value, u256_from_be_slice, zero_address, Address, U256,
};
use vstd::prelude::*;
use vstd::slice::slice_subrange;

verus! {

/// The V2 router.
pub const UNISWAP_V2_ROUTER: [u8; 20] = [
    0xee, 0x56, 0x7f, 0xe1, 0x71, 0x2f, 0xaf, 0x61, 0x49, 0xd8,
    0x0d, 0xa1, 0xe6, 0x93, 0x4e, 0x35, 0x41, 0x24, 0xcf, 0xe3,
];

/// The V3 router.
pub const UNISWAP_V3_ROUTER: [u8; 20] = [
    0x3b, 0xfa, 0x47, 0x69, 0xfb, 0x09, 0xee, 0xfc, 0x5a, 0x80,
    0xd6, 0xe8, 0x7c, 0x3b, 0x9c, 0x65, 0x0f, 0x7a, 0xe4, 0x8e,
];

/// The universal router.
pub const UNISWAP_UNIVERSAL: [u8; 20] = [
    0x3f, 0xc9, 0x1a, 0x3a, 0xfd, 0x70, 0x39, 0x5c, 0xd4, 0x96,
    0xc6, 0x47, 0xd5, 0xa6, 0xcc, 0x9d, 0x4b, 0x2b, 0x7f, 0xad,
];

/// The second universal router.
pub const UNISWAP_UNIVERSAL_2: [u8; 20] = [
    0x5e, 0x32, 0x5e, 0xda, 0x80, 0x64, 0xb4, 0x56, 0xf4, 0x78,
    0x10, 0x70, 0xc0, 0x73, 0x8d, 0x84, 0x9c, 0x82, 0x42, 0x58,
];

/// A transaction as it was seen in the pending pool.
#[derive(Debug, PartialEq, Eq)]
pub struct PendingTransaction {
    pub from: Address,
    /// The destination; none for a contract creation.
    pub to: Option<Address>,
    /// The calldata.
    pub input: Vec<u8>,
    /// The native currency sent along.
    pub value: U256,
    /// The legacy gas price, where the transaction names one.
    pub gas_price: Option<u128>,
    /// The fee cap of a fee-market transaction.
    pub max_fee_per_gas: u128,
}

impl Clone for PendingTransaction {
    fn clone(&self) -> (r: PendingTransaction)
        ensures
            r.from == self.from,
            r.to == self.to,
            r.input@ == self.input@,
            r.value == self.value,
            r.gas_price == self.gas_price,
            r.max_fee_per_gas == self.max_fee_per_gas,
    {
        PendingTransaction {
            from: self.from,
            to: self.to,
            input: self.input.clone(),
            value: self.value,
            gas_price: self.gas_price,
            max_fee_per_gas: self.max_fee_per_gas,
        }
    }
}

/// The trade that a swap transaction asks for.
#[derive(Clone, Copy, Debug, PartialEq, Eq)]
pub struct DecodedSwap {
    pub router: Address,
    /// Zero where the layout does not carry the token in a fixed place.
    pub token_in: Address,
    /// Zero where the layout does not carry the token in a fixed place.
    pub token_out: Address,
    /// The input amount, or its upper bound for an exact-output swap.
    pub amount_in: U256,
    pub method_name: &'static str,
}

/// A decoded swap as plain values.
pub struct DecodedSwapView {
    pub router: Seq<u8>,
    pub token_in: Seq<u8>,
    pub token_out: Seq<u8>,
    pub amount_in: nat,
    pub method_name: Seq<char>,
}

impl View for DecodedSwap {
    type V = DecodedSwapView;

    open spec fn view(&self) -> DecodedSwapView {
        DecodedSwapView {
            router: self.router@,
            token_in: self.token_in@,
            token_out: self.token_out@,
            amount_in: self.amount_in@,
            method_name: self.method_name@,
        }
    }
}

/// The calldata layouts that are recognised.
#[derive(Clone, Copy, Debug, PartialEq, Eq)]
pub enum SwapMethod {
    /// V3 `exactInputSingle`, current argument order.
    ExactInputSingle,
    /// V3 `exactOutputSingle`.
    ExactOutputSingle,
    /// V3 `exactInputSingle`, older argument order.
    ExactInputSingleLegacy,
    /// V2 `swapExactTokensForTokens`.
    SwapExactTokensForTokens,
}

impl SwapMethod {
    /// The four bytes that open the calldata of this method.
    pub open spec fn selector(self) -> Seq<u8> {
        match self {
            SwapMethod::ExactInputSingle => seq![0x04u8, 0xe4u8, 0x5au8, 0xafu8],
            SwapMethod::ExactOutputSingle => seq![0x50u8, 0x23u8, 0xb4u8, 0xdfu8],
            SwapMethod::ExactInputSingleLegacy => seq![0x41u8, 0x4bu8, 0xf3u8, 0x89u8],
            SwapMethod::SwapExactTokensForTokens => seq![0x38u8, 0xedu8, 0x17u8, 0x39u8],
        }
    }

    /// The shortest calldata that is decoded for this method.
    pub open spec fn min_len_spec(self) -> nat {
        match self {
            SwapMethod::ExactInputSingle => 196,
            SwapMethod::ExactOutputSingle => 196,
            SwapMethod::ExactInputSingleLegacy => 164,
            SwapMethod::SwapExactTokensForTokens => 100,
        }
    }

    pub open spec fn name_spec(self) -> Seq<char> {
        match self {
            SwapMethod::ExactInputSingle => "exactInputSingle"@,
            SwapMethod::ExactOutputSingle => "exactOutputSingle"@,
            SwapMethod::ExactInputSingleLegacy => "exactInputSingle(old)"@,
            SwapMethod::SwapExactTokensForTokens => "swapExactTokensForTokens(V2)"@,
        }
    }

    /// The method that a selector names, if it is one of the four.
    pub open spec fn of_selector(selector: Seq<u8>) -> Option<SwapMethod> {
        if selector == SwapMethod::ExactInputSingle.selector() {
            Some(SwapMethod::ExactInputSingle)
        } else if selector == SwapMethod::ExactOutputSingle.selector() {
            Some(SwapMethod::ExactOutputSingle)
        } else if selector == SwapMethod::ExactInputSingleLegacy.selector() {
            Some(SwapMethod::ExactInputSingleLegacy)
        } else if selector == SwapMethod::SwapExactTokensForTokens.selector() {
            Some(SwapMethod::SwapExactTokensForTokens)
        } else {
            None
        }
    }

    /// Looks a selector up in the table. Anything that is not one of the
    /// four selectors, whatever its length, names no method.
    pub fn from_selector(selector: &[u8]) -> (r: Option<SwapMethod>)
        ensures
            r == Self::of_selector(selector@),
    {
        if selector.len() != 4 {
            return None;
        }
        let (b0, b1, b2, b3) = (selector[0], selector[1], selector[2], selector[3]);
        if b0 == 0x04 && b1 == 0xe4 && b2 == 0x5a && b3 == 0xaf {
            assert(selector@ =~= SwapMethod::ExactInputSingle.selector());
            Some(SwapMethod::ExactInputSingle)
        } else if b0 == 0x50 && b1 == 0x23 && b2 == 0xb4 && b3 == 0xdf {
            assert(selector@ =~= SwapMethod::ExactOutputSingle.selector());
            Some(SwapMethod::ExactOutputSingle)
        } else if b0 == 0x41 && b1 == 0x4b && b2 == 0xf3 && b3 == 0x89 {
            assert(selector@ =~= SwapMethod::ExactInputSingleLegacy.selector());
            Some(SwapMethod::ExactInputSingleLegacy)
        } else if b0 == 0x38 && b1 == 0xed && b2 == 0x17 && b3 == 0x39 {
            assert(selector@ =~= SwapMethod::SwapExactTokensForTokens.selector());
            Some(SwapMethod::SwapExactTokensForTokens)
        } else {
            None
        }
    }

    pub fn min_len(self) -> (r: usize)
        ensures
            r == self.min_len_spec(),
    {
        match self {
            SwapMethod::ExactInputSingle => 196,
            SwapMethod::ExactOutputSingle => 196,
            SwapMethod::ExactInputSingleLegacy => 164,
            SwapMethod::SwapExactTokensForTokens => 100,
        }
    }

    pub fn name(self) -> (r: &'static str)
        ensures
            r@ == self.name_spec(),
    {
        match self {
            SwapMethod::ExactInputSingle => "exactInputSingle",
            SwapMethod::ExactOutputSingle => "exactOutputSingle",
            SwapMethod::ExactInputSingleLegacy => "exactInputSingle(old)",
            SwapMethod::SwapExactTokensForTokens => "swapExactTokensForTokens(V2)",
        }
    }
}

/// The byte at `offset` of the calldata; past the end the calldata reads as
/// zero, as it does on chain.
pub open spec fn byte_at(input: Seq<u8>, offset: int) -> u8 {
    if 0 <= offset < input.len() {
        input[offset]
    } else {
        0
    }
}

/// The 32-byte argument word number `index`, counted after the selector.
pub open spec fn word(input: Seq<u8>, index: int) -> Seq<u8> {
    Seq::new(32, |i: int| byte_at(input, 4 + 32 * index + i))
}

/// The address in a word: its low twenty bytes. The twelve bytes of padding
/// in front of them are not looked at.
pub open spec fn word_address(input: Seq<u8>, index: int) -> Seq<u8> {
    word(input, index).subrange(12, 32)
}

/// The amount in a word: all of it, big-endian.
pub open spec fn word_amount(input: Seq<u8>, index: int) -> nat {
    be_value(word(input, index))
}

/// Whether an address is one of the four routers watched.
pub open spec fn is_router(address: Seq<u8>) -> bool {
    address == UNISWAP_V3_ROUTER@ || address == UNISWAP_V2_ROUTER@ || address == UNISWAP_UNIVERSAL@
        || address == UNISWAP_UNIVERSAL_2@
}

/// What a call of `method` on `router` with this calldata and value trades.
///
/// The older exact-input layout is accepted from 164 bytes on, although its
/// amount is the word behind that: whatever the calldata lacks of that word
/// reads as zero. In every other case the words read lie within the minimum
/// length.
pub open spec fn decoded_as(method: SwapMethod, router: Seq<u8>, input: Seq<u8>, value: nat)
    -> DecodedSwapView {
    match method {
        SwapMethod::ExactInputSingle => DecodedSwapView {
            router,
            token_in: word_address(input, 0),
            token_out: word_address(input, 1),
            amount_in: if word_amount(input, 4) == 0 {
                value
            } else {
                word_amount(input, 4)
            },
            method_name: method.name_spec(),
        },
        SwapMethod::ExactOutputSingle => DecodedSwapView {
            router,
            token_in: word_address(input, 0),
            token_out: word_address(input, 1),
            amount_in: word_amount(input, 5),
            method_name: method.name_spec(),
        },
        SwapMethod::ExactInputSingleLegacy => DecodedSwapView {
            router,
            token_in: word_address(input, 0),
            token_out: word_address(input, 1),
            amount_in: word_amount(input, 5),
            method_name: method.name_spec(),
        },
        SwapMethod::SwapExactTokensForTokens => DecodedSwapView {
            router,
            token_in: zero_address(),
            token_out: zero_address(),
            amount_in: word_amount(input, 0),
            method_name: method.name_spec(),
        },
    }
}

/// The swap that a transaction asks for, if it has a destination, opens with
/// a known selector and is long enough for that selector's layout.
pub open spec fn decode_spec(tx: PendingTransaction) -> Option<DecodedSwapView> {
    if tx.input@.len() < 4 {
        None
    } else {
        match (tx.to, SwapMethod::of_selector(tx.input@.subrange(0, 4))) {
            (Some(router), Some(method)) => {
                if tx.input@.len() >= method.min_len_spec() {
                    Some(decoded_as(method, router@, tx.input@, tx.value@))
                } else {
                    None
                }
            },
            _ => None,
        }
    }
}

/// The plain values of an optional decoded swap.
pub open spec fn decoded_view(r: Option<DecodedSwap>) -> Option<DecodedSwapView> {
    match r {
        Some(swap) => Some(swap@),
        None => None,
    }
}

/// Reads the address in argument word `index`.
fn read_address(input: &Vec<u8>, index: usize) -> (r: Address)
    requires
        index < 8,
        4 + 32 * index + 32 <= input@.len(),
    ensures
        r@ == word_address(input@, index as int),
{
    let start: usize = 4 + 32 * index;
    let low = slice_subrange(input.as_slice(), start + 12, start + 32);
    assert(low@ =~= word_address(input@, index as int));
    address_from_slice(low)
}

/// Reads the amount in argument word `index`; bytes that the calldata does
/// not have count as zero.
fn read_amount(input: &Vec<u8>, index: usize) -> (r: U256)
    requires
        index < 8,
    ensures
        r@ == word_amount(input@, index as int),
{
    let start: usize = 4 + 32 * index;
    let mut buf: [u8; 32] = [0u8; 32];
    let mut i: usize = 0;
    while i < 32
        invariant
            i <= 32,
            start == 4 + 32 * index,
            index < 8,
            forall|j: int| 0 <= j < i ==> buf@[j] == byte_at(input@, start + j),
            forall|j: int| i <= j < 32 ==> buf@[j] == 0,
        decreases 32 - i,
    {
        if start + i < input.len() {
            buf[i] = input[start + i];
        }
        i += 1;
    }
    assert(buf@ =~= word(input@, index as int));
    u256_from_be_slice(buf.as_slice())
}

/// Recognises and decodes swaps. Both functions are pure: what they return
/// depends on the transaction alone.
pub struct TransactionDecoder;

impl TransactionDecoder {
    /// Whether the transaction is addressed to one of the routers watched.
    pub fn is_dex_swap(tx: &PendingTransaction) -> (r: bool)
        ensures
            r <==> (tx.to matches Some(to) && is_router(to@)),
    {
        match tx.to {
            Some(to) => to.same_as(&Address::new(UNISWAP_V3_ROUTER)) || to.same_as(
                &Address::new(UNISWAP_V2_ROUTER),
            ) || to.same_as(&Address::new(UNISWAP_UNIVERSAL)) || to.same_as(
                &Address::new(UNISWAP_UNIVERSAL_2),
            ),
            None => false,
        }
    }

    /// Decodes the swap that the transaction asks for, or nothing.
    pub fn decode_swap(tx: &PendingTransaction) -> (r: Option<DecodedSwap>)
        ensures
            decoded_view(r) == decode_spec(*tx),
    {
        if tx.input.len() < 4 {
            return None;
        }
        let router = match tx.to {
            Some(to) => to,
            None => {
                return None;
            },
        };
        let selector = slice_subrange(tx.input.as_slice(), 0, 4);
        match SwapMethod::from_selector(selector) {
            Some(SwapMethod::ExactInputSingle) => Self::decode_v3_exact_input_single_new(
                &tx.input,
                tx,
                router,
            ),
            Some(SwapMethod::ExactOutputSingle) => Self::decode_v3_exact_output_single_new(
                &tx.input,
                router,
            ),
            Some(SwapMethod::ExactInputSingleLegacy) => Self::decode_v3_exact_input_single_old(
                &tx.input,
                router,
            ),
            Some(SwapMethod::SwapExactTokensForTokens) => {
                Self::decode_v2_swap_exact_tokens_for_tokens(&tx.input, router)
            },
            None => None,
        }
    }

    fn decode_v3_exact_input_single_new(
        input: &Vec<u8>,
        tx: &PendingTransaction,
        router: Address,
    ) -> (r: Option<DecodedSwap>)
        ensures
            decoded_view(r) == if input@.len() >= 196 {
                Some(decoded_as(SwapMethod::ExactInputSingle, router@, input@, tx.value@))
            } else {
                None
            },
    {
        if input.len() < 196 {
            return None;
        }
        let token_in = read_address(input, 0);
        let token_out = read_address(input, 1);
        let amount_in = read_amount(input, 4);
        let final_amount_in = if amount_in.is_zero() {
            tx.value
        } else {
            amount_in
        };
        Some(
            DecodedSwap {
                router,
                token_in,
                token_out,
                amount_in: final_amount_in,
                method_name: SwapMethod::ExactInputSingle.name(),
            },
        )
    }

    fn decode_v3_exact_output_single_new(input: &Vec<u8>, router: Address) -> (r: Option<
        DecodedSwap,
    >)
        ensures
            decoded_view(r) == if input@.len() >= 196 {
                Some(decoded_as(SwapMethod::ExactOutputSingle, router@, input@, 0))
            } else {
                None
            },
    {
        if input.len() < 196 {
            return None;
        }
        let token_in = read_address(input, 0);
        let token_out = read_address(input, 1);
        let amount_in_max = read_amount(input, 5);
        Some(
            DecodedSwap {
                router,
                token_in,
                token_out,
                amount_in: amount_in_max,
                method_name: SwapMethod::ExactOutputSingle.name(),
            },
        )
    }

    fn decode_v3_exact_input_single_old(input: &Vec<u8>, router: Address) -> (r: Option<
        DecodedSwap,
    >)
        ensures
            decoded_view(r) == if input@.len() >= 164 {
                Some(decoded_as(SwapMethod::ExactInputSingleLegacy, router@, input@, 0))
            } else {
                None
            },
    {
        if input.len() < 164 {
            return None;
        }
        let token_in = read_address(input, 0);
        let token_out = read_address(input, 1);
        let amount_in = read_amount(input, 5);
        Some(
            DecodedSwap {
                router,
                token_in,
                token_out,
                amount_in,
                method_name: SwapMethod::ExactInputSingleLegacy.name(),
            },
        )
    }

    fn decode_v2_swap_exact_tokens_for_tokens(input: &Vec<u8>, router: Address) -> (r: Option<
        DecodedSwap,
    >)
        ensures
            decoded_view(r) == if input@.len() >= 100 {
                Some(decoded_as(SwapMethod::SwapExactTokensForTokens, router@, input@, 0))
            } else {
                None
            },
    {
        if input.len() < 100 {
            return None;
        }
        let amount_in = read_amount(input, 0);
        Some(
            DecodedSwap {
                router,
                token_in: Address::zero(),
                token_out: Address::zero(),
                amount_in,
                method_name: SwapMethod::SwapExactTokensForTokens.name(),
            },
        )
    }
}


/// A transaction with a destination and a known selector decodes exactly
/// when its calldata has the minimum length of the selector's layout: at
/// that length it does, one byte short of it it does not.
pub proof fn lemma_minimum_length_is_sharp(tx: PendingTransaction, method: SwapMethod)
    requires
        tx.to is Some,
        tx.input@.len() >= 4,
        SwapMethod::of_selector(tx.input@.subrange(0, 4)) == Some(method),
    ensures
        decode_spec(tx) is Some <==> tx.input@.len() >= method.min_len_spec(),
        tx.input@.len() == method.min_len_spec() ==> decode_spec(tx) is Some,
        tx.input@.len() == method.min_len_spec() - 1 ==> decode_spec(tx) is None,
{
}

/// A word that lies within the calldata is the 32 bytes at its offset.
pub proof fn lemma_word_within_calldata(input: Seq<u8>, index: int)
    requires
        0 <= index,
        4 + 32 * index + 32 <= input.len(),
    ensures
        word(input, index) == input.subrange(4 + 32 * index, 4 + 32 * index + 32),
        word_address(input, index) == input.subrange(4 + 32 * index + 12, 4 + 32 * index + 32),
{
    assert(word(input, index) =~= input.subrange(4 + 32 * index, 4 + 32 * index + 32));
    assert(word_address(input, index) =~= input.subrange(
        4 + 32 * index + 12,
        4 + 32 * index + 32,
    ));
}

/// The address read from a word depends on the word's low twenty bytes only.
pub proof fn lemma_word_address_ignores_padding(a: Seq<u8>, b: Seq<u8>, index: int)
    requires
        forall|k: int|
            4 + 32 * index + 12 <= k < 4 + 32 * index + 32 ==> #[trigger] byte_at(a, k) == byte_at(
                b,
                k,
            ),
    ensures
        word_address(a, index) == word_address(b, index),
{
    assert(word_address(a, index) =~= word_address(b, index));
}

/// Two calldata blobs for one of the V3 methods that differ only in the
/// padding in front of the two token addresses decode to the same swap.
pub proof fn lemma_address_padding_is_ignored(
    method: SwapMethod,
    router: Seq<u8>,
    a: Seq<u8>,
    b: Seq<u8>,
    value: nat,
)
    requires
        method != SwapMethod::SwapExactTokensForTokens,
        a.len() == b.len(),
        forall|i: int|
            0 <= i < a.len() && !(4 <= i < 16) && !(36 <= i < 48) ==> a[i] == b[i],
    ensures
        decoded_as(method, router, a, value) == decoded_as(method, router, b, value),
{
    lemma_word_address_ignores_padding(a, b, 0);
    lemma_word_address_ignores_padding(a, b, 1);
    assert(word(a, 4) =~= word(b, 4));
    assert(word(a, 5) =~= word(b, 5));
}

/// What is decoded, and whether the transaction counts as a swap at all,
/// depends on the destination, the calldata and the value, and on nothing
/// else: equal inputs give equal results, whenever and however often asked.
pub proof fn lemma_decoding_is_a_function_of_the_transaction(
    a: PendingTransaction,
    b: PendingTransaction,
)
    requires
        a.to == b.to,
        a.input@ == b.input@,
        a.value@ == b.value@,
    ensures
        decode_spec(a) == decode_spec(b),
        (a.to matches Some(to) && is_router(to@)) <==> (b.to matches Some(to) && is_router(to@)),
{
}

/// Each of the four router addresses counts as a router.
pub proof fn lemma_routers_are_known()
    ensures
        is_router(UNISWAP_V2_ROUTER@),
        is_router(UNISWAP_V3_ROUTER@),
        is_router(UNISWAP_UNIVERSAL@),
        is_router(UNISWAP_UNIVERSAL_2@),
{
}

} // verus!
