use mev_sandwich_bot::mempool::decoder::{
    DecodedSwap, PendingTransaction, SwapMethod, TransactionDecoder, UNISWAP_UNIVERSAL,
    UNISWAP_UNIVERSAL_2, UNISWAP_V2_ROUTER, UNISWAP_V3_ROUTER,
};
use mev_sandwich_bot::primitives::{Address, U256};

const EXACT_INPUT_SINGLE: [u8; 4] = [0x04, 0xe4, 0x5a, 0xaf];
const EXACT_OUTPUT_SINGLE: [u8; 4] = [0x50, 0x23, 0xb4, 0xdf];
const EXACT_INPUT_SINGLE_OLD: [u8; 4] = [0x41, 0x4b, 0xf3, 0x89];
const SWAP_EXACT_TOKENS: [u8; 4] = [0x38, 0xed, 0x17, 0x39];

const TOKEN_A: [u8; 20] = [
    0xa1, 0xa2, 0xa3, 0xa4, 0xa5, 0xa6, 0xa7, 0xa8, 0xa9, 0xaa, 0xab, 0xac, 0xad, 0xae, 0xaf, 0xb0,
    0xb1, 0xb2, 0xb3, 0xb4,
];
const TOKEN_B: [u8; 20] = [
    0x01, 0x02, 0x03, 0x04, 0x05, 0x06, 0x07, 0x08, 0x09, 0x0a, 0x0b, 0x0c, 0x0d, 0x0e, 0x0f, 0x10,
    0x11, 0x12, 0x13, 0x14,
];

fn address_word(padding: u8, address: [u8; 20]) -> [u8; 32] {
    let mut word = [padding; 32];
    word[12..].copy_from_slice(&address);
    word
}

fn amount_word(amount: u128) -> [u8; 32] {
    let mut word = [0u8; 32];
    word[16..].copy_from_slice(&amount.to_be_bytes());
    word
}

fn calldata(selector: [u8; 4], words: &[[u8; 32]]) -> Vec<u8> {
    let mut data = selector.to_vec();
    for word in words {
        data.extend_from_slice(word);
    }
    data
}

fn transaction(to: Option<[u8; 20]>, input: Vec<u8>, value: u128) -> PendingTransaction {
    PendingTransaction {
        from: Address::new([0x77; 20]),
        to: to.map(Address::new),
        input,
        value: U256::from_u128(value),
        gas_price: Some(1_000_000_000),
        max_fee_per_gas: 0,
    }
}

fn six_words(amount_word_4: u128, amount_word_5: u128) -> Vec<[u8; 32]> {
    vec![
        address_word(0, TOKEN_A),
        address_word(0, TOKEN_B),
        amount_word(3000),
        address_word(0, [0x55; 20]),
        amount_word(amount_word_4),
        amount_word(amount_word_5),
    ]
}

fn decode(selector: [u8; 4], words: &[[u8; 32]], value: u128) -> Option<DecodedSwap> {
    TransactionDecoder::decode_swap(&transaction(
        Some(UNISWAP_V3_ROUTER),
        calldata(selector, words),
        value,
    ))
}

#[test]
fn exact_input_single_decodes_at_minimum_length() {
    let input = calldata(EXACT_INPUT_SINGLE, &six_words(1_000, 7));
    assert_eq!(input.len(), 196);
    let swap = TransactionDecoder::decode_swap(&transaction(Some(UNISWAP_V3_ROUTER), input, 0))
        .unwrap();
    assert_eq!(swap.router, Address::new(UNISWAP_V3_ROUTER));
    assert_eq!(swap.token_in, Address::new(TOKEN_A));
    assert_eq!(swap.token_out, Address::new(TOKEN_B));
    assert_eq!(swap.amount_in, U256::from_u128(1_000));
    assert_eq!(swap.method_name, "exactInputSingle");
}

#[test]
fn exact_input_single_one_byte_short_is_none() {
    let mut input = calldata(EXACT_INPUT_SINGLE, &six_words(1_000, 7));
    input.pop();
    assert_eq!(input.len(), 195);
    assert!(
        TransactionDecoder::decode_swap(&transaction(Some(UNISWAP_V3_ROUTER), input, 0)).is_none()
    );
}

#[test]
fn exact_output_single_decodes_at_minimum_length() {
    let swap = decode(EXACT_OUTPUT_SINGLE, &six_words(1_000, 2_500), 0).unwrap();
    assert_eq!(swap.token_in, Address::new(TOKEN_A));
    assert_eq!(swap.token_out, Address::new(TOKEN_B));
    assert_eq!(swap.amount_in, U256::from_u128(2_500));
    assert_eq!(swap.method_name, "exactOutputSingle");
}

#[test]
fn exact_output_single_one_byte_short_is_none() {
    let mut input = calldata(EXACT_OUTPUT_SINGLE, &six_words(1_000, 2_500));
    input.truncate(195);
    assert!(
        TransactionDecoder::decode_swap(&transaction(Some(UNISWAP_V3_ROUTER), input, 0)).is_none()
    );
}

#[test]
fn legacy_exact_input_decodes_at_minimum_length() {
    let mut input = calldata(EXACT_INPUT_SINGLE_OLD, &six_words(99, 4_200));
    input.truncate(164);
    let swap = TransactionDecoder::decode_swap(&transaction(Some(UNISWAP_V3_ROUTER), input, 5))
        .unwrap();
    assert_eq!(swap.token_in, Address::new(TOKEN_A));
    assert_eq!(swap.token_out, Address::new(TOKEN_B));
    assert_eq!(swap.amount_in, U256::zero());
    assert_eq!(swap.method_name, "exactInputSingle(old)");
}

#[test]
fn legacy_exact_input_one_byte_short_is_none() {
    let mut input = calldata(EXACT_INPUT_SINGLE_OLD, &six_words(99, 4_200));
    input.truncate(163);
    assert!(
        TransactionDecoder::decode_swap(&transaction(Some(UNISWAP_V3_ROUTER), input, 0)).is_none()
    );
}

#[test]
fn legacy_exact_input_reads_the_sixth_word() {
    let swap = decode(EXACT_INPUT_SINGLE_OLD, &six_words(99, 4_200), 0).unwrap();
    assert_eq!(swap.amount_in, U256::from_u128(4_200));
}

#[test]
fn legacy_exact_input_reads_missing_bytes_as_zero() {
    let mut input = calldata(EXACT_INPUT_SINGLE_OLD, &six_words(99, 0));
    input.truncate(164);
    input.push(0x01);
    let swap = TransactionDecoder::decode_swap(&transaction(Some(UNISWAP_V3_ROUTER), input, 0))
        .unwrap();
    assert_eq!(swap.amount_in, U256::from_limbs([0, 0, 0, 0x0100_0000_0000_0000]));
}

#[test]
fn v2_swap_decodes_at_minimum_length() {
    let words = [amount_word(123_456_789), amount_word(1), amount_word(0xa0)];
    let input = calldata(SWAP_EXACT_TOKENS, &words);
    assert_eq!(input.len(), 100);
    let swap = TransactionDecoder::decode_swap(&transaction(Some(UNISWAP_V2_ROUTER), input, 0))
        .unwrap();
    assert_eq!(swap.router, Address::new(UNISWAP_V2_ROUTER));
    assert_eq!(swap.token_in, Address::zero());
    assert_eq!(swap.token_out, Address::zero());
    assert_eq!(swap.amount_in, U256::from_u128(123_456_789));
    assert_eq!(swap.method_name, "swapExactTokensForTokens(V2)");
}

#[test]
fn v2_swap_one_byte_short_is_none() {
    let words = [amount_word(123_456_789), amount_word(1), amount_word(0xa0)];
    let mut input = calldata(SWAP_EXACT_TOKENS, &words);
    input.truncate(99);
    assert!(
        TransactionDecoder::decode_swap(&transaction(Some(UNISWAP_V2_ROUTER), input, 0)).is_none()
    );
}

#[test]
fn address_padding_is_not_part_of_the_address() {
    let mut words = six_words(1_000, 2_000);
    words[0] = address_word(0xff, TOKEN_A);
    words[1] = address_word(0x5a, TOKEN_B);
    for selector in [EXACT_INPUT_SINGLE, EXACT_OUTPUT_SINGLE, EXACT_INPUT_SINGLE_OLD] {
        let dirty = decode(selector, &words, 0).unwrap();
        let clean = decode(selector, &six_words(1_000, 2_000), 0).unwrap();
        assert_eq!(dirty.token_in, Address::new(TOKEN_A));
        assert_eq!(dirty.token_out, Address::new(TOKEN_B));
        assert_eq!(dirty, clean);
    }
}

#[test]
fn amount_is_read_big_endian_over_the_whole_word() {
    let mut words = six_words(0, 0);
    let mut wide = [0u8; 32];
    wide[0] = 0x80;
    wide[23] = 0x01;
    wide[31] = 0x02;
    words[5] = wide;
    let swap = decode(EXACT_OUTPUT_SINGLE, &words, 0).unwrap();
    assert_eq!(swap.amount_in, U256::from_limbs([2, 1, 0, 0x8000_0000_0000_0000]));
}

#[test]
fn zero_amount_falls_back_to_transaction_value() {
    let input = calldata(EXACT_INPUT_SINGLE, &six_words(0, 0));
    assert_eq!(input.len(), 196);
    let tx = transaction(Some(UNISWAP_V3_ROUTER), input, 5_000_000_000_000_000_000);
    let swap = TransactionDecoder::decode_swap(&tx).unwrap();
    assert_eq!(swap.amount_in, U256::from_u128(5_000_000_000_000_000_000));
    assert_eq!(swap.amount_in, tx.value);
}

#[test]
fn nonzero_amount_wins_over_transaction_value() {
    let swap = decode(EXACT_INPUT_SINGLE, &six_words(42, 0), 9_999).unwrap();
    assert_eq!(swap.amount_in, U256::from_u128(42));
}

#[test]
fn value_fallback_applies_to_the_current_exact_input_only() {
    let output = decode(EXACT_OUTPUT_SINGLE, &six_words(0, 0), 9_999).unwrap();
    assert_eq!(output.amount_in, U256::zero());
    let legacy = decode(EXACT_INPUT_SINGLE_OLD, &six_words(0, 0), 9_999).unwrap();
    assert_eq!(legacy.amount_in, U256::zero());
}

#[test]
fn unknown_selector_is_none() {
    assert!(decode([0xde, 0xad, 0xbe, 0xef], &six_words(1, 1), 0).is_none());
    assert!(decode([0x04, 0xe4, 0x5a, 0xae], &six_words(1, 1), 0).is_none());
}

#[test]
fn payload_shorter_than_a_selector_is_none() {
    for len in 0..4 {
        let input = EXACT_INPUT_SINGLE[..len].to_vec();
        assert!(
            TransactionDecoder::decode_swap(&transaction(Some(UNISWAP_V3_ROUTER), input, 0))
                .is_none()
        );
    }
}

#[test]
fn contract_creation_decodes_to_none() {
    let input = calldata(EXACT_INPUT_SINGLE, &six_words(1_000, 7));
    assert!(TransactionDecoder::decode_swap(&transaction(None, input, 0)).is_none());
}

#[test]
fn longer_payload_still_decodes() {
    let mut words = six_words(1_000, 7);
    words.push(amount_word(0));
    words.push(amount_word(0));
    let swap = decode(EXACT_INPUT_SINGLE, &words, 0).unwrap();
    assert_eq!(swap.amount_in, U256::from_u128(1_000));
}

#[test]
fn router_is_the_destination_even_when_unknown() {
    let input = calldata(EXACT_INPUT_SINGLE, &six_words(1_000, 7));
    let swap = TransactionDecoder::decode_swap(&transaction(Some([0x99; 20]), input, 0)).unwrap();
    assert_eq!(swap.router, Address::new([0x99; 20]));
}

#[test]
fn is_dex_swap_accepts_the_four_routers() {
    for router in [UNISWAP_V2_ROUTER, UNISWAP_V3_ROUTER, UNISWAP_UNIVERSAL, UNISWAP_UNIVERSAL_2] {
        assert!(TransactionDecoder::is_dex_swap(&transaction(Some(router), vec![], 0)));
    }
}

#[test]
fn is_dex_swap_rejects_other_destinations() {
    assert!(!TransactionDecoder::is_dex_swap(&transaction(Some([0x99; 20]), vec![], 0)));
    assert!(!TransactionDecoder::is_dex_swap(&transaction(Some([0; 20]), vec![], 0)));
    let mut near = UNISWAP_V3_ROUTER;
    near[19] ^= 1;
    assert!(!TransactionDecoder::is_dex_swap(&transaction(Some(near), vec![], 0)));
}

#[test]
fn is_dex_swap_rejects_contract_creation() {
    assert!(!TransactionDecoder::is_dex_swap(&transaction(None, vec![], 0)));
}

#[test]
fn router_constants_match_their_published_addresses() {
    let v3: alloy::primitives::Address =
        "0x3bFA4769FB09eefC5a80d6E87c3B9C650f7Ae48E".parse().unwrap();
    let v2: alloy::primitives::Address =
        "0xeE567Fe1712Faf6149d80dA1E6934E354124CfE3".parse().unwrap();
    let universal: alloy::primitives::Address =
        "0x3fC91A3afd70395Cd496C647d5a6CC9D4B2b7FAD".parse().unwrap();
    let universal_2: alloy::primitives::Address =
        "0x5E325eDA8064b456f4781070C0738d849c824258".parse().unwrap();
    assert_eq!(UNISWAP_V3_ROUTER, v3.into_array());
    assert_eq!(UNISWAP_V2_ROUTER, v2.into_array());
    assert_eq!(UNISWAP_UNIVERSAL, universal.into_array());
    assert_eq!(UNISWAP_UNIVERSAL_2, universal_2.into_array());
}

#[test]
fn decoding_twice_gives_the_same_result() {
    let tx = transaction(
        Some(UNISWAP_UNIVERSAL),
        calldata(EXACT_OUTPUT_SINGLE, &six_words(3, 4)),
        11,
    );
    assert_eq!(TransactionDecoder::decode_swap(&tx), TransactionDecoder::decode_swap(&tx));
    assert_eq!(TransactionDecoder::is_dex_swap(&tx), TransactionDecoder::is_dex_swap(&tx));
    let copy = tx.clone();
    assert_eq!(TransactionDecoder::decode_swap(&tx), TransactionDecoder::decode_swap(&copy));
}

#[test]
fn decoding_does_not_depend_on_sender_or_gas_fields() {
    let tx = transaction(
        Some(UNISWAP_V3_ROUTER),
        calldata(EXACT_INPUT_SINGLE, &six_words(0, 4)),
        11,
    );
    let mut other = tx.clone();
    other.from = Address::new([0x12; 20]);
    other.gas_price = None;
    other.max_fee_per_gas = 77;
    assert_eq!(TransactionDecoder::decode_swap(&tx), TransactionDecoder::decode_swap(&other));
}

#[test]
fn selector_table_lists_lengths_and_names() {
    let table = [
        (EXACT_INPUT_SINGLE, SwapMethod::ExactInputSingle, 196, "exactInputSingle"),
        (EXACT_OUTPUT_SINGLE, SwapMethod::ExactOutputSingle, 196, "exactOutputSingle"),
        (EXACT_INPUT_SINGLE_OLD, SwapMethod::ExactInputSingleLegacy, 164, "exactInputSingle(old)"),
        (
            SWAP_EXACT_TOKENS,
            SwapMethod::SwapExactTokensForTokens,
            100,
            "swapExactTokensForTokens(V2)",
        ),
    ];
    for (selector, method, min_len, name) in table {
        assert_eq!(SwapMethod::from_selector(&selector), Some(method));
        assert_eq!(method.min_len(), min_len);
        assert_eq!(method.name(), name);
    }
    assert_eq!(SwapMethod::from_selector(&[0, 0, 0, 0]), None);
    assert_eq!(SwapMethod::from_selector(&[0x04, 0xe4, 0x5a]), None);
    assert_eq!(SwapMethod::from_selector(&[0x04, 0xe4, 0x5a, 0xaf, 0x00]), None);
}
