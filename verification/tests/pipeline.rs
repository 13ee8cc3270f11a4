use mev_sandwich_bot::mempool::decoder::{
    DecodedSwap, PendingTransaction, UNISWAP_V2_ROUTER, UNISWAP_V3_ROUTER,
};
use mev_sandwich_bot::mempool::listener::{MempoolListener, QUEUE_CAPACITY};
use mev_sandwich_bot::pipeline::{
    frontrun_amount, passes_filter, screen, victim_gas_price, Opportunity, FRONTRUN_PERCENT,
    MIN_VICTIM_AMOUNT, WETH,
};
use mev_sandwich_bot::primitives::{Address, U256};

const TOKEN_OUT: [u8; 20] = [0x42; 20];

fn from_alloy(x: alloy::primitives::U256) -> U256 {
    U256::from_limbs(x.into_limbs())
}

fn exact_input(token_in: [u8; 20], amount: u128) -> Vec<u8> {
    let mut data = vec![0x04, 0xe4, 0x5a, 0xaf];
    for token in [token_in, TOKEN_OUT] {
        data.extend_from_slice(&[0u8; 12]);
        data.extend_from_slice(&token);
    }
    data.extend_from_slice(&[0u8; 64]);
    data.extend_from_slice(&[0u8; 16]);
    data.extend_from_slice(&amount.to_be_bytes());
    data.extend_from_slice(&[0u8; 32]);
    data
}

fn swap_tx(to: [u8; 20], token_in: [u8; 20], amount: u128) -> PendingTransaction {
    PendingTransaction {
        from: Address::new([0x77; 20]),
        to: Some(Address::new(to)),
        input: exact_input(token_in, amount),
        value: U256::zero(),
        gas_price: Some(30_000_000_000),
        max_fee_per_gas: 0,
    }
}

fn threshold() -> U256 {
    U256::from_u128(MIN_VICTIM_AMOUNT)
}

#[test]
fn constants_have_their_documented_values() {
    let weth: alloy::primitives::Address =
        "0xfFf9976782d46CC05630D1f6eBAb18b2324d6B14".parse().unwrap();
    assert_eq!(WETH, weth.into_array());
    assert_eq!(MIN_VICTIM_AMOUNT, 1_000_000_000_000_000);
    assert_eq!(FRONTRUN_PERCENT, 30);
    assert_eq!(QUEUE_CAPACITY, 5000);
}

#[test]
fn frontrun_amount_is_thirty_percent() {
    assert_eq!(
        frontrun_amount(&U256::from_u128(1_000_000_000_000_000_000)),
        U256::from_u128(300_000_000_000_000_000)
    );
    assert_eq!(frontrun_amount(&U256::from_u128(100)), U256::from_u128(30));
    assert_eq!(frontrun_amount(&U256::zero()), U256::zero());
}

#[test]
fn frontrun_amount_rounds_down() {
    assert_eq!(frontrun_amount(&U256::from_u128(1)), U256::zero());
    assert_eq!(frontrun_amount(&U256::from_u128(3)), U256::zero());
    assert_eq!(frontrun_amount(&U256::from_u128(4)), U256::from_u128(1));
    assert_eq!(frontrun_amount(&U256::from_u128(99)), U256::from_u128(29));
}

#[test]
fn frontrun_amount_of_a_wide_input() {
    let wide = alloy::primitives::U256::from(1u8) << 200;
    let expected = wide * alloy::primitives::U256::from(30u8) / alloy::primitives::U256::from(100u8);
    assert_eq!(frontrun_amount(&from_alloy(wide)), from_alloy(expected));
    assert_eq!(
        frontrun_amount(&U256::from_u128(u128::MAX)),
        from_alloy(
            alloy::primitives::U256::from(u128::MAX) * alloy::primitives::U256::from(30u8)
                / alloy::primitives::U256::from(100u8)
        )
    );
}

#[test]
fn frontrun_amount_wraps_in_256_bits() {
    let max = U256::from_limbs([u64::MAX; 4]);
    let wrapped =
        (alloy::primitives::U256::MAX - alloy::primitives::U256::from(29u8))
            / alloy::primitives::U256::from(100u8);
    assert_eq!(frontrun_amount(&max), from_alloy(wrapped));
}

#[test]
fn victim_gas_price_prefers_the_legacy_price() {
    let mut tx = swap_tx(UNISWAP_V3_ROUTER, WETH, 1);
    tx.gas_price = Some(5);
    tx.max_fee_per_gas = 9;
    assert_eq!(victim_gas_price(&tx), 5);
    tx.gas_price = None;
    assert_eq!(victim_gas_price(&tx), 9);
    tx.gas_price = Some(0);
    assert_eq!(victim_gas_price(&tx), 0);
}

#[test]
fn filter_needs_the_input_token_and_the_threshold() {
    let swap = |token_in: [u8; 20], amount: u128| DecodedSwap {
        router: Address::new(UNISWAP_V3_ROUTER),
        token_in: Address::new(token_in),
        token_out: Address::new(TOKEN_OUT),
        amount_in: U256::from_u128(amount),
        method_name: "exactInputSingle",
    };
    let weth = Address::new(WETH);
    assert!(passes_filter(&swap(WETH, MIN_VICTIM_AMOUNT), &weth, &threshold()));
    assert!(passes_filter(&swap(WETH, MIN_VICTIM_AMOUNT + 1), &weth, &threshold()));
    assert!(!passes_filter(&swap(WETH, MIN_VICTIM_AMOUNT - 1), &weth, &threshold()));
    assert!(!passes_filter(&swap(TOKEN_OUT, MIN_VICTIM_AMOUNT), &weth, &threshold()));
}

#[test]
fn screen_finds_an_opportunity() {
    let tx = swap_tx(UNISWAP_V3_ROUTER, WETH, 2_000_000_000_000_000_000);
    assert_eq!(
        screen(&tx, &Address::new(WETH), &threshold()),
        Some(Opportunity {
            token_in: Address::new(WETH),
            token_out: Address::new(TOKEN_OUT),
            frontrun_amount: U256::from_u128(600_000_000_000_000_000),
            victim_gas_price: 30_000_000_000,
        })
    );
}

#[test]
fn screen_uses_the_fee_cap_without_a_legacy_price() {
    let mut tx = swap_tx(UNISWAP_V3_ROUTER, WETH, 2_000_000_000_000_000_000);
    tx.gas_price = None;
    tx.max_fee_per_gas = 41;
    assert_eq!(screen(&tx, &Address::new(WETH), &threshold()).unwrap().victim_gas_price, 41);
}

#[test]
fn screen_skips_what_is_no_opportunity() {
    let weth = Address::new(WETH);
    let other_router = swap_tx([0x99; 20], WETH, 2_000_000_000_000_000_000);
    assert_eq!(screen(&other_router, &weth, &threshold()), None);
    let other_token = swap_tx(UNISWAP_V3_ROUTER, [0x33; 20], 2_000_000_000_000_000_000);
    assert_eq!(screen(&other_token, &weth, &threshold()), None);
    let too_small = swap_tx(UNISWAP_V3_ROUTER, WETH, MIN_VICTIM_AMOUNT - 1);
    assert_eq!(screen(&too_small, &weth, &threshold()), None);
    let mut undecodable = swap_tx(UNISWAP_V3_ROUTER, WETH, 2_000_000_000_000_000_000);
    undecodable.input.truncate(195);
    assert_eq!(screen(&undecodable, &weth, &threshold()), None);
    let mut creation = swap_tx(UNISWAP_V3_ROUTER, WETH, 2_000_000_000_000_000_000);
    creation.to = None;
    assert_eq!(screen(&creation, &weth, &threshold()), None);
}

#[test]
fn screen_skips_token_unresolved_swaps() {
    let mut data = vec![0x38, 0xed, 0x17, 0x39];
    data.extend_from_slice(&[0u8; 16]);
    data.extend_from_slice(&2_000_000_000_000_000_000u128.to_be_bytes());
    data.extend_from_slice(&[0u8; 64]);
    let tx = PendingTransaction {
        from: Address::new([0x77; 20]),
        to: Some(Address::new(UNISWAP_V2_ROUTER)),
        input: data,
        value: U256::zero(),
        gas_price: Some(1),
        max_fee_per_gas: 0,
    };
    assert_eq!(screen(&tx, &Address::new(WETH), &threshold()), None);
}

#[test]
fn screen_at_the_threshold() {
    let tx = swap_tx(UNISWAP_V3_ROUTER, WETH, MIN_VICTIM_AMOUNT);
    let found = screen(&tx, &Address::new(WETH), &threshold()).unwrap();
    assert_eq!(found.frontrun_amount, U256::from_u128(300_000_000_000_000));
}

#[test]
fn listener_keeps_its_endpoint() {
    let listener = MempoolListener::new("wss://node.example/ws".to_string());
    assert_eq!(listener.ws_url, "wss://node.example/ws");
}
