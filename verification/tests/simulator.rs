use mev_sandwich_bot::analysis::simulator::{
    CheckPhase, ExactInputSingleParams, ProfitabilityCheck, SimulationResult, Simulator, QUOTER_V2,
};
use mev_sandwich_bot::primitives::{Address, U256};

const TOKEN_IN: [u8; 20] = [0x11; 20];
const TOKEN_OUT: [u8; 20] = [0x22; 20];

fn quoted(amount_out: u128) -> SimulationResult {
    SimulationResult::from_quote(Some(U256::from_u128(amount_out)))
}

fn failed() -> SimulationResult {
    SimulationResult::from_quote(None)
}

fn open(frontrun_amount: u128) -> (ProfitabilityCheck, ExactInputSingleParams) {
    Simulator::new().check_profitability(
        Address::new(TOKEN_IN),
        Address::new(TOKEN_OUT),
        3000,
        U256::from_u128(frontrun_amount),
    )
}

fn run(frontrun_amount: u128, buy: SimulationResult, sell: SimulationResult) -> Option<bool> {
    let (check, _) = open(frontrun_amount);
    let (check, request) = check.on_quote(buy);
    match request {
        Some(_) => check.on_quote(sell).0.verdict(),
        None => check.verdict(),
    }
}

#[test]
fn quoter_address_is_the_published_one() {
    let quoter: alloy::primitives::Address =
        "0xEd1f6473345F45b75F8179591dd5bA1888cf2FB3".parse().unwrap();
    assert_eq!(QUOTER_V2, quoter.into_array());
    assert_eq!(Simulator::new().quoter_address, Address::new(QUOTER_V2));
}

#[test]
fn successful_quote_carries_its_amount() {
    let result = SimulationResult::from_quote(Some(U256::from_u128(777)));
    assert_eq!(result, SimulationResult { amount_out: U256::from_u128(777), profitable: true });
}

#[test]
fn successful_quote_of_zero_is_still_a_success() {
    let result = SimulationResult::from_quote(Some(U256::zero()));
    assert_eq!(result, SimulationResult { amount_out: U256::zero(), profitable: true });
}

#[test]
fn failed_quote_is_zero_and_not_profitable() {
    assert_eq!(failed(), SimulationResult { amount_out: U256::zero(), profitable: false });
}

#[test]
fn quote_request_has_no_price_limit() {
    let request = Simulator::new().simulate_swap(
        Address::new(TOKEN_IN),
        Address::new(TOKEN_OUT),
        500,
        U256::from_u128(9),
    );
    assert_eq!(
        request,
        ExactInputSingleParams {
            token_in: Address::new(TOKEN_IN),
            token_out: Address::new(TOKEN_OUT),
            amount_in: U256::from_u128(9),
            fee: 500,
            sqrt_price_limit_x96: U256::zero(),
        }
    );
}

#[test]
fn check_opens_with_the_buy_leg() {
    let (check, request) = open(1_000);
    assert_eq!(check.phase, CheckPhase::AwaitingBuy);
    assert_eq!(check.verdict(), None);
    assert_eq!(request.token_in, Address::new(TOKEN_IN));
    assert_eq!(request.token_out, Address::new(TOKEN_OUT));
    assert_eq!(request.fee, 3000);
    assert_eq!(request.amount_in, U256::from_u128(1_000));
}

#[test]
fn sell_leg_trades_back_what_the_buy_leg_yields() {
    let (check, _) = open(1_000);
    let (check, request) = check.on_quote(quoted(55_555));
    assert_eq!(check.phase, CheckPhase::AwaitingSell);
    assert_eq!(
        request,
        Some(ExactInputSingleParams {
            token_in: Address::new(TOKEN_OUT),
            token_out: Address::new(TOKEN_IN),
            amount_in: U256::from_u128(55_555),
            fee: 3000,
            sqrt_price_limit_x96: U256::zero(),
        })
    );
}

#[test]
fn failed_buy_leg_is_not_profitable() {
    let (check, _) = open(1_000);
    let (check, request) = check.on_quote(failed());
    assert_eq!(request, None);
    assert_eq!(check.verdict(), Some(false));
}

#[test]
fn empty_buy_leg_is_not_profitable() {
    let (check, _) = open(1_000);
    let (check, request) = check.on_quote(quoted(0));
    assert_eq!(request, None);
    assert_eq!(check.verdict(), Some(false));
}

#[test]
fn failed_sell_leg_is_not_profitable() {
    assert_eq!(run(1_000, quoted(500), failed()), Some(false));
}

#[test]
fn sell_leg_must_strictly_exceed_the_input() {
    assert_eq!(run(1_000, quoted(500), quoted(999)), Some(false));
    assert_eq!(run(1_000, quoted(500), quoted(1_000)), Some(false));
    assert_eq!(run(1_000, quoted(500), quoted(1_001)), Some(true));
}

#[test]
fn sell_leg_is_compared_in_full_width() {
    let (check, _) = Simulator::new().check_profitability(
        Address::new(TOKEN_IN),
        Address::new(TOKEN_OUT),
        3000,
        U256::from_limbs([u64::MAX, u64::MAX, 0, 0]),
    );
    let (check, _) = check.on_quote(quoted(1));
    let more = SimulationResult::from_quote(Some(U256::from_limbs([0, 0, 1, 0])));
    assert_eq!(check.on_quote(more).0.verdict(), Some(true));
}

#[test]
fn finished_check_ignores_further_quotes() {
    let (check, _) = open(1_000);
    let (done, _) = check.on_quote(failed());
    let (again, request) = done.on_quote(quoted(5_000));
    assert_eq!(again, done);
    assert_eq!(request, None);
}
