//! Quote requests, their interpretation, and the same-tier round-trip check
//! that filters fee tiers before anything is submitted.
//!
//! A quote is a read-only call that the caller makes. This module says what
//! to ask and what an answer means.

use crate::primitives::{Address, U256};
use vstd::prelude::*;

verus! {

/// Address of the quoting contract that every simulation is sent to.
pub const QUOTER_V2: [u8; 20] = [
    0xed, 0x1f, 0x64, 0x73, 0x34, 0x5f, 0x45, 0xb7, 0x5f, 0x81,
    0x79, 0x59, 0x1d, 0xd5, 0xba, 0x18, 0x88, 0xcf, 0x2f, 0xb3,
];

/// The outcome of one quote. A quote that failed is an ordinary result with
/// `profitable` unset and nothing out; `profitable` says only that the call
/// went through, not that the trade pays.
#[derive(Clone, Copy, Debug, PartialEq, Eq)]
pub struct SimulationResult {
    pub amount_out: U256,
    pub profitable: bool,
}

impl SimulationResult {
    /// The result that stands for a quote call: the quoted output where the
    /// call succeeded, the failed result where it did not.
    pub open spec fn from_quote_spec(quote: Option<U256>) -> SimulationResult {
        match quote {
            Some(amount_out) => SimulationResult { amount_out, profitable: true },
            None => SimulationResult { amount_out: U256::spec_zero(), profitable: false },
        }
    }

    pub fn from_quote(quote: Option<U256>) -> (r: SimulationResult)
        ensures
            r == Self::from_quote_spec(quote),
    {
        match quote {
            Some(amount_out) => SimulationResult { amount_out, profitable: true },
            None => SimulationResult { amount_out: U256::zero(), profitable: false },
        }
    }
}

/// The arguments of one exact-input quote on a single pool.
#[derive(Clone, Copy, Debug, PartialEq, Eq)]
pub struct ExactInputSingleParams {
    pub token_in: Address,
    pub token_out: Address,
    pub amount_in: U256,
    pub fee: u32,
    pub sqrt_price_limit_x96: U256,
}

impl ExactInputSingleParams {
    /// A quote request without a price limit.
    pub open spec fn unlimited(token_in: Address, token_out: Address, fee: u32, amount_in: U256)
        -> ExactInputSingleParams {
        ExactInputSingleParams {
            token_in,
            token_out,
            amount_in,
            fee,
            sqrt_price_limit_x96: U256::spec_zero(),
        }
    }
}

/// Whether a round trip on one fee tier pays, judged from its two quotes:
/// both calls went through, the buy leg bought something, and the sell leg
/// returns strictly more than was put in. Gas is not counted here.
pub open spec fn round_trip_profitable(
    frontrun_amount: nat,
    buy: SimulationResult,
    sell: SimulationResult,
) -> bool {
    buy.profitable && buy.amount_out@ != 0 && sell.profitable && sell.amount_out@ > frontrun_amount
}

/// How far a round-trip check has come.
#[derive(Clone, Copy, Debug, PartialEq, Eq)]
pub enum CheckPhase {
    /// The buy-leg quote is asked for.
    AwaitingBuy,
    /// The buy leg passed and the sell-leg quote is asked for.
    AwaitingSell,
    /// The check is over with this verdict.
    Done { profitable: bool },
}

/// A round-trip check in progress on one fee tier.
#[derive(Clone, Copy, Debug, PartialEq, Eq)]
pub struct ProfitabilityCheck {
    pub token_in: Address,
    pub token_out: Address,
    pub fee: u32,
    pub frontrun_amount: U256,
    pub phase: CheckPhase,
}

impl ProfitabilityCheck {
    pub open spec fn in_phase(self, phase: CheckPhase) -> ProfitabilityCheck {
        ProfitabilityCheck {
            token_in: self.token_in,
            token_out: self.token_out,
            fee: self.fee,
            frontrun_amount: self.frontrun_amount,
            phase,
        }
    }

    /// The check after one more quote, and the next quote to ask for, if any.
    /// The sell leg trades back exactly what the buy leg was quoted to yield.
    pub open spec fn on_quote_spec(self, quote: SimulationResult) -> (
        ProfitabilityCheck,
        Option<ExactInputSingleParams>,
    ) {
        match self.phase {
            CheckPhase::AwaitingBuy => {
                if !quote.profitable || quote.amount_out@ == 0 {
                    (self.in_phase(CheckPhase::Done { profitable: false }), None)
                } else {
                    (
                        self.in_phase(CheckPhase::AwaitingSell),
                        Some(
                            ExactInputSingleParams::unlimited(
                                self.token_out,
                                self.token_in,
                                self.fee,
                                quote.amount_out,
                            ),
                        ),
                    )
                }
            },
            CheckPhase::AwaitingSell => (
                self.in_phase(
                    CheckPhase::Done {
                        profitable: quote.profitable && quote.amount_out@ > self.frontrun_amount@,
                    },
                ),
                None,
            ),
            CheckPhase::Done { profitable } => (self, None),
        }
    }

    /// The verdict, once there is one.
    pub open spec fn verdict_spec(self) -> Option<bool> {
        match self.phase {
            CheckPhase::Done { profitable } => Some(profitable),
            _ => None,
        }
    }

    fn with_phase(&self, phase: CheckPhase) -> (r: ProfitabilityCheck)
        ensures
            r == self.in_phase(phase),
    {
        ProfitabilityCheck {
            token_in: self.token_in,
            token_out: self.token_out,
            fee: self.fee,
            frontrun_amount: self.frontrun_amount,
            phase,
        }
    }

    /// Takes in the result of the quote last asked for.
    pub fn on_quote(self, quote: SimulationResult) -> (r: (
        ProfitabilityCheck,
        Option<ExactInputSingleParams>,
    ))
        ensures
            r == self.on_quote_spec(quote),
    {
        match self.phase {
            CheckPhase::AwaitingBuy => {
                if !quote.profitable || quote.amount_out.is_zero() {
                    (self.with_phase(CheckPhase::Done { profitable: false }), None)
                } else {
                    (
                        self.with_phase(CheckPhase::AwaitingSell),
                        Some(
                            ExactInputSingleParams {
                                token_in: self.token_out,
                                token_out: self.token_in,
                                amount_in: quote.amount_out,
                                fee: self.fee,
                                sqrt_price_limit_x96: U256::zero(),
                            },
                        ),
                    )
                }
            },
            CheckPhase::AwaitingSell => {
                let profitable = quote.profitable && quote.amount_out.gt(&self.frontrun_amount);
                (self.with_phase(CheckPhase::Done { profitable }), None)
            },
            CheckPhase::Done { profitable } => (self, None),
        }
    }

    pub fn verdict(&self) -> (r: Option<bool>)
        ensures
            r == self.verdict_spec(),
    {
        match self.phase {
            CheckPhase::Done { profitable } => Some(profitable),
            _ => None,
        }
    }
}

/// Builds quote requests against one quoting contract.
#[derive(Clone, Copy, Debug, PartialEq, Eq)]
pub struct Simulator {
    pub quoter_address: Address,
}

impl Simulator {
    /// A simulator that quotes against [`QUOTER_V2`].
    pub fn new() -> (r: Simulator)
        ensures
            r.quoter_address.bytes == QUOTER_V2,
            r.quoter_address@ == QUOTER_V2@,
    {
        Simulator { quoter_address: Address::new(QUOTER_V2) }
    }

    /// What to ask the quoting contract in order to simulate one swap: an
    /// exact-input quote of `amount_in` on the pool of `fee`, without a price
    /// limit. The answer is read with [`SimulationResult::from_quote`].
    pub fn simulate_swap(&self, token_in: Address, token_out: Address, fee: u32, amount_in: U256)
        -> (r: ExactInputSingleParams)
        ensures
            r == ExactInputSingleParams::unlimited(token_in, token_out, fee, amount_in),
    {
        ExactInputSingleParams {
            token_in,
            token_out,
            amount_in,
            fee,
            sqrt_price_limit_x96: U256::zero(),
        }
    }

    /// Opens a round-trip check: buy `frontrun_amount` worth of `token_out`,
    /// then sell the proceeds back. Returns the check and its first request.
    pub fn check_profitability(
        &self,
        token_in: Address,
        token_out: Address,
        fee: u32,
        frontrun_amount: U256,
    ) -> (r: (ProfitabilityCheck, ExactInputSingleParams))
        ensures
            r.0 == (ProfitabilityCheck {
                token_in,
                token_out,
                fee,
                frontrun_amount,
                phase: CheckPhase::AwaitingBuy,
            }),
            r.1 == ExactInputSingleParams::unlimited(token_in, token_out, fee, frontrun_amount),
    {
        (
            ProfitabilityCheck {
                token_in,
                token_out,
                fee,
                frontrun_amount,
                phase: CheckPhase::AwaitingBuy,
            },
            self.simulate_swap(token_in, token_out, fee, frontrun_amount),
        )
    }
}

/// A check that is fed the buy quote and, where one is asked for, the sell
/// quote ends with the verdict of the round trip; where the buy leg already
/// fails, no sell quote is asked for and the verdict is negative.
pub proof fn lemma_check_decides_round_trip(
    check: ProfitabilityCheck,
    buy: SimulationResult,
    sell: SimulationResult,
)
    requires
        check.phase == CheckPhase::AwaitingBuy,
    ensures
        check.on_quote_spec(buy).1 is Some ==> check.on_quote_spec(buy).0.on_quote_spec(
            sell,
        ).0.verdict_spec() == Some(round_trip_profitable(check.frontrun_amount@, buy, sell)),
        check.on_quote_spec(buy).1 is None ==> check.on_quote_spec(buy).0.verdict_spec() == Some(
            false,
        ) && !round_trip_profitable(check.frontrun_amount@, buy, sell),
{
}

/// A round trip never counts as profitable when either quote failed, nor
/// when the sell leg returns no more than was put in.
pub proof fn lemma_round_trip_needs_both_legs(
    frontrun_amount: nat,
    buy: SimulationResult,
    sell: SimulationResult,
)
    ensures
        !buy.profitable ==> !round_trip_profitable(frontrun_amount, buy, sell),
        !sell.profitable ==> !round_trip_profitable(frontrun_amount, buy, sell),
        sell.amount_out@ <= frontrun_amount ==> !round_trip_profitable(frontrun_amount, buy, sell),
{
}

} // verus!
