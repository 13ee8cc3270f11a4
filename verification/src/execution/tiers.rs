//! The fee tiers of a pool, the simulation that each of them goes through,
//! and the choice among those that passed.

use crate::analysis::simulator::{
    round_trip_profitable, CheckPhase, ExactInputSingleParams, ProfitabilityCheck,
    SimulationResult, Simulator,
};
use crate::primitives::{Address, U256};
use vstd::prelude::*;

verus! {

/// The standard pool fee tiers, in the order in which they are tried.
pub const FEE_TIERS: [u32; 3] = [3000, 500, 10000];

/// The confirmed quote of one fee tier that passed the round-trip check.
#[derive(Clone, Copy, Debug, PartialEq, Eq)]
pub struct TierQuote {
    pub fee: u32,
    pub amount_out: U256,
}

/// The simulation of one fee tier: the round-trip check, then one more
/// forward quote that confirms the tier and fixes its estimated output.
#[derive(Clone, Copy, Debug, PartialEq, Eq)]
pub enum TierProbe {
    /// The round-trip check is under way.
    Checking { check: ProfitabilityCheck },
    /// The check passed and the confirming quote is asked for.
    Confirming { fee: u32 },
    /// The tier is decided: its quote if it passed, nothing if it did not.
    Decided { quote: Option<TierQuote> },
}

impl TierProbe {
    /// The probe after one more quote, and the next quote to ask for, if any.
    pub open spec fn on_quote_spec(self, quote: SimulationResult) -> (
        TierProbe,
        Option<ExactInputSingleParams>,
    ) {
        match self {
            TierProbe::Checking { check } => {
                let (next, request) = check.on_quote_spec(quote);
                match next.phase {
                    CheckPhase::Done { profitable } => {
                        if profitable {
                            (
                                TierProbe::Confirming { fee: check.fee },
                                Some(
                                    ExactInputSingleParams::unlimited(
                                        check.token_in,
                                        check.token_out,
                                        check.fee,
                                        check.frontrun_amount,
                                    ),
                                ),
                            )
                        } else {
                            (TierProbe::Decided { quote: None }, None)
                        }
                    },
                    _ => (TierProbe::Checking { check: next }, request),
                }
            },
            TierProbe::Confirming { fee } => {
                if quote.profitable {
                    (
                        TierProbe::Decided {
                            quote: Some(TierQuote { fee, amount_out: quote.amount_out }),
                        },
                        None,
                    )
                } else {
                    (TierProbe::Decided { quote: None }, None)
                }
            },
            TierProbe::Decided { quote: decided } => (self, None),
        }
    }

    /// The decision, once there is one.
    pub open spec fn decision_spec(self) -> Option<Option<TierQuote>> {
        match self {
            TierProbe::Decided { quote } => Some(quote),
            _ => None,
        }
    }

    /// Opens the probe of one fee tier and gives its first request.
    pub fn start(
        simulator: &Simulator,
        token_in: Address,
        token_out: Address,
        fee: u32,
        frontrun_amount: U256,
    ) -> (r: (TierProbe, ExactInputSingleParams))
        ensures
            r.0 == (TierProbe::Checking {
                check: ProfitabilityCheck {
                    token_in,
                    token_out,
                    fee,
                    frontrun_amount,
                    phase: CheckPhase::AwaitingBuy,
                },
            }),
            r.1 == ExactInputSingleParams::unlimited(token_in, token_out, fee, frontrun_amount),
    {
        let (check, request) = simulator.check_profitability(
            token_in,
            token_out,
            fee,
            frontrun_amount,
        );
        (TierProbe::Checking { check }, request)
    }

    /// Takes in the result of the quote last asked for.
    pub fn on_quote(self, quote: SimulationResult) -> (r: (
        TierProbe,
        Option<ExactInputSingleParams>,
    ))
        ensures
            r == self.on_quote_spec(quote),
    {
        match self {
            TierProbe::Checking { check } => {
                let (next, request) = check.on_quote(quote);
                match next.phase {
                    CheckPhase::Done { profitable } => {
                        if profitable {
                            (
                                TierProbe::Confirming { fee: check.fee },
                                Some(
                                    ExactInputSingleParams {
                                        token_in: check.token_in,
                                        token_out: check.token_out,
                                        amount_in: check.frontrun_amount,
                                        fee: check.fee,
                                        sqrt_price_limit_x96: U256::zero(),
                                    },
                                ),
                            )
                        } else {
                            (TierProbe::Decided { quote: None }, None)
                        }
                    },
                    _ => (TierProbe::Checking { check: next }, request),
                }
            },
            TierProbe::Confirming { fee } => {
                if quote.profitable {
                    (
                        TierProbe::Decided {
                            quote: Some(TierQuote { fee, amount_out: quote.amount_out }),
                        },
                        None,
                    )
                } else {
                    (TierProbe::Decided { quote: None }, None)
                }
            },
            TierProbe::Decided { quote: decided } => (self, None),
        }
    }

    pub fn decision(&self) -> (r: Option<Option<TierQuote>>)
        ensures
            r == self.decision_spec(),
    {
        match self {
            TierProbe::Decided { quote } => Some(*quote),
            _ => None,
        }
    }
}

/// The first entry that holds a quote, if any does.
pub open spec fn first_some(results: Seq<Option<TierQuote>>) -> Option<TierQuote>
    decreases results.len(),
{
    if results.len() == 0 {
        None
    } else if results[0] is Some {
        results[0]
    } else {
        first_some(results.subrange(1, results.len() as int))
    }
}

/// `first_some` yields the entry at the lowest index that holds a quote, and
/// nothing exactly when no entry holds one.
pub proof fn lemma_first_some(results: Seq<Option<TierQuote>>)
    ensures
        first_some(results) is None <==> forall|i: int|
            0 <= i < results.len() ==> results[i] is None,
        first_some(results) is Some ==> exists|i: int|
            0 <= i < results.len() && results[i] == first_some(results) && forall|j: int|
                0 <= j < i ==> results[j] is None,
    decreases results.len(),
{
    if results.len() == 0 {
    } else if results[0] is Some {
        assert(0 <= 0 < results.len() && results[0] == first_some(results) && forall|j: int|
            0 <= j < 0 ==> results[j] is None);
    } else {
        let rest = results.subrange(1, results.len() as int);
        lemma_first_some(rest);
        assert forall|i: int| 0 <= i < rest.len() implies rest[i] == results[i + 1] by {}
        if first_some(rest) is None {
            assert forall|i: int| 0 <= i < results.len() implies results[i] is None by {
                if i > 0 {
                    assert(rest[i - 1] is None);
                }
            }
        } else {
            let k = choose|i: int|
                0 <= i < rest.len() && rest[i] == first_some(rest) && forall|j: int|
                    0 <= j < i ==> rest[j] is None;
            assert(results[k + 1] is Some);
            assert forall|j: int| 0 <= j < k + 1 implies results[j] is None by {
                if j > 0 {
                    assert(rest[j - 1] is None);
                }
            }
            assert(0 <= k + 1 < results.len() && results[k + 1] == first_some(results)
                && forall|j: int| 0 <= j < k + 1 ==> results[j] is None);
        }
    }
}

/// Picks the tier to trade on: the first one, in the order of `results`,
/// whose simulation passed. Neither the lowest fee nor the best output wins.
pub fn select_fee_tier(results: &Vec<Option<TierQuote>>) -> (r: Option<TierQuote>)
    ensures
        r == first_some(results@),
{
    let mut i: usize = 0;
    assert(results@.subrange(0, results@.len() as int) =~= results@);
    while i < results.len()
        invariant
            i <= results.len(),
            first_some(results@) == first_some(results@.subrange(i as int, results@.len() as int)),
        decreases results.len() - i,
    {
        let ghost tail = results@.subrange(i as int, results@.len() as int);
        assert(tail[0] == results@[i as int]);
        match results[i] {
            Some(q) => {
                return Some(q);
            },
            None => {
                assert(tail.subrange(1, tail.len() as int) =~= results@.subrange(
                    i as int + 1,
                    results@.len() as int,
                ));
            },
        }
        i += 1;
    }
    assert(results@.subrange(i as int, results@.len() as int).len() == 0);
    None
}

/// A tier passes exactly when its round trip pays and the confirming
/// quote goes through; its quote then carries the confirmed output. A probe
/// that is fed the quotes it asks for decides accordingly, and asks for the
/// sell leg only after a buy leg that passed, for the confirmation only
/// after a round trip that pays.
pub proof fn lemma_probe_decides_tier(
    check: ProfitabilityCheck,
    buy: SimulationResult,
    sell: SimulationResult,
    confirm: SimulationResult,
)
    requires
        check.phase == CheckPhase::AwaitingBuy,
    ensures
        ({
            let probe = TierProbe::Checking { check };
            let after_buy = probe.on_quote_spec(buy);
            let after_sell = after_buy.0.on_quote_spec(sell);
            let after_confirm = after_sell.0.on_quote_spec(confirm);
            let pays = round_trip_profitable(check.frontrun_amount@, buy, sell);
            &&& after_buy.1 is None ==> !pays && after_buy.0.decision_spec() == Some(
                None::<TierQuote>,
            )
            &&& after_buy.1 is Some && after_sell.1 is None ==> !pays
                && after_sell.0.decision_spec() == Some(None::<TierQuote>)
            &&& after_buy.1 is Some && after_sell.1 is Some ==> pays
                && after_confirm.0.decision_spec() == Some(
                if confirm.profitable {
                    Some(TierQuote { fee: check.fee, amount_out: confirm.amount_out })
                } else {
                    None
                },
            )
        }),
{
}

} // verus!
