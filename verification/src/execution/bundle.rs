//! Gas bidding and the state machine that sequences the frontrun and
//! backrun legs of one attempt.
//!
//! The machine never touches the chain. The caller performs each [`Action`]
//! and reports what came back as a [`ChainEvent`].

use crate::execution::settlement::{net_profit, net_profit_value, Receipt};
use crate::execution::tiers::{first_some, select_fee_tier, TierQuote, FEE_TIERS};
use crate::primitives::{
    amount_of, lemma_amount_of, lemma_amount_of_value, lemma_u256_bounded, Address, U256,
};
use vstd::prelude::*;

verus! {

/// Gas limit attached to each of the two submitted transactions.
pub const LEG_GAS_LIMIT: u64 = 400_000;

/// Gas price bid when the victim's own price is unknown.
pub const DEFAULT_GAS_PRICE: u128 = 2_000_000_000;

/// Pause between learning the frontrun's proceeds and starting the backrun.
pub const VICTIM_DELAY_MILLIS: u64 = 500;

/// The frontrun bid: the victim's price plus a fifth, or the default when the
/// victim's price is unknown.
pub open spec fn frontrun_gas_price_spec(victim_gas_price: u128) -> int {
    if victim_gas_price > 0 {
        victim_gas_price + victim_gas_price / 5
    } else {
        DEFAULT_GAS_PRICE as int
    }
}

pub fn frontrun_gas_price(victim_gas_price: u128) -> (r: u128)
    requires
        frontrun_gas_price_spec(victim_gas_price) <= u128::MAX,
    ensures
        r == frontrun_gas_price_spec(victim_gas_price),
{
    if victim_gas_price > 0 {
        victim_gas_price + victim_gas_price / 5
    } else {
        DEFAULT_GAS_PRICE
    }
}

/// Whether the frontrun bid for this victim price fits the gas-price field.
pub fn bid_fits(victim_gas_price: u128) -> (r: bool)
    ensures
        r <==> frontrun_gas_price_spec(victim_gas_price) <= u128::MAX,
{
    victim_gas_price <= u128::MAX - victim_gas_price / 5
}

/// Why an attempt ended without settling.
#[derive(Clone, Copy, Debug, PartialEq, Eq)]
pub enum AbandonReason {
    NoProfitablePool,
    FrontrunReverted,
    ZeroTokensReceived,
    BackrunReverted,
}

/// Progress within the backrun leg.
#[derive(Clone, Copy, Debug, PartialEq, Eq)]
pub enum BackrunStep {
    /// The input-token balance before the backrun has been asked for.
    ReadingBalance,
    /// The backrun is submitted and its receipt awaited.
    Submitted { balance_before: U256 },
    /// The backrun succeeded and the input-token balance after it has been asked for.
    Settling { balance_before: U256, backrun: Receipt },
}

/// Where one attempt stands.
#[derive(Clone, Copy, Debug, PartialEq, Eq)]
pub enum SandwichState {
    /// Nothing has been asked of the chain yet.
    Scanning,
    /// The fee-tier simulations are running.
    FeeSelection,
    /// The frontrun is submitted and its receipt awaited.
    Frontrunning { fee: u32 },
    /// The frontrun is included. Until the output-token balance is known
    /// `received` is empty; after that the delay for the victim runs.
    AwaitingVictim { fee: u32, frontrun: Receipt, received: Option<U256> },
    /// The backrun leg is under way.
    Backrunning { fee: u32, frontrun: Receipt, tokens_held: U256, step: BackrunStep },
    /// Both legs are included and accounted for.
    Settled { tokens_held: U256, net_profit: U256 },
    /// The attempt was given up; `tokens_held` stay with the executing contract.
    Abandoned { reason: AbandonReason, tokens_held: U256 },
    /// The transport failed underneath the attempt.
    Failed,
}

/// What the caller observed.
#[derive(Debug, PartialEq, Eq)]
pub enum ChainEvent {
    /// The attempt is to begin.
    Start,
    /// One entry per fee tier, in the order of the tiers: the confirmed quote
    /// of a tier that passed, nothing for one that did not.
    Simulations(Vec<Option<TierQuote>>),
    /// The submitted transaction was included.
    Included(Receipt),
    /// The executing contract's balance of the token last asked about.
    Balance(U256),
    /// The pause last asked for is over.
    DelayElapsed,
    /// A call or a wait for a receipt failed in transport.
    TransportFailure,
}

/// What the caller is to do next.
#[derive(Clone, Copy, Debug, PartialEq, Eq)]
pub enum Action {
    /// Nothing: the event did not concern the attempt in its current state.
    Idle,
    /// Simulate the round trip on each of `tiers` and report the results
    /// together, in the order of `tiers`.
    RunSimulations { token_in: Address, token_out: Address, amount_in: U256, tiers: [u32; 3] },
    /// Submit the frontrun with an explicit gas price bid and await its receipt.
    SubmitFrontrun {
        token_in: Address,
        token_out: Address,
        fee: u32,
        amount_in: U256,
        amount_out_min: U256,
        gas_price: u128,
        gas_limit: u64,
    },
    /// Read the executing contract's balance of `token`.
    QueryBalance { token: Address },
    /// Pause.
    Wait { millis: u64 },
    /// Submit the backrun at the ambient gas price and await its receipt.
    SubmitBackrun {
        token_in: Address,
        token_out: Address,
        fee: u32,
        amount_in: U256,
        amount_out_min: U256,
        gas_limit: u64,
    },
    /// The attempt is over with this result.
    Finish { tokens_held: U256, net_profit: U256 },
    /// The attempt is over with a transport error.
    Fail,
}

/// One opportunity under execution.
#[derive(Clone, Copy, Debug, PartialEq, Eq)]
pub struct SandwichAttempt {
    pub token_in: Address,
    pub token_out: Address,
    pub frontrun_amount: U256,
    pub victim_gas_price: u128,
    pub state: SandwichState,
}

impl SandwichAttempt {
    /// The same attempt in another state.
    pub open spec fn moved_to(self, state: SandwichState) -> SandwichAttempt {
        SandwichAttempt {
            token_in: self.token_in,
            token_out: self.token_out,
            frontrun_amount: self.frontrun_amount,
            victim_gas_price: self.victim_gas_price,
            state,
        }
    }

    /// An attempt is over once it is settled, abandoned or failed.
    pub open spec fn is_terminal(self) -> bool {
        self.state is Settled || self.state is Abandoned || self.state is Failed
    }

    /// The transition on a balance reading.
    pub open spec fn on_balance(self, balance: U256) -> (SandwichAttempt, Action) {
        match self.state {
            SandwichState::AwaitingVictim { fee, frontrun, received: None } => {
                if balance@ == 0 {
                    (
                        self.moved_to(
                            SandwichState::Abandoned {
                                reason: AbandonReason::ZeroTokensReceived,
                                tokens_held: U256::spec_zero(),
                            },
                        ),
                        Action::Finish {
                            tokens_held: U256::spec_zero(),
                            net_profit: U256::spec_zero(),
                        },
                    )
                } else {
                    (
                        self.moved_to(
                            SandwichState::AwaitingVictim {
                                fee,
                                frontrun,
                                received: Some(balance),
                            },
                        ),
                        Action::Wait { millis: VICTIM_DELAY_MILLIS },
                    )
                }
            },
            SandwichState::Backrunning {
                fee,
                frontrun,
                tokens_held,
                step: BackrunStep::ReadingBalance,
            } => (
                self.moved_to(
                    SandwichState::Backrunning {
                        fee,
                        frontrun,
                        tokens_held,
                        step: BackrunStep::Submitted { balance_before: balance },
                    },
                ),
                Action::SubmitBackrun {
                    token_in: self.token_out,
                    token_out: self.token_in,
                    fee,
                    amount_in: tokens_held,
                    amount_out_min: U256::spec_zero(),
                    gas_limit: LEG_GAS_LIMIT,
                },
            ),
            SandwichState::Backrunning {
                fee,
                frontrun,
                tokens_held,
                step: BackrunStep::Settling { balance_before, backrun },
            } => {
                let net = amount_of(net_profit_value(balance_before@, balance@, frontrun, backrun));
                (
                    self.moved_to(SandwichState::Settled { tokens_held, net_profit: net }),
                    Action::Finish { tokens_held, net_profit: net },
                )
            },
            _ => (self, Action::Idle),
        }
    }

    /// The transition on a receipt.
    pub open spec fn on_included(self, receipt: Receipt) -> (SandwichAttempt, Action) {
        match self.state {
            SandwichState::Frontrunning { fee } => {
                if receipt.success {
                    (
                        self.moved_to(
                            SandwichState::AwaitingVictim {
                                fee,
                                frontrun: receipt,
                                received: None,
                            },
                        ),
                        Action::QueryBalance { token: self.token_out },
                    )
                } else {
                    (
                        self.moved_to(
                            SandwichState::Abandoned {
                                reason: AbandonReason::FrontrunReverted,
                                tokens_held: U256::spec_zero(),
                            },
                        ),
                        Action::Finish {
                            tokens_held: U256::spec_zero(),
                            net_profit: U256::spec_zero(),
                        },
                    )
                }
            },
            SandwichState::Backrunning {
                fee,
                frontrun,
                tokens_held,
                step: BackrunStep::Submitted { balance_before },
            } => {
                if receipt.success {
                    (
                        self.moved_to(
                            SandwichState::Backrunning {
                                fee,
                                frontrun,
                                tokens_held,
                                step: BackrunStep::Settling { balance_before, backrun: receipt },
                            },
                        ),
                        Action::QueryBalance { token: self.token_in },
                    )
                } else {
                    (
                        self.moved_to(
                            SandwichState::Abandoned {
                                reason: AbandonReason::BackrunReverted,
                                tokens_held,
                            },
                        ),
                        Action::Finish { tokens_held, net_profit: U256::spec_zero() },
                    )
                }
            },
            _ => (self, Action::Idle),
        }
    }

    /// The transition on the results of the fee-tier simulations.
    pub open spec fn on_simulations(self, results: Seq<Option<TierQuote>>) -> (
        SandwichAttempt,
        Action,
    ) {
        match self.state {
            SandwichState::FeeSelection => match first_some(results) {
                Some(quote) => (
                    self.moved_to(SandwichState::Frontrunning { fee: quote.fee }),
                    Action::SubmitFrontrun {
                        token_in: self.token_in,
                        token_out: self.token_out,
                        fee: quote.fee,
                        amount_in: self.frontrun_amount,
                        amount_out_min: U256::spec_zero(),
                        gas_price: frontrun_gas_price_spec(self.victim_gas_price) as u128,
                        gas_limit: LEG_GAS_LIMIT,
                    },
                ),
                None => (
                    self.moved_to(
                        SandwichState::Abandoned {
                            reason: AbandonReason::NoProfitablePool,
                            tokens_held: U256::spec_zero(),
                        },
                    ),
                    Action::Finish {
                        tokens_held: U256::spec_zero(),
                        net_profit: U256::spec_zero(),
                    },
                ),
            },
            _ => (self, Action::Idle),
        }
    }

    /// The whole transition function: the next state and what to do, for
    /// every state and event. An event that the current state does not wait
    /// for changes nothing.
    pub open spec fn step_spec(self, event: ChainEvent) -> (SandwichAttempt, Action) {
        if self.is_terminal() {
            (self, Action::Idle)
        } else {
            match event {
                ChainEvent::TransportFailure => (self.moved_to(SandwichState::Failed), Action::Fail),
                ChainEvent::Start => match self.state {
                    SandwichState::Scanning => (
                        self.moved_to(SandwichState::FeeSelection),
                        Action::RunSimulations {
                            token_in: self.token_in,
                            token_out: self.token_out,
                            amount_in: self.frontrun_amount,
                            tiers: FEE_TIERS,
                        },
                    ),
                    _ => (self, Action::Idle),
                },
                ChainEvent::Simulations(results) => self.on_simulations(results@),
                ChainEvent::Included(receipt) => self.on_included(receipt),
                ChainEvent::Balance(balance) => self.on_balance(balance),
                ChainEvent::DelayElapsed => match self.state {
                    SandwichState::AwaitingVictim { fee, frontrun, received: Some(held) } => (
                        self.moved_to(
                            SandwichState::Backrunning {
                                fee,
                                frontrun,
                                tokens_held: held,
                                step: BackrunStep::ReadingBalance,
                            },
                        ),
                        Action::QueryBalance { token: self.token_in },
                    ),
                    _ => (self, Action::Idle),
                },
            }
        }
    }

    /// The attempt after a sequence of events, and the actions that were
    /// asked for on the way, one for each event.
    pub open spec fn run_spec(self, events: Seq<ChainEvent>) -> (SandwichAttempt, Seq<Action>)
        decreases events.len(),
    {
        if events.len() == 0 {
            (self, Seq::empty())
        } else {
            let (next, action) = self.step_spec(events[0]);
            let (last, actions) = next.run_spec(events.subrange(1, events.len() as int));
            (last, seq![action] + actions)
        }
    }

    /// The one step whose arithmetic is bounded by the machine: choosing a
    /// tier computes the frontrun bid, which has to fit the gas-price field.
    pub open spec fn step_allowed(self, event: ChainEvent) -> bool {
        match event {
            ChainEvent::Simulations(results) => (self.state is FeeSelection && first_some(results@)
                is Some) ==> frontrun_gas_price_spec(self.victim_gas_price) <= u128::MAX,
            _ => true,
        }
    }

    /// The result of a finished attempt: tokens received from the frontrun and
    /// reported net profit. An attempt that is still running, or that failed
    /// in transport, has none.
    pub open spec fn outcome_spec(self) -> Option<(U256, U256)> {
        match self.state {
            SandwichState::Settled { tokens_held, net_profit } => Some((tokens_held, net_profit)),
            SandwichState::Abandoned { reason, tokens_held } => Some(
                (tokens_held, U256::spec_zero()),
            ),
            _ => None,
        }
    }

    /// A fresh attempt, before anything is asked of the chain.
    pub fn new(
        token_in: Address,
        token_out: Address,
        frontrun_amount: U256,
        victim_gas_price: u128,
    ) -> (r: SandwichAttempt)
        ensures
            r == (SandwichAttempt {
                token_in,
                token_out,
                frontrun_amount,
                victim_gas_price,
                state: SandwichState::Scanning,
            }),
    {
        SandwichAttempt {
            token_in,
            token_out,
            frontrun_amount,
            victim_gas_price,
            state: SandwichState::Scanning,
        }
    }

    fn with_state(&self, state: SandwichState) -> (r: SandwichAttempt)
        ensures
            r == self.moved_to(state),
    {
        SandwichAttempt {
            token_in: self.token_in,
            token_out: self.token_out,
            frontrun_amount: self.frontrun_amount,
            victim_gas_price: self.victim_gas_price,
            state,
        }
    }

    fn abandon(&self, reason: AbandonReason, tokens_held: U256) -> (r: (SandwichAttempt, Action))
        ensures
            r == (
                self.moved_to(SandwichState::Abandoned { reason, tokens_held }),
                Action::Finish { tokens_held, net_profit: U256::spec_zero() },
            ),
    {
        (
            self.with_state(SandwichState::Abandoned { reason, tokens_held }),
            Action::Finish { tokens_held, net_profit: U256::zero() },
        )
    }

    pub fn is_finished(&self) -> (r: bool)
        ensures
            r == self.is_terminal(),
    {
        match self.state {
            SandwichState::Settled { .. } => true,
            SandwichState::Abandoned { .. } => true,
            SandwichState::Failed => true,
            _ => false,
        }
    }

    pub fn outcome(&self) -> (r: Option<(U256, U256)>)
        ensures
            r == self.outcome_spec(),
    {
        match self.state {
            SandwichState::Settled { tokens_held, net_profit } => Some((tokens_held, net_profit)),
            SandwichState::Abandoned { reason, tokens_held } => Some((tokens_held, U256::zero())),
            _ => None,
        }
    }

    /// Advances the attempt by one observed event.
    pub fn step(self, event: ChainEvent) -> (r: (SandwichAttempt, Action))
        requires
            self.step_allowed(event),
        ensures
            r == self.step_spec(event),
    {
        if self.is_finished() {
            return (self, Action::Idle);
        }
        match event {
            ChainEvent::TransportFailure => (self.with_state(SandwichState::Failed), Action::Fail),
            ChainEvent::Start => match self.state {
                SandwichState::Scanning => (
                    self.with_state(SandwichState::FeeSelection),
                    Action::RunSimulations {
                        token_in: self.token_in,
                        token_out: self.token_out,
                        amount_in: self.frontrun_amount,
                        tiers: FEE_TIERS,
                    },
                ),
                _ => (self, Action::Idle),
            },
            ChainEvent::Simulations(results) => match self.state {
                SandwichState::FeeSelection => match select_fee_tier(&results) {
                    Some(quote) => (
                        self.with_state(SandwichState::Frontrunning { fee: quote.fee }),
                        Action::SubmitFrontrun {
                            token_in: self.token_in,
                            token_out: self.token_out,
                            fee: quote.fee,
                            amount_in: self.frontrun_amount,
                            amount_out_min: U256::zero(),
                            gas_price: frontrun_gas_price(self.victim_gas_price),
                            gas_limit: LEG_GAS_LIMIT,
                        },
                    ),
                    None => self.abandon(AbandonReason::NoProfitablePool, U256::zero()),
                },
                _ => (self, Action::Idle),
            },
            ChainEvent::Included(receipt) => match self.state {
                SandwichState::Frontrunning { fee } => {
                    if receipt.success {
                        (
                            self.with_state(
                                SandwichState::AwaitingVictim {
                                    fee,
                                    frontrun: receipt,
                                    received: None,
                                },
                            ),
                            Action::QueryBalance { token: self.token_out },
                        )
                    } else {
                        self.abandon(AbandonReason::FrontrunReverted, U256::zero())
                    }
                },
                SandwichState::Backrunning {
                    fee,
                    frontrun,
                    tokens_held,
                    step: BackrunStep::Submitted { balance_before },
                } => {
                    if receipt.success {
                        (
                            self.with_state(
                                SandwichState::Backrunning {
                                    fee,
                                    frontrun,
                                    tokens_held,
                                    step: BackrunStep::Settling { balance_before, backrun: receipt },
                                },
                            ),
                            Action::QueryBalance { token: self.token_in },
                        )
                    } else {
                        self.abandon(AbandonReason::BackrunReverted, tokens_held)
                    }
                },
                _ => (self, Action::Idle),
            },
            ChainEvent::Balance(balance) => match self.state {
                SandwichState::AwaitingVictim { fee, frontrun, received: None } => {
                    if balance.is_zero() {
                        self.abandon(AbandonReason::ZeroTokensReceived, U256::zero())
                    } else {
                        (
                            self.with_state(
                                SandwichState::AwaitingVictim {
                                    fee,
                                    frontrun,
                                    received: Some(balance),
                                },
                            ),
                            Action::Wait { millis: VICTIM_DELAY_MILLIS },
                        )
                    }
                },
                SandwichState::Backrunning {
                    fee,
                    frontrun,
                    tokens_held,
                    step: BackrunStep::ReadingBalance,
                } => (
                    self.with_state(
                        SandwichState::Backrunning {
                            fee,
                            frontrun,
                            tokens_held,
                            step: BackrunStep::Submitted { balance_before: balance },
                        },
                    ),
                    Action::SubmitBackrun {
                        token_in: self.token_out,
                        token_out: self.token_in,
                        fee,
                        amount_in: tokens_held,
                        amount_out_min: U256::zero(),
                        gas_limit: LEG_GAS_LIMIT,
                    },
                ),
                SandwichState::Backrunning {
                    fee,
                    frontrun,
                    tokens_held,
                    step: BackrunStep::Settling { balance_before, backrun },
                } => {
                    let net = net_profit(&balance_before, &balance, &frontrun, &backrun);
                    proof {
                        lemma_amount_of_value(net);
                    }
                    (
                        self.with_state(SandwichState::Settled { tokens_held, net_profit: net }),
                        Action::Finish { tokens_held, net_profit: net },
                    )
                },
                _ => (self, Action::Idle),
            },
            ChainEvent::DelayElapsed => match self.state {
                SandwichState::AwaitingVictim { fee, frontrun, received: Some(held) } => (
                    self.with_state(
                        SandwichState::Backrunning {
                            fee,
                            frontrun,
                            tokens_held: held,
                            step: BackrunStep::ReadingBalance,
                        },
                    ),
                    Action::QueryBalance { token: self.token_in },
                ),
                _ => (self, Action::Idle),
            },
        }
    }
}

/// Creates attempts against one executing contract.
#[derive(Clone, Copy, Debug, PartialEq, Eq)]
pub struct BundleExecutor {
    pub executor_address: Address,
}

impl BundleExecutor {
    pub fn new(executor_address: Address) -> (r: BundleExecutor)
        ensures
            r.executor_address == executor_address,
    {
        BundleExecutor { executor_address }
    }

    /// Opens the execution of one opportunity and takes its first step: the
    /// attempt is selecting a fee tier, and the simulations are asked for.
    /// The caller then performs each action and feeds what it observed to
    /// [`SandwichAttempt::step`], until the attempt finishes.
    pub fn execute_optimized(
        &self,
        token_in: Address,
        token_out: Address,
        frontrun_amount: U256,
        victim_gas_price: u128,
    ) -> (r: (SandwichAttempt, Action))
        ensures
            r == (SandwichAttempt {
                token_in,
                token_out,
                frontrun_amount,
                victim_gas_price,
                state: SandwichState::Scanning,
            }).step_spec(ChainEvent::Start),
            r.0.state == SandwichState::FeeSelection,
    {
        SandwichAttempt::new(token_in, token_out, frontrun_amount, victim_gas_price).step(
            ChainEvent::Start,
        )
    }
}

/// The last balance reading settles the attempt: it ends holding the
/// tokens bought and reports the net profit of the two readings and receipts.
pub proof fn lemma_settlement_reports_net_profit(attempt: SandwichAttempt, balance_after: U256)
    requires
        attempt.state matches SandwichState::Backrunning { step: BackrunStep::Settling { .. }, .. },
    ensures
        attempt.state matches SandwichState::Backrunning {
            frontrun,
            tokens_held,
            step: BackrunStep::Settling { balance_before, backrun },
            ..
        } && attempt.step_spec(ChainEvent::Balance(balance_after)).0.outcome_spec() matches Some(
            result,
        ) && result.0 == tokens_held && result.1@ == net_profit_value(
            balance_before@,
            balance_after@,
            frontrun,
            backrun,
        ),
{
    match attempt.state {
        SandwichState::Backrunning {
            frontrun,
            step: BackrunStep::Settling { balance_before, backrun },
            ..
        } => {
            lemma_u256_bounded(balance_after);
            lemma_amount_of(
                net_profit_value(balance_before@, balance_after@, frontrun, backrun),
            );
        },
        _ => {},
    }
}

/// A finished attempt stays as it is and asks for nothing more, whatever
/// is reported to it.
pub proof fn lemma_finished_attempts_stay_finished(attempt: SandwichAttempt, event: ChainEvent)
    requires
        attempt.is_terminal(),
    ensures
        attempt.step_spec(event) == (attempt, Action::Idle),
{
}

/// A frontrun that reverted ends the attempt at once with nothing held and
/// nothing earned.
pub proof fn lemma_reverted_frontrun_ends_the_attempt(attempt: SandwichAttempt, receipt: Receipt)
    requires
        attempt.state is Frontrunning,
        !receipt.success,
    ensures
        attempt.step_spec(ChainEvent::Included(receipt)).0.is_terminal(),
        attempt.step_spec(ChainEvent::Included(receipt)).0.outcome_spec() == Some(
            (U256::spec_zero(), U256::spec_zero()),
        ),
        attempt.step_spec(ChainEvent::Included(receipt)).1 == (Action::Finish {
            tokens_held: U256::spec_zero(),
            net_profit: U256::spec_zero(),
        }),
{
}

/// A frontrun that left no output tokens ends the attempt at once with
/// nothing held and nothing earned.
pub proof fn lemma_zero_balance_ends_the_attempt(attempt: SandwichAttempt, balance: U256)
    requires
        attempt.state matches SandwichState::AwaitingVictim { received: None, .. },
        balance@ == 0,
    ensures
        attempt.step_spec(ChainEvent::Balance(balance)).0.is_terminal(),
        attempt.step_spec(ChainEvent::Balance(balance)).0.outcome_spec() == Some(
            (U256::spec_zero(), U256::spec_zero()),
        ),
        attempt.step_spec(ChainEvent::Balance(balance)).1 == (Action::Finish {
            tokens_held: U256::spec_zero(),
            net_profit: U256::spec_zero(),
        }),
{
}

/// What holds of every attempt that was started fresh and only ever
/// stepped: once the frontrun is behind it, its receipt reported success,
/// and tokens counted as held are not zero.
pub open spec fn legs_consistent(attempt: SandwichAttempt) -> bool {
    match attempt.state {
        SandwichState::AwaitingVictim { frontrun, received, .. } => frontrun.success && (
        received matches Some(held) ==> held@ != 0),
        SandwichState::Backrunning { frontrun, tokens_held, step, .. } => frontrun.success
            && tokens_held@ != 0 && (step matches BackrunStep::Settling { backrun, .. }
            ==> backrun.success),
        _ => true,
    }
}

/// A fresh attempt is consistent, and stepping keeps it so.
pub proof fn lemma_steps_keep_legs_consistent(attempt: SandwichAttempt, event: ChainEvent)
    ensures
        attempt.state is Scanning ==> legs_consistent(attempt),
        legs_consistent(attempt) ==> legs_consistent(attempt.step_spec(event).0),
{
}

/// A backrun is asked for only in answer to the balance reading that opens
/// the backrun leg, and it sells exactly the tokens held.
pub proof fn lemma_backrun_sells_what_is_held(attempt: SandwichAttempt, event: ChainEvent)
    requires
        attempt.step_spec(event).1 is SubmitBackrun,
    ensures
        event is Balance,
        attempt.state matches SandwichState::Backrunning {
            fee,
            tokens_held,
            step: BackrunStep::ReadingBalance,
            ..
        } && attempt.step_spec(event).1 == (Action::SubmitBackrun {
            token_in: attempt.token_out,
            token_out: attempt.token_in,
            fee,
            amount_in: tokens_held,
            amount_out_min: U256::spec_zero(),
            gas_limit: LEG_GAS_LIMIT,
        }),
{
}

/// Whatever is reported to a finished attempt, it stays as it is and every
/// answer is to do nothing.
pub proof fn lemma_finished_attempts_ask_nothing(attempt: SandwichAttempt, events: Seq<ChainEvent>)
    requires
        attempt.is_terminal(),
    ensures
        attempt.run_spec(events).0 == attempt,
        attempt.run_spec(events).1.len() == events.len(),
        forall|i: int| 0 <= i < events.len() ==> attempt.run_spec(events).1[i] == Action::Idle,
    decreases events.len(),
{
    if events.len() > 0 {
        lemma_finished_attempts_stay_finished(attempt, events[0]);
        lemma_finished_attempts_ask_nothing(attempt, events.subrange(1, events.len() as int));
    }
}

/// After a frontrun that reverted, whatever is reported next, the result is
/// nothing held and nothing earned, and no backrun is ever asked for.
pub proof fn lemma_no_backrun_after_reverted_frontrun(
    attempt: SandwichAttempt,
    receipt: Receipt,
    later: Seq<ChainEvent>,
)
    requires
        attempt.state is Frontrunning,
        !receipt.success,
    ensures
        attempt.run_spec(seq![ChainEvent::Included(receipt)] + later).0.outcome_spec() == Some(
            (U256::spec_zero(), U256::spec_zero()),
        ),
        forall|i: int|
            0 <= i < later.len() + 1 ==> !(attempt.run_spec(
                seq![ChainEvent::Included(receipt)] + later,
            ).1[i] is SubmitBackrun),
{
    let events = seq![ChainEvent::Included(receipt)] + later;
    assert(events.subrange(1, events.len() as int) =~= later);
    lemma_reverted_frontrun_ends_the_attempt(attempt, receipt);
    lemma_finished_attempts_ask_nothing(attempt.step_spec(events[0]).0, later);
}

/// After a frontrun that left no output tokens, whatever is reported next,
/// the result is nothing held and nothing earned, and no backrun is ever
/// asked for.
pub proof fn lemma_no_backrun_after_zero_balance(
    attempt: SandwichAttempt,
    balance: U256,
    later: Seq<ChainEvent>,
)
    requires
        attempt.state matches SandwichState::AwaitingVictim { received: None, .. },
        balance@ == 0,
    ensures
        attempt.run_spec(seq![ChainEvent::Balance(balance)] + later).0.outcome_spec() == Some(
            (U256::spec_zero(), U256::spec_zero()),
        ),
        forall|i: int|
            0 <= i < later.len() + 1 ==> !(attempt.run_spec(
                seq![ChainEvent::Balance(balance)] + later,
            ).1[i] is SubmitBackrun),
{
    let events = seq![ChainEvent::Balance(balance)] + later;
    assert(events.subrange(1, events.len() as int) =~= later);
    lemma_zero_balance_ends_the_attempt(attempt, balance);
    lemma_finished_attempts_ask_nothing(attempt.step_spec(events[0]).0, later);
}

} // verus!
