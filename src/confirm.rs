use vstd::prelude::*;
use core::time::Duration;
use cosmos_sdk_proto::cosmos::base::abci::v1beta1::TxResponse;
use crate::error::CosmosGrpcError;

verus! {

/// A coin amount in one denomination.
#[derive(Debug, Clone)]
pub struct Coin {
    pub amount: u128,
    pub denom: String,
}

/// What the node found lacking in a transaction's fee or gas.
#[derive(Debug, Clone)]
pub enum FeeInfo {
    InsufficientFees { min_fees: Vec<Coin> },
    InsufficientGas { amount: u64 },
}

/// The bounds of one confirmation wait.
#[derive(Debug, Clone, Copy, PartialEq, Eq, Structural)]
pub struct ConfirmConfig {
    /// Time after submission at which the wait ends, in milliseconds.
    pub deadline_ms: u64,
    /// Pause between two polls, in milliseconds.
    pub poll_interval_ms: u64,
}

/// Where the submitted transaction stands in the node's committed blocks.
#[derive(Debug, Clone)]
pub enum Inclusion {
    /// Not in any committed block yet.
    NotFound,
    /// Committed, and its result shows no fee or gas shortfall.
    Committed,
    /// Committed, but its result flags too little fee or gas.
    Underfunded(FeeInfo),
}

/// What one poll of the node brought back.
#[derive(Debug, Clone)]
pub enum PollResult {
    /// The query got no answer; it is retried until the deadline.
    QueryFailed,
    /// The node's latest block height, and where the transaction stands.
    Answered { height: u64, inclusion: Inclusion },
}

/// The state kept between polls.
#[derive(Debug, Clone, Copy, PartialEq, Eq, Structural)]
pub struct ConfirmState {
    /// The latest block height when the transaction was submitted.
    pub start_height: u64,
    /// Whether a block above `start_height` has been observed.
    pub block_seen: bool,
}

/// What the waiting side does after a poll.
#[derive(Debug, Clone)]
pub enum Step {
    /// Wait `poll_interval_ms` and poll again.
    PollAgain,
    /// The transaction is committed with a sufficient fee.
    Confirmed,
    /// No new block appeared before the deadline: the chain is stalled.
    NoBlockProduced { elapsed_ms: u64 },
    /// Blocks appeared, but the transaction was not among them by the deadline.
    TransactionFailed { elapsed_ms: u64 },
    /// The transaction is committed, but its fee or gas fell short.
    InsufficientFees { fee_info: FeeInfo },
}

impl Step {
    pub open spec fn is_terminal(self) -> bool {
        !(self is PollAgain)
    }
}

impl ConfirmState {
    pub open spec fn new_spec(start_height: u64) -> ConfirmState {
        ConfirmState { start_height, block_seen: false }
    }

    /// The state right after submission at `start_height`.
    pub fn new(start_height: u64) -> (r: ConfirmState)
        ensures
            r == ConfirmState::new_spec(start_height),
    {
        ConfirmState { start_height, block_seen: false }
    }

    /// Whether a block has been seen once `poll` is taken into account.
    pub open spec fn seen_after(self, poll: PollResult) -> bool {
        self.block_seen || match poll {
            PollResult::Answered { height, .. } => height > self.start_height,
            PollResult::QueryFailed => false,
        }
    }

    /// The step taken after `poll`, answered `elapsed_ms` after submission.
    pub open spec fn step_spec(self, config: ConfirmConfig, elapsed_ms: u64, poll: PollResult) -> Step {
        match poll {
            PollResult::Answered { inclusion: Inclusion::Committed, .. } => Step::Confirmed,
            PollResult::Answered { inclusion: Inclusion::Underfunded(fee_info), .. } => {
                Step::InsufficientFees { fee_info }
            },
            _ => if elapsed_ms < config.deadline_ms {
                Step::PollAgain
            } else if self.seen_after(poll) {
                Step::TransactionFailed { elapsed_ms }
            } else {
                Step::NoBlockProduced { elapsed_ms }
            },
        }
    }

    /// Takes in one poll: records a newly seen block and decides the next step.
    /// A committed transaction ends the wait whatever the time; otherwise the
    /// wait goes on until the deadline, and then ends as a stalled chain if no
    /// block was ever seen, else as a transaction that did not get in.
    pub fn step(&mut self, config: &ConfirmConfig, elapsed_ms: u64, poll: PollResult) -> (r: Step)
        ensures
            final(self).start_height == old(self).start_height,
            final(self).block_seen == old(self).seen_after(poll),
            r == old(self).step_spec(*config, elapsed_ms, poll),
            elapsed_ms >= config.deadline_ms ==> r.is_terminal(),
    {
        let new_block = match &poll {
            PollResult::Answered { height, .. } => *height > self.start_height,
            PollResult::QueryFailed => false,
        };
        self.block_seen = self.block_seen || new_block;
        match poll {
            PollResult::Answered { inclusion: Inclusion::Committed, .. } => Step::Confirmed,
            PollResult::Answered { inclusion: Inclusion::Underfunded(fee_info), .. } => {
                Step::InsufficientFees { fee_info }
            },
            _ => if elapsed_ms < config.deadline_ms {
                Step::PollAgain
            } else if self.block_seen {
                Step::TransactionFailed { elapsed_ms }
            } else {
                Step::NoBlockProduced { elapsed_ms }
            },
        }
    }
}

/// The step that ends a wait whose polls came back as `polls`, each with the
/// milliseconds since submission at which it was answered; `PollAgain` where
/// the polls run out before the wait ends.
pub open spec fn run_spec(state: ConfirmState, config: ConfirmConfig, polls: Seq<(u64, PollResult)>) -> Step
    decreases polls.len(),
{
    if polls.len() == 0 {
        Step::PollAgain
    } else {
        let s = state.step_spec(config, polls[0].0, polls[0].1);
        if s.is_terminal() {
            s
        } else {
            run_spec(
                ConfirmState { block_seen: state.seen_after(polls[0].1), ..state },
                config,
                polls.skip(1),
            )
        }
    }
}

/// Runs the protocol over polls already made, in order, from submission at
/// `start_height`, and returns the step that ends it.
pub fn run(config: &ConfirmConfig, start_height: u64, polls: Vec<(u64, PollResult)>) -> (r: Step)
    ensures
        r == run_spec(ConfirmState::new_spec(start_height), *config, polls@),
{
    let mut state = ConfirmState::new(start_height);
    let mut rest = polls;
    while rest.len() > 0
        invariant
            state.start_height == start_height,
            run_spec(state, *config, rest@) == run_spec(
                ConfirmState::new_spec(start_height),
                *config,
                polls@,
            ),
        decreases rest.len(),
    {
        let ghost before = state;
        let ghost seq_before = rest@;
        let (elapsed_ms, poll) = rest.remove(0);
        assert(rest@ =~= seq_before.skip(1));
        let s = state.step(config, elapsed_ms, poll);
        if !matches!(s, Step::PollAgain) {
            return s;
        }
        assert(state == ConfirmState { block_seen: before.seen_after(seq_before[0].1), ..before });
    }
    Step::PollAgain
}

/// Relies on `Duration::from_millis`: a duration of the given milliseconds.
#[verifier::external_body]
fn duration_from_millis(ms: u64) -> Duration {
    Duration::from_millis(ms)
}

/// The client failure that a final step stands for, if any: `None` for a
/// confirmed transaction and for a wait still going on. A transaction that
/// did not get in is reported with `submitted`, the node's answer to its broadcast.
pub fn step_error(step: Step, submitted: TxResponse) -> (r: Option<CosmosGrpcError>)
    ensures
        step is Confirmed || step is PollAgain <==> r is None,
        step is NoBlockProduced ==> r matches Some(CosmosGrpcError::NoBlockProduced { .. }),
        step is TransactionFailed ==> (r matches Some(CosmosGrpcError::TransactionFailed { tx, .. }) && tx == submitted),
        step is InsufficientFees ==> r == Some(CosmosGrpcError::InsufficientFees { fee_info: step->fee_info }),
{
    match step {
        Step::PollAgain => None,
        Step::Confirmed => None,
        Step::NoBlockProduced { elapsed_ms } => Some(CosmosGrpcError::NoBlockProduced { time: duration_from_millis(elapsed_ms) }),
        Step::TransactionFailed { elapsed_ms } => Some(CosmosGrpcError::TransactionFailed { tx: submitted, time: duration_from_millis(elapsed_ms) }),
        Step::InsufficientFees { fee_info } => Some(CosmosGrpcError::InsufficientFees { fee_info }),
    }
}

/// No poll in `polls` shows a block above `start_height`.
pub open spec fn stalled(start_height: u64, polls: Seq<(u64, PollResult)>) -> bool {
    forall|i: int|
        0 <= i < polls.len() ==> !(#[trigger] polls[i].1 matches PollResult::Answered { height, .. }
            && height > start_height)
}

/// On a chain that produces no block during the wait, the wait never ends as a
/// transaction that did not get in: where it ends at the deadline, it ends as a
/// stalled chain.
pub proof fn lemma_stalled_chain_never_fails_transaction(
    state: ConfirmState,
    config: ConfirmConfig,
    polls: Seq<(u64, PollResult)>,
)
    requires
        !state.block_seen,
        stalled(state.start_height, polls),
    ensures
        !(run_spec(state, config, polls) is TransactionFailed),
    decreases polls.len(),
{
    if polls.len() > 0 {
        assert(!(polls[0].1 matches PollResult::Answered { height, .. } && height > state.start_height));
        let next = ConfirmState { block_seen: state.seen_after(polls[0].1), ..state };
        assert forall|i: int| 0 <= i < polls.skip(1).len() implies !(#[trigger] polls.skip(1)[i].1 matches PollResult::Answered { height, .. }
            && height > next.start_height) by {
            assert(polls.skip(1)[i] == polls[i + 1]);
        }
        lemma_stalled_chain_never_fails_transaction(next, config, polls.skip(1));
    }
}

/// No poll in `polls` finds the transaction committed.
pub open spec fn never_included(polls: Seq<(u64, PollResult)>) -> bool {
    forall|i: int|
        0 <= i < polls.len() ==> !(#[trigger] polls[i].1 matches PollResult::Answered {
            inclusion: Inclusion::Committed,
            ..
        }) && !(polls[i].1 matches PollResult::Answered { inclusion: Inclusion::Underfunded(_), .. })
}

/// Once a new block has been seen, a transaction that never appears ends the
/// wait as a transaction that did not get in, at the first poll answered at or
/// after the deadline.
pub proof fn lemma_missing_transaction_fails(
    state: ConfirmState,
    config: ConfirmConfig,
    polls: Seq<(u64, PollResult)>,
    late: int,
)
    requires
        state.block_seen,
        never_included(polls),
        0 <= late < polls.len(),
        polls[late].0 >= config.deadline_ms,
    ensures
        run_spec(state, config, polls) is TransactionFailed,
    decreases polls.len(),
{
    assert(!(polls[0].1 matches PollResult::Answered { inclusion: Inclusion::Committed, .. }));
    if polls[0].0 < config.deadline_ms {
        let next = ConfirmState { block_seen: state.seen_after(polls[0].1), ..state };
        let rest = polls.skip(1);
        assert forall|i: int| 0 <= i < rest.len() implies !(#[trigger] rest[i].1 matches PollResult::Answered {
            inclusion: Inclusion::Committed,
            ..
        }) && !(rest[i].1 matches PollResult::Answered { inclusion: Inclusion::Underfunded(_), .. }) by {
            assert(rest[i] == polls[i + 1]);
        }
        assert(rest[late - 1] == polls[late]);
        lemma_missing_transaction_fails(next, config, rest, late - 1);
    }
}

} // verus!
