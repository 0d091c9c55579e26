use cosmos_errors::confirm::{
    run, step_error, ConfirmConfig, ConfirmState, FeeInfo, Inclusion, PollResult, Step, Coin,
};
use cosmos_errors::error::CosmosGrpcError;
use cosmos_sdk_proto::cosmos::base::abci::v1beta1::TxResponse;
use std::time::Duration;

fn config() -> ConfirmConfig {
    ConfirmConfig { deadline_ms: 5000, poll_interval_ms: 1000 }
}

fn answered(height: u64, inclusion: Inclusion) -> PollResult {
    PollResult::Answered { height, inclusion }
}

#[test]
fn stalled_chain_yields_no_block_produced() {
    let polls: Vec<(u64, PollResult)> = (1..=5)
        .map(|s| (s * 1000, answered(100, Inclusion::NotFound)))
        .collect();
    match run(&config(), 100, polls) {
        Step::NoBlockProduced { elapsed_ms } => assert_eq!(elapsed_ms, 5000),
        other => panic!("unexpected step {:?}", other),
    }
}

#[test]
fn missing_transaction_yields_transaction_failed() {
    let polls: Vec<(u64, PollResult)> = (1..=5)
        .map(|s| (s * 1000, answered(100 + s, Inclusion::NotFound)))
        .collect();
    match run(&config(), 100, polls) {
        Step::TransactionFailed { elapsed_ms } => assert_eq!(elapsed_ms, 5000),
        other => panic!("unexpected step {:?}", other),
    }
    let submitted = TxResponse { txhash: "ABCD".to_string(), ..Default::default() };
    match step_error(Step::TransactionFailed { elapsed_ms: 5000 }, submitted) {
        Some(CosmosGrpcError::TransactionFailed { tx, time }) => {
            assert_eq!(tx.txhash, "ABCD");
            assert_eq!(time, Duration::from_millis(5000));
        }
        other => panic!("unexpected error {:?}", other),
    }
}

#[test]
fn underfunded_inclusion_yields_insufficient_fees() {
    let fee = FeeInfo::InsufficientFees {
        min_fees: vec![Coin { amount: 250, denom: "stake".to_string() }],
    };
    let polls = vec![
        (1000, answered(101, Inclusion::NotFound)),
        (2000, answered(102, Inclusion::Underfunded(fee))),
    ];
    let step = run(&config(), 100, polls);
    assert!(matches!(step, Step::InsufficientFees { .. }));
    match step_error(step, TxResponse::default()) {
        Some(CosmosGrpcError::InsufficientFees { fee_info: FeeInfo::InsufficientFees { min_fees } }) => {
            assert_eq!(min_fees[0].amount, 250);
        }
        other => panic!("unexpected error {:?}", other),
    }
}

#[test]
fn committed_transaction_is_confirmed() {
    let polls = vec![
        (1000, PollResult::QueryFailed),
        (2000, answered(101, Inclusion::Committed)),
    ];
    let step = run(&config(), 100, polls);
    assert!(matches!(step, Step::Confirmed));
    assert!(step_error(step, TxResponse::default()).is_none());
}

#[test]
fn failed_queries_retry_until_deadline() {
    let polls: Vec<(u64, PollResult)> = vec![
        (1000, PollResult::QueryFailed),
        (3000, PollResult::QueryFailed),
        (6000, PollResult::QueryFailed),
    ];
    match run(&config(), 7, polls) {
        Step::NoBlockProduced { elapsed_ms } => assert_eq!(elapsed_ms, 6000),
        other => panic!("unexpected step {:?}", other),
    }
}

#[test]
fn polls_before_deadline_keep_waiting() {
    let mut state = ConfirmState::new(10);
    let step = state.step(&config(), 4999, answered(11, Inclusion::NotFound));
    assert!(matches!(step, Step::PollAgain));
    assert!(state.block_seen);
    let step = state.step(&config(), 5000, PollResult::QueryFailed);
    assert!(matches!(step, Step::TransactionFailed { elapsed_ms: 5000 }));
    assert!(matches!(run(&config(), 10, vec![]), Step::PollAgain));
}

#[test]
fn no_block_error_carries_elapsed_time() {
    match step_error(Step::NoBlockProduced { elapsed_ms: 5000 }, TxResponse::default()) {
        Some(err) => {
            assert!(matches!(err, CosmosGrpcError::NoBlockProduced { time } if time == Duration::from_millis(5000)));
            assert_eq!(err.to_string(), "CosmosGrpc NoBlockProduced in 5000ms");
        }
        None => panic!("expected an error"),
    }
}
