use matryoshka::environment::{is_promise_success, CallContext, DeliveredResult};
use matryoshka::ledger::{LedgerOp, RemoteCall, BASE_GAS, CALLBACK_GAS, NO_DEPOSIT};
use matryoshka::orchestrator::{Continuation, Matryoshka, PendingWithdrawal, TransferOutcome};
use matryoshka::yield_rule::{yield_amount, YIELD_FACTOR, YIELD_THRESHOLD};
use std::collections::HashMap;

fn context(signer: &str, predecessor: &str, results: Vec<DeliveredResult>) -> CallContext {
    CallContext {
        signer_account_id: signer.to_string(),
        predecessor_account_id: predecessor.to_string(),
        current_account_id: "alice_near".to_string(),
        promise_results: results,
    }
}

fn transfer_from(ledger: &str, owner: &str, new_owner: &str, amount: u128) -> RemoteCall {
    RemoteCall {
        ledger: ledger.to_string(),
        op: LedgerOp::TransferFrom {
            owner_id: owner.to_string(),
            new_owner_id: new_owner.to_string(),
            amount,
        },
        deposit: 0,
        gas: 25_000_000_000_000,
    }
}

#[test]
fn budget_constants_have_their_values() {
    assert_eq!(BASE_GAS, 25_000_000_000_000);
    assert_eq!(CALLBACK_GAS, 50_000_000_000_000);
    assert_eq!(NO_DEPOSIT, 0);
    assert_eq!(YIELD_FACTOR, 2);
    assert_eq!(YIELD_THRESHOLD, 170141183460469231731687303715884105727);
}

#[test]
fn yield_doubles_small_amounts() {
    assert_eq!(yield_amount(0), 0);
    assert_eq!(yield_amount(1), 2);
    assert_eq!(yield_amount(100), 200);
    assert_eq!(yield_amount(12_345_678_901_234_567_890), 24_691_357_802_469_135_780);
}

#[test]
fn yield_at_the_threshold_is_exact() {
    assert_eq!(yield_amount(YIELD_THRESHOLD), u128::MAX - 1);
}

#[test]
fn yield_above_the_threshold_saturates() {
    assert_eq!(yield_amount(YIELD_THRESHOLD + 1), u128::MAX);
    assert_eq!(yield_amount(u128::MAX), u128::MAX);
}

#[test]
fn yield_is_repeatable() {
    let contract = Matryoshka::default();
    let first = contract.do_yield_farming(77);
    let second = contract.do_yield_farming(77);
    assert_eq!(first, 154);
    assert_eq!(first, second);
    assert_eq!(contract.do_yield_farming(u128::MAX), u128::MAX);
}

#[test]
fn farm_withdraws_from_the_signer_when_relayed() {
    let mut contract = Matryoshka::default();
    let env = context("bob_near", "carol_near", vec![]);
    let pending = contract.farm(100, "token_near".to_string(), &env);
    assert_eq!(
        pending,
        PendingWithdrawal {
            withdrawal: transfer_from("token_near", "bob_near", "alice_near", 100),
            resume: Continuation {
                contract: "alice_near".to_string(),
                amount: 100,
                contract_address: "token_near".to_string(),
                receiver: "bob_near".to_string(),
                deposit: 0,
                gas: 50_000_000_000_000,
            },
        }
    );
}

#[test]
fn farm_plans_the_same_for_any_relayer() {
    let mut contract = Matryoshka::default();
    let direct = contract.farm(5, "token_near".to_string(), &context("bob_near", "bob_near", vec![]));
    let relayed = contract.farm(
        5,
        "token_near".to_string(),
        &context("bob_near", "carol_near", vec![DeliveredResult::Failed]),
    );
    assert_eq!(direct, relayed);
    match relayed.withdrawal.op {
        LedgerOp::TransferFrom { owner_id, .. } => assert_ne!(owner_id, "carol_near"),
        _ => panic!("the withdrawal is not a transfer-from"),
    }
}

#[test]
fn on_farm_forwards_the_yield_after_success() {
    let mut contract = Matryoshka::default();
    let env = context("bob_near", "alice_near", vec![DeliveredResult::Successful(vec![])]);
    let outcome = contract.on_farm(100, "token_near".to_string(), "bob_near".to_string(), &env);
    assert_eq!(
        outcome,
        TransferOutcome::Forwarded(transfer_from("token_near", "alice_near", "bob_near", 200))
    );
    assert_eq!(outcome.immediate_value(), None);
}

#[test]
fn on_farm_aborts_after_failure() {
    let mut contract = Matryoshka::default();
    let env = context("bob_near", "alice_near", vec![DeliveredResult::Failed]);
    let outcome = contract.on_farm(100, "token_near".to_string(), "bob_near".to_string(), &env);
    assert_eq!(outcome, TransferOutcome::Aborted);
    assert_eq!(outcome.immediate_value(), Some(false));
}

#[test]
fn on_farm_aborts_while_not_ready() {
    let mut contract = Matryoshka::default();
    let env = context("bob_near", "alice_near", vec![DeliveredResult::NotReady]);
    let outcome = contract.on_farm(1, "token_near".to_string(), "bob_near".to_string(), &env);
    assert_eq!(outcome, TransferOutcome::Aborted);
}

#[test]
fn on_farm_ignores_the_payload() {
    let mut contract = Matryoshka::default();
    let empty = context("bob_near", "alice_near", vec![DeliveredResult::Successful(vec![])]);
    let full = context(
        "bob_near",
        "alice_near",
        vec![DeliveredResult::Successful(b"false".to_vec())],
    );
    let a = contract.on_farm(9, "token_near".to_string(), "bob_near".to_string(), &empty);
    let b = contract.on_farm(9, "token_near".to_string(), "bob_near".to_string(), &full);
    assert_eq!(a, b);
    assert_eq!(
        a,
        TransferOutcome::Forwarded(transfer_from("token_near", "alice_near", "bob_near", 18))
    );
}

#[test]
fn on_farm_saturates_the_forwarded_amount() {
    let mut contract = Matryoshka::default();
    let env = context("bob_near", "alice_near", vec![DeliveredResult::Successful(vec![1])]);
    let outcome =
        contract.on_farm(u128::MAX - 3, "token_near".to_string(), "bob_near".to_string(), &env);
    assert_eq!(
        outcome,
        TransferOutcome::Forwarded(transfer_from("token_near", "alice_near", "bob_near", u128::MAX))
    );
}

#[test]
fn is_promise_success_tells_the_three_kinds_apart() {
    let ok = context("bob_near", "alice_near", vec![DeliveredResult::Successful(vec![7, 7])]);
    let failed = context("bob_near", "alice_near", vec![DeliveredResult::Failed]);
    let not_ready = context("bob_near", "alice_near", vec![DeliveredResult::NotReady]);
    assert!(is_promise_success(&ok));
    assert!(!is_promise_success(&failed));
    assert!(!is_promise_success(&not_ready));
}

#[test]
fn airdrop_pays_the_immediate_caller() {
    let mut contract = Matryoshka::default();
    let env = context("bob_near", "carol_near", vec![]);
    let call = contract.airdrop(42, "token_near".to_string(), &env);
    assert_eq!(
        call,
        RemoteCall {
            ledger: "token_near".to_string(),
            op: LedgerOp::Transfer { new_owner_id: "carol_near".to_string(), amount: 42 },
            deposit: 0,
            gas: 25_000_000_000_000,
        }
    );
}

#[test]
fn get_balance_queries_the_account() {
    let contract = Matryoshka::default();
    let call = contract.get_balance("bob_near".to_string(), "token_near".to_string());
    assert_eq!(
        call,
        RemoteCall {
            ledger: "token_near".to_string(),
            op: LedgerOp::GetBalance { owner_id: "bob_near".to_string() },
            deposit: 0,
            gas: 25_000_000_000_000,
        }
    );
}

#[test]
fn get_allowance_names_the_ledger_as_escrow() {
    let contract = Matryoshka::default();
    let call = contract.get_allowance("bob_near".to_string(), "token_near".to_string());
    assert_eq!(
        call,
        RemoteCall {
            ledger: "token_near".to_string(),
            op: LedgerOp::GetAllowance {
                owner_id: "bob_near".to_string(),
                escrow_account_id: "token_near".to_string(),
            },
            deposit: 0,
            gas: 25_000_000_000_000,
        }
    );
}

#[test]
fn remote_call_new_attaches_the_fixed_budget() {
    let op = LedgerOp::GetBalance { owner_id: "bob_near".to_string() };
    let call = RemoteCall::new("token_near".to_string(), op.clone());
    assert_eq!(call.ledger, "token_near");
    assert_eq!(call.op, op);
    assert_eq!(call.deposit, 0);
    assert_eq!(call.gas, 25_000_000_000_000);
}

#[test]
fn relayed_farm_ends_in_one_forwarding_call() {
    let mut contract = Matryoshka::default();
    let pending = contract.farm(100, "token_near".to_string(), &context("bob_near", "carol_near", vec![]));
    let resumed = context("bob_near", "alice_near", vec![DeliveredResult::Successful(vec![])]);
    assert_eq!(pending.resume.contract, resumed.current_account_id);
    let outcome = contract.on_farm(
        pending.resume.amount,
        pending.resume.contract_address,
        pending.resume.receiver,
        &resumed,
    );
    match outcome {
        TransferOutcome::Forwarded(call) => {
            assert_eq!(call, transfer_from("token_near", "alice_near", "bob_near", 200))
        }
        TransferOutcome::Aborted => panic!("nothing was forwarded"),
    }
}

#[test]
fn relayed_farm_with_failed_withdrawal_forwards_nothing() {
    let mut contract = Matryoshka::default();
    let pending = contract.farm(100, "token_near".to_string(), &context("bob_near", "carol_near", vec![]));
    let resumed = context("bob_near", "alice_near", vec![DeliveredResult::Failed]);
    let outcome = contract.on_farm(
        pending.resume.amount,
        pending.resume.contract_address,
        pending.resume.receiver,
        &resumed,
    );
    assert!(matches!(outcome, TransferOutcome::Aborted));
    assert_eq!(outcome.immediate_value(), Some(false));
}

#[test]
fn operations_leave_the_record_store_alone() {
    let mut records = HashMap::new();
    records.insert("bob_near".to_string(), "howdy".to_string());
    let mut contract = Matryoshka::from_records(records.clone());
    let env = context("bob_near", "carol_near", vec![DeliveredResult::Successful(vec![])]);
    contract.farm(1, "token_near".to_string(), &env);
    contract.on_farm(1, "token_near".to_string(), "bob_near".to_string(), &env);
    contract.airdrop(1, "token_near".to_string(), &env);
    contract.get_balance("bob_near".to_string(), "token_near".to_string());
    contract.get_allowance("bob_near".to_string(), "token_near".to_string());
    assert_eq!(contract.into_records(), records);
}

#[test]
fn default_orchestrator_has_no_records() {
    assert!(Matryoshka::default().into_records().is_empty());
}
