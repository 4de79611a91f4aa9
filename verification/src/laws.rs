//! Laws of the transfer chain, stated over the models that the operations'
//! contracts use and proved from their definitions.

use vstd::prelude::*;
use crate::environment::{one_result_delivered, withdrawal_succeeded};
use crate::environment::CallContextView;
use crate::ledger::{ledger_call, LedgerOpView, BASE_GAS, NO_DEPOSIT};
use crate::orchestrator::{airdrop_call, farm_outcome, farm_plan, forwarding_call};
use crate::orchestrator::{forwarding_calls, immediate_value, TransferOutcomeView};
use crate::yield_rule::{yield_of, YIELD_THRESHOLD};

verus! {

/// Below the overflow threshold the yield of an amount is twice the amount;
/// above it the yield is held at the largest amount.
pub proof fn yield_doubles_below_threshold(amount: u128)
    ensures
        amount <= YIELD_THRESHOLD ==> yield_of(amount) == 2 * amount,
        amount > YIELD_THRESHOLD ==> yield_of(amount) == u128::MAX,
        yield_of(amount) >= amount,
{
}

/// The withdrawal that `farm` plans takes from the signer's balance and pays
/// into the orchestrator's own, on the ledger that was asked for. Where the
/// call was relayed by another account, that account is not the one charged.
pub proof fn farm_withdraws_from_signer(env: CallContextView, amount: u128, ledger: Seq<char>)
    ensures
        farm_plan(env, amount, ledger).withdrawal.ledger == ledger,
        farm_plan(env, amount, ledger).withdrawal.op == (LedgerOpView::TransferFrom {
            owner_id: env.signer_account_id,
            new_owner_id: env.current_account_id,
            amount,
        }),
        farm_plan(env, amount, ledger).resume.receiver == env.signer_account_id,
        env.predecessor_account_id != env.signer_account_id ==> farm_plan(
            env,
            amount,
            ledger,
        ).withdrawal.op->TransferFrom_owner_id != env.predecessor_account_id,
{
}

/// What `farm` plans depends on the signer and on the orchestrator's account
/// only: neither the relaying account nor any delivered result changes it.
pub proof fn farm_ignores_relayer(
    env: CallContextView,
    relayed: CallContextView,
    amount: u128,
    ledger: Seq<char>,
)
    requires
        relayed.signer_account_id == env.signer_account_id,
        relayed.current_account_id == env.current_account_id,
    ensures
        farm_plan(relayed, amount, ledger) == farm_plan(env, amount, ledger),
{
}

/// After a withdrawal that did not succeed, the chain issues no forwarding
/// call and reports `false` at once.
pub proof fn failed_withdrawal_forwards_nothing(
    env: CallContextView,
    amount: u128,
    ledger: Seq<char>,
    receiver: Seq<char>,
)
    requires
        one_result_delivered(env),
        !withdrawal_succeeded(env),
    ensures
        farm_outcome(env, amount, ledger, receiver) == TransferOutcomeView::Aborted,
        forwarding_calls(farm_outcome(env, amount, ledger, receiver)).len() == 0,
        immediate_value(farm_outcome(env, amount, ledger, receiver)) == Some(false),
{
}

/// After a successful withdrawal of `amount`, the chain issues exactly one
/// forwarding call: the yield of `amount`, from the orchestrator's balance to
/// the captured receiver, on the captured ledger, with no deposit and the base
/// compute allotment. It reports no value of its own.
pub proof fn successful_withdrawal_forwards_once(
    env: CallContextView,
    amount: u128,
    ledger: Seq<char>,
    receiver: Seq<char>,
)
    requires
        one_result_delivered(env),
        withdrawal_succeeded(env),
    ensures
        forwarding_calls(farm_outcome(env, amount, ledger, receiver)).len() == 1,
        forwarding_calls(farm_outcome(env, amount, ledger, receiver))[0] == forwarding_call(
            env,
            amount,
            ledger,
            receiver,
        ),
        forwarding_call(env, amount, ledger, receiver).ledger == ledger,
        forwarding_call(env, amount, ledger, receiver).op == (LedgerOpView::TransferFrom {
            owner_id: env.current_account_id,
            new_owner_id: receiver,
            amount: yield_of(amount),
        }),
        forwarding_call(env, amount, ledger, receiver).deposit == NO_DEPOSIT,
        forwarding_call(env, amount, ledger, receiver).gas == BASE_GAS,
        amount <= YIELD_THRESHOLD ==> forwarding_call(
            env,
            amount,
            ledger,
            receiver,
        ).op->TransferFrom_amount == 2 * amount,
        immediate_value(farm_outcome(env, amount, ledger, receiver)) == None::<bool>,
{
}

/// Only the kind of the delivered result decides the outcome: two successful
/// results that carry different bytes end the chain in the same way.
pub proof fn outcome_ignores_payload(
    env: CallContextView,
    other: CallContextView,
    amount: u128,
    ledger: Seq<char>,
    receiver: Seq<char>,
)
    requires
        one_result_delivered(env),
        one_result_delivered(other),
        other.current_account_id == env.current_account_id,
        env.promise_results[0] is Successful,
        other.promise_results[0] is Successful,
    ensures
        farm_outcome(other, amount, ledger, receiver) == farm_outcome(
            env,
            amount,
            ledger,
            receiver,
        ),
{
}

/// The whole chain. `farm` runs in `start`; its continuation later runs on the
/// same orchestrator account in `resumed`, with the arguments that `farm`
/// captured and one delivered result. If that result is a success, the yield
/// of the amount goes from the orchestrator's balance to the account that
/// signed `farm`, on the ledger that `farm` was given, whoever relayed the
/// call; otherwise nothing is forwarded and the outcome is `false`.
pub proof fn chain_returns_yield_to_signer(
    start: CallContextView,
    resumed: CallContextView,
    amount: u128,
    ledger: Seq<char>,
)
    requires
        resumed.current_account_id == start.current_account_id,
        one_result_delivered(resumed),
    ensures
        ({
            let resume = farm_plan(start, amount, ledger).resume;
            let outcome = farm_outcome(
                resumed,
                resume.amount,
                resume.contract_address,
                resume.receiver,
            );
            &&& resume.contract == start.current_account_id
            &&& withdrawal_succeeded(resumed) ==> outcome == TransferOutcomeView::Forwarded(
                ledger_call(
                    ledger,
                    LedgerOpView::TransferFrom {
                        owner_id: start.current_account_id,
                        new_owner_id: start.signer_account_id,
                        amount: yield_of(amount),
                    },
                ),
            )
            &&& !withdrawal_succeeded(resumed) ==> outcome == TransferOutcomeView::Aborted
                && immediate_value(outcome) == Some(false)
        }),
{
}

/// The transfer that `airdrop` plans pays the account that invoked the
/// operation, for the amount asked, on the ledger asked; the signer of the
/// transaction plays no part in it.
pub proof fn airdrop_pays_immediate_caller(
    env: CallContextView,
    other: CallContextView,
    amount: u128,
    ledger: Seq<char>,
)
    requires
        other.predecessor_account_id == env.predecessor_account_id,
    ensures
        airdrop_call(env, amount, ledger).ledger == ledger,
        airdrop_call(env, amount, ledger).op == (LedgerOpView::Transfer {
            new_owner_id: env.predecessor_account_id,
            amount,
        }),
        airdrop_call(other, amount, ledger) == airdrop_call(env, amount, ledger),
{
}

} // verus!
