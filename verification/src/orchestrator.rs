//! The orchestrator: its public operations and the two-step transfer chain.
//!
//! `farm` plans the withdrawal and captures what the continuation needs;
//! `on_farm` is that continuation and decides, from the one delivered result,
//! between forwarding the yield and giving up. Neither touches the record
//! store that the orchestrator carries.

use vstd::prelude::*;
use std::collections::HashMap;
use crate::environment::{is_promise_success, one_result_delivered, withdrawal_succeeded};
use crate::environment::{CallContext, CallContextView};
use crate::ledger::{ledger_call, LedgerOp, LedgerOpView, RemoteCall, RemoteCallView};
use crate::ledger::{CALLBACK_GAS, NO_DEPOSIT};
use crate::yield_rule::{yield_amount, yield_of};

verus! {

/// The arguments captured for the continuation of a withdrawal, and the call
/// on the orchestrator's own account that delivers them.
#[derive(Clone, Debug, PartialEq, Eq)]
pub struct Continuation {
    /// Account on which the continuation runs: the orchestrator itself.
    pub contract: String,
    /// The amount that was asked to be withdrawn.
    pub amount: u128,
    /// Account of the ledger that the withdrawal was sent to.
    pub contract_address: String,
    /// Account that receives the forwarded amount.
    pub receiver: String,
    /// Deposit attached to the continuation.
    pub deposit: u128,
    /// Compute allotment attached to the continuation.
    pub gas: u64,
}

/// Mathematical model of a `Continuation`.
pub struct ContinuationView {
    pub contract: Seq<char>,
    pub amount: u128,
    pub contract_address: Seq<char>,
    pub receiver: Seq<char>,
    pub deposit: u128,
    pub gas: u64,
}

impl View for Continuation {
    type V = ContinuationView;

    open spec fn view(&self) -> ContinuationView {
        ContinuationView {
            contract: self.contract@,
            amount: self.amount,
            contract_address: self.contract_address@,
            receiver: self.receiver@,
            deposit: self.deposit,
            gas: self.gas,
        }
    }
}

/// A withdrawal in flight: the remote call to issue and the continuation to
/// register on its result. The caller's visible result is whatever the
/// continuation produces.
#[derive(Clone, Debug, PartialEq, Eq)]
pub struct PendingWithdrawal {
    /// The withdrawal from the user's balance into the orchestrator's.
    pub withdrawal: RemoteCall,
    /// What runs when the withdrawal's result is delivered.
    pub resume: Continuation,
}

/// Mathematical model of a `PendingWithdrawal`.
pub struct PendingWithdrawalView {
    pub withdrawal: RemoteCallView,
    pub resume: ContinuationView,
}

impl View for PendingWithdrawal {
    type V = PendingWithdrawalView;

    open spec fn view(&self) -> PendingWithdrawalView {
        PendingWithdrawalView { withdrawal: self.withdrawal@, resume: self.resume@ }
    }
}

/// How a transfer chain ends once the withdrawal's result is known.
#[derive(Clone, Debug, PartialEq, Eq)]
pub enum TransferOutcome {
    /// The withdrawal succeeded. This one forwarding call is issued, and its
    /// eventual result is the final outcome, passed on as it is.
    Forwarded(RemoteCall),
    /// The withdrawal failed. No further call is issued and the final outcome
    /// is `false`. Nothing is rolled back.
    Aborted,
}

/// Mathematical model of a `TransferOutcome`.
pub enum TransferOutcomeView {
    Forwarded(RemoteCallView),
    Aborted,
}

impl View for TransferOutcome {
    type V = TransferOutcomeView;

    open spec fn view(&self) -> TransferOutcomeView {
        match *self {
            TransferOutcome::Forwarded(call) => TransferOutcomeView::Forwarded(call@),
            TransferOutcome::Aborted => TransferOutcomeView::Aborted,
        }
    }
}

/// The forwarding calls that an outcome issues: one or none.
pub open spec fn forwarding_calls(outcome: TransferOutcomeView) -> Seq<RemoteCallView> {
    match outcome {
        TransferOutcomeView::Forwarded(call) => seq![call],
        TransferOutcomeView::Aborted => Seq::empty(),
    }
}

/// The final outcome of an aborted chain.
pub const ABORTED_VALUE: bool = false;

/// The value that an outcome reports at once, if it reports one: `false` for
/// an aborted chain, none while a forwarding call is pending.
pub open spec fn immediate_value(outcome: TransferOutcomeView) -> Option<bool> {
    match outcome {
        TransferOutcomeView::Forwarded(_) => None,
        TransferOutcomeView::Aborted => Some(ABORTED_VALUE),
    }
}

impl TransferOutcome {
    /// The value to report without waiting for any remote call, if there is
    /// one.
    pub fn immediate_value(&self) -> (value: Option<bool>)
        ensures
            value == immediate_value(self@),
    {
        match self {
            TransferOutcome::Forwarded(_) => None,
            TransferOutcome::Aborted => Some(ABORTED_VALUE),
        }
    }
}

/// The withdrawal that `farm` plans: `amount` moves on `ledger` from the
/// signer's balance into the orchestrator's own.
pub open spec fn withdrawal_call(env: CallContextView, amount: u128, ledger: Seq<char>)
    -> RemoteCallView {
    ledger_call(
        ledger,
        LedgerOpView::TransferFrom {
            owner_id: env.signer_account_id,
            new_owner_id: env.current_account_id,
            amount,
        },
    )
}

/// The continuation that `farm` registers: it runs on the orchestrator's own
/// account with the amount, the ledger and, as receiver, the signer.
pub open spec fn resume_after_withdrawal(env: CallContextView, amount: u128, ledger: Seq<char>)
    -> ContinuationView {
    ContinuationView {
        contract: env.current_account_id,
        amount,
        contract_address: ledger,
        receiver: env.signer_account_id,
        deposit: NO_DEPOSIT,
        gas: CALLBACK_GAS,
    }
}

/// Everything that `farm` plans for `amount` on `ledger`.
pub open spec fn farm_plan(env: CallContextView, amount: u128, ledger: Seq<char>)
    -> PendingWithdrawalView {
    PendingWithdrawalView {
        withdrawal: withdrawal_call(env, amount, ledger),
        resume: resume_after_withdrawal(env, amount, ledger),
    }
}

/// The forwarding call after a successful withdrawal of `amount`: the yield of
/// `amount` moves on `ledger` from the orchestrator's balance to `receiver`.
pub open spec fn forwarding_call(
    env: CallContextView,
    amount: u128,
    ledger: Seq<char>,
    receiver: Seq<char>,
) -> RemoteCallView {
    ledger_call(
        ledger,
        LedgerOpView::TransferFrom {
            owner_id: env.current_account_id,
            new_owner_id: receiver,
            amount: yield_of(amount),
        },
    )
}

/// How the chain ends for the continuation arguments `amount`, `ledger` and
/// `receiver`, given the one result that `env` delivers.
pub open spec fn farm_outcome(
    env: CallContextView,
    amount: u128,
    ledger: Seq<char>,
    receiver: Seq<char>,
) -> TransferOutcomeView {
    if withdrawal_succeeded(env) {
        TransferOutcomeView::Forwarded(forwarding_call(env, amount, ledger, receiver))
    } else {
        TransferOutcomeView::Aborted
    }
}

/// The transfer that `airdrop` plans: `amount` moves on `ledger` from the
/// orchestrator's balance to the account that invoked the operation.
pub open spec fn airdrop_call(env: CallContextView, amount: u128, ledger: Seq<char>)
    -> RemoteCallView {
    ledger_call(
        ledger,
        LedgerOpView::Transfer { new_owner_id: env.predecessor_account_id, amount },
    )
}

/// The balance query for `account` on `ledger`.
pub open spec fn balance_query(account: Seq<char>, ledger: Seq<char>) -> RemoteCallView {
    ledger_call(ledger, LedgerOpView::GetBalance { owner_id: account })
}

/// The allowance query for `account` on `ledger`: what the ledger's own
/// account may spend of `account`'s balance.
pub open spec fn allowance_query(account: Seq<char>, ledger: Seq<char>) -> RemoteCallView {
    ledger_call(
        ledger,
        LedgerOpView::GetAllowance { owner_id: account, escrow_account_id: ledger },
    )
}

/// The orchestrator. Its only state is a record store that no transfer
/// operation reads or writes.
pub struct Matryoshka {
    records: HashMap<String, String>,
}

impl Matryoshka {
    /// The record store, as a map from keys to values.
    pub closed spec fn records(&self) -> Map<String, String> {
        self.records@
    }

    /// An orchestrator that carries `records`.
    pub fn from_records(records: HashMap<String, String>) -> (contract: Matryoshka)
        ensures
            contract.records() == records@,
    {
        Matryoshka { records }
    }

    /// Gives up the orchestrator for the record store that it carries.
    pub fn into_records(self) -> (records: HashMap<String, String>)
        ensures
            records@ == self.records(),
    {
        self.records
    }

    /// Plans the balance query for `account_id` on the ledger at
    /// `contract_address`. Its result goes to the caller as it is.
    pub fn get_balance(&self, account_id: String, contract_address: String) -> (call: RemoteCall)
        ensures
            call@ == balance_query(account_id@, contract_address@),
    {
        RemoteCall::new(contract_address, LedgerOp::GetBalance { owner_id: account_id })
    }

    /// Plans the allowance query for `account_id` on the ledger at
    /// `contract_address`. Its result goes to the caller as it is.
    pub fn get_allowance(&self, account_id: String, contract_address: String) -> (call: RemoteCall)
        ensures
            call@ == allowance_query(account_id@, contract_address@),
    {
        let escrow_account_id = contract_address.clone();
        RemoteCall::new(
            contract_address,
            LedgerOp::GetAllowance { owner_id: account_id, escrow_account_id },
        )
    }

    /// Plans the one transfer of `amount` from the orchestrator's balance to
    /// the account that invoked the operation, on the ledger at
    /// `contract_address`.
    ///
    /// No continuation is planned: the transfer's result, success or failure,
    /// is the operation's result.
    pub fn airdrop(&mut self, amount: u128, contract_address: String, env: &CallContext) -> (call:
        RemoteCall)
        ensures
            *final(self) == *old(self),
            call@ == airdrop_call(env@, amount, contract_address@),
    {
        RemoteCall::new(
            contract_address,
            LedgerOp::Transfer { new_owner_id: env.predecessor_account_id.clone(), amount },
        )
    }

    /// Starts the two-step chain for `amount` on the ledger at
    /// `contract_address`.
    ///
    /// The withdrawal takes from the account that signed the transaction, not
    /// from the one that relayed the call, and the continuation names the
    /// signer as receiver. No deposit is attached to either.
    pub fn farm(&mut self, amount: u128, contract_address: String, env: &CallContext) -> (pending:
        PendingWithdrawal)
        ensures
            *final(self) == *old(self),
            pending@ == farm_plan(env@, amount, contract_address@),
    {
        let current_user = env.signer_account_id.clone();
        let current_contract = env.current_account_id.clone();
        let withdrawal = RemoteCall::new(
            contract_address.clone(),
            LedgerOp::TransferFrom {
                owner_id: current_user.clone(),
                new_owner_id: current_contract.clone(),
                amount,
            },
        );
        let resume = Continuation {
            contract: current_contract,
            amount,
            contract_address,
            receiver: current_user,
            deposit: NO_DEPOSIT,
            gas: CALLBACK_GAS,
        };
        PendingWithdrawal { withdrawal, resume }
    }

    /// The continuation of `farm`: decides how the chain ends from the one
    /// result that was delivered.
    ///
    /// On success exactly one forwarding call is planned, for the yield of
    /// `amount`, to `receiver` on the ledger at `contract_address`. On any
    /// other result the chain is aborted and no call is planned.
    pub fn on_farm(
        &mut self,
        amount: u128,
        contract_address: String,
        receiver: String,
        env: &CallContext,
    ) -> (outcome: TransferOutcome)
        requires
            one_result_delivered(env@),
        ensures
            *final(self) == *old(self),
            outcome@ == farm_outcome(env@, amount, contract_address@, receiver@),
            withdrawal_succeeded(env@) ==> forwarding_calls(outcome@) == seq![
                forwarding_call(env@, amount, contract_address@, receiver@),
            ],
            !withdrawal_succeeded(env@) ==> forwarding_calls(outcome@).len() == 0
                && immediate_value(outcome@) == Some(false),
    {
        let deposit_succeeded = is_promise_success(env);
        if !deposit_succeeded {
            TransferOutcome::Aborted
        } else {
            let new_amount = self.do_yield_farming(amount);
            TransferOutcome::Forwarded(
                RemoteCall::new(
                    contract_address,
                    LedgerOp::TransferFrom {
                        owner_id: env.current_account_id.clone(),
                        new_owner_id: receiver,
                        amount: new_amount,
                    },
                ),
            )
        }
    }

    /// The amount to forward for a withdrawn `amount`.
    pub fn do_yield_farming(&self, amount: u128) -> (forwarded: u128)
        ensures
            forwarded == yield_of(amount),
    {
        yield_amount(amount)
    }
}

impl Default for Matryoshka {
    /// An orchestrator with an empty record store.
    fn default() -> (contract: Matryoshka)
        ensures
            contract.records() == Map::<String, String>::empty(),
    {
        Matryoshka { records: HashMap::new() }
    }
}

} // verus!
