//! The remote-call surface of a token ledger, as plain values.
//!
//! A ledger is an account-addressed contract that the orchestrator reaches
//! only through remote calls. A `RemoteCall` describes one such call; issuing
//! it is left to the execution environment.

use vstd::prelude::*;

verus! {

/// Compute allotment attached to one remote call.
pub const BASE_GAS: u64 = 25_000_000_000_000;

/// Compute allotment for a call that also has to run a continuation.
pub const CALLBACK_GAS: u64 = BASE_GAS * 2;

/// Deposit attached to every remote call of the orchestrator.
pub const NO_DEPOSIT: u128 = 0;

/// One operation of a ledger, with its arguments.
#[derive(Clone, Debug, PartialEq, Eq)]
pub enum LedgerOp {
    /// Query the balance of `owner_id`.
    GetBalance { owner_id: String },
    /// Query what `escrow_account_id` may spend of `owner_id`'s balance.
    GetAllowance { owner_id: String, escrow_account_id: String },
    /// Move `amount` from the calling account to `new_owner_id`.
    Transfer { new_owner_id: String, amount: u128 },
    /// Move `amount` from `owner_id` to `new_owner_id`.
    TransferFrom { owner_id: String, new_owner_id: String, amount: u128 },
}

/// Mathematical model of a `LedgerOp`.
pub enum LedgerOpView {
    GetBalance { owner_id: Seq<char> },
    GetAllowance { owner_id: Seq<char>, escrow_account_id: Seq<char> },
    Transfer { new_owner_id: Seq<char>, amount: u128 },
    TransferFrom { owner_id: Seq<char>, new_owner_id: Seq<char>, amount: u128 },
}

impl View for LedgerOp {
    type V = LedgerOpView;

    open spec fn view(&self) -> LedgerOpView {
        match *self {
            LedgerOp::GetBalance { owner_id } => LedgerOpView::GetBalance { owner_id: owner_id@ },
            LedgerOp::GetAllowance { owner_id, escrow_account_id } => LedgerOpView::GetAllowance {
                owner_id: owner_id@,
                escrow_account_id: escrow_account_id@,
            },
            LedgerOp::Transfer { new_owner_id, amount } => LedgerOpView::Transfer {
                new_owner_id: new_owner_id@,
                amount,
            },
            LedgerOp::TransferFrom { owner_id, new_owner_id, amount } => LedgerOpView::TransferFrom {
                owner_id: owner_id@,
                new_owner_id: new_owner_id@,
                amount,
            },
        }
    }
}

/// A call of one operation on the ledger at account `ledger`.
#[derive(Clone, Debug, PartialEq, Eq)]
pub struct RemoteCall {
    /// Account of the ledger that receives the call.
    pub ledger: String,
    /// The operation and its arguments.
    pub op: LedgerOp,
    /// Deposit attached to the call.
    pub deposit: u128,
    /// Compute allotment attached to the call.
    pub gas: u64,
}

/// Mathematical model of a `RemoteCall`.
pub struct RemoteCallView {
    pub ledger: Seq<char>,
    pub op: LedgerOpView,
    pub deposit: u128,
    pub gas: u64,
}

impl View for RemoteCall {
    type V = RemoteCallView;

    open spec fn view(&self) -> RemoteCallView {
        RemoteCallView { ledger: self.ledger@, op: self.op@, deposit: self.deposit, gas: self.gas }
    }
}

/// The call of `op` on `ledger` with the orchestrator's fixed deposit and
/// base compute allotment.
pub open spec fn ledger_call(ledger: Seq<char>, op: LedgerOpView) -> RemoteCallView {
    RemoteCallView { ledger, op, deposit: NO_DEPOSIT, gas: BASE_GAS }
}

impl RemoteCall {
    /// Builds the call of `op` on `ledger` with no deposit and the base
    /// compute allotment.
    pub fn new(ledger: String, op: LedgerOp) -> (call: RemoteCall)
        ensures
            call@ == ledger_call(ledger@, op@),
    {
        RemoteCall { ledger, op, deposit: NO_DEPOSIT, gas: BASE_GAS }
    }
}

} // verus!
