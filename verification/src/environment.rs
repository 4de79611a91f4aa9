//! What the execution environment supplies to one invocation, as plain values.

use vstd::prelude::*;

verus! {

/// The result of one remote call, as delivered to its continuation.
#[derive(Clone, Debug, PartialEq, Eq)]
pub enum DeliveredResult {
    /// The call has not finished.
    NotReady,
    /// The call succeeded and returned these bytes.
    Successful(Vec<u8>),
    /// The call failed.
    Failed,
}

/// Mathematical model of a `DeliveredResult`.
pub enum DeliveredResultView {
    NotReady,
    Successful(Seq<u8>),
    Failed,
}

impl View for DeliveredResult {
    type V = DeliveredResultView;

    open spec fn view(&self) -> DeliveredResultView {
        match *self {
            DeliveredResult::NotReady => DeliveredResultView::NotReady,
            DeliveredResult::Successful(payload) => DeliveredResultView::Successful(payload@),
            DeliveredResult::Failed => DeliveredResultView::Failed,
        }
    }
}

/// The identities and delivered results that one invocation runs with.
#[derive(Clone, Debug, PartialEq, Eq)]
pub struct CallContext {
    /// Account that signed the top-level transaction.
    pub signer_account_id: String,
    /// Account that directly invoked the current operation. It differs from
    /// the signer when the call was relayed.
    pub predecessor_account_id: String,
    /// The orchestrator's own account.
    pub current_account_id: String,
    /// Results of the remote calls that this invocation continues, in order
    /// of delivery. Empty unless the invocation is a continuation.
    pub promise_results: Vec<DeliveredResult>,
}

/// Mathematical model of a `CallContext`.
pub struct CallContextView {
    pub signer_account_id: Seq<char>,
    pub predecessor_account_id: Seq<char>,
    pub current_account_id: Seq<char>,
    pub promise_results: Seq<DeliveredResultView>,
}

impl View for CallContext {
    type V = CallContextView;

    open spec fn view(&self) -> CallContextView {
        CallContextView {
            signer_account_id: self.signer_account_id@,
            predecessor_account_id: self.predecessor_account_id@,
            current_account_id: self.current_account_id@,
            promise_results: self.promise_results@.map_values(|r: DeliveredResult| r@),
        }
    }
}

/// Whether exactly one result was delivered, as every continuation expects.
pub open spec fn one_result_delivered(env: CallContextView) -> bool {
    env.promise_results.len() == 1
}

/// Whether the one delivered result reports success, whatever it carries.
pub open spec fn withdrawal_succeeded(env: CallContextView) -> bool {
    env.promise_results[0] is Successful
}

/// Tells whether the remote call that this invocation continues succeeded.
///
/// Only the kind of the result counts; the bytes that a successful call
/// returned are not looked at.
pub fn is_promise_success(env: &CallContext) -> (succeeded: bool)
    requires
        one_result_delivered(env@),
    ensures
        succeeded == withdrawal_succeeded(env@),
        succeeded == (env.promise_results@[0] is Successful),
{
    match &env.promise_results[0] {
        DeliveredResult::Successful(_) => true,
        _ => false,
    }
}

} // verus!
