//! Verified core of a two-step token transfer orchestrator.
//!
//! The orchestrator withdraws an amount from a caller's balance on a token
//! ledger and, once the ledger has answered, forwards a derived amount back.
//! It never talks to a ledger itself: every operation here maps the identities
//! supplied by the execution environment and the operation's arguments to a
//! description of the remote calls that the environment has to issue.

pub mod environment;
pub mod laws;
pub mod ledger;
pub mod orchestrator;
pub mod yield_rule;
