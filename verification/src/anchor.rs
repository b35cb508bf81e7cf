//! Message vocabulary of the external money-market adapter.
//!
//! The adapter would deposit idle principal into an external yield venue
//! and redeem it later.  That integration is deferred: the ledger never
//! sends these messages today, and the host layer owns the construction of
//! the actual wire messages.  The vocabulary is kept here so the interface
//! stays specified.

use vstd::prelude::*;

verus! {

/// Request understood by the money market: deposit the attached stable
/// coins and mint interest-bearing tokens for the sender.
#[derive(Clone, Copy, Debug, PartialEq, Eq, Structural)]
pub enum ExecuteMsg {
    DepositStable {},
}

/// Hook carried inside an interest-bearing-token transfer back to the
/// money market: redeem the tokens for stable coins at the current rate.
#[derive(Clone, Copy, Debug, PartialEq, Eq, Structural)]
pub enum Cw20HookMsg {
    RedeemStable {},
}

} // verus!
