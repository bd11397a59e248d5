//! Plain data carried by the ledger: entry kinds, per-account entries,
//! withdrawal policies and the error taxonomy.

use vstd::prelude::*;

verus! {

/// Discriminator between the two opposing ledger entries: a credit-style
/// entry that adds value and a debit-style entry that uses value up.
#[derive(Clone, Copy, PartialEq, Eq, Structural, Debug)]
pub enum TrackingType {
    AddValue,
    UseValue,
}

/// The two entries the ledger keeps for one account.  The account's balance
/// is the Added amount minus the Used amount; a well-formed entry never lets
/// Used exceed Added.
#[derive(Clone, Copy, PartialEq, Eq, Structural, Debug)]
pub struct AccountEntry {
    /// Cumulative credit-style amount (the AddValue entry).
    pub added: u64,
    /// Cumulative debit-style amount (the UseValue entry).
    pub used: u64,
}

impl AccountEntry {
    /// An entry is well formed when its Used amount does not exceed its
    /// Added amount, so the derived balance is never negative.
    pub open spec fn wf(self) -> bool {
        self.used <= self.added
    }
}

/// Builds an entry value; contracts use this instead of a struct literal.
pub open spec fn entry_with(added: u64, used: u64) -> AccountEntry {
    AccountEntry { added, used }
}

/// The amount an entry holds under one entry kind.
pub open spec fn entry_value(e: AccountEntry, kind: TrackingType) -> u64 {
    match kind {
        TrackingType::AddValue => e.added,
        TrackingType::UseValue => e.used,
    }
}

/// Whether a withdrawal may reduce an account to nothing or must leave it
/// alive with at least the minimum balance.
#[derive(Clone, Copy, PartialEq, Eq, Structural, Debug)]
pub enum ExistenceRequirement {
    KeepAlive,
    AllowDeath,
}

/// Why a withdrawal is being made.  Lock and vesting constraints keyed on
/// the reason belong to an external collaborator; the ledger itself only
/// passes the reason along.
#[derive(Clone, Copy, PartialEq, Eq, Structural, Debug)]
pub enum WithdrawReason {
    Transfer,
    TransactionPayment,
    Reserve,
    Fee,
    Tip,
}

/// Failures of the fallible ledger operations.
#[derive(Clone, Copy, PartialEq, Eq, Structural, Debug)]
pub enum LedgerError {
    /// A withdrawal or settlement would take more than the free balance
    /// allows under the requested liveness policy.
    InsufficientBalance,
    /// A deposit into an existing account named an account with no ledger
    /// presence.
    AccountNotFound,
    /// A per-account credit would overflow the balance representation;
    /// per-account arithmetic is checked, never wrapped.
    Overflow,
}

/// Saturating addition on balances, used only for total-supply
/// reconciliation, which is best effort by design.
pub open spec fn sat_add_u64(a: u64, b: u64) -> u64 {
    if a + b > u64::MAX {
        u64::MAX
    } else {
        (a + b) as u64
    }
}

/// Saturating subtraction on balances, used only for total-supply
/// reconciliation, which is best effort by design.
pub open spec fn sat_sub_u64(a: u64, b: u64) -> u64 {
    if b > a {
        0u64
    } else {
        (a - b) as u64
    }
}

/// How much of a requested credit fits into an entry whose Added amount is
/// already `added`: the whole request when it fits, else the remaining
/// headroom.
pub open spec fn credit_amount(added: u64, value: u64) -> u64 {
    if added + value > u64::MAX {
        (u64::MAX - added) as u64
    } else {
        value
    }
}

} // verus!
