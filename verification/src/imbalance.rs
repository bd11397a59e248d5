//! Linear imbalance tokens: single-owner values that carry a pending change
//! to total issuance until they are consumed exactly once, either by
//! offsetting against an opposite token, by pairing with a ledger mutation,
//! or by explicit disposal, which saturating-reconciles the total-supply
//! table.

use vstd::prelude::*;

use crate::ledger::Ledger;
use crate::types::sat_add_u64;
use crate::types::sat_sub_u64;

verus! {

/// A pending increase of total issuance: some value was added to an account
/// (or burnt from supply) and the total-supply table does not reflect it
/// yet.  The token cannot be cloned and should not be silently forgotten.
#[must_use]
#[derive(Debug)]
pub struct PositiveImbalance {
    amount: u64,
}

/// A pending decrease of total issuance: some value was taken from an
/// account (or freshly issued) and the total-supply table does not reflect
/// it yet.  The token cannot be cloned and should not be silently
/// forgotten.
#[must_use]
#[derive(Debug)]
pub struct NegativeImbalance {
    amount: u64,
}

impl View for PositiveImbalance {
    type V = u64;

    closed spec fn view(&self) -> u64 {
        self.amount
    }
}

impl View for NegativeImbalance {
    type V = u64;

    closed spec fn view(&self) -> u64 {
        self.amount
    }
}

impl PositiveImbalance {
    /// Only ledger operations mint tokens.
    pub(crate) fn new(amount: u64) -> (r: PositiveImbalance)
        ensures
            r@ == amount,
    {
        PositiveImbalance { amount }
    }

    /// An empty token; disposing it changes nothing.
    pub fn zero() -> (r: PositiveImbalance)
        ensures
            r@ == 0,
    {
        PositiveImbalance { amount: 0 }
    }

    /// The pending amount, read without consuming the token.
    pub fn peek(&self) -> (r: u64)
        ensures
            r == self@,
    {
        self.amount
    }

    /// Consumes this token and an opposite one, merging them without
    /// touching the ledger: the single-sided residual survives, and equal
    /// magnitudes cancel to a zero residual.
    pub fn offset(self, other: NegativeImbalance) -> (r: Result<
        PositiveImbalance,
        NegativeImbalance,
    >)
        ensures
            self@ >= other@ ==> (r matches Ok(t) && t@ == self@ - other@),
            self@ < other@ ==> (r matches Err(t) && t@ == other@ - self@),
    {
        if self.amount >= other.amount {
            Ok(PositiveImbalance { amount: self.amount - other.amount })
        } else {
            Err(NegativeImbalance { amount: other.amount - self.amount })
        }
    }

    /// Consumes the token, saturating-adding its pending amount to the
    /// AddValue total-supply row.  This is the explicit form of the
    /// drop-time reconciliation: issuance rises by exactly the pending
    /// amount unless the supply row saturates.
    pub fn dispose(self, ledger: &mut Ledger)
        requires
            old(ledger)@.wf(),
        ensures
            final(ledger)@.wf(),
            final(ledger)@.accounts == old(ledger)@.accounts,
            final(ledger)@.supply_used == old(ledger)@.supply_used,
            final(ledger)@.supply_added == sat_add_u64(old(ledger)@.supply_added, self@),
            old(ledger)@.supply_added + self@ <= u64::MAX ==> final(ledger)@.issuance() == old(ledger)@.issuance() + self@,
    {
        ledger.supply_add_saturating(self.amount);
    }
}

impl NegativeImbalance {
    /// Only ledger operations mint tokens.
    pub(crate) fn new(amount: u64) -> (r: NegativeImbalance)
        ensures
            r@ == amount,
    {
        NegativeImbalance { amount }
    }

    /// An empty token; disposing it changes nothing.
    pub fn zero() -> (r: NegativeImbalance)
        ensures
            r@ == 0,
    {
        NegativeImbalance { amount: 0 }
    }

    /// The pending amount, read without consuming the token.
    pub fn peek(&self) -> (r: u64)
        ensures
            r == self@,
    {
        self.amount
    }

    /// Consumes this token and an opposite one, merging them without
    /// touching the ledger: the single-sided residual survives, and equal
    /// magnitudes cancel to a zero residual.
    pub fn offset(self, other: PositiveImbalance) -> (r: Result<
        NegativeImbalance,
        PositiveImbalance,
    >)
        ensures
            self@ >= other@ ==> (r matches Ok(t) && t@ == self@ - other@),
            self@ < other@ ==> (r matches Err(t) && t@ == other@ - self@),
    {
        if self.amount >= other.amount {
            Ok(NegativeImbalance { amount: self.amount - other.amount })
        } else {
            Err(PositiveImbalance { amount: other.amount - self.amount })
        }
    }

    /// Consumes the token, saturating-subtracting its pending amount from
    /// the AddValue total-supply row.  This is the explicit form of the
    /// drop-time reconciliation: issuance falls by exactly the pending
    /// amount unless the supply row saturates at zero.
    pub fn dispose(self, ledger: &mut Ledger)
        requires
            old(ledger)@.wf(),
        ensures
            final(ledger)@.wf(),
            final(ledger)@.accounts == old(ledger)@.accounts,
            final(ledger)@.supply_used == old(ledger)@.supply_used,
            final(ledger)@.supply_added == sat_sub_u64(old(ledger)@.supply_added, self@),
            self@ <= old(ledger)@.supply_added ==> final(ledger)@.issuance() == old(ledger)@.issuance() - self@,
    {
        ledger.supply_sub_saturating(self.amount);
    }
}

/// The direction and token of a forced balance change, as returned by
/// making a free balance be a target value.
#[derive(Debug)]
pub enum SignedImbalance {
    /// The account was credited; the token carries the pending issuance
    /// increase.
    Positive(PositiveImbalance),
    /// The account was debited; the token carries the pending issuance
    /// decrease.
    Negative(NegativeImbalance),
}

} // verus!
