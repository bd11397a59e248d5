//! The ledger store: per-account double entries plus the total-supply table,
//! with the balance accessors and the currency operations over them.

use vstd::prelude::*;

use std::collections::HashMap;

use crate::imbalance::NegativeImbalance;
use crate::imbalance::PositiveImbalance;
use crate::imbalance::SignedImbalance;
use crate::summation::entry_net;
use crate::summation::lemma_sum_insert;
use crate::summation::sum_net;
use crate::types::AccountEntry;
use crate::types::ExistenceRequirement;
use crate::types::LedgerError;
use crate::types::TrackingType;
use crate::types::WithdrawReason;
use crate::types::credit_amount;
use crate::types::entry_value;
use crate::types::entry_with;
use crate::types::sat_add_u64;
use crate::types::sat_sub_u64;

verus! {

broadcast use vstd::std_specs::hash::group_hash_axioms;

/// The entries an account table stores for one account; an account never
/// written reads as zero on both entries.
pub open spec fn map_entry_of(m: Map<u64, AccountEntry>, who: u64) -> AccountEntry {
    if m.dom().contains(who) {
        m[who]
    } else {
        entry_with(0, 0)
    }
}

/// The mathematical model of a ledger: the account table and the two
/// total-supply entries.
pub ghost struct LedgerView {
    /// Every account ever written, with its two entries.
    pub accounts: Map<u64, AccountEntry>,
    /// The AddValue row of the total-supply table.
    pub supply_added: u64,
    /// The UseValue row of the total-supply table.
    pub supply_used: u64,
}

impl LedgerView {
    /// The entries stored for an account; an account never written reads as
    /// zero on both entries.
    pub open spec fn entry_of(self, who: u64) -> AccountEntry {
        map_entry_of(self.accounts, who)
    }

    /// The combined balance of an account: its Added entry minus its Used
    /// entry.
    pub open spec fn balance_of(self, who: u64) -> int {
        entry_net(self.entry_of(who))
    }

    /// One row of the total-supply table.
    pub open spec fn supply_of(self, kind: TrackingType) -> u64 {
        match kind {
            TrackingType::AddValue => self.supply_added,
            TrackingType::UseValue => self.supply_used,
        }
    }

    /// The net issuance of the system: the total-supply Added row minus the
    /// Used row.
    pub open spec fn issuance(self) -> int {
        self.supply_added - self.supply_used
    }

    /// The sum of all account balances.
    pub open spec fn total(self) -> int {
        sum_net(self.accounts)
    }

    /// Well-formedness: the account table is finite, every stored entry
    /// keeps Used within Added, and the UseValue supply row is zero — every
    /// operation of this module reconciles issuance through the AddValue
    /// row alone, so the debit row, kept for the two-row storage layout,
    /// is never written.
    pub open spec fn wf(self) -> bool {
        &&& self.accounts.dom().finite()
        &&& forall|a: u64| self.accounts.dom().contains(a) ==> (#[trigger] self.accounts[a]).wf()
        &&& self.supply_used == 0
    }
}

/// The ledger store.  Operations take it by reference, so independent
/// ledgers can be built and mutated in isolation.
pub struct Ledger {
    pub(crate) entries: HashMap<u64, AccountEntry>,
    pub(crate) supply_added: u64,
    pub(crate) supply_used: u64,
}

impl View for Ledger {
    type V = LedgerView;

    closed spec fn view(&self) -> LedgerView {
        LedgerView {
            accounts: self.entries@,
            supply_added: self.supply_added,
            supply_used: self.supply_used,
        }
    }
}

impl Ledger {
    /// An empty ledger: no accounts and no issuance.
    pub fn new() -> (r: Ledger)
        ensures
            r@.wf(),
            r@.accounts == Map::<u64, AccountEntry>::empty(),
            r@.supply_added == 0,
            r@.supply_used == 0,
    {
        Ledger { entries: HashMap::new(), supply_added: 0, supply_used: 0 }
    }

    /// Both entries of an account, fetched in one pass.
    pub fn account_entry(&self, who: u64) -> (e: AccountEntry)
        ensures
            e == self@.entry_of(who),
    {
        match self.entries.get(&who) {
            Some(e) => *e,
            None => AccountEntry { added: 0, used: 0 },
        }
    }

    /// One ledger entry of an account under the given entry kind.
    pub fn entry(&self, who: u64, kind: TrackingType) -> (r: u64)
        ensures
            r == entry_value(self@.entry_of(who), kind),
    {
        let e = self.account_entry(who);
        match kind {
            TrackingType::AddValue => e.added,
            TrackingType::UseValue => e.used,
        }
    }

    /// One row of the total-supply table.
    pub fn total_supply(&self, kind: TrackingType) -> (r: u64)
        ensures
            r == self@.supply_of(kind),
    {
        match kind {
            TrackingType::AddValue => self.supply_added,
            TrackingType::UseValue => self.supply_used,
        }
    }

    /// The combined balance of an account: its Added entry minus its Used
    /// entry, zero for an account never written.
    pub fn total_balance(&self, who: u64) -> (r: u64)
        requires
            self@.wf(),
        ensures
            r == self@.balance_of(who),
    {
        let e = self.account_entry(who);
        e.added - e.used
    }

    /// The free balance of an account.  Locks and reservations are outside
    /// this core, so the whole combined balance is free.
    pub fn free_balance(&self, who: u64) -> (r: u64)
        requires
            self@.wf(),
        ensures
            r == self@.balance_of(who),
    {
        self.total_balance(who)
    }

    /// Whether a slash of `value` would be covered in full, under the
    /// strict policy that a slash leaving exactly zero is not covered.
    pub fn can_slash(&self, who: u64, value: u64) -> (r: bool)
        requires
            self@.wf(),
        ensures
            r == (self@.balance_of(who) > value),
    {
        self.total_balance(who) > value
    }

    /// The total issuance of the system: the fold of the two total-supply
    /// rows, adding the AddValue row and subtracting the UseValue row.
    pub fn total_issuance(&self) -> (r: u64)
        requires
            self@.wf(),
        ensures
            r == self@.issuance(),
    {
        self.supply_added - self.supply_used
    }

    /// The minimum balance any account may hold.  The existential-deposit
    /// policy is deliberately unresolved in this core, so the minimum is
    /// fixed at zero and no withdrawal is ever refused for liveness alone.
    pub fn minimum_balance() -> (r: u64)
        ensures
            r == 0,
    {
        0
    }

    /// Dry run of a withdrawal: whether `who` could withdraw `amount`
    /// leaving `new_balance`.  Lock, vesting and liquidity constraints are
    /// delegated to an external collaborator, and the minimum balance is
    /// zero, so no withdrawal that reached this point is refused.
    pub fn ensure_can_withdraw(
        &self,
        who: u64,
        amount: u64,
        reason: WithdrawReason,
        new_balance: u64,
    ) -> (r: Result<(), LedgerError>)
        ensures
            r is Ok,
    {
        let _ = who;
        let _ = amount;
        let _ = reason;
        let _ = new_balance;
        Ok(())
    }

    /// Saturating credit to the AddValue supply row; the reconciliation
    /// path of a positive imbalance.
    pub(crate) fn supply_add_saturating(&mut self, amount: u64)
        requires
            old(self)@.wf(),
        ensures
            final(self)@.wf(),
            final(self)@.accounts == old(self)@.accounts,
            final(self)@.supply_used == old(self)@.supply_used,
            final(self)@.supply_added == sat_add_u64(old(self)@.supply_added, amount),
    {
        if self.supply_added > u64::MAX - amount {
            self.supply_added = u64::MAX;
        } else {
            self.supply_added = self.supply_added + amount;
        }
    }

    /// Unconditionally credits `value` to the Added entry of `who`,
    /// creating the account if absent, and returns the positive token for
    /// the amount actually credited.  Infallible: when the entry has less
    /// than `value` of headroom, only the headroom is credited and the
    /// token reports that smaller amount.
    pub fn deposit_creating(&mut self, who: u64, value: u64) -> (r: PositiveImbalance)
        requires
            old(self)@.wf(),
        ensures
            final(self)@.wf(),
            ({
                let e = old(self)@.entry_of(who);
                let credited = credit_amount(e.added, value);
                &&& r@ == credited
                &&& final(self)@.accounts == old(self)@.accounts.insert(
                    who,
                    entry_with((e.added + credited) as u64, e.used),
                )
                &&& final(self)@.supply_added == old(self)@.supply_added
                &&& final(self)@.supply_used == old(self)@.supply_used
                &&& final(self)@.balance_of(who) == old(self)@.balance_of(who) + credited
                &&& final(self)@.total() == old(self)@.total() + credited
                &&& e.added + value <= u64::MAX ==> credited == value
            }),
    {
        let e = self.account_entry(who);
        let credited = if value > u64::MAX - e.added {
            u64::MAX - e.added
        } else {
            value
        };
        let ghost m0 = self@.accounts;
        self.entries.insert(who, AccountEntry { added: e.added + credited, used: e.used });
        proof {
            lemma_sum_insert(m0, who, entry_with((e.added + credited) as u64, e.used));
        }
        PositiveImbalance::new(credited)
    }

    /// Credits `value` to the Added entry of `who`, failing without any
    /// mutation when the account has no ledger presence or when the credit
    /// would overflow the entry; on success returns the positive token for
    /// exactly `value`.
    pub fn deposit_into_existing(&mut self, who: u64, value: u64) -> (r: Result<
        PositiveImbalance,
        LedgerError,
    >)
        requires
            old(self)@.wf(),
        ensures
            final(self)@.wf(),
            !old(self)@.accounts.dom().contains(who) ==> (r matches Err(e) && e
                == LedgerError::AccountNotFound) && final(self)@ == old(self)@,
            old(self)@.accounts.dom().contains(who) && old(self)@.entry_of(who).added + value
                > u64::MAX ==> (r matches Err(e) && e == LedgerError::Overflow) && final(self)@
                == old(self)@,
            old(self)@.accounts.dom().contains(who) && old(self)@.entry_of(who).added + value
                <= u64::MAX ==> ({
                let e = old(self)@.entry_of(who);
                &&& r matches Ok(t) && t@ == value
                &&& final(self)@.accounts == old(self)@.accounts.insert(
                    who,
                    entry_with((e.added + value) as u64, e.used),
                )
                &&& final(self)@.supply_added == old(self)@.supply_added
                &&& final(self)@.supply_used == old(self)@.supply_used
                &&& final(self)@.balance_of(who) == old(self)@.balance_of(who) + value
                &&& final(self)@.total() == old(self)@.total() + value
            }),
    {
        if !self.entries.contains_key(&who) {
            return Err(LedgerError::AccountNotFound);
        }
        let e = self.account_entry(who);
        if value > u64::MAX - e.added {
            return Err(LedgerError::Overflow);
        }
        let ghost m0 = self@.accounts;
        self.entries.insert(who, AccountEntry { added: e.added + value, used: e.used });
        proof {
            lemma_sum_insert(m0, who, entry_with((e.added + value) as u64, e.used));
        }
        Ok(PositiveImbalance::new(value))
    }

    /// Removes `value` from the free balance of `who` by crediting the Used
    /// entry, and returns the negative token for exactly `value`.  Fails
    /// without any mutation when the free balance is short.  The minimum
    /// balance is zero, so both liveness policies admit the same
    /// withdrawals, and lock constraints keyed on the reason belong to an
    /// external collaborator.
    pub fn withdraw(
        &mut self,
        who: u64,
        value: u64,
        reason: WithdrawReason,
        liveness: ExistenceRequirement,
    ) -> (r: Result<NegativeImbalance, LedgerError>)
        requires
            old(self)@.wf(),
        ensures
            final(self)@.wf(),
            old(self)@.balance_of(who) < value ==> (r matches Err(e) && e
                == LedgerError::InsufficientBalance) && final(self)@ == old(self)@,
            old(self)@.balance_of(who) >= value ==> ({
                let e = old(self)@.entry_of(who);
                &&& r matches Ok(t) && t@ == value
                &&& final(self)@.accounts == old(self)@.accounts.insert(
                    who,
                    entry_with(e.added, (e.used + value) as u64),
                )
                &&& final(self)@.supply_added == old(self)@.supply_added
                &&& final(self)@.supply_used == old(self)@.supply_used
                &&& final(self)@.balance_of(who) == old(self)@.balance_of(who) - value
                &&& final(self)@.total() == old(self)@.total() - value
            }),
    {
        let _ = reason;
        let _ = liveness;
        let e = self.account_entry(who);
        let balance = self.total_balance(who);
        if balance < value {
            return Err(LedgerError::InsufficientBalance);
        }
        let ghost m0 = self@.accounts;
        self.entries.insert(who, AccountEntry { added: e.added, used: e.used + value });
        proof {
            lemma_sum_insert(m0, who, entry_with(e.added, (e.used + value) as u64));
        }
        Ok(NegativeImbalance::new(value))
    }

    /// Best-effort, infallible deduction: takes `min(value, balance)` from
    /// `who`, returning the negative token for the deducted amount and the
    /// shortfall that could not be covered.
    pub fn slash(&mut self, who: u64, value: u64) -> (r: (NegativeImbalance, u64))
        requires
            old(self)@.wf(),
        ensures
            final(self)@.wf(),
            ({
                let e = old(self)@.entry_of(who);
                let bal = old(self)@.balance_of(who);
                let deducted = if bal >= value {
                    value as int
                } else {
                    bal
                };
                &&& r.0@ == deducted
                &&& r.1 == value - deducted
                &&& final(self)@.accounts == old(self)@.accounts.insert(
                    who,
                    entry_with(e.added, (e.used + deducted) as u64),
                )
                &&& final(self)@.supply_added == old(self)@.supply_added
                &&& final(self)@.supply_used == old(self)@.supply_used
                &&& final(self)@.balance_of(who) == bal - deducted
                &&& value >= bal ==> final(self)@.balance_of(who) == 0
                &&& final(self)@.total() == old(self)@.total() - deducted
            }),
    {
        let e = self.account_entry(who);
        let balance = self.total_balance(who);
        let deducted = if balance >= value {
            value
        } else {
            balance
        };
        let ghost m0 = self@.accounts;
        self.entries.insert(who, AccountEntry { added: e.added, used: e.used + deducted });
        proof {
            lemma_sum_insert(m0, who, entry_with(e.added, (e.used + deducted) as u64));
        }
        (NegativeImbalance::new(deducted), value - deducted)
    }

    /// Moves `value` from `source` to `dest`, checking feasibility on both
    /// sides before touching either, so a failing transfer mutates
    /// nothing.  On success the source's Used entry and the dest's Added
    /// entry each grow by `value`; total supply, net issuance and the sum
    /// of all balances are untouched.
    pub fn transfer(
        &mut self,
        source: u64,
        dest: u64,
        value: u64,
        liveness: ExistenceRequirement,
    ) -> (r: Result<(), LedgerError>)
        requires
            old(self)@.wf(),
        ensures
            final(self)@.wf(),
            old(self)@.balance_of(source) < value ==> (r matches Err(e) && e
                == LedgerError::InsufficientBalance) && final(self)@ == old(self)@
                && final(self)@.balance_of(source) == old(self)@.balance_of(source)
                && final(self)@.balance_of(dest) == old(self)@.balance_of(dest),
            old(self)@.balance_of(source) >= value && old(self)@.entry_of(dest).added + value
                > u64::MAX ==> (r matches Err(e) && e == LedgerError::Overflow) && final(self)@
                == old(self)@,
            old(self)@.balance_of(source) >= value && old(self)@.entry_of(dest).added + value
                <= u64::MAX ==> ({
                let es = old(self)@.entry_of(source);
                let mid = old(self)@.accounts.insert(
                    source,
                    entry_with(es.added, (es.used + value) as u64),
                );
                let ed = map_entry_of(mid, dest);
                &&& r is Ok
                &&& final(self)@.accounts == mid.insert(
                    dest,
                    entry_with((ed.added + value) as u64, ed.used),
                )
                &&& final(self)@.supply_added == old(self)@.supply_added
                &&& final(self)@.supply_used == old(self)@.supply_used
                &&& final(self)@.total() == old(self)@.total()
                &&& final(self)@.issuance() == old(self)@.issuance()
                &&& source != dest ==> final(self)@.balance_of(source) == old(self)@.balance_of(
                    source,
                ) - value
                &&& source != dest ==> final(self)@.balance_of(dest) == old(self)@.balance_of(
                    dest,
                ) + value
                &&& source == dest ==> final(self)@.balance_of(source) == old(self)@.balance_of(
                    source,
                )
            }),
    {
        let e_dest = self.account_entry(dest);
        let balance = self.total_balance(source);
        if balance < value {
            return Err(LedgerError::InsufficientBalance);
        }
        if value > u64::MAX - e_dest.added {
            return Err(LedgerError::Overflow);
        }
        let token = match self.withdraw(source, value, WithdrawReason::Transfer, liveness) {
            Ok(t) => t,
            Err(e) => {
                return Err(e);
            },
        };
        self.resolve_creating(dest, token);
        Ok(())
    }

    /// Pairs a positive token with a withdrawal of the same magnitude from
    /// `who`, consuming the token on success; on failure the ledger is
    /// untouched and the original token comes back unconsumed.
    pub fn settle(
        &mut self,
        who: u64,
        value: PositiveImbalance,
        reason: WithdrawReason,
        liveness: ExistenceRequirement,
    ) -> (r: Result<(), PositiveImbalance>)
        requires
            old(self)@.wf(),
        ensures
            final(self)@.wf(),
            old(self)@.balance_of(who) < value@ ==> (r matches Err(t) && t@ == value@) && final(self)@ == old(self)@,
            old(self)@.balance_of(who) >= value@ ==> ({
                let e = old(self)@.entry_of(who);
                &&& r is Ok
                &&& final(self)@.accounts == old(self)@.accounts.insert(
                    who,
                    entry_with(e.added, (e.used + value@) as u64),
                )
                &&& final(self)@.supply_added == old(self)@.supply_added
                &&& final(self)@.supply_used == old(self)@.supply_used
                &&& final(self)@.balance_of(who) == old(self)@.balance_of(who) - value@
                &&& final(self)@.total() == old(self)@.total() - value@
            }),
    {
        let v = value.peek();
        match self.withdraw(who, v, reason, liveness) {
            Ok(opposite) => {
                match value.offset(opposite) {
                    Ok(residual) => residual.dispose(self),
                    Err(residual) => residual.dispose(self),
                }
                Ok(())
            },
            Err(_) => Err(value),
        }
    }

    /// Pairs a negative token with a deposit into an existing account,
    /// consuming the token on success; on failure — no such account, or an
    /// entry overflow — the ledger is untouched and the original token
    /// comes back unconsumed.
    pub fn resolve_into_existing(&mut self, who: u64, value: NegativeImbalance) -> (r: Result<
        (),
        NegativeImbalance,
    >)
        requires
            old(self)@.wf(),
        ensures
            final(self)@.wf(),
            !old(self)@.accounts.dom().contains(who) ==> (r matches Err(t) && t@ == value@)
                && final(self)@ == old(self)@,
            old(self)@.accounts.dom().contains(who) && old(self)@.entry_of(who).added + value@
                > u64::MAX ==> (r matches Err(t) && t@ == value@) && final(self)@ == old(self)@,
            old(self)@.accounts.dom().contains(who) && old(self)@.entry_of(who).added + value@
                <= u64::MAX ==> ({
                let e = old(self)@.entry_of(who);
                &&& r is Ok
                &&& final(self)@.accounts == old(self)@.accounts.insert(
                    who,
                    entry_with((e.added + value@) as u64, e.used),
                )
                &&& final(self)@.supply_added == old(self)@.supply_added
                &&& final(self)@.supply_used == old(self)@.supply_used
                &&& final(self)@.balance_of(who) == old(self)@.balance_of(who) + value@
                &&& final(self)@.total() == old(self)@.total() + value@
            }),
    {
        let v = value.peek();
        match self.deposit_into_existing(who, v) {
            Ok(opposite) => {
                match value.offset(opposite) {
                    Ok(residual) => residual.dispose(self),
                    Err(residual) => residual.dispose(self),
                }
                Ok(())
            },
            Err(_) => Err(value),
        }
    }

    /// Pairs a negative token with an unconditional deposit, creating the
    /// account if absent.  Whatever part of the token the entry had no
    /// headroom for is disposed, saturating-reconciling total supply, so
    /// the token is consumed in full either way.
    pub fn resolve_creating(&mut self, who: u64, value: NegativeImbalance)
        requires
            old(self)@.wf(),
        ensures
            final(self)@.wf(),
            ({
                let e = old(self)@.entry_of(who);
                let credited = credit_amount(e.added, value@);
                &&& final(self)@.accounts == old(self)@.accounts.insert(
                    who,
                    entry_with((e.added + credited) as u64, e.used),
                )
                &&& final(self)@.supply_used == old(self)@.supply_used
                &&& final(self)@.supply_added == sat_sub_u64(
                    old(self)@.supply_added,
                    (value@ - credited) as u64,
                )
                &&& final(self)@.balance_of(who) == old(self)@.balance_of(who) + credited
                &&& final(self)@.total() == old(self)@.total() + credited
                &&& e.added + value@ <= u64::MAX ==> credited == value@ && final(self)@.supply_added == old(self)@.supply_added
            }),
    {
        let v = value.peek();
        let opposite = self.deposit_creating(who, v);
        match value.offset(opposite) {
            Ok(residual) => residual.dispose(self),
            Err(residual) => residual.dispose(self),
        }
    }

    /// Reduces total issuance by up to `amount` — the AddValue supply row
    /// saturates at zero, so less may be burnt — and returns the positive
    /// token for the amount actually burnt, which a settlement against an
    /// account would consume.
    pub fn burn(&mut self, amount: u64) -> (r: PositiveImbalance)
        requires
            old(self)@.wf(),
        ensures
            final(self)@.wf(),
            final(self)@.accounts == old(self)@.accounts,
            final(self)@.supply_used == old(self)@.supply_used,
            ({
                let burnt = if amount > old(self)@.supply_added {
                    old(self)@.supply_added
                } else {
                    amount
                };
                &&& r@ == burnt
                &&& final(self)@.supply_added == old(self)@.supply_added - burnt
                &&& final(self)@.issuance() == old(self)@.issuance() - burnt
            }),
    {
        if amount == 0 {
            return PositiveImbalance::zero();
        }
        let burnt = if amount > self.supply_added {
            self.supply_added
        } else {
            amount
        };
        self.supply_added = self.supply_added - burnt;
        PositiveImbalance::new(burnt)
    }

    /// Raises total issuance by up to `amount` — the AddValue supply row
    /// saturates at its maximum, so less may be issued — and returns the
    /// negative token for the amount actually issued, which a resolution
    /// into an account would consume.
    pub fn issue(&mut self, amount: u64) -> (r: NegativeImbalance)
        requires
            old(self)@.wf(),
        ensures
            final(self)@.wf(),
            final(self)@.accounts == old(self)@.accounts,
            final(self)@.supply_used == old(self)@.supply_used,
            ({
                let issued = if amount > u64::MAX - old(self)@.supply_added {
                    (u64::MAX - old(self)@.supply_added) as u64
                } else {
                    amount
                };
                &&& r@ == issued
                &&& final(self)@.supply_added == old(self)@.supply_added + issued
                &&& final(self)@.issuance() == old(self)@.issuance() + issued
            }),
    {
        if amount == 0 {
            return NegativeImbalance::zero();
        }
        let issued = if amount > u64::MAX - self.supply_added {
            u64::MAX - self.supply_added
        } else {
            amount
        };
        self.supply_added = self.supply_added + issued;
        NegativeImbalance::new(issued)
    }

    /// Forces the free balance of `who` to `balance`, creating the account
    /// if needed, and returns the signed token for the applied delta.  A
    /// credit with too little entry headroom is clipped, like any
    /// unconditional deposit; a debit always lands in full.
    pub fn make_free_balance_be(&mut self, who: u64, balance: u64) -> (r: SignedImbalance)
        requires
            old(self)@.wf(),
        ensures
            final(self)@.wf(),
            final(self)@.supply_added == old(self)@.supply_added,
            final(self)@.supply_used == old(self)@.supply_used,
            ({
                let e = old(self)@.entry_of(who);
                let cur = old(self)@.balance_of(who);
                &&& balance >= cur ==> ({
                    let credited = credit_amount(e.added, (balance - cur) as u64);
                    &&& (r matches SignedImbalance::Positive(t) && t@ == credited)
                    &&& final(self)@.accounts == old(self)@.accounts.insert(
                        who,
                        entry_with((e.added + credited) as u64, e.used),
                    )
                    &&& final(self)@.balance_of(who) == cur + credited
                    &&& final(self)@.total() == old(self)@.total() + credited
                    &&& e.used + balance <= u64::MAX ==> final(self)@.balance_of(who) == balance
                })
                &&& balance < cur ==> ({
                    let delta = (cur - balance) as u64;
                    &&& (r matches SignedImbalance::Negative(t) && t@ == delta)
                    &&& final(self)@.accounts == old(self)@.accounts.insert(
                        who,
                        entry_with(e.added, (e.used + delta) as u64),
                    )
                    &&& final(self)@.balance_of(who) == balance
                    &&& final(self)@.total() == old(self)@.total() - delta
                })
            }),
    {
        let e = self.account_entry(who);
        let cur = self.total_balance(who);
        if balance >= cur {
            let token = self.deposit_creating(who, balance - cur);
            SignedImbalance::Positive(token)
        } else {
            let delta = cur - balance;
            let ghost m0 = self@.accounts;
            self.entries.insert(who, AccountEntry { added: e.added, used: e.used + delta });
            proof {
                lemma_sum_insert(m0, who, entry_with(e.added, (e.used + delta) as u64));
            }
            SignedImbalance::Negative(NegativeImbalance::new(delta))
        }
    }

    /// Saturating debit of the AddValue supply row; the reconciliation
    /// path of a negative imbalance.
    pub(crate) fn supply_sub_saturating(&mut self, amount: u64)
        requires
            old(self)@.wf(),
        ensures
            final(self)@.wf(),
            final(self)@.accounts == old(self)@.accounts,
            final(self)@.supply_used == old(self)@.supply_used,
            final(self)@.supply_added == sat_sub_u64(old(self)@.supply_added, amount),
    {
        if amount > self.supply_added {
            self.supply_added = 0;
        } else {
            self.supply_added = self.supply_added - amount;
        }
    }
}

} // verus!
