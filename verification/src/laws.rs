//! The conservation discipline of the ledger, stated and proved once for
//! all operations: counting the pending amounts of live imbalance tokens,
//! net issuance always equals the sum of all account balances.

use vstd::prelude::*;

use crate::ledger::LedgerView;
use crate::summation::lemma_sum_insert;
use crate::summation::lemma_sum_nonnegative;
use crate::summation::sum_net;
use crate::types::AccountEntry;
use crate::types::entry_with;
use crate::types::sat_add_u64;
use crate::types::sat_sub_u64;

verus! {

/// The conservation equation.  `outstanding` is the net pending amount of
/// all live tokens — positive magnitudes counted forward, negative ones
/// backward: once it is added to net issuance, the books equal the sum of
/// all account balances.
pub open spec fn conserved(v: LedgerView, outstanding: int) -> bool {
    v.issuance() + outstanding == v.total()
}

/// Every account's balance is exactly its Added entry minus its Used
/// entry, and in a well-formed ledger it is never negative.
pub proof fn lemma_balance_is_net_and_nonnegative(v: LedgerView, who: u64)
    requires
        v.wf(),
    ensures
        v.balance_of(who) == v.entry_of(who).added - v.entry_of(who).used,
        v.balance_of(who) >= 0,
{
}

/// The sum of all balances of a well-formed ledger is never negative.
pub proof fn lemma_total_nonnegative(v: LedgerView)
    requires
        v.wf(),
    ensures
        v.total() >= 0,
{
    lemma_sum_nonnegative(v.accounts);
}

/// A fresh ledger — no accounts, no issuance — is conserved with nothing
/// outstanding.
pub proof fn lemma_new_ledger_conserved(v: LedgerView)
    requires
        v.accounts == Map::<u64, AccountEntry>::empty(),
        v.supply_added == 0,
        v.supply_used == 0,
    ensures
        conserved(v, 0),
{
    assert(sum_net(v.accounts) == 0);
}

/// Conservation is preserved by every step whose changes to issuance, to
/// the outstanding pending amount and to the account total cancel out —
/// exactly what the `ensures` of each currency operation supply: a deposit
/// or withdrawal moves the total and the outstanding amount together, a
/// disposal moves issuance against the outstanding amount, and a transfer
/// moves none of the three.
pub proof fn lemma_conservation_step(
    pre: LedgerView,
    post: LedgerView,
    out_pre: int,
    out_post: int,
)
    requires
        conserved(pre, out_pre),
        post.issuance() - pre.issuance() + (out_post - out_pre) == post.total() - pre.total(),
    ensures
        conserved(post, out_post),
{
}

/// One step balances its books when its changes to issuance, to the
/// outstanding pending amount and to the account total cancel out.
pub open spec fn conservative_step(
    pre: LedgerView,
    post: LedgerView,
    out_pre: int,
    out_post: int,
) -> bool {
    post.issuance() - pre.issuance() + (out_post - out_pre) == post.total() - pre.total()
}

/// After any sequence of steps that each balance their books — as the
/// `ensures` of every currency operation and disposal guarantee — a ledger
/// that started conserved is still conserved.  With nothing outstanding at
/// the end, total issuance then equals the sum of all balances.
pub proof fn lemma_conservation_sequence(views: Seq<LedgerView>, outs: Seq<int>)
    requires
        views.len() == outs.len(),
        views.len() > 0,
        conserved(views[0], outs[0]),
        forall|i: int|
            0 <= i < views.len() - 1 ==> #[trigger] conservative_step(
                views[i],
                views[i + 1],
                outs[i],
                outs[i + 1],
            ),
    ensures
        conserved(views[views.len() - 1], outs[views.len() - 1]),
    decreases views.len(),
{
    if views.len() > 1 {
        let i0: int = 0;
        assert(conservative_step(views[i0], views[i0 + 1], outs[i0], outs[i0 + 1]));
        lemma_conservation_step(views[0], views[1], outs[0], outs[1]);
        let vs = views.drop_first();
        let os = outs.drop_first();
        assert forall|i: int| 0 <= i < vs.len() - 1 implies #[trigger] conservative_step(
            vs[i],
            vs[i + 1],
            os[i],
            os[i + 1],
        ) by {
            let j = i + 1;
            assert(conservative_step(views[j], views[j + 1], outs[j], outs[j + 1]));
            assert(vs[i] == views[i + 1] && vs[i + 1] == views[i + 2]);
            assert(os[i] == outs[i + 1] && os[i + 1] == outs[i + 2]);
        }
        lemma_conservation_sequence(vs, os);
        assert(vs[vs.len() - 1] == views[views.len() - 1]);
    }
}

/// At a quiescent point — no unconsumed token outstanding — total issuance
/// equals the sum of all account balances.
pub proof fn lemma_quiescent_conservation(v: LedgerView)
    requires
        conserved(v, 0),
    ensures
        v.issuance() == v.total(),
{
}

/// Depositing `v` into an account and then disposing the returned token
/// raises the account's balance, the ledger total and net issuance by
/// exactly `v`, and restores the conservation equation, provided neither
/// the entry nor the supply row saturates.
pub proof fn lemma_deposit_then_dispose_conserves(
    pre: LedgerView,
    mid: LedgerView,
    post: LedgerView,
    who: u64,
    v: u64,
    out: int,
)
    requires
        pre.wf(),
        conserved(pre, out),
        pre.entry_of(who).added + v <= u64::MAX,
        pre.supply_added + v <= u64::MAX,
        mid.accounts == pre.accounts.insert(
            who,
            entry_with((pre.entry_of(who).added + v) as u64, pre.entry_of(who).used),
        ),
        mid.supply_added == pre.supply_added,
        mid.supply_used == pre.supply_used,
        post.accounts == mid.accounts,
        post.supply_added == pre.supply_added + v,
        post.supply_used == mid.supply_used,
    ensures
        conserved(mid, out + v),
        conserved(post, out),
        post.issuance() == pre.issuance() + v,
        post.balance_of(who) == pre.balance_of(who) + v,
        post.total() == pre.total() + v,
        post.accounts == pre.accounts.insert(
            who,
            entry_with((pre.entry_of(who).added + v) as u64, pre.entry_of(who).used),
        ),
        post.supply_used == pre.supply_used,
{
    lemma_sum_insert(
        pre.accounts,
        who,
        entry_with((pre.entry_of(who).added + v) as u64, pre.entry_of(who).used),
    );
}

/// Withdrawing `v` from an account and then disposing the returned token
/// lowers the account's balance, the ledger total and net issuance by
/// exactly `v`, and restores the conservation equation, provided the
/// supply row does not saturate at zero.
pub proof fn lemma_withdraw_then_dispose_conserves(
    pre: LedgerView,
    mid: LedgerView,
    post: LedgerView,
    who: u64,
    v: u64,
    out: int,
)
    requires
        pre.wf(),
        conserved(pre, out),
        pre.balance_of(who) >= v,
        mid.accounts == pre.accounts.insert(
            who,
            entry_with(pre.entry_of(who).added, (pre.entry_of(who).used + v) as u64),
        ),
        mid.supply_added == pre.supply_added,
        mid.supply_used == pre.supply_used,
        v <= mid.supply_added,
        post.accounts == mid.accounts,
        post.supply_added == mid.supply_added - v,
        post.supply_used == mid.supply_used,
    ensures
        conserved(mid, out - v),
        conserved(post, out),
        post.issuance() == pre.issuance() - v,
        post.balance_of(who) == pre.balance_of(who) - v,
        post.total() == pre.total() - v,
{
    lemma_sum_insert(
        pre.accounts,
        who,
        entry_with(pre.entry_of(who).added, (pre.entry_of(who).used + v) as u64),
    );
}

/// Issuing `v` and then resolving the returned token into an account ends
/// in exactly the same ledger state as depositing `v` and disposing the
/// token: explicit settlement and automatic reconciliation agree.
pub proof fn lemma_issue_then_resolve_conserves(
    pre: LedgerView,
    mid: LedgerView,
    post: LedgerView,
    who: u64,
    v: u64,
    out: int,
)
    requires
        pre.wf(),
        conserved(pre, out),
        pre.entry_of(who).added + v <= u64::MAX,
        pre.supply_added + v <= u64::MAX,
        mid.accounts == pre.accounts,
        mid.supply_added == pre.supply_added + v,
        mid.supply_used == pre.supply_used,
        post.accounts == mid.accounts.insert(
            who,
            entry_with((mid.entry_of(who).added + v) as u64, mid.entry_of(who).used),
        ),
        post.supply_added == mid.supply_added,
        post.supply_used == mid.supply_used,
    ensures
        conserved(mid, out - v),
        conserved(post, out),
        post.issuance() == pre.issuance() + v,
        post.balance_of(who) == pre.balance_of(who) + v,
        post.total() == pre.total() + v,
        post.accounts == pre.accounts.insert(
            who,
            entry_with((pre.entry_of(who).added + v) as u64, pre.entry_of(who).used),
        ),
        post.supply_added == pre.supply_added + v,
        post.supply_used == pre.supply_used,
{
    lemma_sum_insert(
        pre.accounts,
        who,
        entry_with((pre.entry_of(who).added + v) as u64, pre.entry_of(who).used),
    );
}

/// Offsetting opposite tokens of equal magnitude leaves a zero residual,
/// and a zero residual reconciles to nothing: disposing it, on either
/// side, leaves the total-supply rows exactly as they were.
pub proof fn lemma_zero_residual_disposal_is_noop(supply: u64)
    ensures
        sat_add_u64(supply, 0) == supply,
        sat_sub_u64(supply, 0) == supply,
{
}

} // verus!
