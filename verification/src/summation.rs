//! Summing net entry values over every account in a ledger map, with the
//! lemmas the conservation arguments need.

use vstd::prelude::*;

use crate::types::AccountEntry;

verus! {

/// The net amount one entry contributes to the ledger total: the Added
/// amount minus the Used amount.
pub open spec fn entry_net(e: AccountEntry) -> int {
    e.added - e.used
}

/// The sum of net entry values over every account in the map.
pub open spec fn sum_net(m: Map<u64, AccountEntry>) -> int
    decreases m.dom().len(),
    when m.dom().finite()
{
    if m.dom().is_empty() {
        0
    } else {
        let k = m.dom().choose();
        entry_net(m[k]) + sum_net(m.remove(k))
    }
}

/// Removing an account takes exactly its net value out of the sum,
/// whichever account is removed.
pub proof fn lemma_sum_remove(m: Map<u64, AccountEntry>, k: u64)
    requires
        m.dom().finite(),
        m.dom().contains(k),
    ensures
        sum_net(m) == entry_net(m[k]) + sum_net(m.remove(k)),
    decreases m.dom().len(),
{
    let c = m.dom().choose();
    assert(m.dom().contains(c));
    if c == k {
    } else {
        let m1 = m.remove(c);
        let m2 = m.remove(k);
        lemma_sum_remove(m1, k);
        lemma_sum_remove(m2, c);
        assert(m1.remove(k) =~= m2.remove(c));
        assert(sum_net(m) == entry_net(m[c]) + sum_net(m1));
        assert(sum_net(m1) == entry_net(m[k]) + sum_net(m1.remove(k)));
        assert(sum_net(m2) == entry_net(m[c]) + sum_net(m2.remove(c)));
    }
}

/// Writing an entry moves the sum by the difference between the new net
/// value and the net value previously stored under that account.
pub proof fn lemma_sum_insert(m: Map<u64, AccountEntry>, k: u64, e: AccountEntry)
    requires
        m.dom().finite(),
    ensures
        sum_net(m.insert(k, e)) == sum_net(m) + entry_net(e) - (if m.dom().contains(k) {
            entry_net(m[k])
        } else {
            0
        }),
{
    let mi = m.insert(k, e);
    lemma_sum_remove(mi, k);
    if m.dom().contains(k) {
        lemma_sum_remove(m, k);
        assert(mi.remove(k) =~= m.remove(k));
    } else {
        assert(mi.remove(k) =~= m);
    }
}

/// A sum over well-formed entries is never negative.
pub proof fn lemma_sum_nonnegative(m: Map<u64, AccountEntry>)
    requires
        m.dom().finite(),
        forall|a: u64| m.dom().contains(a) ==> (#[trigger] m[a]).wf(),
    ensures
        sum_net(m) >= 0,
    decreases m.dom().len(),
{
    if m.dom().is_empty() {
    } else {
        let k = m.dom().choose();
        assert(m.dom().contains(k));
        lemma_sum_nonnegative(m.remove(k));
    }
}

} // verus!
