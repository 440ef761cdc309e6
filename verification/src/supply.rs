//! Sums over finite maps: the sum of all balances, and how a sum moves
//! when one entry changes.

use vstd::prelude::*;
use crate::types::Address;

verus! {

/// The sum of the values of a finite map.
pub open spec fn sum_values<K>(m: Map<K, int>) -> int
    decreases m.dom().len(),
    when m.dom().finite()
{
    if m.dom().len() == 0 {
        0
    } else {
        let k = m.dom().choose();
        m[k] + sum_values(m.remove(k))
    }
}

/// The value stored under `k`, or zero where none is stored.
pub open spec fn value_or_zero<K>(m: Map<K, int>, k: K) -> int {
    if m.dom().contains(k) {
        m[k]
    } else {
        0
    }
}

/// No stored value is negative.
pub open spec fn values_non_negative<K>(m: Map<K, int>) -> bool {
    forall|k: K| #[trigger] m.dom().contains(k) ==> m[k] >= 0
}

/// Any stored entry can be split off the sum.
pub proof fn lemma_sum_values_remove<K>(m: Map<K, int>, k: K)
    requires
        m.dom().finite(),
        m.dom().contains(k),
    ensures
        sum_values(m) == m[k] + sum_values(m.remove(k)),
    decreases m.dom().len(),
{
    let c = m.dom().choose();
    if c != k {
        let mc = m.remove(c);
        let mk = m.remove(k);
        lemma_sum_values_remove(mc, k);
        lemma_sum_values_remove(mk, c);
        assert(mc.remove(k) =~= mk.remove(c));
    }
}

/// Writing one entry moves the sum by the difference to what was stored.
pub proof fn lemma_sum_values_insert<K>(m: Map<K, int>, k: K, v: int)
    requires
        m.dom().finite(),
    ensures
        sum_values(m.insert(k, v)) == sum_values(m) - value_or_zero(m, k) + v,
{
    let n = m.insert(k, v);
    lemma_sum_values_remove(n, k);
    if m.dom().contains(k) {
        lemma_sum_values_remove(m, k);
        assert(n.remove(k) =~= m.remove(k));
    } else {
        assert(n.remove(k) =~= m);
    }
}

/// Where no value is negative, the sum is not negative either and no
/// entry exceeds the sum.
pub proof fn lemma_sum_values_bounds<K>(m: Map<K, int>, k: K)
    requires
        m.dom().finite(),
        values_non_negative(m),
    ensures
        0 <= sum_values(m),
        value_or_zero(m, k) <= sum_values(m),
    decreases m.dom().len(),
{
    if m.dom().len() != 0 {
        let c = m.dom().choose();
        let mc = m.remove(c);
        assert(values_non_negative(mc)) by {
            assert forall|j: K| #[trigger] mc.dom().contains(j) implies mc[j] >= 0 by {
                assert(m.dom().contains(j));
            }
        }
        lemma_sum_values_bounds(mc, k);
        assert(m.dom().contains(c));
    } else {
        assert(!m.dom().contains(k));
    }
}

/// The balances as mathematical integers.
pub open spec fn balance_values(m: Map<Address, i128>) -> Map<Address, int> {
    Map::new(|k: Address| m.dom().contains(k), |k: Address| m[k] as int)
}

/// The sum of the values of a finite map of balances.
pub open spec fn sum_balances(m: Map<Address, i128>) -> int {
    sum_values(balance_values(m))
}

/// What a principal holds: the stored balance, or zero where none is stored.
pub open spec fn balance_of(m: Map<Address, i128>, who: Address) -> i128 {
    if m.dom().contains(who) {
        m[who]
    } else {
        0
    }
}

/// No stored balance is negative.
pub open spec fn balances_non_negative(m: Map<Address, i128>) -> bool {
    forall|k: Address| #[trigger] m.dom().contains(k) ==> m[k] >= 0
}

/// Any stored balance can be split off the sum.
pub proof fn lemma_sum_remove(m: Map<Address, i128>, k: Address)
    requires
        m.dom().finite(),
        m.dom().contains(k),
    ensures
        sum_balances(m) == m[k] + sum_balances(m.remove(k)),
{
    assert(balance_values(m).dom() =~= m.dom());
    lemma_sum_values_remove(balance_values(m), k);
    assert(balance_values(m).remove(k) =~= balance_values(m.remove(k)));
}

/// Writing one balance moves the sum by the difference to what was held.
pub proof fn lemma_sum_insert(m: Map<Address, i128>, k: Address, v: i128)
    requires
        m.dom().finite(),
    ensures
        sum_balances(m.insert(k, v)) == sum_balances(m) - balance_of(m, k) + v,
{
    assert(balance_values(m).dom() =~= m.dom());
    lemma_sum_values_insert(balance_values(m), k, v as int);
    assert(balance_values(m).insert(k, v as int) =~= balance_values(m.insert(k, v)));
}

/// Where no balance is negative, the sum is not negative either and no
/// principal holds more than the sum.
pub proof fn lemma_sum_bounds(m: Map<Address, i128>, k: Address)
    requires
        m.dom().finite(),
        balances_non_negative(m),
    ensures
        0 <= sum_balances(m),
        balance_of(m, k) <= sum_balances(m),
{
    assert(balance_values(m).dom() =~= m.dom());
    assert(values_non_negative(balance_values(m)));
    lemma_sum_values_bounds(balance_values(m), k);
}

/// The empty map sums to zero.
pub proof fn lemma_sum_empty()
    ensures
        sum_balances(Map::<Address, i128>::empty()) == 0,
{
    assert(balance_values(Map::<Address, i128>::empty()).dom() =~= Set::<Address>::empty());
}

} // verus!
