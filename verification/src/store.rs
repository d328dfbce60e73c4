//! Key-indexed pair sequences. The membership ledger and the transaction
//! journal are vectors of `(key, value)` pairs whose keys are unique; these
//! helpers give them map-like specifications, and sum the shares held in
//! the membership ledger.

use vstd::prelude::*;
use crate::types::Member;

verus! {

/// Some position holds the key.
pub open spec fn has_key<V>(s: Seq<(u64, V)>, k: u64) -> bool {
    exists|i: int| 0 <= i < s.len() && (#[trigger] s[i]).0 == k
}

/// The position holding the key; meaningful only when `has_key` holds and
/// the keys are unique.
pub open spec fn key_idx<V>(s: Seq<(u64, V)>, k: u64) -> int {
    choose|i: int| 0 <= i < s.len() && (#[trigger] s[i]).0 == k
}

/// The value stored under the key; meaningful only when `has_key` holds.
pub open spec fn value_for<V>(s: Seq<(u64, V)>, k: u64) -> V {
    s[key_idx(s, k)].1
}

/// No key appears at two positions.
pub open spec fn unique_keys<V>(s: Seq<(u64, V)>) -> bool {
    forall|i: int, j: int| #![trigger s[i], s[j]]
        0 <= i < j < s.len() ==> s[i].0 != s[j].0
}

/// Under unique keys, any position holding `k` is the position `key_idx`
/// denotes.
pub proof fn lemma_key_idx_is<V>(s: Seq<(u64, V)>, k: u64, i: int)
    requires
        unique_keys(s),
        0 <= i < s.len(),
        s[i].0 == k,
    ensures
        key_idx(s, k) == i,
        has_key(s, k),
        value_for(s, k) == s[i].1,
{
    assert(has_key(s, k));
    let j = key_idx(s, k);
    assert(0 <= j < s.len() && s[j].0 == k);
    if i < j {
        assert(s[i].0 != s[j].0);
    } else if j < i {
        assert(s[j].0 != s[i].0);
    }
}

/// Updating the value at a position keeps every key in place: lookups of
/// other keys are unchanged, and the updated key now holds the new value.
pub proof fn lemma_update_value<V>(s: Seq<(u64, V)>, i: int, v: V)
    requires
        unique_keys(s),
        0 <= i < s.len(),
    ensures
        unique_keys(s.update(i, (s[i].0, v))),
        forall|k: u64| has_key(s.update(i, (s[i].0, v)), k) == has_key(s, k),
        value_for(s.update(i, (s[i].0, v)), s[i].0) == v,
        forall|k: u64|
            k != s[i].0 && has_key(s, k) ==> #[trigger] value_for(
                s.update(i, (s[i].0, v)),
                k,
            ) == value_for(s, k),
{
    let t = s.update(i, (s[i].0, v));
    assert(forall|j: int| 0 <= j < s.len() ==> (#[trigger] t[j]).0 == s[j].0);
    assert forall|k: u64| has_key(t, k) == has_key(s, k) by {
        if has_key(t, k) {
            let j = choose|j: int| 0 <= j < t.len() && (#[trigger] t[j]).0 == k;
            assert(s[j].0 == k);
        }
        if has_key(s, k) {
            let j = choose|j: int| 0 <= j < s.len() && (#[trigger] s[j]).0 == k;
            assert(t[j].0 == k);
        }
    }
    lemma_key_idx_is(t, s[i].0, i);
    assert forall|k: u64| k != s[i].0 && has_key(s, k) implies #[trigger] value_for(t, k)
        == value_for(s, k) by {
        let j = key_idx(s, k);
        assert(0 <= j < s.len() && s[j].0 == k);
        lemma_key_idx_is(t, k, j);
    }
}

/// Appending a fresh key keeps the old lookups and adds the new binding.
pub proof fn lemma_push_value<V>(s: Seq<(u64, V)>, k: u64, v: V)
    requires
        unique_keys(s),
        !has_key(s, k),
    ensures
        unique_keys(s.push((k, v))),
        forall|k2: u64| #[trigger] has_key(s.push((k, v)), k2) == (has_key(s, k2) || k2 == k),
        value_for(s.push((k, v)), k) == v,
        forall|k2: u64|
            k2 != k && has_key(s, k2) ==> #[trigger] value_for(s.push((k, v)), k2) == value_for(
                s,
                k2,
            ),
{
    let t = s.push((k, v));
    assert forall|i: int, j: int| #![trigger t[i], t[j]] 0 <= i < j < t.len() implies t[i].0
        != t[j].0 by {
        if j < s.len() {
            assert(s[i].0 != s[j].0);
        } else {
            assert(t[j] == (k, v));
            assert(t[i].0 == s[i].0);
            if s[i].0 == k {
                assert(has_key(s, k));
            }
        }
    }
    assert forall|k2: u64| #[trigger] has_key(t, k2) == (has_key(s, k2) || k2 == k) by {
        if has_key(t, k2) {
            let j = choose|j: int| 0 <= j < t.len() && (#[trigger] t[j]).0 == k2;
            if j < s.len() {
                assert(s[j].0 == k2);
            }
        }
        if has_key(s, k2) {
            let j = choose|j: int| 0 <= j < s.len() && (#[trigger] s[j]).0 == k2;
            assert(t[j].0 == k2);
        }
        if k2 == k {
            assert(t[s.len() as int].0 == k2);
        }
    }
    lemma_key_idx_is(t, k, s.len() as int);
    assert forall|k2: u64| k2 != k && has_key(s, k2) implies #[trigger] value_for(t, k2)
        == value_for(s, k2) by {
        let j = key_idx(s, k2);
        assert(0 <= j < s.len() && s[j].0 == k2);
        lemma_key_idx_is(t, k2, j);
    }
}

/// Removing the position holding a key erases exactly that binding.
pub proof fn lemma_remove_value<V>(s: Seq<(u64, V)>, i: int)
    requires
        unique_keys(s),
        0 <= i < s.len(),
    ensures
        unique_keys(s.remove(i)),
        !has_key(s.remove(i), s[i].0),
        forall|k2: u64|
            k2 != s[i].0 ==> #[trigger] has_key(s.remove(i), k2) == has_key(s, k2),
        forall|k2: u64|
            k2 != s[i].0 && has_key(s, k2) ==> #[trigger] value_for(s.remove(i), k2)
                == value_for(s, k2),
{
    let t = s.remove(i);
    assert(forall|j: int| 0 <= j < i ==> #[trigger] t[j] == s[j]);
    assert(forall|j: int| i <= j < t.len() ==> #[trigger] t[j] == s[j + 1]);
    assert forall|p: int, q: int| #![trigger t[p], t[q]] 0 <= p < q < t.len() implies t[p].0
        != t[q].0 by {
        let p0: int = if p < i { p } else { p + 1 };
        let q0: int = if q < i { q } else { q + 1 };
        assert(s[p0].0 != s[q0].0);
    }
    if has_key(t, s[i].0) {
        let j = choose|j: int| 0 <= j < t.len() && (#[trigger] t[j]).0 == s[i].0;
        let j0: int = if j < i { j } else { j + 1 };
        assert(s[j0].0 == s[i].0);
        if j0 < i {
            assert(s[j0].0 != s[i].0);
        } else {
            assert(s[i].0 != s[j0].0);
        }
    }
    assert forall|k2: u64| k2 != s[i].0 implies #[trigger] has_key(t, k2) == has_key(s, k2) by {
        if has_key(t, k2) {
            let j = choose|j: int| 0 <= j < t.len() && (#[trigger] t[j]).0 == k2;
            let j0: int = if j < i { j } else { j + 1 };
            assert(s[j0].0 == k2);
        }
        if has_key(s, k2) {
            let j = choose|j: int| 0 <= j < s.len() && (#[trigger] s[j]).0 == k2;
            if j < i {
                assert(t[j].0 == k2);
            } else {
                assert(j != i);
                assert(t[j - 1].0 == k2);
            }
        }
    }
    assert forall|k2: u64| k2 != s[i].0 && has_key(s, k2) implies #[trigger] value_for(t, k2)
        == value_for(s, k2) by {
        let j = key_idx(s, k2);
        assert(0 <= j < s.len() && s[j].0 == k2);
        if j < i {
            lemma_key_idx_is(t, k2, j);
        } else {
            assert(j != i);
            assert(t[j - 1].0 == k2);
            lemma_key_idx_is(t, k2, j - 1);
        }
    }
}

/// Position of the key in the vector, or `None` when it is absent.
pub fn find_index<V>(v: &Vec<(u64, V)>, k: u64) -> (r: Option<usize>)
    ensures
        match r {
            Some(i) => i < v@.len() && v@[i as int].0 == k,
            None => !has_key(v@, k),
        },
{
    let mut i: usize = 0;
    while i < v.len()
        invariant
            i <= v@.len(),
            forall|j: int| 0 <= j < i ==> (#[trigger] v@[j]).0 != k,
        decreases v@.len() - i,
    {
        if v[i].0 == k {
            return Some(i);
        }
        i = i + 1;
    }
    None
}

/// Shares held across the membership ledger, as a mathematical sum.
pub open spec fn sum_shares(s: Seq<(u64, Member)>) -> int
    decreases s.len(),
{
    if s.len() == 0 {
        0
    } else {
        sum_shares(s.drop_last()) + s.last().1.shares
    }
}

/// The sum of shares is never negative.
pub proof fn lemma_sum_nonneg(s: Seq<(u64, Member)>)
    ensures
        sum_shares(s) >= 0,
    decreases s.len(),
{
    if s.len() > 0 {
        lemma_sum_nonneg(s.drop_last());
    }
}

/// Appending a member adds exactly that member's shares to the sum.
pub proof fn lemma_sum_push(s: Seq<(u64, Member)>, k: u64, m: Member)
    ensures
        sum_shares(s.push((k, m))) == sum_shares(s) + m.shares,
{
    assert(s.push((k, m)).drop_last() =~= s);
}

/// Replacing one member's record shifts the sum by the difference in
/// shares.
pub proof fn lemma_sum_update(s: Seq<(u64, Member)>, i: int, k: u64, m: Member)
    requires
        0 <= i < s.len(),
    ensures
        sum_shares(s.update(i, (k, m))) == sum_shares(s) - s[i].1.shares + m.shares,
    decreases s.len(),
{
    let t = s.update(i, (k, m));
    if i == s.len() - 1 {
        assert(t.drop_last() =~= s.drop_last());
    } else {
        lemma_sum_update(s.drop_last(), i, k, m);
        assert(t.drop_last() =~= s.drop_last().update(i, (k, m)));
        assert(t.last() == s.last());
    }
}

/// No single member holds more shares than the whole ledger sums to.
pub proof fn lemma_elem_le_sum(s: Seq<(u64, Member)>, i: int)
    requires
        0 <= i < s.len(),
    ensures
        s[i].1.shares <= sum_shares(s),
    decreases s.len(),
{
    if i == s.len() - 1 {
        lemma_sum_nonneg(s.drop_last());
    } else {
        lemma_elem_le_sum(s.drop_last(), i);
        assert(s.drop_last()[i] == s[i]);
    }
}

} // verus!
