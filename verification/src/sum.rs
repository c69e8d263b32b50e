//! Summing the values of a string-keyed mapping of 32-bit integers.
//!
//! A mapping is handed over as the list of its entries. The total does not
//! depend on the keys, nor on the order in which the entries are listed.

use vstd::prelude::*;
use crate::error::Error;

verus! {

/// The exact sum of the values of `entries`.
pub open spec fn total(entries: Seq<(String, i32)>) -> int
    decreases entries.len(),
{
    if entries.len() == 0 {
        0
    } else {
        total(entries.drop_last()) + entries.last().1
    }
}

/// `n` reduced into the range of a 32-bit two's-complement integer: the one
/// value in that range that differs from `n` by a multiple of 2^32.
pub open spec fn wrap32(n: int) -> int {
    (n + 0x8000_0000) % 0x1_0000_0000 - 0x8000_0000
}

/// The total of a concatenation is the sum of the totals.
pub proof fn lemma_total_concat(a: Seq<(String, i32)>, b: Seq<(String, i32)>)
    ensures
        total(a + b) == total(a) + total(b),
    decreases b.len(),
{
    if b.len() == 0 {
        assert(a + b =~= a);
    } else {
        assert((a + b).drop_last() =~= a + b.drop_last());
        assert((a + b).last() == b.last());
        lemma_total_concat(a, b.drop_last());
    }
}

/// Taking one entry out lowers the total by that entry's value.
pub proof fn lemma_total_remove(s: Seq<(String, i32)>, i: int)
    requires
        0 <= i < s.len(),
    ensures
        total(s.remove(i)) + s[i].1 == total(s),
{
    let head = s.subrange(0, i);
    let one = s.subrange(i, i + 1);
    let tail = s.subrange(i + 1, s.len() as int);
    assert(s =~= head + one + tail);
    assert(s.remove(i) =~= head + tail);
    assert(one.drop_last() =~= Seq::<(String, i32)>::empty());
    assert(total(one) == s[i].1) by {
        assert(one.last() == s[i]);
        assert(total(one.drop_last()) == 0);
    }
    lemma_total_concat(head, one);
    lemma_total_concat(head + one, tail);
    lemma_total_concat(head, tail);
}

/// The total does not depend on the order of the entries: two lists that
/// hold the same entries, each as often as the other, have the same total.
pub proof fn lemma_total_order_independent(a: Seq<(String, i32)>, b: Seq<(String, i32)>)
    requires
        a.to_multiset() == b.to_multiset(),
    ensures
        total(a) == total(b),
    decreases a.len(),
{
    broadcast use vstd::seq_lib::group_to_multiset_ensures;

    a.to_multiset_ensures();
    b.to_multiset_ensures();
    assert(a.len() == b.len());
    if a.len() > 0 {
        let x = a.last();
        assert(a.contains(x));
        assert(b.to_multiset().count(x) > 0);
        assert(b.contains(x));
        let j = choose|j: int| 0 <= j < b.len() && b[j] == x;
        let k = a.len() - 1;
        assert(a.remove(k) =~= a.drop_last());
        assert(a.remove(k).to_multiset() =~= a.to_multiset().remove(x));
        assert(b.remove(j).to_multiset() =~= b.to_multiset().remove(x));
        lemma_total_order_independent(a.drop_last(), b.remove(j));
        lemma_total_remove(b, j);
    }
}

/// No key occurs twice in `entries`: the list stands for a mapping.
pub open spec fn distinct_keys(entries: Seq<(String, i32)>) -> bool {
    forall|i: int, j: int|
        0 <= i < entries.len() && 0 <= j < entries.len() && i != j ==> entries[i].0@
            != entries[j].0@
}

/// `entries` gives the key `key` the value `value`.
pub open spec fn binds(entries: Seq<(String, i32)>, key: Seq<char>, value: i32) -> bool {
    exists|i: int| 0 <= i < entries.len() && entries[i].0@ == key && entries[i].1 == value
}

/// Two lists stand for the same mapping: each gives every key the values
/// that the other gives it.
pub open spec fn same_mapping(a: Seq<(String, i32)>, b: Seq<(String, i32)>) -> bool {
    forall|key: Seq<char>, value: i32| binds(a, key, value) <==> binds(b, key, value)
}

/// The total is a property of the mapping, not of the list that presents
/// it: two lists without repeated keys that stand for the same mapping have
/// the same total, in whatever order each was filled.
pub proof fn lemma_total_of_mapping(a: Seq<(String, i32)>, b: Seq<(String, i32)>)
    requires
        distinct_keys(a),
        distinct_keys(b),
        same_mapping(a, b),
    ensures
        total(a) == total(b),
    decreases a.len(),
{
    if a.len() == 0 {
        if b.len() > 0 {
            assert(binds(b, b[0].0@, b[0].1));
            assert(binds(a, b[0].0@, b[0].1));
        }
    } else {
        let k = a.len() - 1;
        let x = a[k];
        assert(binds(a, x.0@, x.1));
        assert(binds(b, x.0@, x.1));
        let j = choose|j: int| 0 <= j < b.len() && b[j].0@ == x.0@ && b[j].1 == x.1;
        let a1 = a.drop_last();
        let b1 = b.remove(j);
        assert(distinct_keys(a1));
        assert(distinct_keys(b1)) by {
            assert forall|p: int, q: int|
                0 <= p < b1.len() && 0 <= q < b1.len() && p != q implies b1[p].0@ != b1[q].0@ by {
                let pp = if p < j { p } else { p + 1 };
                let qq = if q < j { q } else { q + 1 };
                assert(b1[p] == b[pp]);
                assert(b1[q] == b[qq]);
            }
        }
        assert forall|key: Seq<char>, value: i32| binds(a1, key, value) <==> binds(
            b1,
            key,
            value,
        ) by {
            if binds(a1, key, value) {
                let i = choose|i: int| 0 <= i < a1.len() && a1[i].0@ == key && a1[i].1 == value;
                assert(a1[i] == a[i]);
                assert(binds(a, key, value));
                assert(binds(b, key, value));
                let m = choose|m: int| 0 <= m < b.len() && b[m].0@ == key && b[m].1 == value;
                assert(m != j) by {
                    if m == j {
                        assert(a[i].0@ == a[k].0@);
                    }
                }
                let mm = if m < j { m } else { m - 1 };
                assert(b1[mm] == b[m]);
                assert(binds(b1, key, value));
            }
            if binds(b1, key, value) {
                let m = choose|m: int| 0 <= m < b1.len() && b1[m].0@ == key && b1[m].1 == value;
                let mm = if m < j { m } else { m + 1 };
                assert(b1[m] == b[mm]);
                assert(binds(b, key, value));
                assert(binds(a, key, value));
                let i = choose|i: int| 0 <= i < a.len() && a[i].0@ == key && a[i].1 == value;
                assert(i != k) by {
                    if i == k {
                        assert(b[mm].0@ == b[j].0@);
                    }
                }
                assert(a1[i] == a[i]);
                assert(binds(a1, key, value));
            }
        }
        lemma_total_of_mapping(a1, b1);
        lemma_total_remove(b, j);
    }
}

/// Reducing a partial result and then adding gives what adding and then
/// reducing gives.
pub proof fn lemma_wrap32_step(n: int, v: int)
    ensures
        wrap32(wrap32(n) + v) == wrap32(n + v),
        i32::MIN <= wrap32(n) <= i32::MAX,
        i32::MIN <= n <= i32::MAX ==> wrap32(n) == n,
{
}

/// The sum of the values of a mapping, given as the list of its entries.
///
/// The result is the exact total whenever that fits in 32 bits, and the
/// total reduced by two's-complement wrapping otherwise. An empty mapping
/// sums to zero. The call never fails.
pub fn sum_values(data: &Vec<(String, i32)>) -> (result: Result<i32, Error>)
    ensures
        result matches Ok(sum) && sum == wrap32(total(data@)),
        i32::MIN <= total(data@) <= i32::MAX ==> (result matches Ok(sum) && sum == total(data@)),
{
    let mut acc: i32 = 0;
    let mut i: usize = 0;
    while i < data.len()
        invariant
            i <= data.len(),
            acc == wrap32(total(data@.subrange(0, i as int))),
        decreases data.len() - i,
    {
        let value: i32 = data[i].1;
        proof {
            let before = data@.subrange(0, i as int);
            let after = data@.subrange(0, i + 1);
            assert(after.drop_last() =~= before);
            assert(after.last() == data@[i as int]);
            lemma_wrap32_step(total(before), value as int);
        }
        acc = acc.wrapping_add(value);
        i = i + 1;
    }
    proof {
        assert(data@.subrange(0, i as int) =~= data@);
    }
    Ok(acc)
}

} // verus!
