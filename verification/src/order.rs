//! Stable descending order by an integer key: the order `sort_by` with a
//! reversed key comparison gives (ties keep their original order).

use vstd::prelude::*;

verus! {

/// Inserts index `j` into `s` (already in descending key order) after
/// every index whose key is at least `keys[j]`.
pub open spec fn insert_desc(s: Seq<int>, keys: Seq<u64>, j: int) -> Seq<int>
    decreases s.len(),
{
    if s.len() == 0 {
        seq![j]
    } else if keys[s.last()] >= keys[j] {
        s.push(j)
    } else {
        insert_desc(s.drop_last(), keys, j).push(s.last())
    }
}

/// The stable descending order of the first `n` keys, as indices.
pub open spec fn sort_order(keys: Seq<u64>, n: nat) -> Seq<int>
    decreases n,
{
    if n == 0 {
        seq![]
    } else {
        insert_desc(sort_order(keys, (n - 1) as nat), keys, n - 1)
    }
}

/// Indices in descending key order.
pub open spec fn sorted_desc(s: Seq<int>, keys: Seq<u64>) -> bool {
    forall|a: int, b: int| 0 <= a < b < s.len() ==> keys[#[trigger] s[a]] >= keys[#[trigger] s[b]]
}

proof fn lemma_insert_at(s: Seq<int>, keys: Seq<u64>, j: int, p: int)
    requires
        0 <= p <= s.len(),
        forall|k: int| p <= k < s.len() ==> keys[#[trigger] s[k]] < keys[j],
        p == 0 || keys[s[p - 1]] >= keys[j],
    ensures
        insert_desc(s, keys, j) == s.take(p) + seq![j] + s.skip(p),
    decreases s.len(),
{
    if s.len() == 0 {
        assert(s.take(p) + seq![j] + s.skip(p) =~= seq![j]);
    } else if keys[s.last()] >= keys[j] {
        assert(p == s.len());
        assert(s.take(p) + seq![j] + s.skip(p) =~= s.push(j));
    } else {
        let d = s.drop_last();
        assert forall|k: int| p <= k < d.len() implies keys[#[trigger] d[k]] < keys[j] by {
            assert(d[k] == s[k]);
        }
        if p > 0 {
            assert(d[p - 1] == s[p - 1]);
        }
        lemma_insert_at(d, keys, j, p);
        assert(d.take(p) + seq![j] + d.skip(p) + seq![s.last()] =~= s.take(p) + seq![j] + s.skip(p));
    }
}

/// Inserting keeps the descending order.
proof fn lemma_insert_sorted(s: Seq<int>, keys: Seq<u64>, j: int)
    requires
        sorted_desc(s, keys),
    ensures
        sorted_desc(insert_desc(s, keys, j), keys),
        insert_desc(s, keys, j).len() == s.len() + 1,
        insert_desc(s, keys, j).to_multiset() == s.to_multiset().insert(j),
    decreases s.len(),
{
    broadcast use vstd::multiset::group_multiset_axioms, vstd::seq_lib::group_to_multiset_ensures;
    if s.len() == 0 {
        assert(seq![j] =~= s.push(j));
    } else if keys[s.last()] >= keys[j] {
        let r = s.push(j);
        assert forall|a: int, b: int| 0 <= a < b < r.len() implies keys[#[trigger] r[a]] >= keys[#[trigger] r[b]] by {
            if b == s.len() {
                assert(keys[s[a]] >= keys[s.last()]);
            } else {
                assert(r[a] == s[a] && r[b] == s[b]);
            }
        }
        assert(r.to_multiset() =~= s.to_multiset().insert(j));
    } else {
        let d = s.drop_last();
        assert forall|a: int, b: int| 0 <= a < b < d.len() implies keys[#[trigger] d[a]] >= keys[#[trigger] d[b]] by {
            assert(d[a] == s[a] && d[b] == s[b]);
        }
        lemma_insert_sorted(d, keys, j);
        let i = insert_desc(d, keys, j);
        let r = i.push(s.last());
        assert forall|a: int, b: int| 0 <= a < b < r.len() implies keys[#[trigger] r[a]] >= keys[#[trigger] r[b]] by {
            if b == i.len() {
                // every element of i is an element of d or j, all >= s.last()
                assert(i.to_multiset().count(r[a]) > 0) by {
                    assert(r[a] == i[a]);
                    assert(i.contains(i[a]));
                }
                if r[a] == j {
                } else {
                    assert(d.to_multiset().count(r[a]) > 0);
                    assert(d.contains(r[a]));
                    let k = choose|k: int| 0 <= k < d.len() && d[k] == r[a];
                    assert(s[k] == d[k]);
                    assert(keys[s[k]] >= keys[s[s.len() - 1]]);
                }
            } else {
                assert(r[a] == i[a] && r[b] == i[b]);
            }
        }
        assert(d.push(s.last()) =~= s);
        assert(r.to_multiset() =~= s.to_multiset().insert(j));
    }
}

/// The sort order is sorted, has one index per key, and holds exactly
/// the indices `0..n`.
pub proof fn lemma_sort_order(keys: Seq<u64>, n: nat)
    ensures
        sorted_desc(sort_order(keys, n), keys),
        sort_order(keys, n).len() == n,
        sort_order(keys, n).to_multiset() == Seq::new(n, |i: int| i).to_multiset(),
    decreases n,
{
    broadcast use vstd::multiset::group_multiset_axioms, vstd::seq_lib::group_to_multiset_ensures;
    if n == 0 {
        assert(Seq::new(0, |i: int| i) =~= Seq::<int>::empty());
    } else {
        lemma_sort_order(keys, (n - 1) as nat);
        lemma_insert_sorted(sort_order(keys, (n - 1) as nat), keys, n - 1);
        assert(Seq::new((n - 1) as nat, |i: int| i).push(n - 1) =~= Seq::new(n, |i: int| i));
    }
}

/// The stable descending order of `keys`, as indices.
pub fn stable_order_desc(keys: &Vec<u64>) -> (order: Vec<usize>)
    ensures
        order@.map_values(|i: usize| i as int) == sort_order(keys@, keys@.len()),
{
    let mut order: Vec<usize> = Vec::new();
    let mut j: usize = 0;
    while j < keys.len()
        invariant
            j <= keys.len(),
            order@.map_values(|i: usize| i as int) == sort_order(keys@, j as nat),
            forall|k: int| 0 <= k < order@.len() ==> (#[trigger] order@[k]) < j,
        decreases keys.len() - j,
    {
        let ghost s = order@.map_values(|i: usize| i as int);
        let mut p: usize = order.len();
        while p > 0 && keys[order[p - 1]] < keys[j]
            invariant
                p <= order.len(),
                j < keys.len(),
                s == order@.map_values(|i: usize| i as int),
                forall|k: int| 0 <= k < order@.len() ==> (#[trigger] order@[k]) < j,
                forall|k: int| p <= k < s.len() ==> keys@[#[trigger] s[k]] < keys@[j as int],
            decreases p,
        {
            p -= 1;
        }
        proof {
            if p > 0 {
                assert(s[p - 1] == order@[p - 1] as int);
            }
            lemma_insert_at(s, keys@, j as int, p as int);
        }
        order.insert(p, j);
        proof {
            assert(order@.map_values(|i: usize| i as int) =~= s.take(p as int) + seq![j as int] + s.skip(p as int));
        }
        j += 1;
    }
    order
}

} // verus!
