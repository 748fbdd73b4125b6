//! Ordering by a key, biggest first, keeping ties in the order they come.

use vstd::prelude::*;

verus! {

/// Whether `p` lists the positions of `keys` so that the keys do not
/// increase along `p`, and positions with equal keys keep their given
/// order (the order a stable sort by descending key gives).
pub open spec fn is_stable_desc_order(keys: Seq<u128>, p: Seq<usize>) -> bool {
    &&& p.len() == keys.len()
    &&& forall|i: int| 0 <= i < p.len() ==> p[i] < keys.len()
    &&& forall|i: int, j: int| 0 <= i < j < p.len() ==> p[i] != p[j]
    &&& forall|i: int, j: int| 0 <= i < j < p.len() ==> keys[p[i] as int] >= keys[p[j] as int]
    &&& forall|i: int, j: int|
        0 <= i < j < p.len() && keys[p[i] as int] == keys[p[j] as int] ==> p[i] < p[j]
}

/// The invariant of the insertion: `p` orders the first `n` positions.
spec fn orders_prefix(keys: Seq<u128>, p: Seq<usize>, n: int) -> bool {
    &&& p.len() == n
    &&& forall|i: int| 0 <= i < p.len() ==> p[i] < n
    &&& forall|i: int, j: int| 0 <= i < j < p.len() ==> p[i] != p[j]
    &&& forall|i: int, j: int| 0 <= i < j < p.len() ==> keys[p[i] as int] >= keys[p[j] as int]
    &&& forall|i: int, j: int|
        0 <= i < j < p.len() && keys[p[i] as int] == keys[p[j] as int] ==> p[i] < p[j]
}

/// The positions of `keys`, biggest key first, ties in their given
/// order.
pub fn stable_desc_order(keys: &Vec<u128>) -> (p: Vec<usize>)
    ensures
        is_stable_desc_order(keys@, p@),
{
    let mut p: Vec<usize> = Vec::new();
    let mut idx: usize = 0;
    while idx < keys.len()
        invariant
            idx <= keys@.len(),
            orders_prefix(keys@, p@, idx as int),
        decreases keys.len() - idx,
    {
        let k = keys[idx];
        let mut pos: usize = 0;
        while pos < p.len() && keys[p[pos]] >= k
            invariant
                idx < keys@.len(),
                k == keys@[idx as int],
                pos <= p@.len(),
                orders_prefix(keys@, p@, idx as int),
                forall|q: int| 0 <= q < pos ==> keys@[p@[q] as int] >= k,
            decreases p.len() - pos,
        {
            pos = pos + 1;
        }
        let ghost old_p = p@;
        p.insert(pos, idx);
        proof {
            assert(p@ == old_p.insert(pos as int, idx));
            assert forall|i: int| 0 <= i < p@.len() implies p@[i] < idx + 1 by {
                if i < pos {
                    assert(p@[i] == old_p[i]);
                } else if i > pos {
                    assert(p@[i] == old_p[i - 1]);
                }
            }
            assert forall|i: int, j: int| 0 <= i < j < p@.len() implies {
                &&& p@[i] != p@[j]
                &&& keys@[p@[i] as int] >= keys@[p@[j] as int]
                &&& (keys@[p@[i] as int] == keys@[p@[j] as int] ==> p@[i] < p@[j])
            } by {
                if pos < old_p.len() {
                    assert(keys@[old_p[pos as int] as int] < k);
                }
                if i < pos {
                    assert(p@[i] == old_p[i]);
                } else if i > pos {
                    assert(p@[i] == old_p[i - 1]);
                }
                if j < pos {
                    assert(p@[j] == old_p[j]);
                } else if j > pos {
                    assert(p@[j] == old_p[j - 1]);
                    if i == pos && j - 1 > pos {
                        assert(keys@[old_p[pos as int] as int] >= keys@[old_p[j - 1] as int]);
                    }
                }
            }
        }
        idx = idx + 1;
    }
    p
}

/// The stable descending order is unique: two orders of the same keys that
/// both satisfy [`is_stable_desc_order`] are equal.
pub proof fn law_stable_desc_order_unique(keys: Seq<u128>, p: Seq<usize>, q: Seq<usize>)
    requires
        keys.len() <= usize::MAX,
        is_stable_desc_order(keys, p),
        is_stable_desc_order(keys, q),
    ensures
        p == q,
{
    assert forall|i: int| 0 <= i < p.len() implies p[i] == q[i] by {
        lemma_order_position(keys, p, q, i);
    }
    assert(p =~= q);
}

/// In a stable descending order, the positions before `p[i]` are exactly
/// those whose key is bigger, or equal with a smaller position.
spec fn precedes(keys: Seq<u128>, a: usize, b: usize) -> bool {
    keys[a as int] > keys[b as int] || (keys[a as int] == keys[b as int] && a < b)
}

proof fn lemma_before_means_precedes(keys: Seq<u128>, p: Seq<usize>, i: int, j: int)
    requires
        is_stable_desc_order(keys, p),
        0 <= i < j < p.len(),
    ensures
        precedes(keys, p[i], p[j]),
{
}

proof fn lemma_order_position(keys: Seq<u128>, p: Seq<usize>, q: Seq<usize>, i: int)
    requires
        keys.len() <= usize::MAX,
        is_stable_desc_order(keys, p),
        is_stable_desc_order(keys, q),
        0 <= i < p.len(),
    ensures
        p[i] == q[i],
    decreases i,
{
    // Every position appears in q (q is injective into a set of its own size).
    let n = keys.len();
    lemma_covers(q, n as nat);
    lemma_covers(p, n as nat);
    let x = p[i];
    let y = q[i];
    assert(q.contains(x));
    assert(p.contains(y));
    let jx = choose|k: int| 0 <= k < q.len() && q[k] == x;
    let jy = choose|k: int| 0 <= k < p.len() && p[k] == y;
    if x != y {
        // x sits at position jx in q and y at position jy in p.
        if jx < i {
            lemma_order_position(keys, p, q, jx);
            assert(p[jx] == x);
        } else if jy < i {
            lemma_order_position(keys, p, q, jy);
            assert(q[jy] == y);
        } else {
            assert(jx > i && jy > i);
            lemma_before_means_precedes(keys, p, i, jy);
            lemma_before_means_precedes(keys, q, i, jx);
        }
    }
}

/// Whether position `m` appears in `p`.
pub(crate) open spec fn listed(p: Seq<usize>, m: int) -> bool {
    exists|i: int| 0 <= i < p.len() && p[i] as int == m
}

/// An injective sequence of `n` positions below `n` holds every position.
pub(crate) proof fn lemma_covers(p: Seq<usize>, n: nat)
    requires
        p.len() == n,
        forall|i: int| 0 <= i < p.len() ==> p[i] < n,
        forall|i: int, j: int| 0 <= i < j < p.len() ==> p[i] != p[j],
    ensures
        forall|x: usize| x < n ==> #[trigger] p.contains(x),
        forall|m: int| 0 <= m < n ==> #[trigger] listed(p, m),
{
    let q = p.map_values(|x: usize| x as int);
    assert forall|i: int, j: int| 0 <= i < q.len() && 0 <= j < q.len() && i != j implies q[i] != q[j] by {
        if i > j {
            assert(p[j] != p[i]);
        } else {
            assert(p[i] != p[j]);
        }
    }
    assert(q.no_duplicates());
    q.unique_seq_to_set();
    let full = vstd::set_lib::set_int_range(0, n as int);
    vstd::set_lib::lemma_int_range(0, n as int);
    assert forall|v: int| q.to_set().contains(v) implies full.contains(v) by {
        let i = choose|i: int| 0 <= i < q.len() && q[i] == v;
        assert(p[i] < n);
    }
    vstd::set_lib::lemma_subset_equality(q.to_set(), full);
    assert forall|m: int| 0 <= m < n implies #[trigger] listed(p, m) by {
        assert(full.contains(m));
        assert(q.to_set().contains(m));
        let i = choose|i: int| 0 <= i < q.len() && q[i] == m;
        assert(p[i] as int == m);
    }
    assert forall|x: usize| x < n implies #[trigger] p.contains(x) by {
        assert(listed(p, x as int));
        let i = choose|i: int| 0 <= i < p.len() && p[i] as int == x as int;
        assert(p[i] == x);
    }
}

/// A stable descending order lists every position exactly once, and a
/// biggest key comes first (the slowest crate leads the critical path).
pub proof fn law_order_is_permutation_led_by_max(keys: Seq<u128>, p: Seq<usize>)
    requires
        keys.len() <= usize::MAX,
        is_stable_desc_order(keys, p),
    ensures
        forall|x: usize| x < keys.len() ==> #[trigger] p.contains(x),
        keys.len() > 0 ==> forall|j: int| 0 <= j < keys.len() ==> #[trigger] keys[j] <= keys[p[0] as int],
{
    lemma_covers(p, keys.len());
    if keys.len() > 0 {
        assert forall|j: int| 0 <= j < keys.len() implies #[trigger] keys[j] <= keys[p[0] as int] by {
            assert(p.contains(j as usize));
            let k = choose|k: int| 0 <= k < p.len() && p[k] == j as usize;
            if k > 0 {
                assert(keys[p[0] as int] >= keys[p[k] as int]);
            }
        }
    }
}

} // verus!
