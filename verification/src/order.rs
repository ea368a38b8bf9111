use vstd::prelude::*;

verus! {

/// `s` is in strictly increasing order.
pub open spec fn strictly_increasing(s: Seq<usize>) -> bool {
    forall|i: int, j: int| 0 <= i < j < s.len() ==> s[i] < s[j]
}

/// The distinct values of `v`, in increasing order.
pub fn sorted_distinct(v: &Vec<usize>) -> (r: Vec<usize>)
    ensures
        strictly_increasing(r@),
        forall|x: usize| r@.contains(x) <==> v@.contains(x),
{
    let mut r: Vec<usize> = Vec::new();
    let mut i: usize = 0;
    while i < v.len()
        invariant
            i <= v@.len(),
            strictly_increasing(r@),
            forall|x: usize| r@.contains(x) <==> v@.subrange(0, i as int).contains(x),
        decreases v@.len() - i,
    {
        let x = v[i];
        let mut pos: usize = 0;
        while pos < r.len() && r[pos] < x
            invariant
                pos <= r@.len(),
                forall|k: int| 0 <= k < pos ==> r@[k] < x,
            decreases r@.len() - pos,
        {
            pos = pos + 1;
        }
        let ghost old_r = r@;
        if pos < r.len() && r[pos] == x {
        } else {
            r.insert(pos, x);
            assert forall|a: int, b: int| 0 <= a < b < r@.len() implies r@[a] < r@[b] by {
                if b < pos {
                } else if b == pos {
                } else if a < pos {
                    assert(r@[b] == old_r[b - 1]);
                    if pos < old_r.len() {
                        assert(old_r[pos as int] > x);
                        assert(old_r[pos as int] <= old_r[b - 1]);
                    }
                } else if a == pos {
                    assert(r@[b] == old_r[b - 1]);
                    assert(old_r[pos as int] >= x);
                    assert(old_r[pos as int] != x);
                } else {
                    assert(r@[a] == old_r[a - 1]);
                    assert(r@[b] == old_r[b - 1]);
                }
            }
        }
        assert(v@.subrange(0, i + 1) =~= v@.subrange(0, i as int).push(x));
        assert forall|y: usize| r@.contains(y) <==> v@.subrange(0, i + 1).contains(y) by {
            if r@.contains(y) {
                let k = choose|k: int| 0 <= k < r@.len() && #[trigger] r@[k] == y;
                if y != x {
                    if k < pos {
                        assert(old_r[k] == y);
                    } else if r@.len() == old_r.len() {
                        assert(old_r[k] == y);
                    } else {
                        assert(old_r[k - 1] == y);
                    }
                    assert(old_r.contains(y));
                    let m = choose|m: int| 0 <= m < i && #[trigger] v@.subrange(0, i as int)[m] == y;
                    assert(v@.subrange(0, i + 1)[m] == y);
                } else {
                    assert(v@.subrange(0, i + 1)[i as int] == y);
                }
            }
            if v@.subrange(0, i + 1).contains(y) {
                let m = choose|m: int| 0 <= m < i + 1 && #[trigger] v@.subrange(0, i + 1)[m] == y;
                if m < i {
                    assert(v@.subrange(0, i as int)[m] == y);
                    assert(old_r.contains(y));
                    let k = choose|k: int| 0 <= k < old_r.len() && #[trigger] old_r[k] == y;
                    if r@.len() == old_r.len() {
                        assert(r@[k] == y);
                    } else if k < pos {
                        assert(r@[k] == y);
                    } else {
                        assert(r@[k + 1] == y);
                    }
                } else {
                    assert(y == x);
                    if r@.len() == old_r.len() {
                        assert(r@[pos as int] == y);
                    } else {
                        assert(r@[pos as int] == y);
                    }
                }
            }
        }
        i = i + 1;
    }
    assert(v@.subrange(0, v@.len() as int) =~= v@);
    r
}

/// Index `i` with key `ki` comes before index `j` with key `kj`: by key, then by index.
pub open spec fn key_before(ki: (u64, u64), i: int, kj: (u64, u64), j: int) -> bool {
    ||| ki.0 < kj.0
    ||| ki.0 == kj.0 && ki.1 < kj.1
    ||| ki.0 == kj.0 && ki.1 == kj.1 && i < j
}

/// `order` lists each index of `keys` once, ordered by key, equal keys in the order of
/// their indices: the order a stable sort by key gives.
pub open spec fn is_stable_key_order(keys: Seq<(u64, u64)>, order: Seq<usize>) -> bool {
    &&& order.len() == keys.len()
    &&& forall|k: int| 0 <= k < order.len() ==> order[k] < keys.len()
    &&& forall|a: int, b: int|
        0 <= a < b < order.len() ==> key_before(
            keys[order[a] as int],
            order[a] as int,
            keys[order[b] as int],
            order[b] as int,
        )
}

fn before(keys: &Vec<(u64, u64)>, i: usize, j: usize) -> (r: bool)
    requires
        i < keys@.len(),
        j < keys@.len(),
    ensures
        r == key_before(keys@[i as int], i as int, keys@[j as int], j as int),
{
    let ki = keys[i];
    let kj = keys[j];
    ki.0 < kj.0 || (ki.0 == kj.0 && ki.1 < kj.1) || (ki.0 == kj.0 && ki.1 == kj.1 && i < j)
}

/// The indices of `keys` in the order of a stable sort by key.
pub fn stable_key_order(keys: &Vec<(u64, u64)>) -> (r: Vec<usize>)
    ensures
        is_stable_key_order(keys@, r@),
        r@ == stable_order(keys@),
{
    let n = keys.len();
    let mut r: Vec<usize> = Vec::new();
    let mut i: usize = 0;
    while i < n
        invariant
            n == keys@.len(),
            i <= n,
            r@.len() == i,
            forall|k: int| 0 <= k < r@.len() ==> r@[k] < i,
            forall|a: int, b: int|
                0 <= a < b < r@.len() ==> key_before(
                    keys@[r@[a] as int],
                    r@[a] as int,
                    keys@[r@[b] as int],
                    r@[b] as int,
                ),
        decreases n - i,
    {
        let mut pos: usize = 0;
        while pos < r.len() && before(keys, r[pos], i)
            invariant
                n == keys@.len(),
                i < n,
                pos <= r@.len(),
                forall|k: int| 0 <= k < r@.len() ==> r@[k] < i,
                forall|k: int|
                    0 <= k < pos ==> key_before(
                        keys@[r@[k] as int],
                        r@[k] as int,
                        keys@[i as int],
                        i as int,
                    ),
            decreases r@.len() - pos,
        {
            pos = pos + 1;
        }
        let ghost old_r = r@;
        r.insert(pos, i);
        assert forall|a: int, b: int| 0 <= a < b < r@.len() implies key_before(
            keys@[r@[a] as int],
            r@[a] as int,
            keys@[r@[b] as int],
            r@[b] as int,
        ) by {
            if b < pos {
            } else if b == pos {
            } else if a < pos {
                assert(r@[b] == old_r[b - 1]);
                assert(!key_before(keys@[old_r[pos as int] as int], old_r[pos as int] as int, keys@[i as int], i as int));
                if pos < b - 1 {
                    assert(key_before(keys@[old_r[pos as int] as int], old_r[pos as int] as int, keys@[old_r[b - 1] as int], old_r[b - 1] as int));
                }
            } else if a == pos {
                assert(r@[b] == old_r[b - 1]);
                assert(!key_before(keys@[old_r[pos as int] as int], old_r[pos as int] as int, keys@[i as int], i as int));
                assert(old_r[pos as int] < i);
                if pos < b - 1 {
                    assert(key_before(keys@[old_r[pos as int] as int], old_r[pos as int] as int, keys@[old_r[b - 1] as int], old_r[b - 1] as int));
                }
            } else {
                assert(r@[a] == old_r[a - 1]);
                assert(r@[b] == old_r[b - 1]);
            }
        }
        i = i + 1;
    }
    proof {
        lemma_stable_key_order_unique(keys@, r@);
    }
    r
}

/// A stable key order lists every index exactly once.
pub proof fn lemma_stable_key_order_is_permutation(keys: Seq<(u64, u64)>, order: Seq<usize>)
    requires
        is_stable_key_order(keys, order),
    ensures
        forall|a: int, b: int| 0 <= a < b < order.len() ==> order[a] != order[b],
        forall|k: usize| k < keys.len() ==> #[trigger] order.contains(k),
{
    assert forall|a: int, b: int| 0 <= a < b < order.len() implies order[a] != order[b] by {
        assert(key_before(keys[order[a] as int], order[a] as int, keys[order[b] as int], order[b] as int));
    }
    assert forall|k: usize| k < keys.len() implies #[trigger] order.contains(k) by {
        lemma_distinct_below_covers(order, keys.len() as int, k as int);
    }
}

/// `n` distinct values below `n` take every value below `n`.
proof fn lemma_distinct_below_covers(order: Seq<usize>, n: int, k: int)
    requires
        order.len() == n,
        0 <= k < n,
        forall|j: int| 0 <= j < order.len() ==> order[j] < n,
        forall|a: int, b: int| 0 <= a < b < order.len() ==> order[a] != order[b],
    ensures
        order.contains(k as usize),
{
    if !order.contains(k as usize) {
        let ints = order.map_values(|x: usize| x as int);
        assert(ints.no_duplicates()) by {
            assert forall|a: int, b: int| 0 <= a < ints.len() && 0 <= b < ints.len() && a != b
                implies ints[a] != ints[b] by {
                if a < b {
                    assert(order[a] != order[b]);
                } else {
                    assert(order[b] != order[a]);
                }
            }
        }
        ints.unique_seq_to_set();
        let below = vstd::set_lib::set_int_range(0, n).remove(k);
        vstd::set_lib::lemma_int_range(0, n);
        assert forall|x: int| ints.to_set().contains(x) implies below.contains(x) by {
            let j = choose|j: int| 0 <= j < ints.len() && #[trigger] ints[j] == x;
            assert(order[j] < n);
            if x == k {
                assert(order[j] == k as usize);
                assert(order.contains(k as usize));
            }
        }
        vstd::set_lib::lemma_len_subset(ints.to_set(), below);
    }
}

/// The order a stable sort by key gives to the indices of `keys`.
pub open spec fn stable_order(keys: Seq<(u64, u64)>) -> Seq<usize> {
    choose|order: Seq<usize>| is_stable_key_order(keys, order)
}

/// `key_before` never holds both ways.
proof fn lemma_key_before_asymmetric(ki: (u64, u64), i: int, kj: (u64, u64), j: int)
    ensures
        !(key_before(ki, i, kj, j) && key_before(kj, j, ki, i)),
        !key_before(ki, i, ki, i),
{
}

/// Two sequences in strictly increasing key order that hold the same indices are equal.
proof fn lemma_sorted_same_elements_equal(keys: Seq<(u64, u64)>, o1: Seq<usize>, o2: Seq<usize>)
    requires
        o1.len() == o2.len(),
        forall|k: int| 0 <= k < o1.len() ==> o1[k] < keys.len(),
        forall|k: int| 0 <= k < o2.len() ==> o2[k] < keys.len(),
        forall|a: int, b: int|
            0 <= a < b < o1.len() ==> key_before(
                keys[o1[a] as int],
                o1[a] as int,
                keys[o1[b] as int],
                o1[b] as int,
            ),
        forall|a: int, b: int|
            0 <= a < b < o2.len() ==> key_before(
                keys[o2[a] as int],
                o2[a] as int,
                keys[o2[b] as int],
                o2[b] as int,
            ),
        forall|x: usize| o1.contains(x) <==> o2.contains(x),
    ensures
        o1 == o2,
    decreases o1.len(),
{
    if o1.len() > 0 {
        let m1 = o1[0];
        let m2 = o2[0];
        assert(o2.contains(m1));
        assert(o1.contains(m2));
        let p = choose|p: int| 0 <= p < o2.len() && #[trigger] o2[p] == m1;
        let q = choose|q: int| 0 <= q < o1.len() && #[trigger] o1[q] == m2;
        if p > 0 && q > 0 {
            assert(key_before(keys[m2 as int], m2 as int, keys[m1 as int], m1 as int));
            assert(key_before(keys[m1 as int], m1 as int, keys[m2 as int], m2 as int));
            lemma_key_before_asymmetric(keys[m1 as int], m1 as int, keys[m2 as int], m2 as int);
        } else if p > 0 {
            assert(o1[q] == m2);
            assert(q == 0);
            assert(key_before(keys[m2 as int], m2 as int, keys[o2[p] as int], o2[p] as int));
            lemma_key_before_asymmetric(keys[m2 as int], m2 as int, keys[m2 as int], m2 as int);
        } else if q > 0 {
            assert(key_before(keys[m1 as int], m1 as int, keys[o1[q] as int], o1[q] as int));
            lemma_key_before_asymmetric(keys[m1 as int], m1 as int, keys[m1 as int], m1 as int);
        }
        assert(m1 == m2);
        let r1 = o1.drop_first();
        let r2 = o2.drop_first();
        assert forall|x: usize| r1.contains(x) <==> r2.contains(x) by {
            if r1.contains(x) {
                let k = choose|k: int| 0 <= k < r1.len() && #[trigger] r1[k] == x;
                assert(o1[k + 1] == x);
                assert(key_before(keys[o1[0] as int], o1[0] as int, keys[o1[k + 1] as int], o1[k + 1] as int));
                lemma_key_before_asymmetric(keys[x as int], x as int, keys[x as int], x as int);
                assert(x != m1);
                assert(o1.contains(x));
                assert(o2.contains(x));
                let j = choose|j: int| 0 <= j < o2.len() && #[trigger] o2[j] == x;
                assert(j != 0);
                assert(r2[j - 1] == x);
            }
            if r2.contains(x) {
                let k = choose|k: int| 0 <= k < r2.len() && #[trigger] r2[k] == x;
                assert(o2[k + 1] == x);
                assert(key_before(keys[o2[0] as int], o2[0] as int, keys[o2[k + 1] as int], o2[k + 1] as int));
                lemma_key_before_asymmetric(keys[x as int], x as int, keys[x as int], x as int);
                assert(x != m2);
                assert(o2.contains(x));
                assert(o1.contains(x));
                let j = choose|j: int| 0 <= j < o1.len() && #[trigger] o1[j] == x;
                assert(j != 0);
                assert(r1[j - 1] == x);
            }
        }
        assert forall|a: int, b: int| 0 <= a < b < r1.len() implies key_before(
            keys[r1[a] as int],
            r1[a] as int,
            keys[r1[b] as int],
            r1[b] as int,
        ) by {
            assert(r1[a] == o1[a + 1] && r1[b] == o1[b + 1]);
        }
        assert forall|a: int, b: int| 0 <= a < b < r2.len() implies key_before(
            keys[r2[a] as int],
            r2[a] as int,
            keys[r2[b] as int],
            r2[b] as int,
        ) by {
            assert(r2[a] == o2[a + 1] && r2[b] == o2[b + 1]);
        }
        lemma_sorted_same_elements_equal(keys, r1, r2);
        assert(o1 =~= seq![m1] + r1);
        assert(o2 =~= seq![m2] + r2);
    } else {
        assert(o1 =~= o2);
    }
}

/// There is exactly one stable key order: any order with the property is `stable_order`.
pub proof fn lemma_stable_key_order_unique(keys: Seq<(u64, u64)>, order: Seq<usize>)
    requires
        is_stable_key_order(keys, order),
    ensures
        is_stable_key_order(keys, stable_order(keys)),
        stable_order(keys) == order,
{
    let other = stable_order(keys);
    assert(is_stable_key_order(keys, other));
    lemma_stable_key_order_is_permutation(keys, order);
    lemma_stable_key_order_is_permutation(keys, other);
    assert forall|x: usize| order.contains(x) <==> other.contains(x) by {
        if order.contains(x) {
            let k = choose|k: int| 0 <= k < order.len() && #[trigger] order[k] == x;
            assert(order[k] < keys.len());
        }
        if other.contains(x) {
            let k = choose|k: int| 0 <= k < other.len() && #[trigger] other[k] == x;
            assert(other[k] < keys.len());
        }
    }
    lemma_sorted_same_elements_equal(keys, order, other);
}

} // verus!
