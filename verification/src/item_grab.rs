use vstd::prelude::*;

verus! {

/// What item grabbing reads of the entities of a frame, by entity index.
#[derive(Clone, Debug)]
pub struct GrabWorld {
    /// The entity is a fighter holding no item.
    pub free_fighters: Vec<bool>,
    /// The entity is an item nobody holds.
    pub free_items: Vec<bool>,
    /// `collides[p][i]`: the item grab box of fighter `p` meets that of item `i`.
    pub collides: Vec<Vec<bool>>,
    /// `distance[p][i]`: the distance from fighter `p` to item `i`, as a rank (smaller is
    /// closer, equal distances have equal ranks).
    pub distance: Vec<Vec<u64>>,
}

/// The rounds of claiming before giving up on a stable outcome.
pub const GRAB_ROUNDS: usize = 10;

/// The tables cover every pair of entities.
pub open spec fn grab_world_wf(w: GrabWorld) -> bool {
    let n = w.free_fighters@.len();
    &&& w.free_items@.len() == n
    &&& w.collides@.len() == n
    &&& w.distance@.len() == n
    &&& forall|p: int| 0 <= p < n ==> (#[trigger] w.collides@[p])@.len() == n
    &&& forall|p: int| 0 <= p < n ==> (#[trigger] w.distance@[p])@.len() == n
}

/// Claims by fighter index: the item claimed and at which distance.
pub type Claims = Seq<Option<(usize, u64)>>;

/// The distance of a claim.
pub open spec fn claim_distance(c: Option<(usize, u64)>) -> u64 {
    match c {
        Some(x) => x.1,
        None => 0,
    }
}

/// Entry `q` is a claim of item `i`.
pub open spec fn claims_item(g: Claims, q: int, i: int) -> bool {
    g[q] matches Some(c) && c.0 == i
}

/// Some claim of item `i` is as close as `d` or closer: a claim at `d` cannot take it.
pub open spec fn blocked(g: Claims, i: int, d: u64) -> bool {
    exists|q: int| 0 <= q < g.len() && claims_item(g, q, i) && d >= claim_distance(#[trigger] g[q])
}

/// The last entry below `q` that claims item `i`.
pub open spec fn last_claimant(g: Claims, i: int, q: int) -> Option<int>
    decreases q,
{
    if q <= 0 {
        None
    } else if claims_item(g, q - 1, i) {
        Some(q - 1)
    } else {
        last_claimant(g, i, q - 1)
    }
}

/// Fighter `p` tries to claim item `i` at distance `d`. It does so only when the item is
/// closer than the item it already claims, if any, and no claim of the item is as close or
/// closer; then the farther claim of the item is dropped and the fighter's claim replaces
/// its own earlier one.
pub open spec fn claim(g: Claims, p: int, i: int, d: u64) -> Claims {
    let shortest = match g[p] {
        Some(c) => d < c.1,
        None => true,
    };
    if !shortest || blocked(g, i, d) {
        g
    } else {
        let g2 = match last_claimant(g, i, g.len() as int) {
            Some(q) => g.update(q, None),
            None => g,
        };
        g2.update(p, Some((i as usize, d)))
    }
}

/// Fighter `p` tries the items from `i` on, in order.
pub open spec fn try_items(w: GrabWorld, g: Claims, p: int, i: int) -> Claims
    decreases w.free_fighters@.len() - i,
{
    if i < 0 || i >= w.free_fighters@.len() {
        g
    } else {
        let g2 = if w.free_items@[i] && w.collides@[p]@[i] {
            claim(g, p, i, w.distance@[p]@[i])
        } else {
            g
        };
        try_items(w, g2, p, i + 1)
    }
}

/// The free fighters from `p` on try the items, in order.
pub open spec fn try_fighters(w: GrabWorld, g: Claims, p: int) -> Claims
    decreases w.free_fighters@.len() - p,
{
    if p < 0 || p >= w.free_fighters@.len() {
        g
    } else if w.free_fighters@[p] {
        try_fighters(w, try_items(w, g, p, 0), p + 1)
    } else {
        try_fighters(w, g, p + 1)
    }
}

/// The number of claims.
pub open spec fn claim_count(g: Claims) -> nat
    decreases g.len(),
{
    if g.len() == 0 {
        0
    } else {
        claim_count(g.drop_last()) + if g.last() is Some {
            1nat
        } else {
            0nat
        }
    }
}

/// Rounds of claiming from round `r`, stopping once a round ends with as many claims as
/// the round before.
pub open spec fn grab_rounds(w: GrabWorld, g: Claims, r: int, last_count: nat) -> Claims
    decreases GRAB_ROUNDS - r,
{
    if r < 0 || r >= GRAB_ROUNDS {
        g
    } else {
        let g2 = try_fighters(w, g, 0);
        if claim_count(g2) == last_count {
            g2
        } else {
            grab_rounds(w, g2, r + 1, claim_count(g2))
        }
    }
}

/// The partners of the claims up to fighter `p`: each claiming fighter and its item are
/// each other's partner.
pub open spec fn partners_upto(g: Claims, p: int) -> Seq<Option<usize>>
    decreases p,
{
    if p <= 0 {
        Seq::new(g.len(), |k: int| None::<usize>)
    } else {
        let r = partners_upto(g, p - 1);
        match g[p - 1] {
            Some(c) => r.update(p - 1, Some(c.0)).update(c.0 as int, Some((p - 1) as usize)),
            None => r,
        }
    }
}

/// The item grabs of a frame: for each entity, the entity it grabs or is grabbed by.
pub open spec fn item_grabs(w: GrabWorld) -> Seq<Option<usize>> {
    let n = w.free_fighters@.len();
    let g = grab_rounds(w, Seq::new(n, |k: int| None::<(usize, u64)>), 0, 0);
    partners_upto(g, n as int)
}

/// Every claim is of an entity index.
pub open spec fn claims_in_range(g: Claims) -> bool {
    forall|q: int| 0 <= q < g.len() ==> (#[trigger] g[q] matches Some(c) ==> c.0 < g.len())
}

fn claim_exec(g: &mut Vec<Option<(usize, u64)>>, p: usize, i: usize, d: u64)
    requires
        p < old(g)@.len(),
        i < old(g)@.len(),
        claims_in_range(old(g)@),
    ensures
        final(g)@ == claim(old(g)@, p as int, i as int, d),
        final(g)@.len() == old(g)@.len(),
        claims_in_range(final(g)@),
{
    let shortest = match g[p] {
        Some(c) => d < c.1,
        None => true,
    };
    if !shortest {
        return;
    }
    let ghost s = g@;
    let mut to_delete: Option<usize> = None;
    let mut q: usize = 0;
    while q < g.len()
        invariant
            g@ == s,
            claims_in_range(s),
            q <= s.len(),
            i < s.len(),
            to_delete == (match last_claimant(s, i as int, q as int) {
                Some(k) => Some(k as usize),
                None => None::<usize>,
            }),
            forall|k: int| 0 <= k < q && claims_item(s, k, i as int) ==> d < claim_distance(#[trigger] s[k]),
            forall|k: int| 0 <= k <= q ==> (#[trigger] last_claimant(s, i as int, k) matches Some(j) ==> 0 <= j < k),
        decreases s.len() - q,
    {
        match g[q] {
            Some(c) => {
                if c.0 == i {
                    if d < c.1 {
                        to_delete = Some(q);
                    } else {
                        assert(claims_item(s, q as int, i as int) && d >= claim_distance(s[q as int]));
                        assert(blocked(s, i as int, d));
                        return;
                    }
                }
            },
            None => {},
        }
        q = q + 1;
    }
    assert(!blocked(s, i as int, d)) by {
        if blocked(s, i as int, d) {
            let k = choose|k: int| 0 <= k < s.len() && claims_item(s, k, i as int) && d >= claim_distance(#[trigger] s[k]);
            assert(d < claim_distance(s[k]));
        }
    }
    match to_delete {
        Some(k) => {
            g.set(k, None);
        },
        None => {},
    }
    g.set(p, Some((i, d)));
}

fn try_items_exec(w: &GrabWorld, g: &mut Vec<Option<(usize, u64)>>, p: usize)
    requires
        grab_world_wf(*w),
        old(g)@.len() == w.free_fighters@.len(),
        p < old(g)@.len(),
        claims_in_range(old(g)@),
    ensures
        final(g)@ == try_items(*w, old(g)@, p as int, 0),
        final(g)@.len() == old(g)@.len(),
        claims_in_range(final(g)@),
{
    let n = w.free_fighters.len();
    let ghost start = g@;
    let mut i: usize = 0;
    while i < n
        invariant
            grab_world_wf(*w),
            n == w.free_fighters@.len(),
            g@.len() == n,
            p < n,
            i <= n,
            claims_in_range(g@),
            try_items(*w, g@, p as int, i as int) == try_items(*w, start, p as int, 0),
        decreases n - i,
    {
        assert(w.collides@[p as int]@.len() == n);
        assert(w.distance@[p as int]@.len() == n);
        if w.free_items[i] && w.collides[p][i] {
            claim_exec(g, p, i, w.distance[p][i]);
        }
        i = i + 1;
    }
}

fn try_fighters_exec(w: &GrabWorld, g: &mut Vec<Option<(usize, u64)>>)
    requires
        grab_world_wf(*w),
        old(g)@.len() == w.free_fighters@.len(),
        claims_in_range(old(g)@),
    ensures
        final(g)@ == try_fighters(*w, old(g)@, 0),
        final(g)@.len() == old(g)@.len(),
        claims_in_range(final(g)@),
{
    let n = w.free_fighters.len();
    let ghost start = g@;
    let mut p: usize = 0;
    while p < n
        invariant
            grab_world_wf(*w),
            n == w.free_fighters@.len(),
            g@.len() == n,
            p <= n,
            claims_in_range(g@),
            try_fighters(*w, g@, p as int) == try_fighters(*w, start, 0),
        decreases n - p,
    {
        if w.free_fighters[p] {
            try_items_exec(w, g, p);
        }
        p = p + 1;
    }
}

fn count_claims(g: &Vec<Option<(usize, u64)>>) -> (r: usize)
    ensures
        r == claim_count(g@),
{
    let mut r: usize = 0;
    let mut k: usize = 0;
    while k < g.len()
        invariant
            k <= g@.len(),
            r == claim_count(g@.subrange(0, k as int)),
            r <= k,
        decreases g@.len() - k,
    {
        assert(g@.subrange(0, k + 1).drop_last() =~= g@.subrange(0, k as int));
        if g[k].is_some() {
            r = r + 1;
        }
        k = k + 1;
    }
    assert(g@.subrange(0, g@.len() as int) =~= g@);
    r
}

/// Which entities grab which items this frame. Each free fighter in turn tries the free
/// items its item grab box meets, in order, keeping the closest: it claims an item that is
/// closer than the one it holds a claim on, unless a claim of that item is as close or
/// closer, taking the item from a farther claimant; the claim replaces its earlier one. Rounds of this repeat until a round ends with as many claims as
/// the round before, at most ten rounds. Returns, for each entity, the entity it grabs or
/// is grabbed by.
pub fn collision_check(w: &GrabWorld) -> (r: Vec<Option<usize>>)
    requires
        grab_world_wf(*w),
    ensures
        r@ == item_grabs(*w),
{
    let n = w.free_fighters.len();
    let mut g: Vec<Option<(usize, u64)>> = Vec::new();
    let mut k: usize = 0;
    while k < n
        invariant
            k <= n,
            g@.len() == k,
            forall|j: int| 0 <= j < k ==> g@[j] is None,
        decreases n - k,
    {
        g.push(None);
        k = k + 1;
    }
    assert(g@ =~= Seq::new(n as nat, |k: int| None::<(usize, u64)>));
    let ghost start = g@;
    let mut last: usize = 0;
    let mut round: usize = 0;
    while round < GRAB_ROUNDS
        invariant_except_break
            grab_rounds(*w, g@, round as int, last as nat) == grab_rounds(*w, start, 0, 0),
        invariant
            grab_world_wf(*w),
            n == w.free_fighters@.len(),
            g@.len() == n,
            claims_in_range(g@),
            round <= GRAB_ROUNDS,
        ensures
            g@ == grab_rounds(*w, start, 0, 0),
        decreases GRAB_ROUNDS - round,
    {
        try_fighters_exec(w, &mut g);
        let count = count_claims(&g);
        if count == last {
            break;
        }
        last = count;
        round = round + 1;
    }
    let final_claims = g;
    assert(final_claims@ == grab_rounds(*w, start, 0, 0));
    let mut r: Vec<Option<usize>> = Vec::new();
    let mut k: usize = 0;
    while k < n
        invariant
            k <= n,
            r@.len() == k,
            forall|j: int| 0 <= j < k ==> r@[j] is None,
        decreases n - k,
    {
        r.push(None);
        k = k + 1;
    }
    assert(r@ =~= partners_upto(final_claims@, 0));
    let mut p: usize = 0;
    while p < n
        invariant
            n == final_claims@.len(),
            p <= n,
            claims_in_range(final_claims@),
            r@ == partners_upto(final_claims@, p as int),
            r@.len() == n,
        decreases n - p,
    {
        match final_claims[p] {
            Some(c) => {
                r.set(p, Some(c.0));
                r.set(c.0, Some(p));
            },
            None => {},
        }
        p = p + 1;
    }
    r
}

/// The item of a claim.
pub open spec fn claim_item_of(c: Option<(usize, u64)>) -> usize {
    match c {
        Some(x) => x.0,
        None => 0,
    }
}

/// Claims are by free fighters, of free items, each item claimed at most once.
pub open spec fn claims_ok(w: GrabWorld, g: Claims) -> bool {
    &&& g.len() == w.free_fighters@.len()
    &&& g.len() <= usize::MAX
    &&& forall|q: int|
        0 <= q < g.len() ==> (#[trigger] g[q] matches Some(c) ==> w.free_fighters@[q] && c.0 < g.len()
            && w.free_items@[c.0 as int])
    &&& forall|q1: int, q2: int|
        0 <= q1 < g.len() && 0 <= q2 < g.len() && q1 != q2 && (#[trigger] g[q1]) is Some && (
        #[trigger] g[q2]) is Some ==> claim_item_of(g[q1]) != claim_item_of(g[q2])
}

/// No entity is both a free fighter and a free item.
pub open spec fn kinds_apart(w: GrabWorld) -> bool {
    forall|e: int| 0 <= e < w.free_fighters@.len() ==> !(#[trigger] w.free_fighters@[e] && w.free_items@[e])
}

proof fn lemma_last_claimant(g: Claims, i: int, q: int)
    requires
        q <= g.len(),
    ensures
        last_claimant(g, i, q) matches Some(j) ==> 0 <= j < q && claims_item(g, j, i),
        last_claimant(g, i, q) is None ==> forall|k: int| 0 <= k < q ==> !claims_item(g, k, i),
    decreases q,
{
    if q > 0 {
        lemma_last_claimant(g, i, q - 1);
    }
}

proof fn lemma_claim_ok(w: GrabWorld, g: Claims, p: int, i: int, d: u64)
    requires
        claims_ok(w, g),
        0 <= p < g.len(),
        0 <= i < g.len(),
        w.free_fighters@[p],
        w.free_items@[i],
    ensures
        claims_ok(w, claim(g, p, i, d)),
{
    let shortest = match g[p] {
        Some(c) => d < c.1,
        None => true,
    };
    if shortest && !blocked(g, i, d) {
        lemma_last_claimant(g, i, g.len() as int);
        let g2 = match last_claimant(g, i, g.len() as int) {
            Some(q) => g.update(q, None),
            None => g,
        };
        assert forall|k: int| 0 <= k < g2.len() implies !claims_item(g2, k, i) by {
            if let Some(q) = last_claimant(g, i, g.len() as int) {
                if k != q && claims_item(g, k, i) {
                    assert(g[k] is Some && g[q] is Some);
                }
            }
        }
        let g3 = g2.update(p, Some((i as usize, d)));
        assert(g3 == claim(g, p, i, d));
        assert forall|q1: int, q2: int|
            0 <= q1 < g3.len() && 0 <= q2 < g3.len() && q1 != q2 && (#[trigger] g3[q1]) is Some && (
            #[trigger] g3[q2]) is Some implies claim_item_of(g3[q1]) != claim_item_of(g3[q2]) by {
            if q1 == p {
                assert(!claims_item(g2, q2, i));
            } else if q2 == p {
                assert(!claims_item(g2, q1, i));
            } else {
                assert(g3[q1] == g2[q1] && g3[q2] == g2[q2]);
                assert(g2[q1] is Some ==> g2[q1] == g[q1]);
                assert(g2[q2] is Some ==> g2[q2] == g[q2]);
            }
        }
        assert forall|q: int| 0 <= q < g3.len() implies (#[trigger] g3[q] matches Some(c) ==> w.free_fighters@[q]
            && c.0 < g3.len() && w.free_items@[c.0 as int]) by {
            if q != p {
                assert(g2[q] is Some ==> g2[q] == g[q]);
            }
        }
    }
}

proof fn lemma_try_items_ok(w: GrabWorld, g: Claims, p: int, i: int)
    requires
        grab_world_wf(w),
        claims_ok(w, g),
        0 <= p < g.len(),
        w.free_fighters@[p],
    ensures
        claims_ok(w, try_items(w, g, p, i)),
    decreases w.free_fighters@.len() - i,
{
    if 0 <= i < w.free_fighters@.len() {
        if w.free_items@[i] && w.collides@[p]@[i] {
            lemma_claim_ok(w, g, p, i, w.distance@[p]@[i]);
            lemma_try_items_ok(w, claim(g, p, i, w.distance@[p]@[i]), p, i + 1);
        } else {
            lemma_try_items_ok(w, g, p, i + 1);
        }
    }
}

proof fn lemma_try_fighters_ok(w: GrabWorld, g: Claims, p: int)
    requires
        grab_world_wf(w),
        claims_ok(w, g),
        0 <= p,
    ensures
        claims_ok(w, try_fighters(w, g, p)),
    decreases w.free_fighters@.len() - p,
{
    if 0 <= p < w.free_fighters@.len() {
        if w.free_fighters@[p] {
            lemma_try_items_ok(w, g, p, 0);
            lemma_try_fighters_ok(w, try_items(w, g, p, 0), p + 1);
        } else {
            lemma_try_fighters_ok(w, g, p + 1);
        }
    }
}

proof fn lemma_grab_rounds_ok(w: GrabWorld, g: Claims, r: int, last: nat)
    requires
        grab_world_wf(w),
        claims_ok(w, g),
        0 <= r,
    ensures
        claims_ok(w, grab_rounds(w, g, r, last)),
    decreases GRAB_ROUNDS - r,
{
    if r < GRAB_ROUNDS {
        lemma_try_fighters_ok(w, g, 0);
        let g2 = try_fighters(w, g, 0);
        if claim_count(g2) != last {
            lemma_grab_rounds_ok(w, g2, r + 1, claim_count(g2));
        }
    }
}

/// The partner of entity `e` given the claims of the fighters below `p`.
pub open spec fn partner_below(g: Claims, e: int, p: int) -> Option<usize> {
    if e < p && g[e] is Some {
        Some(claim_item_of(g[e]))
    } else if exists|q: int| 0 <= q < p && claims_item(g, q, e) {
        Some((choose|q: int| 0 <= q < p && claims_item(g, q, e)) as usize)
    } else {
        None
    }
}

proof fn lemma_partners(w: GrabWorld, g: Claims, p: int)
    requires
        claims_ok(w, g),
        kinds_apart(w),
        0 <= p <= g.len(),
        g.len() <= usize::MAX,
    ensures
        partners_upto(g, p).len() == g.len(),
        forall|e: int| 0 <= e < g.len() ==> #[trigger] partners_upto(g, p)[e] == partner_below(g, e, p),
    decreases p,
{
    if p > 0 {
        lemma_partners(w, g, p - 1);
        let r = partners_upto(g, p - 1);
        assert forall|e: int| 0 <= e < g.len() implies #[trigger] partners_upto(g, p)[e] == partner_below(g, e, p) by {
            if let Some(c) = g[p - 1] {
                let i = c.0 as int;
                assert(w.free_fighters@[p - 1] && w.free_items@[i]);
                assert(i != p - 1);
                if e == i {
                    assert(claims_item(g, p - 1, e));
                    assert(!w.free_fighters@[e]);
                    assert(g[e] is None);
                    assert forall|q: int| 0 <= q < p && claims_item(g, q, e) implies q == p - 1 by {
                        if q != p - 1 {
                            assert(g[q] is Some && g[p - 1] is Some);
                        }
                    }
                } else if e == p - 1 {
                } else {
                    if claims_item(g, p - 1, e) {
                        assert(e == i);
                    }
                    if exists|q: int| 0 <= q < p && claims_item(g, q, e) {
                        let q = choose|q: int| 0 <= q < p && claims_item(g, q, e);
                        assert(q != p - 1);
                    }
                }
            } else {
                if exists|q: int| 0 <= q < p && claims_item(g, q, e) {
                    let q = choose|q: int| 0 <= q < p && claims_item(g, q, e);
                    assert(q != p - 1);
                }
            }
        }
    } else {
        assert forall|e: int| 0 <= e < g.len() implies #[trigger] partners_upto(g, p)[e] == partner_below(g, e, p) by {}
    }
}

/// Item grabs are mutual and fit: when entity `e` is paired with `x`, `x` is paired with
/// `e`, and one of them is a free fighter and the other a free item. So no item goes to
/// two fighters, and no fighter gets two items.
pub proof fn lemma_item_grabs_mutual(w: GrabWorld)
    requires
        grab_world_wf(w),
        w.free_fighters@.len() <= usize::MAX,
        kinds_apart(w),
    ensures
        item_grabs(w).len() == w.free_fighters@.len(),
        forall|e: int|
            0 <= e < w.free_fighters@.len() ==> (#[trigger] item_grabs(w)[e] matches Some(x) ==> {
                &&& x < w.free_fighters@.len()
                &&& item_grabs(w)[x as int] == Some(e as usize)
                &&& (w.free_fighters@[e] && w.free_items@[x as int]) || (w.free_items@[e] && w.free_fighters@[x as int])
            }),
{
    let n = w.free_fighters@.len();
    let start = Seq::new(n, |k: int| None::<(usize, u64)>);
    assert(claims_ok(w, start));
    lemma_grab_rounds_ok(w, start, 0, 0);
    let g = grab_rounds(w, start, 0, 0);
    lemma_partners(w, g, n as int);
    assert forall|e: int|
        0 <= e < n implies (#[trigger] item_grabs(w)[e] matches Some(x) ==> {
            &&& x < n
            &&& item_grabs(w)[x as int] == Some(e as usize)
            &&& (w.free_fighters@[e] && w.free_items@[x as int]) || (w.free_items@[e] && w.free_fighters@[x as int])
        }) by {
        assert(item_grabs(w)[e] == partner_below(g, e, n as int));
        if let Some(c) = g[e] {
            let x = c.0 as int;
            assert(w.free_fighters@[e] && w.free_items@[x]);
            assert(!w.free_fighters@[x]);
            assert(g[x] is None);
            assert(claims_item(g, e, x));
            let q = choose|q: int| 0 <= q < n && claims_item(g, q, x);
            if q != e {
                assert(g[q] is Some && g[e] is Some);
            }
            assert(item_grabs(w)[x] == partner_below(g, x, n as int));
        } else if exists|q: int| 0 <= q < n && claims_item(g, q, e) {
            let q = choose|q: int| 0 <= q < n && claims_item(g, q, e);
            assert(w.free_fighters@[q] && w.free_items@[e]);
            assert(item_grabs(w)[q] == partner_below(g, q, n as int));
        }
    }
}

/// Only fighter `p` may hold a claim.
pub open spec fn only_claims_of(g: Claims, p: int) -> bool {
    forall|q: int| 0 <= q < g.len() && q != p ==> (#[trigger] g[q]) is None
}

/// The claim fighter `p` ends with after trying the items from `k` on, starting from `cur`,
/// when no other fighter claims anything: the closest colliding free item, the first of equals.
pub open spec fn closest_from(w: GrabWorld, p: int, cur: Option<(usize, u64)>, k: int) -> Option<(usize, u64)>
    decreases w.free_fighters@.len() - k,
{
    if k < 0 || k >= w.free_fighters@.len() {
        cur
    } else {
        let d = w.distance@[p]@[k];
        let next = if w.free_items@[k] && w.collides@[p]@[k] && (cur is None || d < claim_distance(cur)) {
            Some((k as usize, d))
        } else {
            cur
        };
        closest_from(w, p, next, k + 1)
    }
}

proof fn lemma_claim_alone(g: Claims, p: int, i: int, d: u64)
    requires
        0 <= p < g.len(),
        0 <= i < g.len(),
        only_claims_of(g, p),
    ensures
        claim(g, p, i, d) == (if g[p] is None || d < claim_distance(g[p]) { g.update(p, Some((i as usize, d))) } else { g }),
{
    if g[p] is None || d < claim_distance(g[p]) {
        assert(!blocked(g, i, d)) by {
            if blocked(g, i, d) {
                let q = choose|q: int| 0 <= q < g.len() && claims_item(g, q, i) && d >= claim_distance(#[trigger] g[q]);
                assert(q == p);
            }
        }
        lemma_last_claimant(g, i, g.len() as int);
        match last_claimant(g, i, g.len() as int) {
            Some(q) => {
                assert(q == p);
                assert(g.update(q, None).update(p, Some((i as usize, d))) =~= g.update(p, Some((i as usize, d))));
            },
            None => {},
        }
    }
}

proof fn lemma_try_items_alone(w: GrabWorld, g: Claims, p: int, k: int)
    requires
        grab_world_wf(w),
        g.len() == w.free_fighters@.len(),
        0 <= p < g.len(),
        0 <= k,
        only_claims_of(g, p),
    ensures
        try_items(w, g, p, k) == g.update(p, closest_from(w, p, g[p], k)),
    decreases w.free_fighters@.len() - k,
{
    if k >= w.free_fighters@.len() {
        assert(g.update(p, g[p]) =~= g);
    } else {
        let d = w.distance@[p]@[k];
        let g2 = if w.free_items@[k] && w.collides@[p]@[k] { claim(g, p, k, d) } else { g };
        lemma_claim_alone(g, p, k, d);
        assert(only_claims_of(g2, p));
        lemma_try_items_alone(w, g2, p, k + 1);
        assert(g2.update(p, closest_from(w, p, g2[p], k + 1)) =~= g.update(p, closest_from(w, p, g[p], k)));
    }
}

proof fn lemma_try_fighters_alone(w: GrabWorld, g: Claims, p: int, q: int)
    requires
        grab_world_wf(w),
        g.len() == w.free_fighters@.len(),
        0 <= p < g.len(),
        0 <= q,
        only_claims_of(g, p),
        forall|f: int| 0 <= f < g.len() && f != p ==> !(#[trigger] w.free_fighters@[f]),
        w.free_fighters@[p],
    ensures
        try_fighters(w, g, q) == if q <= p { g.update(p, closest_from(w, p, g[p], 0)) } else { g },
    decreases w.free_fighters@.len() - q,
{
    if q < w.free_fighters@.len() {
        if q == p {
            lemma_try_items_alone(w, g, p, 0);
            let g2 = try_items(w, g, p, 0);
            assert(only_claims_of(g2, p));
            lemma_try_fighters_alone(w, g2, p, q + 1);
        } else {
            lemma_try_fighters_alone(w, g, p, q + 1);
        }
    }
}

proof fn lemma_count_alone(g: Claims, p: int)
    requires
        0 <= p,
        only_claims_of(g, p),
    ensures
        claim_count(g) == if p < g.len() && g[p] is Some { 1nat } else { 0nat },
    decreases g.len(),
{
    if g.len() > 0 {
        let h = g.drop_last();
        assert(only_claims_of(h, p)) by {
            assert forall|q: int| 0 <= q < h.len() && q != p implies (#[trigger] h[q]) is None by {
                assert(h[q] == g[q]);
            }
        }
        lemma_count_alone(h, p);
        if p < h.len() {
            assert(h[p] == g[p]);
        }
    }
}

/// The claim `closest_from` ends with is a colliding free item at least as close as every
/// colliding free item from `k` on, and no farther than the claim it started from.
proof fn lemma_closest_from(w: GrabWorld, p: int, cur: Option<(usize, u64)>, k: int)
    requires
        grab_world_wf(w),
        w.free_fighters@.len() <= usize::MAX,
        0 <= p < w.free_fighters@.len(),
        0 <= k,
    ensures
        cur is Some ==> closest_from(w, p, cur, k) is Some && claim_distance(closest_from(w, p, cur, k)) <= claim_distance(cur),
        cur is Some && closest_from(w, p, cur, k) != cur ==> claim_distance(closest_from(w, p, cur, k)) < claim_distance(cur),
        closest_from(w, p, cur, k) is Some && closest_from(w, p, cur, k) != cur ==> {
            let i = claim_item_of(closest_from(w, p, cur, k)) as int;
            &&& k <= i < w.free_fighters@.len()
            &&& w.free_items@[i] && w.collides@[p]@[i]
            &&& claim_distance(closest_from(w, p, cur, k)) == w.distance@[p]@[i]
        },
        forall|j: int|
            k <= j < w.free_fighters@.len() && w.free_items@[j] && w.collides@[p]@[j] ==> closest_from(w, p, cur, k) is Some
                && claim_distance(closest_from(w, p, cur, k)) <= #[trigger] w.distance@[p]@[j],
    decreases w.free_fighters@.len() - k,
{
    if k < w.free_fighters@.len() {
        let d = w.distance@[p]@[k];
        let next = if w.free_items@[k] && w.collides@[p]@[k] && (cur is None || d < claim_distance(cur)) {
            Some((k as usize, d))
        } else {
            cur
        };
        lemma_closest_from(w, p, next, k + 1);
        let r = closest_from(w, p, cur, k);
        assert(r == closest_from(w, p, next, k + 1));
        if w.free_items@[k] && w.collides@[p]@[k] {
            assert(next is Some && claim_distance(next) <= d);
        }
        if next != cur {
            assert(claim_item_of(next) as int == k);
        }
        assert forall|j: int|
            k <= j < w.free_fighters@.len() && w.free_items@[j] && w.collides@[p]@[j] implies r is Some
                && claim_distance(r) <= #[trigger] w.distance@[p]@[j] by {
            if j == k {
                assert(claim_distance(next) <= d);
                assert(next is Some);
                assert(r is Some);
                assert(claim_distance(r) <= claim_distance(next));
                assert(w.distance@[p]@[j] == d);
            } else {
                assert(k + 1 <= j);
                assert(r is Some);
                assert(claim_distance(r) <= w.distance@[p]@[j]);
            }
        }
    }
}

/// A fighter that is the only one free to grab takes its closest colliding free item (the
/// first of equally close ones), and that item is grabbed by it.
pub proof fn lemma_lone_fighter_takes_closest_item(w: GrabWorld, p: int, i: int)
    requires
        grab_world_wf(w),
        w.free_fighters@.len() <= usize::MAX,
        kinds_apart(w),
        0 <= p < w.free_fighters@.len(),
        w.free_fighters@[p],
        forall|f: int| 0 <= f < w.free_fighters@.len() && f != p ==> !(#[trigger] w.free_fighters@[f]),
        0 <= i < w.free_fighters@.len(),
        w.free_items@[i],
        w.collides@[p]@[i],
    ensures
        item_grabs(w)[p] matches Some(x) && {
            &&& w.free_items@[x as int] && w.collides@[p]@[x as int]
            &&& w.distance@[p]@[x as int] <= w.distance@[p]@[i]
            &&& item_grabs(w)[x as int] == Some(p as usize)
        },
{
    let n = w.free_fighters@.len();
    let g0 = Seq::new(n, |k: int| None::<(usize, u64)>);
    assert(only_claims_of(g0, p));
    let best = closest_from(w, p, None, 0);
    lemma_closest_from(w, p, None, 0);
    lemma_try_fighters_alone(w, g0, p, 0);
    let g1 = try_fighters(w, g0, 0);
    assert(g1 == g0.update(p, best));
    assert(only_claims_of(g1, p));
    lemma_count_alone(g1, p);
    assert(claim_distance(best) <= w.distance@[p]@[i]);
    assert(best is Some);
    assert(g1[p] == best);
    assert(claim_count(g1) == 1);
    // a second round changes nothing: nothing is closer than the best
    lemma_try_fighters_alone(w, g1, p, 0);
    lemma_closest_from(w, p, best, 0);
    let again = closest_from(w, p, best, 0);
    let g2 = try_fighters(w, g1, 0);
    assert(g2 == g1.update(p, again));
    assert(again == best) by {
        if again != best {
            let j = claim_item_of(again) as int;
            assert(claim_distance(again) < claim_distance(best));
            assert(claim_distance(best) <= w.distance@[p]@[j]);
        }
    }
    assert(g2 =~= g1);
    lemma_count_alone(g2, p);
    assert(grab_rounds(w, g0, 0, 0) == grab_rounds(w, g1, 1, 1));
    assert(grab_rounds(w, g1, 1, 1) == g2);
    let g = grab_rounds(w, g0, 0, 0);
    lemma_grab_rounds_ok(w, g0, 0, 0);
    lemma_partners(w, g, n as int);
    assert(item_grabs(w)[p] == partner_below(g, p, n as int));
    lemma_item_grabs_mutual(w);
}

} // verus!
