use vstd::prelude::*;

use crate::entity::{CollisionKind, EntityKind};

verus! {

/// What collision checking reads of a hitbox.
#[derive(Clone, Copy, Debug, PartialEq, Eq, Structural)]
pub struct HitboxInfo {
    /// The damage, in whole points.
    pub damage: i64,
    /// The hitbox can clang against another hitbox.
    pub enable_clang: bool,
    /// A clang makes the attacker rebound.
    pub enable_rebound: bool,
}

/// The role of a collision box in a frame.
#[derive(Clone, Copy, Debug, PartialEq, Eq, Structural)]
pub enum BoxRole {
    Hit(HitboxInfo),
    Hurt,
    Invincible,
    Grab,
    Other,
}

/// How two collision boxes meet: they overlap, they just touch, or they are apart.
#[derive(Clone, Copy, Debug, PartialEq, Eq, Structural)]
pub enum Contact {
    Hit,
    Phantom,
    Apart,
}

/// One entity as collision checking sees it.
#[derive(Clone, Debug)]
pub struct CollisionEntity {
    pub key: u64,
    pub kind: EntityKind,
    /// The entities (by key) the entity already hit during its action.
    pub hitlist: Vec<u64>,
    /// The boxes the entity attacks with this frame, in order.
    pub attack_boxes: Vec<BoxRole>,
    /// All the boxes of the entity's frame, in order.
    pub boxes: Vec<BoxRole>,
}

/// How the boxes of the entities meet this frame, as the geometry decided it.
#[derive(Clone, Debug)]
pub struct Contacts {
    /// `boxes[a][d][i][j]`: attack box `i` of entity `a` against box `j` of entity `d`.
    pub boxes: Vec<Vec<Vec<Vec<Contact>>>>,
    /// `shield[a][d][i]`: attack box `i` of entity `a` reaches the raised shield of entity `d`.
    pub shield: Vec<Vec<Vec<bool>>>,
}

/// One collision, told to one of the two entities in it. `atk_box` is the attacker's box in
/// it and `def_box` the defender's box, where the collision has one (else 0); `rebound`
/// is set on a clang that makes the receiver rebound.
#[derive(Clone, Copy, Debug, PartialEq, Eq, Structural)]
pub struct CollisionEvent {
    pub kind: CollisionKind,
    pub attacker: usize,
    pub defender: usize,
    pub atk_box: usize,
    pub def_box: usize,
    pub rebound: bool,
}

/// The contact table covers every pair of entities and every pair of their boxes.
pub open spec fn contacts_wf(es: Seq<CollisionEntity>, cs: Contacts) -> bool {
    &&& cs.boxes@.len() == es.len()
    &&& cs.shield@.len() == es.len()
    &&& forall|a: int| 0 <= a < es.len() ==> (#[trigger] cs.boxes@[a])@.len() == es.len()
    &&& forall|a: int| 0 <= a < es.len() ==> (#[trigger] cs.shield@[a])@.len() == es.len()
    &&& forall|a: int, d: int|
        0 <= a < es.len() && 0 <= d < es.len() ==> (#[trigger] cs.boxes@[a]@[d])@.len()
            == es[a].attack_boxes@.len()
    &&& forall|a: int, d: int|
        0 <= a < es.len() && 0 <= d < es.len() ==> (#[trigger] cs.shield@[a]@[d])@.len()
            == es[a].attack_boxes@.len()
    &&& forall|a: int, d: int, i: int|
        0 <= a < es.len() && 0 <= d < es.len() && 0 <= i < es[a].attack_boxes@.len() ==> (
        #[trigger] cs.boxes@[a]@[d]@[i])@.len() == es[d].boxes@.len()
}

/// The contact of attack box `i` of `a` with box `j` of `d`.
pub open spec fn contact(cs: Contacts, a: int, d: int, i: int, j: int) -> Contact {
    cs.boxes@[a]@[d]@[i]@[j]
}

/// An event of kind `kind` between attacker `a` and defender `d`.
pub open spec fn event(kind: CollisionKind, a: int, d: int, i: int, j: int, rebound: bool) -> CollisionEvent {
    CollisionEvent {
        kind,
        attacker: a as usize,
        defender: d as usize,
        atk_box: i as usize,
        def_box: j as usize,
        rebound,
    }
}

/// The events of a clang between hitbox `i` of `a` and hitbox `j` of `d`: a hitbox that
/// outdamages the other by 9 or more wins and hits, the loser clangs; otherwise both clang.
pub open spec fn clang_events(es: Seq<CollisionEntity>, a: int, d: int, i: int, j: int) -> Seq<(usize, CollisionEvent)> {
    let atk = es[a].attack_boxes@[i]->Hit_0;
    let def = es[d].boxes@[j]->Hit_0;
    let diff = atk.damage - def.damage;
    if diff >= 9 {
        seq![
            (a as usize, event(CollisionKind::Clang, a, d, i, j, atk.enable_rebound)),
            (d as usize, event(CollisionKind::HitAtk, a, d, i, j, false)),
        ]
    } else if diff <= -9 {
        seq![
            (a as usize, event(CollisionKind::HitAtk, a, d, i, j, false)),
            (d as usize, event(CollisionKind::Clang, a, d, i, j, def.enable_rebound)),
        ]
    } else {
        seq![
            (a as usize, event(CollisionKind::Clang, a, d, i, j, atk.enable_rebound)),
            (d as usize, event(CollisionKind::Clang, a, d, i, j, def.enable_rebound)),
        ]
    }
}

/// The first clang of hitbox `i` of `a` against the hitboxes of `d` from box `j` on.
pub open spec fn clang_scan(es: Seq<CollisionEntity>, cs: Contacts, a: int, d: int, i: int, j: int) -> Option<Seq<(usize, CollisionEvent)>>
    decreases es[d].boxes@.len() - j,
{
    if j < 0 || j >= es[d].boxes@.len() {
        None
    } else if es[d].boxes@[j] is Hit && contact(cs, a, d, i, j) == Contact::Hit {
        Some(clang_events(es, a, d, i, j))
    } else {
        clang_scan(es, cs, a, d, i, j + 1)
    }
}

/// The events of hitbox `i` of `a` meeting box `j` of `d`, if they count: overlapping a
/// hurtbox hits it, overlapping an invincible box hits nothing but counts, touching a
/// hurtbox is a phantom hit.
pub open spec fn hurt_events(es: Seq<CollisionEntity>, cs: Contacts, a: int, d: int, i: int, j: int) -> Option<Seq<(usize, CollisionEvent)>> {
    let role = es[d].boxes@[j];
    match contact(cs, a, d, i, j) {
        Contact::Hit => if role is Hurt {
            Some(seq![
                (a as usize, event(CollisionKind::HitAtk, a, d, i, j, false)),
                (d as usize, event(CollisionKind::HitDef, a, d, i, j, false)),
            ])
        } else if role is Invincible {
            Some(seq![(a as usize, event(CollisionKind::HitAtk, a, d, i, j, false))])
        } else {
            None
        },
        Contact::Phantom => if role is Hurt {
            Some(seq![
                (a as usize, event(CollisionKind::PhantomAtk, a, d, i, j, false)),
                (d as usize, event(CollisionKind::PhantomDef, a, d, i, j, false)),
            ])
        } else {
            None
        },
        Contact::Apart => None,
    }
}

/// The first box of `d` from box `j` on that hitbox `i` of `a` counts against.
pub open spec fn hurt_scan(es: Seq<CollisionEntity>, cs: Contacts, a: int, d: int, i: int, j: int) -> Option<Seq<(usize, CollisionEvent)>>
    decreases es[d].boxes@.len() - j,
{
    if j < 0 || j >= es[d].boxes@.len() {
        None
    } else {
        match hurt_events(es, cs, a, d, i, j) {
            Some(evs) => Some(evs),
            None => hurt_scan(es, cs, a, d, i, j + 1),
        }
    }
}

/// The events of the attack boxes of `a` against `d` from box `i` on, and whether they
/// end `a`'s attacks on `d` for this frame. A hitbox reaching the raised shield of a fighter
/// is shielded, which ends the hitboxes' turn against `d`; otherwise a clang, or else a hit
/// on a box of `d`, ends `a`'s attacks on `d`.
pub open spec fn hitbox_loop(es: Seq<CollisionEntity>, cs: Contacts, a: int, d: int, i: int) -> (Seq<(usize, CollisionEvent)>, bool)
    decreases es[a].attack_boxes@.len() - i,
{
    if i < 0 || i >= es[a].attack_boxes@.len() {
        (Seq::empty(), false)
    } else {
        match es[a].attack_boxes@[i] {
            BoxRole::Hit(h) => if es[d].kind is Fighter && cs.shield@[a]@[d]@[i] {
                (
                    seq![
                        (a as usize, event(CollisionKind::HitShieldAtk, a, d, i, 0, false)),
                        (d as usize, event(CollisionKind::HitShieldDef, a, d, i, 0, false)),
                    ],
                    false,
                )
            } else {
                let clang = if h.enable_clang {
                    clang_scan(es, cs, a, d, i, 0)
                } else {
                    None
                };
                match clang {
                    Some(evs) => (evs, true),
                    None => match hurt_scan(es, cs, a, d, i, 0) {
                        Some(evs) => (evs, true),
                        None => hitbox_loop(es, cs, a, d, i + 1),
                    },
                }
            },
            _ => hitbox_loop(es, cs, a, d, i + 1),
        }
    }
}

/// The first box of `d` from box `j` on that grab box `i` of `a` overlaps.
pub open spec fn grab_scan(es: Seq<CollisionEntity>, cs: Contacts, a: int, d: int, i: int, j: int) -> Option<Seq<(usize, CollisionEvent)>>
    decreases es[d].boxes@.len() - j,
{
    if j < 0 || j >= es[d].boxes@.len() {
        None
    } else if contact(cs, a, d, i, j) == Contact::Hit {
        Some(seq![
            (a as usize, event(CollisionKind::GrabAtk, a, d, i, j, false)),
            (d as usize, event(CollisionKind::GrabDef, a, d, i, j, false)),
        ])
    } else {
        grab_scan(es, cs, a, d, i, j + 1)
    }
}

/// The first grab of `d` by a grab box of `a` from box `i` on.
pub open spec fn grab_loop(es: Seq<CollisionEntity>, cs: Contacts, a: int, d: int, i: int) -> Option<Seq<(usize, CollisionEvent)>>
    decreases es[a].attack_boxes@.len() - i,
{
    if i < 0 || i >= es[a].attack_boxes@.len() {
        None
    } else if es[a].attack_boxes@[i] is Grab {
        match grab_scan(es, cs, a, d, i, 0) {
            Some(evs) => Some(evs),
            None => grab_loop(es, cs, a, d, i + 1),
        }
    } else {
        grab_loop(es, cs, a, d, i + 1)
    }
}

/// The events of `a` attacking `d`, and whether they end `a`'s attacks on `d`: its hitboxes
/// first, then, unless they ended the attacks, its grab boxes.
pub open spec fn pair_events(es: Seq<CollisionEntity>, cs: Contacts, a: int, d: int) -> (Seq<(usize, CollisionEvent)>, bool) {
    let (h, stop) = hitbox_loop(es, cs, a, d, 0);
    if stop {
        (h, true)
    } else {
        match grab_loop(es, cs, a, d, 0) {
            Some(g) => (h + g, true),
            None => (h, false),
        }
    }
}

/// `a` may attack `d`: they are different entities that can hit each other, and `a` has
/// not hit `d` yet during its action.
pub open spec fn may_attack(es: Seq<CollisionEntity>, a: int, d: int) -> bool {
    &&& a != d
    &&& es[a].kind.spec_player_id() != es[d].kind.spec_player_id()
    &&& !es[a].hitlist@.contains(es[d].key)
}

/// The events of `a`'s attacks on each of the entities from `d` on, in order: a hit on one
/// defender does not keep it from hitting the others.
pub open spec fn attacker_events(es: Seq<CollisionEntity>, cs: Contacts, a: int, d: int) -> Seq<(usize, CollisionEvent)>
    decreases es.len() - d,
{
    if d < 0 || d >= es.len() {
        Seq::empty()
    } else if may_attack(es, a, d) {
        pair_events(es, cs, a, d).0 + attacker_events(es, cs, a, d + 1)
    } else {
        attacker_events(es, cs, a, d + 1)
    }
}

/// The events of the attacks of the entities from `a` on, in the order they happen, each
/// with the index of the entity it is told to.
pub open spec fn all_events(es: Seq<CollisionEntity>, cs: Contacts, a: int) -> Seq<(usize, CollisionEvent)>
    decreases es.len() - a,
{
    if a < 0 || a >= es.len() {
        Seq::empty()
    } else {
        attacker_events(es, cs, a, 0) + all_events(es, cs, a + 1)
    }
}

/// The events told to entity `e`, in order.
pub open spec fn events_for(s: Seq<(usize, CollisionEvent)>, e: int) -> Seq<CollisionEvent>
    decreases s.len(),
{
    if s.len() == 0 {
        Seq::empty()
    } else if s.last().0 == e {
        events_for(s.drop_last(), e).push(s.last().1)
    } else {
        events_for(s.drop_last(), e)
    }
}

fn make_event(kind: CollisionKind, a: usize, d: usize, i: usize, j: usize, rebound: bool) -> (r: CollisionEvent)
    ensures
        r == event(kind, a as int, d as int, i as int, j as int, rebound),
{
    CollisionEvent { kind, attacker: a, defender: d, atk_box: i, def_box: j, rebound }
}

fn two_events(
    ta: usize,
    ea: CollisionEvent,
    tb: usize,
    eb: CollisionEvent,
) -> (r: Vec<(usize, CollisionEvent)>)
    ensures
        r@ == seq![(ta, ea), (tb, eb)],
{
    let mut v: Vec<(usize, CollisionEvent)> = Vec::new();
    v.push((ta, ea));
    v.push((tb, eb));
    assert(v@ =~= seq![(ta, ea), (tb, eb)]);
    v
}

/// Entity indices and box indices lie in the tables.
pub open spec fn in_tables(es: Seq<CollisionEntity>, cs: Contacts, a: int, d: int) -> bool {
    &&& contacts_wf(es, cs)
    &&& 0 <= a < es.len()
    &&& 0 <= d < es.len()
}

fn clang_scan_exec(es: &Vec<CollisionEntity>, cs: &Contacts, a: usize, d: usize, i: usize) -> (r: Option<Vec<(usize, CollisionEvent)>>)
    requires
        in_tables(es@, *cs, a as int, d as int),
        i < es@[a as int].attack_boxes@.len(),
        es@[a as int].attack_boxes@[i as int] is Hit,
    ensures
        match r {
            Some(v) => clang_scan(es@, *cs, a as int, d as int, i as int, 0) == Some(v@),
            None => clang_scan(es@, *cs, a as int, d as int, i as int, 0) is None,
        },
{
    let def = &es[d];
    let mut j: usize = 0;
    while j < def.boxes.len()
        invariant
            in_tables(es@, *cs, a as int, d as int),
            i < es@[a as int].attack_boxes@.len(),
            es@[a as int].attack_boxes@[i as int] is Hit,
            *def == es@[d as int],
            j <= def.boxes@.len(),
            clang_scan(es@, *cs, a as int, d as int, i as int, j as int) == clang_scan(
                es@,
                *cs,
                a as int,
                d as int,
                i as int,
                0,
            ),
        decreases def.boxes@.len() - j,
    {
        assert(cs.boxes@[a as int]@[d as int]@[i as int]@.len() == es@[d as int].boxes@.len());
        let c = cs.boxes[a][d][i][j];
        match def.boxes[j] {
            BoxRole::Hit(def_hit) => {
                if c == Contact::Hit {
                    let atk_hit = match es[a].attack_boxes[i] {
                        BoxRole::Hit(h) => h,
                        _ => def_hit,
                    };
                    let diff: i128 = (atk_hit.damage as i128) - (def_hit.damage as i128);
                    let v = if diff >= 9 {
                        two_events(
                            a,
                            make_event(CollisionKind::Clang, a, d, i, j, atk_hit.enable_rebound),
                            d,
                            make_event(CollisionKind::HitAtk, a, d, i, j, false),
                        )
                    } else if diff <= -9 {
                        two_events(
                            a,
                            make_event(CollisionKind::HitAtk, a, d, i, j, false),
                            d,
                            make_event(CollisionKind::Clang, a, d, i, j, def_hit.enable_rebound),
                        )
                    } else {
                        two_events(
                            a,
                            make_event(CollisionKind::Clang, a, d, i, j, atk_hit.enable_rebound),
                            d,
                            make_event(CollisionKind::Clang, a, d, i, j, def_hit.enable_rebound),
                        )
                    };
                    return Some(v);
                }
            },
            _ => {},
        }
        j = j + 1;
    }
    None
}

fn hurt_scan_exec(es: &Vec<CollisionEntity>, cs: &Contacts, a: usize, d: usize, i: usize) -> (r: Option<Vec<(usize, CollisionEvent)>>)
    requires
        in_tables(es@, *cs, a as int, d as int),
        i < es@[a as int].attack_boxes@.len(),
    ensures
        match r {
            Some(v) => hurt_scan(es@, *cs, a as int, d as int, i as int, 0) == Some(v@),
            None => hurt_scan(es@, *cs, a as int, d as int, i as int, 0) is None,
        },
{
    let def = &es[d];
    let mut j: usize = 0;
    while j < def.boxes.len()
        invariant
            in_tables(es@, *cs, a as int, d as int),
            i < es@[a as int].attack_boxes@.len(),
            *def == es@[d as int],
            j <= def.boxes@.len(),
            hurt_scan(es@, *cs, a as int, d as int, i as int, j as int) == hurt_scan(
                es@,
                *cs,
                a as int,
                d as int,
                i as int,
                0,
            ),
        decreases def.boxes@.len() - j,
    {
        assert(cs.boxes@[a as int]@[d as int]@[i as int]@.len() == es@[d as int].boxes@.len());
        let c = cs.boxes[a][d][i][j];
        let role = def.boxes[j];
        match c {
            Contact::Hit => {
                match role {
                    BoxRole::Hurt => {
                        return Some(
                            two_events(
                                a,
                                make_event(CollisionKind::HitAtk, a, d, i, j, false),
                                d,
                                make_event(CollisionKind::HitDef, a, d, i, j, false),
                            ),
                        );
                    },
                    BoxRole::Invincible => {
                        let mut v: Vec<(usize, CollisionEvent)> = Vec::new();
                        v.push((a, make_event(CollisionKind::HitAtk, a, d, i, j, false)));
                        assert(v@ =~= seq![(a, event(CollisionKind::HitAtk, a as int, d as int, i as int, j as int, false))]);
                        return Some(v);
                    },
                    _ => {},
                }
            },
            Contact::Phantom => {
                match role {
                    BoxRole::Hurt => {
                        return Some(
                            two_events(
                                a,
                                make_event(CollisionKind::PhantomAtk, a, d, i, j, false),
                                d,
                                make_event(CollisionKind::PhantomDef, a, d, i, j, false),
                            ),
                        );
                    },
                    _ => {},
                }
            },
            Contact::Apart => {},
        }
        j = j + 1;
    }
    None
}

fn grab_scan_exec(es: &Vec<CollisionEntity>, cs: &Contacts, a: usize, d: usize, i: usize) -> (r: Option<Vec<(usize, CollisionEvent)>>)
    requires
        in_tables(es@, *cs, a as int, d as int),
        i < es@[a as int].attack_boxes@.len(),
    ensures
        match r {
            Some(v) => grab_scan(es@, *cs, a as int, d as int, i as int, 0) == Some(v@),
            None => grab_scan(es@, *cs, a as int, d as int, i as int, 0) is None,
        },
{
    let def = &es[d];
    let mut j: usize = 0;
    while j < def.boxes.len()
        invariant
            in_tables(es@, *cs, a as int, d as int),
            i < es@[a as int].attack_boxes@.len(),
            *def == es@[d as int],
            j <= def.boxes@.len(),
            grab_scan(es@, *cs, a as int, d as int, i as int, j as int) == grab_scan(
                es@,
                *cs,
                a as int,
                d as int,
                i as int,
                0,
            ),
        decreases def.boxes@.len() - j,
    {
        assert(cs.boxes@[a as int]@[d as int]@[i as int]@.len() == es@[d as int].boxes@.len());
        if cs.boxes[a][d][i][j] == Contact::Hit {
            return Some(
                two_events(
                    a,
                    make_event(CollisionKind::GrabAtk, a, d, i, j, false),
                    d,
                    make_event(CollisionKind::GrabDef, a, d, i, j, false),
                ),
            );
        }
        j = j + 1;
    }
    None
}

fn hitbox_loop_exec(es: &Vec<CollisionEntity>, cs: &Contacts, a: usize, d: usize) -> (r: (Vec<(usize, CollisionEvent)>, bool))
    requires
        in_tables(es@, *cs, a as int, d as int),
    ensures
        (r.0@, r.1) == hitbox_loop(es@, *cs, a as int, d as int, 0),
{
    let atk = &es[a];
    let is_fighter = match es[d].kind {
        EntityKind::Fighter { .. } => true,
        _ => false,
    };
    let mut i: usize = 0;
    while i < atk.attack_boxes.len()
        invariant
            in_tables(es@, *cs, a as int, d as int),
            *atk == es@[a as int],
            is_fighter == (es@[d as int].kind is Fighter),
            i <= atk.attack_boxes@.len(),
            hitbox_loop(es@, *cs, a as int, d as int, i as int) == hitbox_loop(
                es@,
                *cs,
                a as int,
                d as int,
                0,
            ),
        decreases atk.attack_boxes@.len() - i,
    {
        match atk.attack_boxes[i] {
            BoxRole::Hit(h) => {
                assert(cs.shield@[a as int]@[d as int]@.len() == es@[a as int].attack_boxes@.len());
                if is_fighter && cs.shield[a][d][i] {
                    let v = two_events(
                        a,
                        make_event(CollisionKind::HitShieldAtk, a, d, i, 0, false),
                        d,
                        make_event(CollisionKind::HitShieldDef, a, d, i, 0, false),
                    );
                    return (v, false);
                }
                if h.enable_clang {
                    match clang_scan_exec(es, cs, a, d, i) {
                        Some(v) => {
                            return (v, true);
                        },
                        None => {},
                    }
                }
                match hurt_scan_exec(es, cs, a, d, i) {
                    Some(v) => {
                        return (v, true);
                    },
                    None => {},
                }
            },
            _ => {},
        }
        i = i + 1;
    }
    (Vec::new(), false)
}

fn grab_loop_exec(es: &Vec<CollisionEntity>, cs: &Contacts, a: usize, d: usize) -> (r: Option<Vec<(usize, CollisionEvent)>>)
    requires
        in_tables(es@, *cs, a as int, d as int),
    ensures
        match r {
            Some(v) => grab_loop(es@, *cs, a as int, d as int, 0) == Some(v@),
            None => grab_loop(es@, *cs, a as int, d as int, 0) is None,
        },
{
    let atk = &es[a];
    let mut i: usize = 0;
    while i < atk.attack_boxes.len()
        invariant
            in_tables(es@, *cs, a as int, d as int),
            *atk == es@[a as int],
            i <= atk.attack_boxes@.len(),
            grab_loop(es@, *cs, a as int, d as int, i as int) == grab_loop(es@, *cs, a as int, d as int, 0),
        decreases atk.attack_boxes@.len() - i,
    {
        match atk.attack_boxes[i] {
            BoxRole::Grab => {
                match grab_scan_exec(es, cs, a, d, i) {
                    Some(v) => {
                        return Some(v);
                    },
                    None => {},
                }
            },
            _ => {},
        }
        i = i + 1;
    }
    None
}

fn pair_events_exec(es: &Vec<CollisionEntity>, cs: &Contacts, a: usize, d: usize) -> (r: (Vec<(usize, CollisionEvent)>, bool))
    requires
        in_tables(es@, *cs, a as int, d as int),
    ensures
        (r.0@, r.1) == pair_events(es@, *cs, a as int, d as int),
{
    let (mut h, stop) = hitbox_loop_exec(es, cs, a, d);
    if stop {
        (h, true)
    } else {
        match grab_loop_exec(es, cs, a, d) {
            Some(g) => {
                let mut g = g;
                h.append(&mut g);
                (h, true)
            },
            None => (h, false),
        }
    }
}

fn in_hitlist(hitlist: &Vec<u64>, key: u64) -> (r: bool)
    ensures
        r == hitlist@.contains(key),
{
    let mut k: usize = 0;
    while k < hitlist.len()
        invariant
            k <= hitlist@.len(),
            forall|m: int| 0 <= m < k ==> hitlist@[m] != key,
        decreases hitlist@.len() - k,
    {
        if hitlist[k] == key {
            return true;
        }
        k = k + 1;
    }
    false
}

fn attacker_events_exec(es: &Vec<CollisionEntity>, cs: &Contacts, a: usize) -> (r: Vec<(usize, CollisionEvent)>)
    requires
        contacts_wf(es@, *cs),
        a < es@.len(),
    ensures
        r@ == attacker_events(es@, *cs, a as int, 0),
{
    let mut acc: Vec<(usize, CollisionEvent)> = Vec::new();
    let mut d: usize = 0;
    while d < es.len()
        invariant
            contacts_wf(es@, *cs),
            a < es@.len(),
            d <= es@.len(),
            acc@ + attacker_events(es@, *cs, a as int, d as int) == attacker_events(es@, *cs, a as int, 0),
        decreases es@.len() - d,
    {
        let may = a != d && es[a].kind.can_hit(&es[d].kind) && !in_hitlist(&es[a].hitlist, es[d].key);
        if may {
            let (mut p, _) = pair_events_exec(es, cs, a, d);
            let ghost before = acc@;
            acc.append(&mut p);
            assert(before + attacker_events(es@, *cs, a as int, d as int) =~= acc@ + attacker_events(es@, *cs, a as int, d + 1));
        }
        d = d + 1;
    }
    assert(acc@ + attacker_events(es@, *cs, a as int, d as int) =~= acc@);
    acc
}

fn all_events_exec(es: &Vec<CollisionEntity>, cs: &Contacts) -> (r: Vec<(usize, CollisionEvent)>)
    requires
        contacts_wf(es@, *cs),
    ensures
        r@ == all_events(es@, *cs, 0),
{
    let mut acc: Vec<(usize, CollisionEvent)> = Vec::new();
    let mut a: usize = 0;
    while a < es.len()
        invariant
            contacts_wf(es@, *cs),
            a <= es@.len(),
            acc@ + all_events(es@, *cs, a as int) == all_events(es@, *cs, 0),
        decreases es@.len() - a,
    {
        let ghost before = acc@;
        let mut evs = attacker_events_exec(es, cs, a);
        acc.append(&mut evs);
        assert(before + all_events(es@, *cs, a as int) =~= acc@ + all_events(es@, *cs, a + 1));
        a = a + 1;
    }
    assert(acc@ + all_events(es@, *cs, a as int) =~= acc@);
    acc
}

fn events_of(flat: &Vec<(usize, CollisionEvent)>, e: usize) -> (r: Vec<CollisionEvent>)
    ensures
        r@ == events_for(flat@, e as int),
{
    let mut v: Vec<CollisionEvent> = Vec::new();
    let mut k: usize = 0;
    while k < flat.len()
        invariant
            k <= flat@.len(),
            v@ == events_for(flat@.subrange(0, k as int), e as int),
        decreases flat@.len() - k,
    {
        assert(flat@.subrange(0, k + 1).drop_last() =~= flat@.subrange(0, k as int));
        let (t, ev) = flat[k];
        if t == e {
            v.push(ev);
        }
        k = k + 1;
    }
    assert(flat@.subrange(0, flat@.len() as int) =~= flat@);
    v
}

/// Checks every entity's attacks against every other entity, given how their boxes meet,
/// and returns the collisions each entity takes part in, in the order they happen. An
/// entity attacks the others in order, skipping itself, entities of the same player and
/// those it already hit during its action. Against one entity, its hitboxes come first in
/// order: a hitbox reaching a fighter's raised shield is shielded and ends its hitboxes'
/// turn against that entity; a hitbox that can clang clangs with the first hitbox it
/// overlaps; otherwise it hits the first hurtbox it overlaps, connects with the first
/// invincible box it overlaps, or phantom-hits the first hurtbox it touches. Then its grab
/// boxes grab with the first box they overlap. A clang, hit, phantom hit or grab ends the
/// entity's attacks on that entity for the frame, and it goes on to the next: one hitbox
/// meeting the hurtboxes of several entities hits them all.
pub fn collision_check(es: &Vec<CollisionEntity>, cs: &Contacts) -> (r: Vec<Vec<CollisionEvent>>)
    requires
        contacts_wf(es@, *cs),
    ensures
        r@.len() == es@.len(),
        forall|e: int| 0 <= e < es@.len() ==> (#[trigger] r@[e])@ == events_for(all_events(es@, *cs, 0), e),
{
    let flat = all_events_exec(es, cs);
    let mut r: Vec<Vec<CollisionEvent>> = Vec::new();
    let mut e: usize = 0;
    while e < es.len()
        invariant
            e <= es@.len(),
            flat@ == all_events(es@, *cs, 0),
            r@.len() == e,
            forall|k: int| 0 <= k < e ==> (#[trigger] r@[k])@ == events_for(flat@, k),
        decreases es@.len() - e,
    {
        r.push(events_of(&flat, e));
        e = e + 1;
    }
    r
}

/// Every event of `s` is between attacker `a` and defender `d`, told to one of the two.
pub open spec fn events_between(s: Seq<(usize, CollisionEvent)>, a: int, d: int) -> bool {
    forall|k: int|
        0 <= k < s.len() ==> {
            &&& (#[trigger] s[k]).1.attacker == a
            &&& s[k].1.defender == d
            &&& (s[k].0 == a || s[k].0 == d)
        }
}

proof fn lemma_concat_between(s: Seq<(usize, CollisionEvent)>, t: Seq<(usize, CollisionEvent)>, a: int, d: int)
    requires
        events_between(s, a, d),
        events_between(t, a, d),
    ensures
        events_between(s + t, a, d),
{
    assert forall|k: int| 0 <= k < (s + t).len() implies {
        &&& (#[trigger] (s + t)[k]).1.attacker == a
        &&& (s + t)[k].1.defender == d
        &&& ((s + t)[k].0 == a || (s + t)[k].0 == d)
    } by {
        if k < s.len() {
            assert((s + t)[k] == s[k]);
        } else {
            assert((s + t)[k] == t[k - s.len()]);
        }
    }
}

proof fn lemma_scans_between(es: Seq<CollisionEntity>, cs: Contacts, a: int, d: int, i: int, j: int)
    requires
        0 <= a < es.len(),
        0 <= d < es.len(),
        es.len() <= usize::MAX,
    ensures
        clang_scan(es, cs, a, d, i, j) matches Some(v) ==> events_between(v, a, d),
        hurt_scan(es, cs, a, d, i, j) matches Some(v) ==> events_between(v, a, d),
        grab_scan(es, cs, a, d, i, j) matches Some(v) ==> events_between(v, a, d),
    decreases es[d].boxes@.len() - j,
{
    if 0 <= j < es[d].boxes@.len() {
        lemma_scans_between(es, cs, a, d, i, j + 1);
    }
}



proof fn lemma_loops_between(es: Seq<CollisionEntity>, cs: Contacts, a: int, d: int, i: int)
    requires
        0 <= a < es.len(),
        0 <= d < es.len(),
        es.len() <= usize::MAX,
    ensures
        events_between(hitbox_loop(es, cs, a, d, i).0, a, d),
        grab_loop(es, cs, a, d, i) matches Some(v) ==> events_between(v, a, d),
    decreases es[a].attack_boxes@.len() - i,
{
    if 0 <= i < es[a].attack_boxes@.len() {
        lemma_loops_between(es, cs, a, d, i + 1);
        lemma_scans_between(es, cs, a, d, i, 0);
    }
}

/// Every event of `s` is told to its attacker or defender, and comes from an attack that
/// `may_attack` allows.
pub open spec fn events_allowed(es: Seq<CollisionEntity>, s: Seq<(usize, CollisionEvent)>) -> bool {
    forall|k: int|
        0 <= k < s.len() ==> {
            &&& may_attack(es, (#[trigger] s[k]).1.attacker as int, s[k].1.defender as int)
            &&& s[k].1.attacker < es.len() && s[k].1.defender < es.len()
            &&& (s[k].0 == s[k].1.attacker || s[k].0 == s[k].1.defender)
        }
}

proof fn lemma_concat_allowed(es: Seq<CollisionEntity>, s: Seq<(usize, CollisionEvent)>, t: Seq<(usize, CollisionEvent)>)
    requires
        events_allowed(es, s),
        events_allowed(es, t),
    ensures
        events_allowed(es, s + t),
{
    assert forall|k: int| 0 <= k < (s + t).len() implies {
        &&& may_attack(es, (#[trigger] (s + t)[k]).1.attacker as int, (s + t)[k].1.defender as int)
        &&& ((s + t)[k].0 == (s + t)[k].1.attacker || (s + t)[k].0 == (s + t)[k].1.defender)
    } by {
        if k < s.len() {
            assert((s + t)[k] == s[k]);
        } else {
            assert((s + t)[k] == t[k - s.len()]);
        }
    }
}

proof fn lemma_attacker_events_allowed(es: Seq<CollisionEntity>, cs: Contacts, a: int, d: int)
    requires
        0 <= a < es.len(),
        es.len() <= usize::MAX,
    ensures
        events_allowed(es, attacker_events(es, cs, a, d)),
    decreases es.len() - d,
{
    if 0 <= d < es.len() {
        lemma_attacker_events_allowed(es, cs, a, d + 1);
        if may_attack(es, a, d) {
            lemma_loops_between(es, cs, a, d, 0);
            let (h, stop) = hitbox_loop(es, cs, a, d, 0);
            let p = pair_events(es, cs, a, d).0;
            if !stop {
                if let Some(g) = grab_loop(es, cs, a, d, 0) {
                    lemma_concat_between(h, g, a, d);
                }
            }
            assert(events_between(p, a, d));
            assert forall|k: int| 0 <= k < p.len() implies {
                &&& may_attack(es, (#[trigger] p[k]).1.attacker as int, p[k].1.defender as int)
                &&& p[k].1.attacker < es.len() && p[k].1.defender < es.len()
                &&& (p[k].0 == p[k].1.attacker || p[k].0 == p[k].1.defender)
            } by {
                assert(p[k].1.attacker == a && p[k].1.defender == d);
            }
            lemma_concat_allowed(es, p, attacker_events(es, cs, a, d + 1));
        }
    }
}

proof fn lemma_all_events_allowed(es: Seq<CollisionEntity>, cs: Contacts, a: int)
    requires
        es.len() <= usize::MAX,
    ensures
        events_allowed(es, all_events(es, cs, a)),
    decreases es.len() - a,
{
    if 0 <= a < es.len() {
        lemma_attacker_events_allowed(es, cs, a, 0);
        lemma_all_events_allowed(es, cs, a + 1);
        lemma_concat_allowed(es, attacker_events(es, cs, a, 0), all_events(es, cs, a + 1));
    }
}

/// Every collision found is between two different entities (both indices of `es`) that can
/// hit each other (they are not, and do not belong to, the same player), the attacker had not
/// hit the defender yet during its action, and it is told to one of the two.
pub proof fn lemma_collisions_allowed(es: Seq<CollisionEntity>, cs: Contacts)
    requires
        es.len() <= usize::MAX,
    ensures
        events_allowed(es, all_events(es, cs, 0)),
{
    lemma_all_events_allowed(es, cs, 0);
}

/// The collision kinds told to the defender: a hit, a shielded hit, a grab, a phantom hit.
pub open spec fn defender_side(k: CollisionKind) -> bool {
    k == CollisionKind::HitDef || k == CollisionKind::HitShieldDef || k == CollisionKind::GrabDef
        || k == CollisionKind::PhantomDef
}

/// The attacker's side of a collision that `e` is the defender's side of: a hit, a shielded
/// hit, a grab or a phantom hit.
pub open spec fn attacker_side(e: CollisionEvent) -> Option<CollisionEvent> {
    match e.kind {
        CollisionKind::HitDef => Some(CollisionEvent { kind: CollisionKind::HitAtk, ..e }),
        CollisionKind::HitShieldDef => Some(CollisionEvent { kind: CollisionKind::HitShieldAtk, ..e }),
        CollisionKind::GrabDef => Some(CollisionEvent { kind: CollisionKind::GrabAtk, ..e }),
        CollisionKind::PhantomDef => Some(CollisionEvent { kind: CollisionKind::PhantomAtk, ..e }),
        _ => None,
    }
}

/// Every defender's event of `s` is told to its defender, and its attacker's event is told
/// to its attacker in `s` as well.
pub open spec fn sides_paired(s: Seq<(usize, CollisionEvent)>) -> bool {
    forall|k: int|
        0 <= k < s.len() && defender_side((#[trigger] s[k]).1.kind) ==> {
            &&& s[k].0 == s[k].1.defender
            &&& s.contains((s[k].1.attacker, attacker_side(s[k].1).unwrap()))
        }
}

proof fn lemma_paired_concat(s: Seq<(usize, CollisionEvent)>, t: Seq<(usize, CollisionEvent)>)
    requires
        sides_paired(s),
        sides_paired(t),
    ensures
        sides_paired(s + t),
{
    let u = s + t;
    assert forall|k: int| 0 <= k < u.len() && defender_side((#[trigger] u[k]).1.kind) implies {
        &&& u[k].0 == u[k].1.defender
        &&& u.contains((u[k].1.attacker, attacker_side(u[k].1).unwrap()))
    } by {
        if k < s.len() {
            assert(u[k] == s[k]);
            let x = (s[k].1.attacker, attacker_side(s[k].1).unwrap());
            let w = choose|w: int| 0 <= w < s.len() && s[w] == x;
            assert(u[w] == x);
        } else {
            assert(u[k] == t[k - s.len()]);
            let x = (t[k - s.len()].1.attacker, attacker_side(t[k - s.len()].1).unwrap());
            let w = choose|w: int| 0 <= w < t.len() && t[w] == x;
            assert(u[w + s.len()] == x);
        }
    }
}

proof fn lemma_pair_seq(a: int, d: int, atk: CollisionEvent, def: CollisionEvent)
    requires
        defender_side(def.kind),
        def.defender == d as usize,
        def.attacker == a as usize,
        attacker_side(def) == Some(atk),
    ensures
        sides_paired(seq![(a as usize, atk), (d as usize, def)]),
{
    let s = seq![(a as usize, atk), (d as usize, def)];
    assert(s[0] == (a as usize, atk));
}

proof fn lemma_hurt_paired(es: Seq<CollisionEntity>, cs: Contacts, a: int, d: int, i: int, j: int)
    ensures
        hurt_events(es, cs, a, d, i, j) matches Some(evs) ==> sides_paired(evs),
{
    match contact(cs, a, d, i, j) {
        Contact::Hit => {
            if es[d].boxes@[j] is Hurt {
                lemma_pair_seq(a, d, event(CollisionKind::HitAtk, a, d, i, j, false), event(CollisionKind::HitDef, a, d, i, j, false));
            }
        },
        Contact::Phantom => {
            if es[d].boxes@[j] is Hurt {
                lemma_pair_seq(a, d, event(CollisionKind::PhantomAtk, a, d, i, j, false), event(CollisionKind::PhantomDef, a, d, i, j, false));
            }
        },
        Contact::Apart => {},
    }
}

proof fn lemma_scans_paired(es: Seq<CollisionEntity>, cs: Contacts, a: int, d: int, i: int, j: int)
    ensures
        clang_scan(es, cs, a, d, i, j) matches Some(evs) ==> sides_paired(evs),
        hurt_scan(es, cs, a, d, i, j) matches Some(evs) ==> sides_paired(evs),
        grab_scan(es, cs, a, d, i, j) matches Some(evs) ==> sides_paired(evs),
    decreases es[d].boxes@.len() - j,
{
    if 0 <= j < es[d].boxes@.len() {
        lemma_scans_paired(es, cs, a, d, i, j + 1);
        lemma_hurt_paired(es, cs, a, d, i, j);
        lemma_pair_seq(a, d, event(CollisionKind::GrabAtk, a, d, i, j, false), event(CollisionKind::GrabDef, a, d, i, j, false));
    }
}

proof fn lemma_loops_paired(es: Seq<CollisionEntity>, cs: Contacts, a: int, d: int, i: int)
    ensures
        sides_paired(hitbox_loop(es, cs, a, d, i).0),
        grab_loop(es, cs, a, d, i) matches Some(evs) ==> sides_paired(evs),
    decreases es[a].attack_boxes@.len() - i,
{
    if 0 <= i < es[a].attack_boxes@.len() {
        lemma_loops_paired(es, cs, a, d, i + 1);
        lemma_scans_paired(es, cs, a, d, i, 0);
        lemma_pair_seq(a, d, event(CollisionKind::HitShieldAtk, a, d, i, 0, false), event(CollisionKind::HitShieldDef, a, d, i, 0, false));
    }
}

proof fn lemma_attacker_paired(es: Seq<CollisionEntity>, cs: Contacts, a: int, d: int)
    ensures
        sides_paired(attacker_events(es, cs, a, d)),
    decreases es.len() - d,
{
    if 0 <= d < es.len() {
        lemma_attacker_paired(es, cs, a, d + 1);
        lemma_loops_paired(es, cs, a, d, 0);
        let (h, stop) = hitbox_loop(es, cs, a, d, 0);
        if let Some(g) = grab_loop(es, cs, a, d, 0) {
            lemma_paired_concat(h, g);
        }
        lemma_paired_concat(pair_events(es, cs, a, d).0, attacker_events(es, cs, a, d + 1));
    }
}

proof fn lemma_all_paired(es: Seq<CollisionEntity>, cs: Contacts, a: int)
    ensures
        sides_paired(all_events(es, cs, a)),
    decreases es.len() - a,
{
    if 0 <= a < es.len() {
        lemma_all_paired(es, cs, a + 1);
        lemma_attacker_paired(es, cs, a, 0);
        lemma_paired_concat(attacker_events(es, cs, a, 0), all_events(es, cs, a + 1));
    }
}

proof fn lemma_events_for_contains(s: Seq<(usize, CollisionEvent)>, e: int, ev: CollisionEvent)
    requires
        0 <= e <= usize::MAX,
    ensures
        events_for(s, e).contains(ev) <==> s.contains((e as usize, ev)),
    decreases s.len(),
{
    if s.len() > 0 {
        lemma_events_for_contains(s.drop_last(), e, ev);
        let r = events_for(s.drop_last(), e);
        if s.contains((e as usize, ev)) {
            let w = choose|w: int| 0 <= w < s.len() && s[w] == (e as usize, ev);
            if w < s.len() - 1 {
                assert(s.drop_last()[w] == (e as usize, ev));
                if s.last().0 == e {
                    assert(events_for(s, e)[r.len() as int] == s.last().1);
                    let v = choose|v: int| 0 <= v < r.len() && r[v] == ev;
                    assert(events_for(s, e)[v] == ev);
                }
            } else {
                assert(s.last() == (e as usize, ev));
                assert(events_for(s, e) == r.push(ev));
                assert(events_for(s, e)[r.len() as int] == ev);
            }
        }
        if events_for(s, e).contains(ev) {
            let v = choose|v: int| 0 <= v < events_for(s, e).len() && events_for(s, e)[v] == ev;
            if s.last().0 == e && v == r.len() {
                assert(s[s.len() - 1] == (e as usize, ev));
            } else {
                assert(r[v] == ev);
                let w = choose|w: int| 0 <= w < s.drop_last().len() && s.drop_last()[w] == (e as usize, ev);
                assert(s[w] == (e as usize, ev));
            }
        }
    }
}

/// Every defender's side of a collision has its attacker's side: a hit, a shielded hit, a
/// grab or a phantom hit told to defender `d` is also told, as the attacker's event, to the
/// attacker that made it.
pub proof fn lemma_defender_events_paired(es: Seq<CollisionEntity>, cs: Contacts, d: int, ev: CollisionEvent)
    requires
        es.len() <= usize::MAX,
        0 <= d < es.len(),
        events_for(all_events(es, cs, 0), d).contains(ev),
        defender_side(ev.kind),
    ensures
        ev.defender == d,
        ev.attacker < es.len(),
        events_for(all_events(es, cs, 0), ev.attacker as int).contains(attacker_side(ev).unwrap()),
{
    let s = all_events(es, cs, 0);
    lemma_all_paired(es, cs, 0);
    lemma_all_events_allowed(es, cs, 0);
    lemma_events_for_contains(s, d, ev);
    let w = choose|w: int| 0 <= w < s.len() && s[w] == (d as usize, ev);
    assert(defender_side(s[w].1.kind));
    lemma_events_for_contains(s, ev.attacker as int, attacker_side(ev).unwrap());
}

proof fn lemma_contains_concat(s: Seq<(usize, CollisionEvent)>, t: Seq<(usize, CollisionEvent)>, x: (usize, CollisionEvent))
    ensures
        s.contains(x) ==> (s + t).contains(x),
        t.contains(x) ==> (s + t).contains(x),
{
    if s.contains(x) {
        let w = choose|w: int| 0 <= w < s.len() && s[w] == x;
        assert((s + t)[w] == x);
    }
    if t.contains(x) {
        let w = choose|w: int| 0 <= w < t.len() && t[w] == x;
        assert((s + t)[w + s.len()] == x);
    }
}

proof fn lemma_attacker_reaches(es: Seq<CollisionEntity>, cs: Contacts, a: int, d0: int, d: int, k: int)
    requires
        0 <= d0 <= d < es.len(),
        may_attack(es, a, d),
        0 <= k < pair_events(es, cs, a, d).0.len(),
    ensures
        attacker_events(es, cs, a, d0).contains(pair_events(es, cs, a, d).0[k]),
    decreases d - d0,
{
    let x = pair_events(es, cs, a, d).0[k];
    if d0 == d {
        assert(pair_events(es, cs, a, d).0.contains(x));
        lemma_contains_concat(pair_events(es, cs, a, d).0, attacker_events(es, cs, a, d + 1), x);
    } else {
        lemma_attacker_reaches(es, cs, a, d0 + 1, d, k);
        if may_attack(es, a, d0) {
            lemma_contains_concat(pair_events(es, cs, a, d0).0, attacker_events(es, cs, a, d0 + 1), x);
        }
    }
}

proof fn lemma_all_reaches(es: Seq<CollisionEntity>, cs: Contacts, a0: int, a: int, x: (usize, CollisionEvent))
    requires
        0 <= a0 <= a < es.len(),
        attacker_events(es, cs, a, 0).contains(x),
    ensures
        all_events(es, cs, a0).contains(x),
    decreases a - a0,
{
    if a0 == a {
        lemma_contains_concat(attacker_events(es, cs, a, 0), all_events(es, cs, a + 1), x);
    } else {
        lemma_all_reaches(es, cs, a0 + 1, a, x);
        lemma_contains_concat(attacker_events(es, cs, a0, 0), all_events(es, cs, a0 + 1), x);
    }
}

/// An attack on one entity does not keep the attacker from the others: every entity `d` that
/// `a` may attack gets all the events of `a`'s attack on it, so one hitbox meeting the
/// hurtboxes of several entities hits each of them.
pub proof fn lemma_every_defender_attacked(es: Seq<CollisionEntity>, cs: Contacts, a: int, d: int, k: int)
    requires
        0 <= a < es.len(),
        0 <= d < es.len(),
        may_attack(es, a, d),
        0 <= k < pair_events(es, cs, a, d).0.len(),
    ensures
        all_events(es, cs, 0).contains(pair_events(es, cs, a, d).0[k]),
{
    lemma_attacker_reaches(es, cs, a, 0, d, k);
    lemma_all_reaches(es, cs, 0, a, pair_events(es, cs, a, d).0[k]);
}

/// Every box index of every entity fits a `usize`.
pub open spec fn box_counts_fit(es: Seq<CollisionEntity>) -> bool {
    forall|e: int|
        0 <= e < es.len() ==> (#[trigger] es[e]).attack_boxes@.len() <= usize::MAX && es[e].boxes@.len() <= usize::MAX
}

/// What a collision needs of the boxes that made it. The defender's side: a hit lands with a
/// hitbox overlapping a hurtbox (an invincible box takes nothing), a phantom hit with a
/// hitbox just touching a hurtbox, a grab with a grab box overlapping any box, a shielded hit
/// with a hitbox reaching a fighter's raised shield. The attacker's side: a hit with a hitbox
/// overlapping a hurtbox, an invincible box or (winning a clang) a hitbox; a clang with a
/// hitbox that can clang overlapping a hitbox; a phantom hit, grab or shielded hit as above.
pub open spec fn event_justified(es: Seq<CollisionEntity>, cs: Contacts, to: usize, e: CollisionEvent) -> bool {
    let a = e.attacker as int;
    let d = e.defender as int;
    let i = e.atk_box as int;
    let j = e.def_box as int;
    &&& to == e.attacker || to == e.defender
    &&& defender_side(e.kind) ==> to == e.defender
    &&& e.kind == CollisionKind::HitAtk && to == e.defender ==> es[d].boxes@[j] is Hit
        && es[a].attack_boxes@[i]->Hit_0.damage - es[d].boxes@[j]->Hit_0.damage >= 9
    &&& e.kind == CollisionKind::HitAtk && to == e.attacker && es[d].boxes@[j] is Hit
        ==> es[a].attack_boxes@[i]->Hit_0.damage - es[d].boxes@[j]->Hit_0.damage <= -9
    &&& e.kind == CollisionKind::Clang && to == e.attacker ==> es[a].attack_boxes@[i]->Hit_0.damage
        - es[d].boxes@[j]->Hit_0.damage > -9 && e.rebound == es[a].attack_boxes@[i]->Hit_0.enable_rebound
    &&& e.kind == CollisionKind::Clang && to == e.defender ==> es[a].attack_boxes@[i]->Hit_0.damage
        - es[d].boxes@[j]->Hit_0.damage < 9 && e.rebound == es[d].boxes@[j]->Hit_0.enable_rebound
    &&& match e.kind {
        CollisionKind::HitDef => {
            &&& 0 <= i < es[a].attack_boxes@.len() && es[a].attack_boxes@[i] is Hit
            &&& 0 <= j < es[d].boxes@.len() && es[d].boxes@[j] is Hurt
            &&& contact(cs, a, d, i, j) == Contact::Hit
        },
        CollisionKind::PhantomDef => {
            &&& 0 <= i < es[a].attack_boxes@.len() && es[a].attack_boxes@[i] is Hit
            &&& 0 <= j < es[d].boxes@.len() && es[d].boxes@[j] is Hurt
            &&& contact(cs, a, d, i, j) == Contact::Phantom
        },
        CollisionKind::GrabDef => {
            &&& 0 <= i < es[a].attack_boxes@.len() && es[a].attack_boxes@[i] is Grab
            &&& 0 <= j < es[d].boxes@.len()
            &&& contact(cs, a, d, i, j) == Contact::Hit
        },
        CollisionKind::HitShieldDef | CollisionKind::HitShieldAtk => {
            &&& 0 <= i < es[a].attack_boxes@.len() && es[a].attack_boxes@[i] is Hit
            &&& es[d].kind is Fighter
            &&& cs.shield@[a]@[d]@[i]
        },
        CollisionKind::HitAtk => {
            &&& 0 <= i < es[a].attack_boxes@.len() && es[a].attack_boxes@[i] is Hit
            &&& 0 <= j < es[d].boxes@.len()
            &&& (es[d].boxes@[j] is Hurt || es[d].boxes@[j] is Invincible || es[d].boxes@[j] is Hit)
            &&& contact(cs, a, d, i, j) == Contact::Hit
        },
        CollisionKind::Clang => {
            &&& 0 <= i < es[a].attack_boxes@.len() && es[a].attack_boxes@[i] is Hit
            &&& es[a].attack_boxes@[i]->Hit_0.enable_clang
            &&& 0 <= j < es[d].boxes@.len() && es[d].boxes@[j] is Hit
            &&& contact(cs, a, d, i, j) == Contact::Hit
        },
        CollisionKind::PhantomAtk => {
            &&& 0 <= i < es[a].attack_boxes@.len() && es[a].attack_boxes@[i] is Hit
            &&& 0 <= j < es[d].boxes@.len() && es[d].boxes@[j] is Hurt
            &&& contact(cs, a, d, i, j) == Contact::Phantom
        },
        CollisionKind::GrabAtk => {
            &&& 0 <= i < es[a].attack_boxes@.len() && es[a].attack_boxes@[i] is Grab
            &&& 0 <= j < es[d].boxes@.len()
            &&& contact(cs, a, d, i, j) == Contact::Hit
        },
        _ => true,
    }
}

/// Every event of `s` is justified by the boxes that made it.
pub open spec fn events_justified(es: Seq<CollisionEntity>, cs: Contacts, s: Seq<(usize, CollisionEvent)>) -> bool {
    forall|k: int| 0 <= k < s.len() ==> event_justified(es, cs, s[k].0, (#[trigger] s[k]).1)
}

proof fn lemma_justified_concat(es: Seq<CollisionEntity>, cs: Contacts, s: Seq<(usize, CollisionEvent)>, t: Seq<(usize, CollisionEvent)>)
    requires
        events_justified(es, cs, s),
        events_justified(es, cs, t),
    ensures
        events_justified(es, cs, s + t),
{
    assert forall|k: int| 0 <= k < (s + t).len() implies event_justified(es, cs, (s + t)[k].0, (#[trigger] (s + t)[k]).1) by {
        if k < s.len() {
            assert((s + t)[k] == s[k]);
        } else {
            assert((s + t)[k] == t[k - s.len()]);
        }
    }
}

proof fn lemma_scans_justified(es: Seq<CollisionEntity>, cs: Contacts, a: int, d: int, i: int, j: int)
    requires
        es.len() <= usize::MAX,
        box_counts_fit(es),
        0 <= a < es.len(),
        0 <= d < es.len(),
        a != d,
        0 <= i < es[a].attack_boxes@.len(),
        0 <= j,
    ensures
        es[a].attack_boxes@[i] is Hit ==> (hurt_scan(es, cs, a, d, i, j) matches Some(v) ==> events_justified(es, cs, v)),
        es[a].attack_boxes@[i] is Hit && es[a].attack_boxes@[i]->Hit_0.enable_clang ==> (clang_scan(es, cs, a, d, i, j) matches Some(v)
            ==> events_justified(es, cs, v)),
        es[a].attack_boxes@[i] is Grab ==> (grab_scan(es, cs, a, d, i, j) matches Some(v) ==> events_justified(es, cs, v)),
    decreases es[d].boxes@.len() - j,
{
    if j < es[d].boxes@.len() {
        lemma_scans_justified(es, cs, a, d, i, j + 1);
        assert(es[a].attack_boxes@.len() <= usize::MAX && es[d].boxes@.len() <= usize::MAX);
        if es[a].attack_boxes@[i] is Hit {
            if let Some(v) = hurt_events(es, cs, a, d, i, j) {
                assert forall|k: int| 0 <= k < v.len() implies event_justified(es, cs, v[k].0, (#[trigger] v[k]).1) by {
                    assert(v[k].1.atk_box as int == i && v[k].1.def_box as int == j);
                    assert(v[k].1.attacker as int == a && v[k].1.defender as int == d);
                }
            }
        }
        if es[d].boxes@[j] is Hit && contact(cs, a, d, i, j) == Contact::Hit && es[a].attack_boxes@[i] is Hit
            && es[a].attack_boxes@[i]->Hit_0.enable_clang {
            let v = clang_events(es, a, d, i, j);
            assert forall|k: int| 0 <= k < v.len() implies event_justified(es, cs, v[k].0, (#[trigger] v[k]).1) by {
                assert(v[k].1.atk_box as int == i && v[k].1.def_box as int == j);
                assert(v[k].1.attacker as int == a && v[k].1.defender as int == d);
            }
        }
        if contact(cs, a, d, i, j) == Contact::Hit && es[a].attack_boxes@[i] is Grab {
            let v = seq![
                (a as usize, event(CollisionKind::GrabAtk, a, d, i, j, false)),
                (d as usize, event(CollisionKind::GrabDef, a, d, i, j, false)),
            ];
            assert forall|k: int| 0 <= k < v.len() implies event_justified(es, cs, v[k].0, (#[trigger] v[k]).1) by {
                assert(v[k].1.atk_box as int == i && v[k].1.def_box as int == j);
                assert(v[k].1.attacker as int == a && v[k].1.defender as int == d);
            }
        }
    }
}

proof fn lemma_loops_justified(es: Seq<CollisionEntity>, cs: Contacts, a: int, d: int, i: int)
    requires
        es.len() <= usize::MAX,
        box_counts_fit(es),
        0 <= a < es.len(),
        0 <= d < es.len(),
        a != d,
        0 <= i,
    ensures
        events_justified(es, cs, hitbox_loop(es, cs, a, d, i).0),
        grab_loop(es, cs, a, d, i) matches Some(v) ==> events_justified(es, cs, v),
    decreases es[a].attack_boxes@.len() - i,
{
    if i < es[a].attack_boxes@.len() {
        lemma_loops_justified(es, cs, a, d, i + 1);
        lemma_scans_justified(es, cs, a, d, i, 0);
        assert(es[a].attack_boxes@.len() <= usize::MAX);
        let v = seq![
            (a as usize, event(CollisionKind::HitShieldAtk, a, d, i, 0, false)),
            (d as usize, event(CollisionKind::HitShieldDef, a, d, i, 0, false)),
        ];
        assert forall|k: int| 0 <= k < v.len() implies (es[a].attack_boxes@[i] is Hit && es[d].kind is Fighter
            && cs.shield@[a]@[d]@[i] ==> event_justified(es, cs, v[k].0, (#[trigger] v[k]).1)) by {}
    } else {
        let v = hitbox_loop(es, cs, a, d, i).0;
        assert(v.len() == 0);
    }
}

proof fn lemma_attacker_justified(es: Seq<CollisionEntity>, cs: Contacts, a: int, d: int)
    requires
        es.len() <= usize::MAX,
        box_counts_fit(es),
        0 <= a < es.len(),
        0 <= d,
    ensures
        events_justified(es, cs, attacker_events(es, cs, a, d)),
    decreases es.len() - d,
{
    if d < es.len() {
        lemma_attacker_justified(es, cs, a, d + 1);
        if may_attack(es, a, d) {
            lemma_loops_justified(es, cs, a, d, 0);
            let h = hitbox_loop(es, cs, a, d, 0).0;
            if let Some(g) = grab_loop(es, cs, a, d, 0) {
                lemma_justified_concat(es, cs, h, g);
            }
            lemma_justified_concat(es, cs, pair_events(es, cs, a, d).0, attacker_events(es, cs, a, d + 1));
        }
    } else {
        assert(attacker_events(es, cs, a, d).len() == 0);
    }
}

proof fn lemma_all_justified(es: Seq<CollisionEntity>, cs: Contacts, a: int)
    requires
        es.len() <= usize::MAX,
        box_counts_fit(es),
        0 <= a,
    ensures
        events_justified(es, cs, all_events(es, cs, a)),
    decreases es.len() - a,
{
    if a < es.len() {
        lemma_all_justified(es, cs, a + 1);
        lemma_attacker_justified(es, cs, a, 0);
        lemma_justified_concat(es, cs, attacker_events(es, cs, a, 0), all_events(es, cs, a + 1));
    } else {
        assert(all_events(es, cs, a).len() == 0);
    }
}

/// Every collision an entity is told of is made by the boxes it names. A defender takes a hit
/// only from a hitbox overlapping one of its hurtboxes (so an invincible box never passes a hit
/// on to its entity), a phantom hit from a hitbox just touching a hurtbox, a grab from a grab
/// box overlapping one of its boxes, a shielded hit from a hitbox reaching its raised shield;
/// the attacker's hits, clangs, grabs and shielded hits likewise come from its boxes meeting
/// the defender's as `event_justified` says.
pub proof fn lemma_events_justified(es: Seq<CollisionEntity>, cs: Contacts, d: int, ev: CollisionEvent)
    requires
        es.len() <= usize::MAX,
        box_counts_fit(es),
        0 <= d < es.len(),
        events_for(all_events(es, cs, 0), d).contains(ev),
    ensures
        event_justified(es, cs, d as usize, ev),
{
    let s = all_events(es, cs, 0);
    lemma_all_justified(es, cs, 0);
    lemma_events_for_contains(s, d, ev);
    let w = choose|w: int| 0 <= w < s.len() && s[w] == (d as usize, ev);
    assert(event_justified(es, cs, s[w].0, s[w].1));
}

} // verus!
