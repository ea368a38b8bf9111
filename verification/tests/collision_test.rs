use canon_collision::collision::{
    collision_check, BoxRole, CollisionEntity, Contact, Contacts, HitboxInfo,
};
use canon_collision::entity::{CollisionKind, EntityKind};

fn hitbox(damage: i64, clang: bool) -> BoxRole {
    BoxRole::Hit(HitboxInfo { damage, enable_clang: clang, enable_rebound: true })
}

fn fighter(id: usize, attack: Vec<BoxRole>, boxes: Vec<BoxRole>) -> CollisionEntity {
    CollisionEntity {
        key: 100 + id as u64,
        kind: EntityKind::Fighter { id, team: 0 },
        hitlist: vec![],
        attack_boxes: attack,
        boxes,
    }
}

/// Contacts where every pair of boxes is `c`, for boxes sized as the entities'.
fn all_contacts(es: &[CollisionEntity], c: Contact, shield: bool) -> Contacts {
    let boxes = es
        .iter()
        .map(|a| {
            es.iter()
                .map(|d| a.attack_boxes.iter().map(|_| vec![c; d.boxes.len()]).collect())
                .collect()
        })
        .collect();
    let shields = es
        .iter()
        .map(|a| es.iter().map(|_| vec![shield; a.attack_boxes.len()]).collect())
        .collect();
    Contacts { boxes, shield: shields }
}

#[test]
fn overlapping_hitbox_hits_hurtbox() {
    let es = vec![
        fighter(0, vec![hitbox(10, false)], vec![BoxRole::Hurt]),
        fighter(1, vec![], vec![BoxRole::Hurt]),
    ];
    let cs = all_contacts(&es, Contact::Hit, false);
    let r = collision_check(&es, &cs);
    assert_eq!(r.len(), 2);
    assert_eq!(r[0].len(), 1);
    assert_eq!(r[0][0].kind, CollisionKind::HitAtk);
    assert_eq!(r[0][0].defender, 1);
    assert_eq!(r[1].len(), 1);
    assert_eq!(r[1][0].kind, CollisionKind::HitDef);
    assert_eq!(r[1][0].attacker, 0);
}

#[test]
fn touching_hitbox_is_a_phantom_hit() {
    let es = vec![
        fighter(0, vec![hitbox(10, false)], vec![]),
        fighter(1, vec![], vec![BoxRole::Hurt]),
    ];
    let cs = all_contacts(&es, Contact::Phantom, false);
    let r = collision_check(&es, &cs);
    assert_eq!(r[0][0].kind, CollisionKind::PhantomAtk);
    assert_eq!(r[1][0].kind, CollisionKind::PhantomDef);
}

#[test]
fn raised_shield_blocks_the_hit() {
    let es = vec![
        fighter(0, vec![hitbox(10, false)], vec![]),
        fighter(1, vec![], vec![BoxRole::Hurt]),
    ];
    let cs = all_contacts(&es, Contact::Hit, true);
    let r = collision_check(&es, &cs);
    assert_eq!(r[0].len(), 1);
    assert_eq!(r[0][0].kind, CollisionKind::HitShieldAtk);
    assert_eq!(r[1][0].kind, CollisionKind::HitShieldDef);
}

#[test]
fn clang_by_damage_difference() {
    let strong = fighter(0, vec![hitbox(20, true)], vec![hitbox(20, true)]);
    let weak = fighter(1, vec![], vec![hitbox(5, true)]);
    let es = vec![strong, weak];
    let cs = all_contacts(&es, Contact::Hit, false);
    let r = collision_check(&es, &cs);
    assert_eq!(r[0].len(), 1);
    assert_eq!(r[0][0].kind, CollisionKind::Clang);
    assert!(r[0][0].rebound);
    assert_eq!(r[1][0].kind, CollisionKind::HitAtk);
    let even = vec![
        fighter(0, vec![hitbox(10, true)], vec![]),
        fighter(1, vec![], vec![hitbox(12, true)]),
    ];
    let cs = all_contacts(&even, Contact::Hit, false);
    let r = collision_check(&even, &cs);
    assert_eq!(r[0][0].kind, CollisionKind::Clang);
    assert_eq!(r[1][0].kind, CollisionKind::Clang);
}

#[test]
fn grab_box_grabs() {
    let es = vec![
        fighter(0, vec![BoxRole::Grab], vec![]),
        fighter(1, vec![], vec![BoxRole::Other]),
    ];
    let cs = all_contacts(&es, Contact::Hit, false);
    let r = collision_check(&es, &cs);
    assert_eq!(r[0][0].kind, CollisionKind::GrabAtk);
    assert_eq!(r[1][0].kind, CollisionKind::GrabDef);
}

#[test]
fn no_hits_on_own_entities_or_twice() {
    let mut own = fighter(1, vec![], vec![BoxRole::Hurt]);
    own.kind = EntityKind::Projectile { owner_id: Some(0) };
    let es = vec![fighter(0, vec![hitbox(10, false)], vec![BoxRole::Hurt]), own];
    let cs = all_contacts(&es, Contact::Hit, false);
    let r = collision_check(&es, &cs);
    assert!(r[0].is_empty() && r[1].is_empty());
    let mut already = fighter(0, vec![hitbox(10, false)], vec![]);
    already.hitlist = vec![101];
    let es = vec![already, fighter(1, vec![], vec![BoxRole::Hurt])];
    let cs = all_contacts(&es, Contact::Hit, false);
    let r = collision_check(&es, &cs);
    assert!(r[0].is_empty() && r[1].is_empty());
}

#[test]
fn one_hitbox_hits_every_defender_it_meets() {
    let es = vec![
        fighter(0, vec![hitbox(10, false)], vec![]),
        fighter(1, vec![], vec![BoxRole::Hurt]),
        fighter(2, vec![], vec![BoxRole::Hurt]),
    ];
    let cs = all_contacts(&es, Contact::Hit, false);
    let r = collision_check(&es, &cs);
    assert_eq!(r[0].len(), 2);
    assert_eq!((r[0][0].kind, r[0][0].defender), (CollisionKind::HitAtk, 1));
    assert_eq!((r[0][1].kind, r[0][1].defender), (CollisionKind::HitAtk, 2));
    assert_eq!(r[1].len(), 1);
    assert_eq!((r[1][0].kind, r[1][0].attacker), (CollisionKind::HitDef, 0));
    assert_eq!(r[2].len(), 1);
    assert_eq!((r[2][0].kind, r[2][0].attacker), (CollisionKind::HitDef, 0));
}
