use canon_collision::entity::{
    onion_skin_frames,
    ActionDef, ActionFrame, ActionResult, ActionState, CollisionKind, DebugEntity, EntityDef,
    EntityKind, Hitlag, Item, ItemAction, ItemMessage, ItemPhysics, MessageTorielOven,
    ProjectileAction, RenderDebugType, TorielOven, TorielOvenAction,
};

fn def() -> EntityDef {
    EntityDef {
        actions: vec![
            ActionDef {
                name: "Idle".to_string(),
                frames: vec![ActionFrame { force_hitlist_reset: false }; 3],
                iasa: 1,
            },
            ActionDef {
                name: "Fall".to_string(),
                frames: vec![ActionFrame { force_hitlist_reset: true }; 2],
                iasa: 0,
            },
        ],
    }
}

fn set_action_name(r: &Option<ActionResult>) -> Option<String> {
    match r {
        Some(ActionResult::SetAction(a)) => Some(a.clone()),
        _ => None,
    }
}

#[test]
fn render_debug_type_cycles_in_four_steps() {
    let mut t = RenderDebugType::default();
    assert_eq!(t, RenderDebugType::Normal);
    t.step();
    assert_eq!(t, RenderDebugType::NormalAndDebug);
    t.step();
    assert_eq!(t, RenderDebugType::Debug);
    t.step();
    assert_eq!(t, RenderDebugType::DebugOnionSkin);
    t.step();
    assert_eq!(t, RenderDebugType::Normal);
}

#[test]
fn render_debug_type_flags() {
    assert!(RenderDebugType::Normal.normal());
    assert!(!RenderDebugType::Normal.debug());
    assert!(RenderDebugType::NormalAndDebug.normal());
    assert!(RenderDebugType::NormalAndDebug.debug());
    assert!(!RenderDebugType::Debug.normal());
    assert!(RenderDebugType::Debug.debug());
    assert!(!RenderDebugType::Debug.onion_skin());
    assert!(RenderDebugType::DebugOnionSkin.onion_skin());
    assert!(!RenderDebugType::DebugOnionSkin.normal());
}

#[test]
fn debug_entity_all_and_default() {
    let all = DebugEntity::all();
    assert_eq!(all.render, RenderDebugType::NormalAndDebug);
    assert!(all.physics && all.input && all.input_diff && all.action && all.frame);
    assert!(all.stick_vector && all.c_stick_vector && all.di_vector && all.hitbox_vectors);
    assert!(all.ecb && all.cam_area && all.item_grab_area);
    let none = DebugEntity::default();
    assert_eq!(none.render, RenderDebugType::Normal);
    assert!(!none.physics && !none.ecb && !none.item_grab_area);
}

#[test]
fn action_result_builders() {
    assert_eq!(set_action_name(&ActionResult::set_action("Idle")), Some("Idle".to_string()));
    match ActionResult::set_action_keep_frame("Attack") {
        Some(ActionResult::SetActionKeepFrame(a)) => assert_eq!(a, "Attack"),
        _ => panic!("expected a kept-frame action"),
    }
    match ActionResult::set_frame(7) {
        Some(ActionResult::SetFrame(f)) => assert_eq!(f, 7),
        _ => panic!("expected a frame"),
    }
}

#[test]
fn item_action_names_round_trip() {
    for a in [
        ItemAction::Spawn,
        ItemAction::Idle,
        ItemAction::Fall,
        ItemAction::Held,
        ItemAction::Thrown,
        ItemAction::Dropped,
    ] {
        assert_eq!(ItemAction::from_name(&a.name().to_string()), Some(a));
    }
    assert_eq!(ItemAction::from_name(&"Walk".to_string()), None);
    assert_eq!(ItemAction::Dropped.name(), "Dropped");
}

#[test]
fn projectile_and_oven_names_round_trip() {
    for a in [ProjectileAction::Spawn, ProjectileAction::Travel, ProjectileAction::Hit] {
        assert_eq!(ProjectileAction::from_name(&a.name().to_string()), Some(a));
    }
    for a in [TorielOvenAction::EarlyEnd, TorielOvenAction::AttackExtended, TorielOvenAction::Attack] {
        assert_eq!(TorielOvenAction::from_name(&a.name().to_string()), Some(a));
    }
    assert_eq!(ProjectileAction::default(), ProjectileAction::Spawn);
}

#[test]
fn hitlag_counts_down_to_inactive() {
    let mut h = Hitlag::Attack { counter: 2 };
    h.step();
    assert_eq!(h, Hitlag::Attack { counter: 1 });
    h.step();
    assert_eq!(h, Hitlag::Inactive);
    h.step();
    assert_eq!(h, Hitlag::Inactive);
    let mut l = Hitlag::Launch { counter: 1 };
    l.step();
    assert_eq!(l, Hitlag::Inactive);
}

#[test]
fn action_index_finds_first_by_name() {
    let d = def();
    assert_eq!(d.action_index(&"Fall".to_string()), Some(1));
    assert_eq!(d.action_index(&"Idle".to_string()), Some(0));
    assert_eq!(d.action_index(&"Run".to_string()), None);
}

#[test]
fn action_state_frame_queries() {
    let d = def();
    let mut s = ActionState::new("toriel".to_string(), "Idle");
    assert_eq!(s.frame, 0);
    assert!(s.get_entity_frame(&d).is_some());
    assert!(!s.interruptible(&d));
    s.frame = 1;
    assert!(s.interruptible(&d));
    assert!(s.first_interruptible(&d));
    assert!(!s.last_frame(&d));
    s.frame = 2;
    assert!(s.last_frame(&d));
    assert!(!s.past_last_frame(&d));
    s.frame = 3;
    assert!(s.past_last_frame(&d));
    assert!(s.get_entity_frame(&d).is_none());
    s.frame = -1;
    assert!(s.get_entity_frame(&d).is_none());
}

#[test]
fn process_set_action_restarts_counting_on_a_new_action() {
    let d = def();
    let mut s = ActionState::new("toriel".to_string(), "Idle");
    s.frame = 2;
    s.frame_no_restart = 5;
    s.hitlist.push(9);
    s.process_action_result(&d, ActionResult::set_action("Idle"), None);
    assert_eq!(s.frame, 0);
    assert_eq!(s.frame_no_restart, 6);
    assert!(s.hitlist.is_empty());
    s.process_action_result(&d, ActionResult::set_action("Fall"), None);
    assert_eq!(s.action, "Fall");
    assert_eq!(s.frame_no_restart, 0);
}

#[test]
fn process_set_frame_past_the_end_expires() {
    let d = def();
    let mut s = ActionState::new("toriel".to_string(), "Fall");
    s.process_action_result(&d, ActionResult::set_frame(1), Some("Idle".to_string()));
    assert_eq!(s.action, "Fall");
    assert_eq!(s.frame, 1);
    assert_eq!(s.frame_no_restart, 1);
    s.process_action_result(&d, ActionResult::set_frame(2), Some("Idle".to_string()));
    assert_eq!(s.action, "Idle");
    assert_eq!(s.frame, 0);
    assert_eq!(s.frame_no_restart, 1);
    s.process_action_result(&d, ActionResult::set_action_keep_frame("Fall"), None);
    assert_eq!(s.action, "Fall");
    assert_eq!(s.frame, 0);
    assert_eq!(s.frame_no_restart, 2);
}

#[test]
fn advance_steps_frames_and_starts_actions() {
    let d = def();
    let mut s = ActionState::new("toriel".to_string(), "Fall");
    // nothing asked for: the next frame
    assert!(!s.advance(&d, None, Some("Idle".to_string())));
    assert_eq!(s.frame, 1);
    assert_eq!(s.frame_no_restart, 1);
    // past the last frame: the expiry action starts
    assert!(!s.advance(&d, None, Some("Idle".to_string())));
    assert_eq!(s.action, "Idle");
    assert_eq!(s.frame, 0);
    // a new action asks for a second step
    assert!(s.advance(&d, ActionResult::set_action("Fall"), None));
    assert_eq!(s.action, "Fall");
    assert_eq!(s.frame, 0);
    assert!(!s.advance(&d, ActionResult::set_frame(1), None));
    assert_eq!(s.frame, 1);
}

#[test]
fn forced_frames_clear_the_hitlist() {
    let d = def();
    let mut s = ActionState::new("toriel".to_string(), "Idle");
    s.hitlist.push(4);
    s.clear_hitlist_if_forced(&d);
    assert_eq!(s.hitlist, vec![4]);
    let mut f = ActionState::new("toriel".to_string(), "Fall");
    f.hitlist.push(4);
    f.frame = 1;
    f.clear_hitlist_if_forced(&d);
    assert!(f.hitlist.is_empty());
}

#[test]
fn make_valid_repairs_missing_action_and_frame() {
    let d = def();
    let mut s = ActionState::new("toriel".to_string(), "Gone");
    s.frame = 7;
    s.make_valid(&d);
    assert_eq!(s.action, "Idle");
    assert_eq!(s.frame, 0);
    let mut t = ActionState::new("toriel".to_string(), "Gone");
    t.frame = 2;
    t.make_valid(&d);
    assert_eq!(t.action, "Idle");
    assert_eq!(t.frame, 2);
    let mut u = ActionState::new("toriel".to_string(), "Fall");
    u.frame = -1;
    u.make_valid(&d);
    assert_eq!(u.action, "Fall");
    assert_eq!(u.frame, 0);
}

#[test]
fn record_collision_updates_hitlist_and_hitlag() {
    let mut s = ActionState::new("toriel".to_string(), "Idle");
    s.record_collision(CollisionKind::HitAtk, 42, 5);
    assert_eq!(s.hitlist, vec![42]);
    assert_eq!(s.hitlag, Hitlag::Attack { counter: 5 });
    s.record_collision(CollisionKind::HitDef, 43, 4);
    assert_eq!(s.hitlist, vec![42]);
    assert_eq!(s.hitlag, Hitlag::Launch { counter: 4 });
    s.record_collision(CollisionKind::Clang, 44, 1);
    assert_eq!(s.hitlag, Hitlag::Launch { counter: 4 });
}

#[test]
fn item_logic() {
    let mut item = Item { owner_id: Some(1) };
    let r = item.action_step(Some(ItemAction::Spawn), 4, 5);
    assert_eq!(item.owner_id, None);
    assert_eq!(set_action_name(&r), Some("Idle".to_string()));
    let mut held = Item { owner_id: Some(1) };
    assert!(held.action_step(Some(ItemAction::Held), 1, 5).is_none());
    assert_eq!(held.owner_id, Some(1));
    assert_eq!(set_action_name(&held.grabbed(Some(3))), Some("Held".to_string()));
    assert_eq!(held.owner_id, Some(3));
    assert_eq!(set_action_name(&held.process_message(ItemMessage::Thrown)), Some("Thrown".to_string()));
    let (r, delete) = Item::physics_result(ItemPhysics::Land);
    assert_eq!(set_action_name(&r), Some("Idle".to_string()));
    assert!(!delete);
    let (r, delete) = Item::physics_result(ItemPhysics::OutOfBounds);
    assert!(r.is_none() && delete);
    let r = Item::step_collision(&vec![CollisionKind::GrabDef, CollisionKind::HitDef]);
    assert_eq!(set_action_name(&r), Some("Fall".to_string()));
    assert!(Item::step_collision(&vec![CollisionKind::AbsorbAtk]).is_none());
}

#[test]
fn projectile_logic() {
    let (r, delete) = ProjectileAction::action_step(Some(ProjectileAction::Hit), 3, 4, false);
    assert_eq!(set_action_name(&r), Some("Hit".to_string()));
    assert!(delete);
    let (r, delete) = ProjectileAction::action_step(Some(ProjectileAction::Spawn), 3, 4, false);
    assert_eq!(set_action_name(&r), Some("Travel".to_string()));
    assert!(!delete);
    let (r, delete) = ProjectileAction::action_step(Some(ProjectileAction::Travel), 0, 4, true);
    assert!(r.is_none() && delete);
    let r = ProjectileAction::step_collision(&vec![CollisionKind::AbsorbAtk]);
    assert_eq!(set_action_name(&r), Some("Hit".to_string()));
    assert!(ProjectileAction::step_collision(&vec![CollisionKind::HitDef]).is_none());
}

#[test]
fn toriel_oven_attacks_when_kept_alive() {
    let mut oven = TorielOven::new(0, true);
    assert!(oven.process_message(MessageTorielOven::KeepAlive).is_none());
    assert!(oven.keep_alive);
    let (r, delete) = oven.action_step(Some(TorielOvenAction::EarlyEnd), 20, 40, true);
    match r {
        Some(ActionResult::SetActionKeepFrame(a)) => assert_eq!(a, "AttackExtended"),
        _ => panic!("expected the extended attack"),
    }
    assert!(!delete);
    assert!(!oven.face_right);
    assert!(!oven.keep_alive);
    let (r, delete) = oven.action_step(Some(TorielOvenAction::EarlyEnd), 20, 21, false);
    assert!(r.is_none());
    assert!(delete);
    let mut oven = TorielOven::new(0, true);
    oven.process_message(MessageTorielOven::KeepAlive);
    let (r, _) = oven.action_step(Some(TorielOvenAction::EarlyEnd), 20, 40, false);
    match r {
        Some(ActionResult::SetActionKeepFrame(a)) => assert_eq!(a, "Attack"),
        _ => panic!("expected the attack"),
    }
    assert!(oven.face_right);
}

#[test]
fn entity_kinds_hit_other_players_only() {
    let fighter = EntityKind::Fighter { id: 0, team: 2 };
    let own = EntityKind::Projectile { owner_id: Some(0) };
    let other = EntityKind::Item { owner_id: Some(1) };
    let loose = EntityKind::Item { owner_id: None };
    assert!(!fighter.can_hit(&own));
    assert!(fighter.can_hit(&other));
    assert!(other.can_hit(&fighter));
    assert!(fighter.can_hit(&loose));
    assert!(!loose.can_hit(&EntityKind::TorielOven { owner_id: None }));
    assert_eq!(fighter.team(), 2);
    assert_eq!(other.team(), 0);
    assert_eq!(own.player_id(), Some(0));
}

fn no_debug_keys() -> canon_collision::entity::DebugKeys {
    canon_collision::entity::DebugKeys {
        shift_held: false,
        f1: false,
        f2: false,
        f3: false,
        f4: false,
        f5: false,
        f6: false,
        f7: false,
        f8: false,
        f9: false,
        f10: false,
        f11: false,
        f12: false,
    }
}

#[test]
fn debug_function_keys_toggle() {
    let mut d = DebugEntity::default();
    let mut keys = no_debug_keys();
    keys.f1 = true;
    keys.f2 = true;
    keys.shift_held = true;
    keys.f9 = true;
    d.step(keys);
    assert!(d.physics);
    assert!(d.input_diff);
    assert!(!d.input);
    assert_eq!(d.render, RenderDebugType::NormalAndDebug);
    d.step(keys);
    assert!(!d.physics);
    let mut all = no_debug_keys();
    all.f11 = true;
    d.step(all);
    assert!(d.item_grab_area && d.ecb);
    all.f12 = true;
    d.step(all);
    assert!(!d.item_grab_area && !d.ecb);
    assert_eq!(d.render, RenderDebugType::Normal);
}

#[test]
fn onion_skins_look_back_five_frames_newest_first() {
    let h = vec![Some(true), Some(true), None, Some(true), Some(false), Some(true), Some(true)];
    // the last five entries are 2..7; entry 2 has no entity and entry 4 a deleted frame
    assert_eq!(onion_skin_frames(&h), vec![6, 5, 3]);
    assert_eq!(onion_skin_frames(&vec![Some(true), Some(true)]), vec![1, 0]);
    assert!(onion_skin_frames(&vec![]).is_empty());
}
