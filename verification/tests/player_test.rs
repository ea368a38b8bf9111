use canon_collision::player::{
    platform_after_delete, AerialAttack, AerialAttackInput, ExpiryEffect, ExpiryInput,
    CollisionStep, FighterCollision, GroundAttackInput, HeldBy, JumpResult, LandInput, LockTimer, PhysicsResult, Player,
    PlayerAction, PowerShieldEffect, ShieldInput, SmashInput, SpecialInput, TechWindows,
    TimerInput,
};
use canon_collision::ground::{GroundEffect, GroundInput, TiltTurnFrames};
use canon_collision::player::{DashEffect, DashInput, LedgeInput, RunInput};
use canon_collision::rules::Goal;

fn expiry() -> ExpiryInput {
    ExpiryInput { run_held: false, jump_backwards: false, has_shield: true }
}

fn aerial() -> AerialAttackInput {
    AerialAttackInput {
        a_press: false,
        z_press: false,
        stick_forward: false,
        stick_back: false,
        stick_down: false,
        stick_up: false,
        c_forward: false,
        c_back: false,
        c_down: false,
        c_up: false,
        holding_item: false,
    }
}

#[test]
fn new_player_starts_fresh() {
    let p = Player::new(2, 1, Some(4), 1);
    assert_eq!(p.id, 2);
    assert_eq!(p.team, 1);
    assert_eq!(p.stocks, Some(4));
    assert_eq!(p.air_jumps_left, 1);
    assert_eq!(p.tech_timer, LockTimer::Free);
    assert!(p.result.deaths.is_empty());
}

#[test]
fn expired_actions() {
    assert_eq!(Player::action_expired(PlayerAction::Spawn, expiry()), (PlayerAction::Idle, ExpiryEffect::Nothing));
    assert_eq!(
        Player::action_expired(PlayerAction::PowerShield, expiry()),
        (PlayerAction::Shield, ExpiryEffect::Nothing)
    );
    let no_shield = ExpiryInput { has_shield: false, ..expiry() };
    assert_eq!(
        Player::action_expired(PlayerAction::PowerShield, no_shield),
        (PlayerAction::Idle, ExpiryEffect::Nothing)
    );
    assert_eq!(
        Player::action_expired(PlayerAction::Eliminated, expiry()),
        (PlayerAction::Eliminated, ExpiryEffect::Nothing)
    );
}

#[test]
fn timers_run_down_and_open_windows() {
    let mut p = Player::new(0, 0, Some(4), 1);
    p.parry_timer = 2;
    let input = TimerInput { l_press: true, r_press: false, trigger_held: false, z_press: false };
    let tech = TechWindows { active_window: 1, locked_window: 1 };
    p.step_timers(input, Some(PlayerAction::Fall), 3, Some(7), Some(tech));
    assert_eq!(p.parry_timer, 1);
    assert_eq!(p.lcancel_timer, 7);
    assert_eq!(p.tech_timer, LockTimer::Active(0));
    let idle = TimerInput { l_press: false, r_press: false, trigger_held: false, z_press: false };
    p.step_timers(idle, Some(PlayerAction::Fall), 4, Some(7), Some(tech));
    p.step_timers(idle, Some(PlayerAction::Fall), 5, Some(7), Some(tech));
    assert_eq!(p.tech_timer, LockTimer::Active(2));
    p.step_timers(idle, Some(PlayerAction::Fall), 6, Some(7), Some(tech));
    assert_eq!(p.tech_timer, LockTimer::Locked(0));
    assert_eq!(p.lcancel_timer, 4);
}

#[test]
fn z_that_starts_an_aerial_does_not_lcancel() {
    let mut p = Player::new(0, 0, Some(4), 1);
    let z = TimerInput { l_press: false, r_press: false, trigger_held: false, z_press: true };
    p.step_timers(z, Some(PlayerAction::Nair), 0, Some(7), None);
    assert_eq!(p.lcancel_timer, 0);
    p.step_timers(z, Some(PlayerAction::Nair), 1, Some(7), None);
    assert_eq!(p.lcancel_timer, 7);
}

#[test]
fn landing_actions_and_lag() {
    let mut p = Player::new(0, 0, Some(4), 1);
    let soft = LandInput { tech_forward: false, tech_backward: false, soft: true };
    p.lcancel_timer = 3;
    assert_eq!(p.land(Some(PlayerAction::Nair), 5, soft, 1), PlayerAction::NairLand);
    assert_eq!(p.land_frame_skip, 1);
    assert_eq!(p.land(Some(PlayerAction::AerialDodge), 5, soft, 1), PlayerAction::SpecialLand);
    assert_eq!(p.land_frame_skip, 2);
    assert_eq!(p.aerial_dodge_frame, Some(5));
    assert_eq!(p.land(Some(PlayerAction::Fall), 5, soft, 1), PlayerAction::Idle);
    assert_eq!(p.land(Some(PlayerAction::DamageFly), 5, soft, 1), PlayerAction::MissedTechStart);
    p.tech_timer = LockTimer::Active(0);
    let forward = LandInput { tech_forward: true, ..soft };
    assert_eq!(p.land(Some(PlayerAction::DamageFly), 5, forward, 1), PlayerAction::TechF);
}

#[test]
fn dying_loses_stocks_until_eliminated() {
    let mut p = Player::new(0, 0, Some(2), 1);
    p.hit_by = Some(3);
    assert_eq!(p.die(100, Goal::LastManStanding, 1), Some(PlayerAction::ReSpawn));
    assert_eq!(p.stocks, Some(1));
    assert_eq!(p.result.deaths.len(), 1);
    assert_eq!(p.result.deaths[0].player, Some(3));
    assert_eq!(p.result.deaths[0].frame, 100);
    assert_eq!(p.die(200, Goal::LastManStanding, 1), Some(PlayerAction::Eliminated));
    let mut q = Player::new(1, 0, None, 1);
    assert_eq!(q.die(5, Goal::KillDeathScore, 1), Some(PlayerAction::ReSpawn));
    let land = LandInput { tech_forward: false, tech_backward: false, soft: false };
    assert_eq!(
        q.physics_step(Some(PhysicsResult::Teeter), None, 0, land, 0, Goal::KillDeathScore, 1),
        Some(PlayerAction::Teeter)
    );
}

#[test]
fn platforms_renumber_after_a_deletion() {
    assert_eq!(platform_after_delete(3, 3), None);
    assert_eq!(platform_after_delete(4, 3), Some(3));
    assert_eq!(platform_after_delete(2, 3), Some(2));
}

#[test]
fn aerial_attack_checks() {
    assert_eq!(Player::check_attacks_aerial(aerial()), AerialAttack::Nothing);
    let a = AerialAttackInput { a_press: true, stick_back: true, ..aerial() };
    assert_eq!(Player::check_attacks_aerial(a), AerialAttack::Act(PlayerAction::Bair));
    let z = AerialAttackInput { z_press: true, holding_item: true, ..aerial() };
    assert_eq!(Player::check_attacks_aerial(z), AerialAttack::DropItem);
    let c = AerialAttackInput { c_up: true, holding_item: true, ..aerial() };
    assert_eq!(Player::check_attacks_aerial(c), AerialAttack::Act(PlayerAction::ItemThrowAirU));
}

#[test]
fn ground_special_smash_taunt_and_shield_checks() {
    let ground = GroundAttackInput { a_press: true, stick_forward: false, stick_down: true, stick_up: false, holding_item: false };
    assert_eq!(Player::check_attacks(ground), Some(PlayerAction::Dtilt));
    let special = SpecialInput { b_press: true, stick_sideways: true, stick_right: false, stick_down: false, stick_up: false };
    assert_eq!(
        Player::check_special(special, true),
        Some((PlayerAction::SspecialAirStart, Some(false)))
    );
    let smash = SmashInput {
        a_press: false,
        stick_smash_right: false,
        stick_smash_left: true,
        stick_smash_up: false,
        stick_smash_down: false,
        stick_right: false,
        c_smash_side: false,
        c_right: false,
        c_smash_up: false,
        c_smash_down: false,
    };
    assert_eq!(Player::check_smash(smash), Some((PlayerAction::Fsmash, Some(false))));
    assert_eq!(Player::check_taunt(false, true, true, false), Some(PlayerAction::TauntDown));
    let press = ShieldInput { l_or_r_press: true, held: true };
    assert_eq!(Player::check_shield(true, true, press), Some(PlayerAction::PowerShield));
    assert_eq!(Player::check_shield(true, false, press), Some(PlayerAction::ShieldOn));
    assert_eq!(Player::check_shield(false, false, press), None);
}

#[test]
fn jumps() {
    let mut p = Player::new(0, 0, Some(4), 1);
    assert_eq!(p.check_jump(true, false), Some(PlayerAction::JumpSquat));
    assert!(p.jumpsquat_button);
    assert_eq!(Player::jump_input(false, true), JumpResult::Stick);
    assert_eq!(p.check_jump_aerial(JumpResult::Stick, true), Some(PlayerAction::JumpAerialB));
    assert_eq!(p.air_jumps_left, 0);
    assert_eq!(p.check_jump_aerial(JumpResult::Button, false), None);
}

#[test]
fn collisions_pick_the_last_action() {
    let cs = vec![
        FighterCollision::GrabAtk,
        FighterCollision::HitDef { flies: true },
        FighterCollision::Other,
    ];
    assert_eq!(Player::collision_action(&cs), CollisionStep { action: Some(PlayerAction::DamageFly), held_by: None });
    assert_eq!(Player::collision_action(&vec![FighterCollision::Other]), CollisionStep { action: None, held_by: None });
    assert_eq!(
        Player::collision_action(&vec![
            FighterCollision::HitDef { flies: false },
            FighterCollision::GrabDef { grabber: 4, grabber_faces_right: true },
        ]),
        CollisionStep { action: Some(PlayerAction::GrabbedIdle), held_by: Some(HeldBy { grabber: 4, face_right: false }) }
    );
}

#[test]
fn grabbed_fighter_faces_away_from_its_grabber() {
    // a hit after the grab decides the action, but the grab still holds and turns the fighter
    let cs = vec![
        FighterCollision::GrabDef { grabber: 2, grabber_faces_right: false },
        FighterCollision::HitDef { flies: false },
    ];
    assert_eq!(
        Player::collision_action(&cs),
        CollisionStep { action: Some(PlayerAction::Damage), held_by: Some(HeldBy { grabber: 2, face_right: true }) }
    );
}

#[test]
fn power_shield_parry_and_stun() {
    let mut p = Player::new(0, 0, Some(4), 1);
    let window = Some(PowerShieldEffect { window: 4, duration: 9 });
    assert!(!p.shield_hit_parry(Some(PlayerAction::PowerShield), window, 2));
    assert_eq!(p.parry_timer, 9);
    let mut q = Player::new(1, 0, Some(4), 1);
    assert!(q.shield_hit_parry(Some(PlayerAction::PowerShield), window, 4));
    q.shield_hit_stun(Some(PlayerAction::PowerShield), window, 1);
    assert_eq!(q.stun_timer, 9);
    let mut r = Player::new(2, 0, Some(4), 1);
    r.shield_hit_stun(Some(PlayerAction::Shield), window, 1);
    assert_eq!(r.stun_timer, 0);
}

fn idle_input() -> GroundInput {
    GroundInput {
        x_or_y_press: false,
        stick_flicked_up: false,
        has_shield: true,
        has_power_shield: false,
        shield: ShieldInput { l_or_r_press: false, held: false },
        special: SpecialInput { b_press: false, stick_sideways: false, stick_right: false, stick_down: false, stick_up: false },
        smash: SmashInput {
            a_press: false,
            stick_smash_right: false,
            stick_smash_left: false,
            stick_smash_up: false,
            stick_smash_down: false,
            stick_right: false,
            c_smash_side: false,
            c_right: false,
            c_smash_up: false,
            c_smash_down: false,
        },
        attack: GroundAttackInput { a_press: false, stick_forward: false, stick_down: false, stick_up: false, holding_item: false },
        z_press: false,
        taunt_up: false,
        taunt_down: false,
        taunt_left: false,
        taunt_right: false,
        stick_crouch: false,
        dash: false,
        smash_turn: false,
        tilt_turn: false,
        walk: false,
        walk_teeter: false,
        crouch_end: false,
        land_crouch: false,
        run_turn: false,
        b_held: false,
    }
}

#[test]
fn idle_fighter_takes_the_first_check_that_applies() {
    let mut p = Player::new(0, 0, Some(4), 1);
    assert_eq!(p.ground_idle_action(Some(PlayerAction::Idle), 3, true, idle_input()), (None, GroundEffect::Friction, false));
    let mut input = idle_input();
    input.walk = true;
    input.dash = true;
    assert_eq!(
        p.ground_idle_action(Some(PlayerAction::Idle), 3, true, input),
        (Some(PlayerAction::Dash), GroundEffect::DashVelocity, false)
    );
    input.stick_crouch = true;
    assert_eq!(
        p.ground_idle_action(Some(PlayerAction::Idle), 3, true, input),
        (Some(PlayerAction::CrouchStart), GroundEffect::Nothing, false)
    );
    assert_eq!(
        p.ground_idle_action(Some(PlayerAction::Crouch), 3, true, input),
        (Some(PlayerAction::Dash), GroundEffect::DashVelocity, false)
    );
    input.special.b_press = true;
    input.special.stick_sideways = true;
    assert_eq!(
        p.ground_idle_action(Some(PlayerAction::Idle), 3, true, input),
        (Some(PlayerAction::SspecialGroundStart), GroundEffect::Face(false), false)
    );
    input.shield.held = true;
    assert_eq!(
        p.ground_idle_action(Some(PlayerAction::Idle), 3, true, input),
        (Some(PlayerAction::ShieldOn), GroundEffect::Nothing, false)
    );
    input.x_or_y_press = true;
    assert_eq!(
        p.ground_idle_action(Some(PlayerAction::Idle), 3, true, input),
        (Some(PlayerAction::JumpSquat), GroundEffect::Nothing, false)
    );
    assert!(p.jumpsquat_button);
    assert_eq!(
        p.ground_idle_action(Some(PlayerAction::Idle), 3, false, input),
        (None, GroundEffect::Friction, false)
    );
    let mut taunt = idle_input();
    taunt.b_held = true;
    assert_eq!(
        p.ground_idle_action(Some(PlayerAction::TauntDown), 0, false, taunt),
        (None, GroundEffect::Friction, true)
    );
}

#[test]
fn ledge_options_in_order_and_the_hang_limit() {
    let mut p = Player::new(0, 0, Some(4), 1);
    let none = LedgeInput { drop: false, jump: false, getup: false, attack: false, roll: false, damage_high: false };
    assert_eq!(p.ledge_idle_action(LedgeInput { roll: true, attack: true, ..none }), (Some(PlayerAction::LedgeAttack), false));
    assert_eq!(
        p.ledge_idle_action(LedgeInput { getup: true, damage_high: true, ..none }),
        (Some(PlayerAction::LedgeGetupSlow), false)
    );
    assert_eq!(p.ledge_idle_action(LedgeInput { drop: true, jump: true, ..none }), (Some(PlayerAction::Fall), true));
    assert_eq!(p.ledge_idle_action(none), (None, false));
    assert_eq!(p.ledge_idle_timer, 1);
    p.ledge_idle_timer = 600;
    assert_eq!(p.ledge_idle_action(none), (None, false));
    assert_eq!(p.ledge_idle_timer, 601);
    assert_eq!(p.ledge_idle_action(none), (Some(PlayerAction::DamageFall), true));
}

#[test]
fn running_choices() {
    let mut p = Player::new(0, 0, Some(4), 1);
    let base = RunInput {
        x_or_y_press: false,
        stick_flicked_up: false,
        has_shield: true,
        has_power_shield: false,
        shield: ShieldInput { l_or_r_press: false, held: false },
        stick_back: false,
        stick_run: true,
        z_press: false,
        a_press: false,
        special: SpecialInput { b_press: false, stick_sideways: false, stick_right: false, stick_down: false, stick_up: false },
    };
    assert_eq!(p.run_action(base), (None, None));
    assert_eq!(p.run_action(RunInput { stick_run: false, a_press: true, ..base }), (Some(PlayerAction::RunEnd), None));
    assert_eq!(p.run_action(RunInput { a_press: true, ..base }), (Some(PlayerAction::DashAttack), None));
    assert_eq!(p.run_action(RunInput { stick_back: true, z_press: true, ..base }), (Some(PlayerAction::RunTurn), None));
    let special = SpecialInput { b_press: true, stick_sideways: true, stick_right: true, stick_down: false, stick_up: false };
    assert_eq!(
        p.run_action(RunInput { special, ..base }),
        (Some(PlayerAction::SspecialGroundStart), Some(true))
    );
}

#[test]
fn walking_choices() {
    let mut p = Player::new(0, 0, Some(4), 1);
    let mut input = idle_input();
    assert_eq!(p.walk_action(Some(PlayerAction::Walk), false, input), (None, GroundEffect::Walking));
    input.taunt_left = true;
    input.tilt_turn = true;
    assert_eq!(p.walk_action(Some(PlayerAction::Walk), false, input), (Some(PlayerAction::TiltTurn), GroundEffect::Nothing));
    assert_eq!(p.walk_action(Some(PlayerAction::Walk), true, input), (Some(PlayerAction::Idle), GroundEffect::Nothing));
}

#[test]
fn dashing_turns_into_a_run() {
    let mut p = Player::new(0, 0, Some(4), 1);
    let base = DashInput {
        stick_run: true,
        has_shield: true,
        has_power_shield: false,
        shield: ShieldInput { l_or_r_press: false, held: false },
        z_press: false,
        a_press: false,
        x_or_y_press: false,
        stick_flicked_up: false,
        smash_turn: false,
    };
    assert_eq!(p.dash_action(13, 20, base), (Some(PlayerAction::Run), DashEffect::Nothing));
    assert_eq!(p.dash_action(12, 20, base), (None, DashEffect::Nothing));
    assert_eq!(p.dash_action(9, 10, base), (Some(PlayerAction::Run), DashEffect::Nothing));
    let shield = ShieldInput { l_or_r_press: false, held: true };
    assert_eq!(p.dash_action(2, 20, DashInput { shield, z_press: true, ..base }), (Some(PlayerAction::ShieldOn), DashEffect::ShieldSlow));
    assert_eq!(p.dash_action(2, 20, DashInput { smash_turn: true, ..base }), (Some(PlayerAction::SmashTurn), DashEffect::SmashTurn));
}

#[test]
fn crouching_landing_and_teetering() {
    let mut p = Player::new(0, 0, Some(4), 1);
    let mut input = idle_input();
    input.crouch_end = true;
    assert_eq!(p.crouch_action(Some(PlayerAction::Crouch), true, input), (Some(PlayerAction::CrouchEnd), GroundEffect::Nothing));
    assert_eq!(p.crouch_action(Some(PlayerAction::Crouch), false, input), (None, GroundEffect::Friction));
    let mut land = idle_input();
    land.land_crouch = true;
    assert_eq!(p.land_action(Some(PlayerAction::Land), true, land), (Some(PlayerAction::Crouch), GroundEffect::Nothing));
    land.walk = true;
    assert_eq!(p.land_action(Some(PlayerAction::Land), true, land), (Some(PlayerAction::Walk), GroundEffect::WalkVelocity));
    p.land_frame_skip = 1;
    assert_eq!(
        p.attack_land_action(Some(PlayerAction::NairLand), 4, false, land),
        (None, Some(6), GroundEffect::Friction)
    );
    let mut teeter = idle_input();
    assert_eq!(p.teeter_action(Some(PlayerAction::Teeter), true, teeter), None);
    teeter.walk_teeter = true;
    assert_eq!(p.teeter_action(Some(PlayerAction::Teeter), true, teeter), Some((PlayerAction::Walk, GroundEffect::WalkVelocity)));
}

#[test]
fn run_end_and_tilt_turn() {
    let mut p = Player::new(0, 0, Some(4), 1);
    let mut input = idle_input();
    input.stick_crouch = true;
    input.run_turn = true;
    assert_eq!(p.run_end_action(Some(PlayerAction::RunEnd), 1, input), (Some(PlayerAction::RunTurn), GroundEffect::Nothing));
    assert_eq!(p.run_end_action(Some(PlayerAction::RunEnd), 2, input), (Some(PlayerAction::CrouchStart), GroundEffect::Nothing));
    let frames = TiltTurnFrames { flip_dir_frame: 5, into_dash_iasa: 3 };
    assert_eq!(
        p.tilt_turn_action(Some(PlayerAction::TiltTurn), 5, 10, frames, false, idle_input()),
        (None, true, GroundEffect::Friction)
    );
    assert_eq!(
        p.tilt_turn_action(Some(PlayerAction::TiltTurn), 2, 10, frames, true, idle_input()),
        (Some(PlayerAction::Dash), true, GroundEffect::Nothing)
    );
    let late = TiltTurnFrames { flip_dir_frame: 20, into_dash_iasa: 3 };
    assert_eq!(
        p.tilt_turn_action(Some(PlayerAction::TiltTurn), 9, 10, late, false, idle_input()),
        (None, true, GroundEffect::Friction)
    );
}
