use canon_collision::air::{AirInput, AirStep, RESPAWN_IDLE_FRAMES};
use canon_collision::frame::{FrameHandler, ItemRelease, ThrowDirection};
use canon_collision::ground::{GroundEffect, GroundInput, MissedTechInput, ThrowInput};
use canon_collision::player::{
    AerialAttackInput, GroundAttackInput, JumpResult, Player, PlayerAction, ShieldInput, SmashInput,
    SpecialInput,
};
use canon_collision::shield::ShieldStateInput;
use canon_collision::toriel::{Toriel, TorielSpawn, TorielSpecial};

fn no_attack() -> AerialAttackInput {
    AerialAttackInput {
        a_press: false,
        z_press: false,
        stick_forward: false,
        stick_back: false,
        stick_down: false,
        stick_up: false,
        c_forward: false,
        c_back: false,
        c_down: false,
        c_up: false,
        holding_item: false,
    }
}

fn no_special() -> SpecialInput {
    SpecialInput { b_press: false, stick_sideways: false, stick_right: false, stick_down: false, stick_up: false }
}

fn air_input() -> AirInput {
    AirInput {
        attack: no_attack(),
        special: no_special(),
        jump: JumpResult::NoJump,
        stick_back: false,
        l_or_r_press: false,
        fastfall: false,
        stick_flick: false,
    }
}

fn quiet_step() -> AirStep {
    AirStep { action: None, face_right: None, drop_item: false, fastfall_started: false }
}

fn ground_input() -> GroundInput {
    GroundInput {
        x_or_y_press: false,
        stick_flicked_up: false,
        has_shield: true,
        has_power_shield: false,
        shield: ShieldInput { l_or_r_press: false, held: false },
        special: no_special(),
        smash: SmashInput {
            a_press: false,
            stick_smash_right: false,
            stick_smash_left: false,
            stick_smash_up: false,
            stick_smash_down: false,
            stick_right: false,
            c_smash_side: false,
            c_right: false,
            c_smash_up: false,
            c_smash_down: false,
        },
        attack: GroundAttackInput { a_press: false, stick_forward: false, stick_down: false, stick_up: false, holding_item: false },
        z_press: false,
        taunt_up: false,
        taunt_down: false,
        taunt_left: false,
        taunt_right: false,
        stick_crouch: false,
        dash: false,
        smash_turn: false,
        tilt_turn: false,
        walk: false,
        walk_teeter: false,
        crouch_end: false,
        land_crouch: false,
        run_turn: false,
        b_held: false,
    }
}

fn shield_input() -> ShieldStateInput {
    ShieldStateInput {
        has_shield: true,
        stick_lock: false,
        broken: false,
        grab: false,
        x_or_y_press: false,
        stick_flicked_up: false,
        pass_platform: false,
        released: false,
    }
}

#[test]
fn aerial_attack_wins_over_air_jump() {
    let mut p = Player::new(0, 0, Some(4), 1);
    let mut input = air_input();
    input.attack.a_press = true;
    input.attack.stick_forward = true;
    input.jump = JumpResult::Button;
    let step = p.aerial_action(true, input);
    assert_eq!(step.action, Some(PlayerAction::Fair));
    assert_eq!(p.air_jumps_left, 1);
}

#[test]
fn air_jump_uses_one_up_and_ends_fast_fall() {
    let mut p = Player::new(0, 0, Some(4), 1);
    p.fastfalled = true;
    let mut input = air_input();
    input.jump = JumpResult::Stick;
    input.stick_back = true;
    let step = p.aerial_action(true, input);
    assert_eq!(step.action, Some(PlayerAction::JumpAerialB));
    assert_eq!(p.air_jumps_left, 0);
    assert!(!p.fastfalled);
    // no air jump left: the jump falls through to nothing
    let step = p.aerial_action(true, input);
    assert_eq!(step, quiet_step());
}

#[test]
fn air_dodge_and_side_special() {
    let mut p = Player::new(0, 0, Some(4), 0);
    let mut input = air_input();
    input.l_or_r_press = true;
    assert_eq!(p.aerial_action(true, input).action, Some(PlayerAction::AerialDodge));
    input.special = SpecialInput { b_press: true, stick_sideways: true, stick_right: false, stick_down: false, stick_up: false };
    let step = p.jump_action(input);
    assert_eq!(step.action, Some(PlayerAction::SspecialAirStart));
    assert_eq!(step.face_right, Some(false));
}

#[test]
fn uninterruptible_aerial_only_drifts_and_fast_falls() {
    let mut p = Player::new(0, 0, Some(4), 1);
    let mut input = air_input();
    input.attack.a_press = true;
    input.fastfall = true;
    let step = p.aerial_action(false, input);
    assert_eq!(step, AirStep { fastfall_started: true, ..quiet_step() });
    assert!(p.fastfalled);
    // already fast falling: nothing new starts
    assert_eq!(p.aerial_action(false, input), quiet_step());
}

#[test]
fn neutral_z_with_item_drops_it_and_keeps_checking() {
    let mut p = Player::new(0, 0, Some(4), 1);
    let mut input = air_input();
    input.attack.z_press = true;
    input.attack.holding_item = true;
    input.special.b_press = true;
    let step = p.aerial_action(true, input);
    assert!(step.drop_item);
    assert_eq!(step.action, Some(PlayerAction::NspecialAirStart));
}

#[test]
fn tumble_leaves_on_stick_flick_but_never_air_dodges() {
    let mut p = Player::new(0, 0, Some(4), 1);
    let mut input = air_input();
    input.l_or_r_press = true;
    assert_eq!(p.damage_fall_action(true, input), quiet_step());
    input.stick_flick = true;
    assert_eq!(p.damage_fall_action(true, input).action, Some(PlayerAction::Fall));
    assert_eq!(p.damage_fall_action(false, input), quiet_step());
}

#[test]
fn respawned_fighter_falls_when_stick_moves_or_time_runs_out() {
    let mut p = Player::new(0, 0, Some(4), 1);
    let input = air_input();
    assert_eq!(p.spawn_idle_action(input, false, 10), quiet_step());
    assert_eq!(p.spawn_idle_action(input, true, 10).action, Some(PlayerAction::Fall));
    assert_eq!(p.spawn_idle_action(input, false, RESPAWN_IDLE_FRAMES).action, Some(PlayerAction::Fall));
    let mut special = air_input();
    special.special.b_press = true;
    special.special.stick_up = true;
    assert_eq!(p.spawn_idle_action(special, false, 10).action, Some(PlayerAction::UspecialGroundStart));
}

#[test]
fn damage_ends_with_hitstun() {
    assert_eq!(Player::damage_fly_action(false), None);
    assert_eq!(Player::damage_fly_action(true), Some(PlayerAction::DamageFall));
    assert_eq!(Player::damage_action(false, true), None);
    assert_eq!(Player::damage_action(true, true), Some(PlayerAction::Fall));
    assert_eq!(Player::damage_action(true, false), Some(PlayerAction::Idle));
}

#[test]
fn broken_shield_falls_even_when_locked() {
    let mut p = Player::new(0, 0, Some(4), 1);
    p.shield_stun_timer = 3;
    let input = ShieldStateInput { broken: true, stick_lock: true, grab: true, ..shield_input() };
    assert_eq!(p.shield_shared_action(input), Some(PlayerAction::ShieldBreakFall));
}

#[test]
fn shield_stun_with_stick_lock_holds_the_shield() {
    let mut p = Player::new(0, 0, Some(4), 1);
    p.shield_stun_timer = 3;
    let input = ShieldStateInput { stick_lock: true, grab: true, released: true, ..shield_input() };
    assert_eq!(p.shield_action(input), None);
    p.shield_stun_timer = 0;
    assert_eq!(p.shield_action(input), Some(PlayerAction::Grab));
}

#[test]
fn jump_and_platform_drop_out_of_shield() {
    let mut p = Player::new(0, 0, Some(4), 1);
    let jump = ShieldStateInput { stick_flicked_up: true, pass_platform: true, ..shield_input() };
    assert_eq!(p.shield_shared_action(jump), Some(PlayerAction::JumpSquat));
    assert!(!p.jumpsquat_button);
    let drop = ShieldStateInput { pass_platform: true, ..shield_input() };
    assert_eq!(p.shield_shared_action(drop), Some(PlayerAction::PassPlatform));
    let none = ShieldStateInput { has_shield: false, grab: true, ..shield_input() };
    assert_eq!(p.shield_shared_action(none), None);
}

#[test]
fn released_shield_drops_or_parries_to_idle() {
    let mut p = Player::new(0, 0, Some(4), 1);
    let released = ShieldStateInput { released: true, ..shield_input() };
    assert_eq!(p.shield_action(released), Some(PlayerAction::ShieldOff));
    p.parry_timer = 2;
    assert_eq!(p.shield_action(released), Some(PlayerAction::Idle));
    assert_eq!(p.shield_action(shield_input()), None);
}

#[test]
fn stun_counts_down_to_idle() {
    let mut p = Player::new(0, 0, Some(4), 1);
    p.stun_timer = 2;
    assert_eq!(p.stun_action(), None);
    assert_eq!(p.stun_timer, 1);
    assert_eq!(p.stun_action(), Some(PlayerAction::Idle));
    assert_eq!(p.stun_timer, 0);
}

#[test]
fn missed_tech_getups() {
    let quiet = MissedTechInput { back: false, forward: false, up: false, attack: false };
    assert_eq!(Player::missed_tech_action(quiet, None, 500), (None, true));
    assert_eq!(Player::missed_tech_action(quiet, Some(30), 30), (None, true));
    assert_eq!(Player::missed_tech_action(quiet, Some(30), 31), (Some(PlayerAction::MissedTechGetupN), false));
    let back = MissedTechInput { back: true, attack: true, ..quiet };
    assert_eq!(Player::missed_tech_action(back, None, 0), (Some(PlayerAction::MissedTechGetupB), false));
    let attack = MissedTechInput { attack: true, ..quiet };
    assert_eq!(Player::missed_tech_action(attack, None, 0), (Some(PlayerAction::MissedTechAttack), false));
}

#[test]
fn grab_throws_and_lets_go() {
    let quiet = ThrowInput { back: false, forward: false, up: false, down: false };
    assert_eq!(Player::grabbing_idle_action(quiet, 60), None);
    assert_eq!(Player::grabbing_idle_action(quiet, 61), Some(PlayerAction::GrabbingEnd));
    assert_eq!(Player::grabbing_idle_action(ThrowInput { forward: true, down: true, ..quiet }, 0), Some(PlayerAction::Fthrow));
    assert_eq!(Player::grabbing_idle_action(ThrowInput { down: true, ..quiet }, 0), Some(PlayerAction::Dthrow));
}

#[test]
fn dtilt_and_crouch_start_checks() {
    let mut p = Player::new(0, 0, Some(4), 1);
    let mut input = ground_input();
    input.walk = true;
    input.taunt_up = true;
    assert_eq!(p.dtilt_action(Some(PlayerAction::Dtilt), true, input), (Some(PlayerAction::Walk), GroundEffect::WalkVelocity));
    assert_eq!(p.dtilt_action(Some(PlayerAction::Dtilt), false, input), (None, GroundEffect::Friction));
    let mut jump = ground_input();
    jump.x_or_y_press = true;
    jump.z_press = true;
    assert_eq!(p.crouch_start_action(Some(PlayerAction::CrouchStart), true, false, jump), (Some(PlayerAction::Grab), GroundEffect::Nothing));
    assert_eq!(
        p.crouch_start_action(Some(PlayerAction::CrouchStart), true, true, jump),
        (Some(PlayerAction::PassPlatform), GroundEffect::Nothing)
    );
}

#[test]
fn smash_turn_dashes_only_on_first_frame() {
    let mut p = Player::new(0, 0, Some(4), 1);
    let input = ground_input();
    assert_eq!(p.smash_turn_action(Some(PlayerAction::SmashTurn), 0, true, input), (Some(PlayerAction::Dash), GroundEffect::Nothing));
    assert_eq!(p.smash_turn_action(Some(PlayerAction::SmashTurn), 1, true, input), (None, GroundEffect::Friction));
}

#[test]
fn run_turn_flips_on_its_frame() {
    let mut p = Player::new(0, 0, Some(4), 1);
    let input = ground_input();
    assert_eq!(p.run_turn_action(5, 20, 5, input), (None, true, GroundEffect::Friction));
    assert_eq!(p.run_turn_action(4, 20, 5, input), (None, false, GroundEffect::Friction));
    // a flip frame past the action's end flips on the last frame
    assert_eq!(p.run_turn_action(19, 20, 40, input), (None, true, GroundEffect::Friction));
    let mut jump = ground_input();
    jump.x_or_y_press = true;
    assert_eq!(p.run_turn_action(0, 20, 5, jump), (Some(PlayerAction::JumpSquat), false, GroundEffect::Nothing));
    assert!(p.jumpsquat_button);
}

#[test]
fn frame_handlers_by_action() {
    assert_eq!(Player::frame_handler(None), FrameHandler::Still);
    assert_eq!(Player::frame_handler(Some(PlayerAction::Spawn)), FrameHandler::Still);
    assert_eq!(Player::frame_handler(Some(PlayerAction::Nair)), FrameHandler::Aerial);
    assert_eq!(Player::frame_handler(Some(PlayerAction::JumpB)), FrameHandler::Jump);
    assert_eq!(Player::frame_handler(Some(PlayerAction::Usmash)), FrameHandler::GroundIdle);
    assert_eq!(Player::frame_handler(Some(PlayerAction::PowerShield)), FrameHandler::Shield);
    assert_eq!(Player::frame_handler(Some(PlayerAction::SpecialLand)), FrameHandler::AttackLand);
    assert_eq!(Player::frame_handler(Some(PlayerAction::Stun)), FrameHandler::Stun);
}

#[test]
fn item_release_on_its_frame() {
    assert_eq!(Player::item_throw_action(Some(PlayerAction::ItemThrowAirB), 3, true), None);
    assert_eq!(
        Player::item_throw_action(Some(PlayerAction::ItemThrowAirB), 4, true),
        Some(ItemRelease::Throw(ThrowDirection::Back))
    );
    assert_eq!(Player::item_throw_action(Some(PlayerAction::ItemThrowU), 4, false), None);
    assert_eq!(Player::item_throw_action(Some(PlayerAction::Jab), 4, true), Some(ItemRelease::Drop));
}

#[test]
fn toriel_specials_end_standing_or_falling() {
    assert_eq!(Toriel::special_of(Some(PlayerAction::SspecialAirStart)), Some((TorielSpecial::Side, true)));
    assert_eq!(Toriel::special_of(Some(PlayerAction::Jab)), None);
    assert_eq!(Toriel::action_expired(Some(PlayerAction::NspecialGroundStart)), Some(PlayerAction::Idle));
    assert_eq!(Toriel::action_expired(Some(PlayerAction::DspecialAirStart)), Some(PlayerAction::Fall));
    assert_eq!(Toriel::action_expired(Some(PlayerAction::Idle)), None);
}

#[test]
fn toriel_summons_on_the_spawn_frame() {
    let mut toriel = Toriel::new(Player::new(3, 0, Some(4), 1));
    let input = ground_input();
    let (idle, spawned) = toriel.special_ground_action(TorielSpecial::Neutral, Some(PlayerAction::NspecialGroundStart), 5, false, true, input);
    assert_eq!(idle, (None, GroundEffect::Friction, false));
    assert_eq!(spawned, Some(TorielSpawn::Fireball { owner_id: 3, face_right: true }));
    let (_, early) = toriel.special_ground_action(TorielSpecial::Down, Some(PlayerAction::DspecialGroundStart), 4, false, true, input);
    assert_eq!(early, None);
    let (step, side) = toriel.special_air_action(TorielSpecial::Side, 5, false, false, air_input());
    assert_eq!(step, quiet_step());
    assert_eq!(side, Some(TorielSpawn::Projectile { owner_id: 3, face_right: false }));
    // an interrupting action takes over and nothing is summoned
    let mut jump = ground_input();
    jump.x_or_y_press = true;
    let (idle, none) = toriel.special_ground_action(TorielSpecial::Down, Some(PlayerAction::DspecialGroundStart), 5, true, true, jump);
    assert_eq!(idle.0, Some(PlayerAction::JumpSquat));
    assert_eq!(none, None);
    assert_eq!(toriel.spawn(TorielSpecial::Down, 5, true), Some(TorielSpawn::Item));
}
