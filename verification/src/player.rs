use vstd::prelude::*;

use crate::results::{DeathRecord, RawPlayerResult};
use crate::rules::Goal;

verus! {

/// Every action a fighter can be in.
#[derive(Clone, Copy, Debug, PartialEq, Eq, Structural)]
pub enum PlayerAction {
    Spawn,
    ReSpawn,
    ReSpawnIdle,
    Idle,
    Teeter,
    TeeterIdle,
    MissedTechIdle,
    CrouchStart,
    Crouch,
    CrouchEnd,
    Fall,
    AerialFall,
    Land,
    JumpF,
    JumpB,
    JumpAerialF,
    JumpAerialB,
    SmashTurn,
    RunTurn,
    TiltTurn,
    Dash,
    Run,
    RunEnd,
    Walk,
    PassPlatform,
    Damage,
    DamageFly,
    DamageFall,
    LedgeGetup,
    LedgeGetupSlow,
    LedgeJump,
    LedgeJumpSlow,
    LedgeIdle,
    LedgeIdleChain,
    LedgeGrab,
    JumpSquat,
    PowerShield,
    ShieldOn,
    Shield,
    ShieldOff,
    RollF,
    RollB,
    SpotDodge,
    AerialDodge,
    SpecialFall,
    SpecialLand,
    TechF,
    TechN,
    TechB,
    MissedTechGetupF,
    MissedTechGetupN,
    MissedTechGetupB,
    Rebound,
    LedgeRoll,
    LedgeRollSlow,
    MissedTechStart,
    ShieldBreakFall,
    Stun,
    ShieldBreakGetup,
    Jab,
    Jab2,
    Jab3,
    Utilt,
    Dtilt,
    Ftilt,
    DashAttack,
    Usmash,
    Dsmash,
    Fsmash,
    MissedTechAttack,
    LedgeAttack,
    LedgeAttackSlow,
    Grab,
    DashGrab,
    GrabbingIdle,
    GrabbingEnd,
    GrabbedIdleAir,
    GrabbedIdle,
    GrabbedEnd,
    Uthrow,
    Dthrow,
    Fthrow,
    Bthrow,
    ItemGrab,
    ItemEat,
    ItemThrowU,
    ItemThrowD,
    ItemThrowF,
    ItemThrowB,
    ItemThrowAirU,
    ItemThrowAirD,
    ItemThrowAirF,
    ItemThrowAirB,
    Uair,
    Dair,
    Fair,
    Bair,
    Nair,
    UairLand,
    DairLand,
    FairLand,
    BairLand,
    NairLand,
    UspecialGroundStart,
    DspecialGroundStart,
    SspecialGroundStart,
    NspecialGroundStart,
    UspecialAirStart,
    DspecialAirStart,
    SspecialAirStart,
    NspecialAirStart,
    TauntUp,
    TauntDown,
    TauntLeft,
    TauntRight,
    Eliminated,
    DummyFramePreStart,
}

impl PlayerAction {
    /// The aerial attacks.
    #[verifier::allow_in_spec]
    pub fn is_air_attack(&self) -> bool
        returns
            (*self is Uair || *self is Dair || *self is Fair || *self is Bair || *self is Nair),
    {
        match self {
            PlayerAction::Uair | PlayerAction::Dair | PlayerAction::Fair | PlayerAction::Bair | PlayerAction::Nair => true,
            _ => false,
        }
    }
}

/// What the analog inputs said when an action ran out, resolved against the fighter's facing.
#[derive(Clone, Copy, Debug, PartialEq, Eq, Structural)]
pub struct ExpiryInput {
    /// The stick points forward far enough to keep running out of a run turn.
    pub run_held: bool,
    /// The stick points back far enough to jump backwards out of jump squat.
    pub jump_backwards: bool,
    /// The fighter has a shield.
    pub has_shield: bool,
}

/// What must happen besides changing action when an action runs out.
#[derive(Clone, Copy, Debug, PartialEq, Eq, Structural)]
pub enum ExpiryEffect {
    Nothing,
    /// The ledge idle timer starts again.
    ResetLedgeIdleTimer,
    /// The fighter is stunned for 490 frames.
    SetStunTimer,
    /// The fighter stands up from the ledge onto the platform.
    IdleFromLedge,
    /// The fighter leaves the ledge into the air.
    FallFromLedgeJump,
    /// The fighter leaves the ground with a jump's velocity.
    JumpSquatLaunch,
}

/// How long a fighter is stunned after its shield breaks and it gets up.
pub const SHIELD_BREAK_STUN_FRAMES: u64 = 490;

/// The action that follows `action` when it runs out, and what else must happen for it.
pub open spec fn spec_expired(action: PlayerAction, input: ExpiryInput) -> (PlayerAction, ExpiryEffect) {
    match action {
        PlayerAction::Spawn => (PlayerAction::Idle, ExpiryEffect::Nothing),
        PlayerAction::ReSpawn => (PlayerAction::ReSpawnIdle, ExpiryEffect::Nothing),
        PlayerAction::ReSpawnIdle => (PlayerAction::ReSpawnIdle, ExpiryEffect::Nothing),
        PlayerAction::Idle => (PlayerAction::Idle, ExpiryEffect::Nothing),
        PlayerAction::Teeter => (PlayerAction::TeeterIdle, ExpiryEffect::Nothing),
        PlayerAction::TeeterIdle => (PlayerAction::TeeterIdle, ExpiryEffect::Nothing),
        PlayerAction::MissedTechIdle => (PlayerAction::MissedTechIdle, ExpiryEffect::Nothing),
        PlayerAction::CrouchStart => (PlayerAction::Crouch, ExpiryEffect::Nothing),
        PlayerAction::Crouch => (PlayerAction::Crouch, ExpiryEffect::Nothing),
        PlayerAction::CrouchEnd => (PlayerAction::Idle, ExpiryEffect::Nothing),
        PlayerAction::Fall => (PlayerAction::Fall, ExpiryEffect::Nothing),
        PlayerAction::AerialFall => (PlayerAction::AerialFall, ExpiryEffect::Nothing),
        PlayerAction::Land => (PlayerAction::Idle, ExpiryEffect::Nothing),
        PlayerAction::JumpF => (PlayerAction::Fall, ExpiryEffect::Nothing),
        PlayerAction::JumpB => (PlayerAction::Fall, ExpiryEffect::Nothing),
        PlayerAction::JumpAerialF => (PlayerAction::AerialFall, ExpiryEffect::Nothing),
        PlayerAction::JumpAerialB => (PlayerAction::AerialFall, ExpiryEffect::Nothing),
        PlayerAction::SmashTurn => (PlayerAction::Idle, ExpiryEffect::Nothing),
        PlayerAction::RunTurn => (if input.run_held { PlayerAction::Run } else { PlayerAction::Idle }, ExpiryEffect::Nothing),
        PlayerAction::TiltTurn => (PlayerAction::Idle, ExpiryEffect::Nothing),
        PlayerAction::Dash => (PlayerAction::Idle, ExpiryEffect::Nothing),
        PlayerAction::Run => (PlayerAction::Run, ExpiryEffect::Nothing),
        PlayerAction::RunEnd => (PlayerAction::Idle, ExpiryEffect::Nothing),
        PlayerAction::Walk => (PlayerAction::Walk, ExpiryEffect::Nothing),
        PlayerAction::PassPlatform => (PlayerAction::AerialFall, ExpiryEffect::Nothing),
        PlayerAction::Damage => (PlayerAction::Damage, ExpiryEffect::Nothing),
        PlayerAction::DamageFly => (PlayerAction::DamageFly, ExpiryEffect::Nothing),
        PlayerAction::DamageFall => (PlayerAction::DamageFall, ExpiryEffect::Nothing),
        PlayerAction::LedgeGetup => (PlayerAction::Idle, ExpiryEffect::IdleFromLedge),
        PlayerAction::LedgeGetupSlow => (PlayerAction::Idle, ExpiryEffect::IdleFromLedge),
        PlayerAction::LedgeJump => (PlayerAction::Fall, ExpiryEffect::FallFromLedgeJump),
        PlayerAction::LedgeJumpSlow => (PlayerAction::Fall, ExpiryEffect::FallFromLedgeJump),
        PlayerAction::LedgeIdle => (PlayerAction::LedgeIdle, ExpiryEffect::Nothing),
        PlayerAction::LedgeIdleChain => (PlayerAction::LedgeIdleChain, ExpiryEffect::Nothing),
        PlayerAction::LedgeGrab => (PlayerAction::LedgeIdle, ExpiryEffect::ResetLedgeIdleTimer),
        PlayerAction::JumpSquat => (if input.jump_backwards { PlayerAction::JumpB } else { PlayerAction::JumpF }, ExpiryEffect::JumpSquatLaunch),
        PlayerAction::PowerShield => (if input.has_shield { PlayerAction::Shield } else { PlayerAction::Idle }, ExpiryEffect::Nothing),
        PlayerAction::ShieldOn => (PlayerAction::Shield, ExpiryEffect::Nothing),
        PlayerAction::Shield => (PlayerAction::Shield, ExpiryEffect::Nothing),
        PlayerAction::ShieldOff => (PlayerAction::Idle, ExpiryEffect::Nothing),
        PlayerAction::RollF => (PlayerAction::Idle, ExpiryEffect::Nothing),
        PlayerAction::RollB => (PlayerAction::Idle, ExpiryEffect::Nothing),
        PlayerAction::SpotDodge => (PlayerAction::Idle, ExpiryEffect::Nothing),
        PlayerAction::AerialDodge => (PlayerAction::SpecialFall, ExpiryEffect::Nothing),
        PlayerAction::SpecialFall => (PlayerAction::SpecialFall, ExpiryEffect::Nothing),
        PlayerAction::SpecialLand => (PlayerAction::Idle, ExpiryEffect::Nothing),
        PlayerAction::TechF => (PlayerAction::Idle, ExpiryEffect::Nothing),
        PlayerAction::TechN => (PlayerAction::Idle, ExpiryEffect::Nothing),
        PlayerAction::TechB => (PlayerAction::Idle, ExpiryEffect::Nothing),
        PlayerAction::MissedTechGetupF => (PlayerAction::Idle, ExpiryEffect::Nothing),
        PlayerAction::MissedTechGetupN => (PlayerAction::Idle, ExpiryEffect::Nothing),
        PlayerAction::MissedTechGetupB => (PlayerAction::Idle, ExpiryEffect::Nothing),
        PlayerAction::Rebound => (PlayerAction::Idle, ExpiryEffect::Nothing),
        PlayerAction::LedgeRoll => (PlayerAction::Idle, ExpiryEffect::IdleFromLedge),
        PlayerAction::LedgeRollSlow => (PlayerAction::Idle, ExpiryEffect::IdleFromLedge),
        PlayerAction::MissedTechStart => (PlayerAction::MissedTechIdle, ExpiryEffect::Nothing),
        PlayerAction::ShieldBreakFall => (PlayerAction::ShieldBreakFall, ExpiryEffect::Nothing),
        PlayerAction::Stun => (PlayerAction::Stun, ExpiryEffect::Nothing),
        PlayerAction::ShieldBreakGetup => (PlayerAction::Stun, ExpiryEffect::SetStunTimer),
        PlayerAction::Jab => (PlayerAction::Idle, ExpiryEffect::Nothing),
        PlayerAction::Jab2 => (PlayerAction::Idle, ExpiryEffect::Nothing),
        PlayerAction::Jab3 => (PlayerAction::Idle, ExpiryEffect::Nothing),
        PlayerAction::Utilt => (PlayerAction::Idle, ExpiryEffect::Nothing),
        PlayerAction::Dtilt => (PlayerAction::Crouch, ExpiryEffect::Nothing),
        PlayerAction::Ftilt => (PlayerAction::Idle, ExpiryEffect::Nothing),
        PlayerAction::DashAttack => (PlayerAction::Idle, ExpiryEffect::Nothing),
        PlayerAction::Usmash => (PlayerAction::Idle, ExpiryEffect::Nothing),
        PlayerAction::Dsmash => (PlayerAction::Idle, ExpiryEffect::Nothing),
        PlayerAction::Fsmash => (PlayerAction::Idle, ExpiryEffect::Nothing),
        PlayerAction::MissedTechAttack => (PlayerAction::Idle, ExpiryEffect::Nothing),
        PlayerAction::LedgeAttack => (PlayerAction::Idle, ExpiryEffect::IdleFromLedge),
        PlayerAction::LedgeAttackSlow => (PlayerAction::Idle, ExpiryEffect::IdleFromLedge),
        PlayerAction::Grab => (PlayerAction::Idle, ExpiryEffect::Nothing),
        PlayerAction::DashGrab => (PlayerAction::Idle, ExpiryEffect::Nothing),
        PlayerAction::GrabbingIdle => (PlayerAction::GrabbingIdle, ExpiryEffect::Nothing),
        PlayerAction::GrabbingEnd => (PlayerAction::Idle, ExpiryEffect::Nothing),
        PlayerAction::GrabbedIdleAir => (PlayerAction::GrabbedIdleAir, ExpiryEffect::Nothing),
        PlayerAction::GrabbedIdle => (PlayerAction::GrabbedIdle, ExpiryEffect::Nothing),
        PlayerAction::GrabbedEnd => (PlayerAction::Idle, ExpiryEffect::Nothing),
        PlayerAction::Uthrow => (PlayerAction::Idle, ExpiryEffect::Nothing),
        PlayerAction::Dthrow => (PlayerAction::Idle, ExpiryEffect::Nothing),
        PlayerAction::Fthrow => (PlayerAction::Idle, ExpiryEffect::Nothing),
        PlayerAction::Bthrow => (PlayerAction::Idle, ExpiryEffect::Nothing),
        PlayerAction::ItemGrab => (PlayerAction::Idle, ExpiryEffect::Nothing),
        PlayerAction::ItemEat => (PlayerAction::Idle, ExpiryEffect::Nothing),
        PlayerAction::ItemThrowU => (PlayerAction::Idle, ExpiryEffect::Nothing),
        PlayerAction::ItemThrowD => (PlayerAction::Idle, ExpiryEffect::Nothing),
        PlayerAction::ItemThrowF => (PlayerAction::Idle, ExpiryEffect::Nothing),
        PlayerAction::ItemThrowB => (PlayerAction::Idle, ExpiryEffect::Nothing),
        PlayerAction::ItemThrowAirU => (PlayerAction::Fall, ExpiryEffect::Nothing),
        PlayerAction::ItemThrowAirD => (PlayerAction::Fall, ExpiryEffect::Nothing),
        PlayerAction::ItemThrowAirF => (PlayerAction::Fall, ExpiryEffect::Nothing),
        PlayerAction::ItemThrowAirB => (PlayerAction::Fall, ExpiryEffect::Nothing),
        PlayerAction::Uair => (PlayerAction::Fall, ExpiryEffect::Nothing),
        PlayerAction::Dair => (PlayerAction::Fall, ExpiryEffect::Nothing),
        PlayerAction::Fair => (PlayerAction::Fall, ExpiryEffect::Nothing),
        PlayerAction::Bair => (PlayerAction::Fall, ExpiryEffect::Nothing),
        PlayerAction::Nair => (PlayerAction::Fall, ExpiryEffect::Nothing),
        PlayerAction::UairLand => (PlayerAction::Idle, ExpiryEffect::Nothing),
        PlayerAction::DairLand => (PlayerAction::Idle, ExpiryEffect::Nothing),
        PlayerAction::FairLand => (PlayerAction::Idle, ExpiryEffect::Nothing),
        PlayerAction::BairLand => (PlayerAction::Idle, ExpiryEffect::Nothing),
        PlayerAction::NairLand => (PlayerAction::Idle, ExpiryEffect::Nothing),
        PlayerAction::UspecialGroundStart => (PlayerAction::Idle, ExpiryEffect::Nothing),
        PlayerAction::DspecialGroundStart => (PlayerAction::Idle, ExpiryEffect::Nothing),
        PlayerAction::SspecialGroundStart => (PlayerAction::Idle, ExpiryEffect::Nothing),
        PlayerAction::NspecialGroundStart => (PlayerAction::Idle, ExpiryEffect::Nothing),
        PlayerAction::UspecialAirStart => (PlayerAction::Fall, ExpiryEffect::Nothing),
        PlayerAction::DspecialAirStart => (PlayerAction::Fall, ExpiryEffect::Nothing),
        PlayerAction::SspecialAirStart => (PlayerAction::Fall, ExpiryEffect::Nothing),
        PlayerAction::NspecialAirStart => (PlayerAction::Fall, ExpiryEffect::Nothing),
        PlayerAction::TauntUp => (PlayerAction::Idle, ExpiryEffect::Nothing),
        PlayerAction::TauntDown => (PlayerAction::Idle, ExpiryEffect::Nothing),
        PlayerAction::TauntLeft => (PlayerAction::Idle, ExpiryEffect::Nothing),
        PlayerAction::TauntRight => (PlayerAction::Idle, ExpiryEffect::Nothing),
        PlayerAction::Eliminated => (PlayerAction::Eliminated, ExpiryEffect::Nothing),
        PlayerAction::DummyFramePreStart => (PlayerAction::Spawn, ExpiryEffect::Nothing),
    }
}

/// A timer that is active for a window, then locked for a window, then free.
#[derive(Clone, Copy, Debug, PartialEq, Eq, Structural)]
pub enum LockTimer {
    Active(u64),
    Locked(u64),
    Free,
}

impl LockTimer {
    #[verifier::allow_in_spec]
    pub fn is_active(&self) -> bool
        returns
            (*self is Active),
    {
        match self {
            LockTimer::Active(_) => true,
            _ => false,
        }
    }
}

/// The frame windows of teching: how long a tech press stays active, then how long it stays locked out.
#[derive(Clone, Copy, Debug, PartialEq, Eq, Structural)]
pub struct TechWindows {
    pub active_window: u64,
    pub locked_window: u64,
}

/// The tech timer one frame later.
pub open spec fn spec_tech_step(timer: LockTimer, tech: Option<TechWindows>, shield_button_press: bool) -> LockTimer {
    match (timer, tech) {
        (LockTimer::Active(t), Some(w)) => if t > w.active_window { LockTimer::Locked(0) } else { LockTimer::Active((t + 1) as u64) },
        (LockTimer::Locked(t), Some(w)) => if t > w.locked_window { LockTimer::Free } else { LockTimer::Locked((t + 1) as u64) },
        (LockTimer::Free, Some(_)) => if shield_button_press { LockTimer::Active(0) } else { LockTimer::Free },
        (_, None) => LockTimer::Free,
    }
}

/// The result of a fighter's physics step.
#[derive(Clone, Copy, Debug, PartialEq, Eq, Structural)]
pub enum PhysicsResult {
    Fall,
    Land,
    Teeter,
    LedgeGrab,
    OutOfBounds,
}

/// The counters and flags of a fighter that decide its actions (its position, velocities,
/// damage and other real-valued state are kept by the caller).
#[derive(Clone, Debug)]
pub struct Player {
    /// Unique among players.
    pub id: usize,
    pub team: usize,
    pub stocks: Option<u64>,
    pub ledge_idle_timer: u64,
    pub fastfalled: bool,
    pub air_jumps_left: u64,
    pub jumpsquat_button: bool,
    pub stun_timer: u64,
    pub shield_stun_timer: u64,
    pub parry_timer: u64,
    pub tech_timer: LockTimer,
    pub lcancel_timer: u64,
    pub land_frame_skip: u8,
    /// Only used for end-game statistics, so the player id is fine.
    pub hit_by: Option<usize>,
    pub aerial_dodge_frame: Option<u64>,
    pub result: RawPlayerResult,
}

/// What the buttons and triggers did this frame, for the fighter's timers.
#[derive(Clone, Copy, Debug, PartialEq, Eq, Structural)]
pub struct TimerInput {
    pub l_press: bool,
    pub r_press: bool,
    /// The L or R trigger is pressed in past the shield threshold.
    pub trigger_held: bool,
    pub z_press: bool,
}

/// What decides how a fighter lands.
#[derive(Clone, Copy, Debug, PartialEq, Eq, Structural)]
pub struct LandInput {
    /// The stick points forward far enough to tech forward.
    pub tech_forward: bool,
    /// The stick points back far enough to tech backward.
    pub tech_backward: bool,
    /// The fighter falls slowly enough to land without impact.
    pub soft: bool,
}

/// The action a fighter lands into, from the action it was in.
pub open spec fn spec_land_action(action: Option<PlayerAction>, tech_timer: LockTimer, input: LandInput) -> PlayerAction {
    match action {
        Some(PlayerAction::Uair) => PlayerAction::UairLand,
        Some(PlayerAction::Dair) => PlayerAction::DairLand,
        Some(PlayerAction::Fair) => PlayerAction::FairLand,
        Some(PlayerAction::Bair) => PlayerAction::BairLand,
        Some(PlayerAction::Nair) => PlayerAction::NairLand,
        Some(PlayerAction::ShieldBreakFall) => PlayerAction::ShieldBreakGetup,
        Some(PlayerAction::DamageFly) | Some(PlayerAction::DamageFall) => if tech_timer is Active {
            if input.tech_forward {
                PlayerAction::TechF
            } else if input.tech_backward {
                PlayerAction::TechB
            } else {
                PlayerAction::TechN
            }
        } else {
            PlayerAction::MissedTechStart
        },
        Some(PlayerAction::SpecialFall) | Some(PlayerAction::AerialDodge) | None => PlayerAction::SpecialLand,
        Some(_) => if input.soft { PlayerAction::Idle } else { PlayerAction::Land },
    }
}

/// How many landing frames are skipped: one after an l-cancelled aerial, two after an air dodge or special fall.
pub open spec fn spec_land_frame_skip(action: Option<PlayerAction>, lcancel_timer: u64) -> u8 {
    match action {
        Some(a) => if a.is_air_attack() && lcancel_timer > 0 {
            1
        } else if a is AerialDodge || a is SpecialFall {
            2
        } else {
            0
        },
        None => 0,
    }
}

/// What an action runs out into depends on the controller and the fighter only for a jump
/// squat (the jump's direction), a run turn (running on when the stick is held forward,
/// standing otherwise) and a power shield (a shield when the fighter has one, standing
/// otherwise); every other action runs out the same way whatever they say.
pub proof fn lemma_expiry_inputs(action: PlayerAction, i1: ExpiryInput, i2: ExpiryInput)
    ensures
        spec_expired(PlayerAction::RunTurn, i1) == (if i1.run_held { PlayerAction::Run } else { PlayerAction::Idle }, ExpiryEffect::Nothing),
        spec_expired(PlayerAction::PowerShield, i1) == (if i1.has_shield { PlayerAction::Shield } else { PlayerAction::Idle }, ExpiryEffect::Nothing),
        action != PlayerAction::JumpSquat && action != PlayerAction::RunTurn && action != PlayerAction::PowerShield
            ==> spec_expired(action, i1) == spec_expired(action, i2),
        spec_expired(action, i1).1 == ExpiryEffect::JumpSquatLaunch ==> action == PlayerAction::JumpSquat,
{
}

/// A jump squat that runs out launches a jump whose direction follows the stick: backwards
/// exactly when the stick points back, forwards otherwise (a neutral stick included); and no
/// other action runs out into a grounded jump.
pub proof fn lemma_jump_follows_stick(action: PlayerAction, input: ExpiryInput)
    ensures
        spec_expired(PlayerAction::JumpSquat, input).1 == ExpiryEffect::JumpSquatLaunch,
        (spec_expired(PlayerAction::JumpSquat, input).0 == PlayerAction::JumpB) == input.jump_backwards,
        (spec_expired(PlayerAction::JumpSquat, input).0 == PlayerAction::JumpF) == !input.jump_backwards,
        spec_expired(action, input).0 == PlayerAction::JumpB ==> action == PlayerAction::JumpSquat && input.jump_backwards,
        spec_expired(action, input).0 == PlayerAction::JumpF ==> action == PlayerAction::JumpSquat && !input.jump_backwards,
{
}

} // verus!

verus! {

impl Player {
    /// A fighter entering a match with `stock_count` stocks and `air_jumps` air jumps.
    pub fn new(id: usize, team: usize, stock_count: Option<u64>, air_jumps: u64) -> (r: Player)
        ensures
            r.id == id,
            r.team == team,
            r.stocks == stock_count,
            r.ledge_idle_timer == 0,
            !r.fastfalled,
            r.air_jumps_left == air_jumps,
            !r.jumpsquat_button,
            r.stun_timer == 0,
            r.shield_stun_timer == 0,
            r.parry_timer == 0,
            r.tech_timer == LockTimer::Free,
            r.lcancel_timer == 0,
            r.land_frame_skip == 0,
            r.hit_by is None,
            r.aerial_dodge_frame is None,
            r.result.deaths@.len() == 0,
            r.result.lcancel_attempts == 0,
            r.result.lcancel_success == 0,
    {
        Player {
            id,
            team,
            stocks: stock_count,
            ledge_idle_timer: 0,
            fastfalled: false,
            air_jumps_left: air_jumps,
            jumpsquat_button: false,
            stun_timer: 0,
            shield_stun_timer: 0,
            parry_timer: 0,
            tech_timer: LockTimer::Free,
            lcancel_timer: 0,
            land_frame_skip: 0,
            hit_by: None,
            aerial_dodge_frame: None,
            result: RawPlayerResult {
                team: 0,
                lcancel_attempts: 0,
                lcancel_success: 0,
                deaths: Vec::new(),
                final_damage_rank: None,
                ended_as_fighter: None,
            },
        }
    }

    /// The action that follows `action` when its last frame has passed, and what else must happen for it.
    pub fn action_expired(action: PlayerAction, input: ExpiryInput) -> (r: (PlayerAction, ExpiryEffect))
        ensures
            r == spec_expired(action, input),
    {
        match action {
            PlayerAction::Spawn => (PlayerAction::Idle, ExpiryEffect::Nothing),
            PlayerAction::ReSpawn => (PlayerAction::ReSpawnIdle, ExpiryEffect::Nothing),
            PlayerAction::ReSpawnIdle => (PlayerAction::ReSpawnIdle, ExpiryEffect::Nothing),
            PlayerAction::Idle => (PlayerAction::Idle, ExpiryEffect::Nothing),
            PlayerAction::Teeter => (PlayerAction::TeeterIdle, ExpiryEffect::Nothing),
            PlayerAction::TeeterIdle => (PlayerAction::TeeterIdle, ExpiryEffect::Nothing),
            PlayerAction::MissedTechIdle => (PlayerAction::MissedTechIdle, ExpiryEffect::Nothing),
            PlayerAction::CrouchStart => (PlayerAction::Crouch, ExpiryEffect::Nothing),
            PlayerAction::Crouch => (PlayerAction::Crouch, ExpiryEffect::Nothing),
            PlayerAction::CrouchEnd => (PlayerAction::Idle, ExpiryEffect::Nothing),
            PlayerAction::Fall => (PlayerAction::Fall, ExpiryEffect::Nothing),
            PlayerAction::AerialFall => (PlayerAction::AerialFall, ExpiryEffect::Nothing),
            PlayerAction::Land => (PlayerAction::Idle, ExpiryEffect::Nothing),
            PlayerAction::JumpF => (PlayerAction::Fall, ExpiryEffect::Nothing),
            PlayerAction::JumpB => (PlayerAction::Fall, ExpiryEffect::Nothing),
            PlayerAction::JumpAerialF => (PlayerAction::AerialFall, ExpiryEffect::Nothing),
            PlayerAction::JumpAerialB => (PlayerAction::AerialFall, ExpiryEffect::Nothing),
            PlayerAction::SmashTurn => (PlayerAction::Idle, ExpiryEffect::Nothing),
            PlayerAction::RunTurn => (if input.run_held { PlayerAction::Run } else { PlayerAction::Idle }, ExpiryEffect::Nothing),
            PlayerAction::TiltTurn => (PlayerAction::Idle, ExpiryEffect::Nothing),
            PlayerAction::Dash => (PlayerAction::Idle, ExpiryEffect::Nothing),
            PlayerAction::Run => (PlayerAction::Run, ExpiryEffect::Nothing),
            PlayerAction::RunEnd => (PlayerAction::Idle, ExpiryEffect::Nothing),
            PlayerAction::Walk => (PlayerAction::Walk, ExpiryEffect::Nothing),
            PlayerAction::PassPlatform => (PlayerAction::AerialFall, ExpiryEffect::Nothing),
            PlayerAction::Damage => (PlayerAction::Damage, ExpiryEffect::Nothing),
            PlayerAction::DamageFly => (PlayerAction::DamageFly, ExpiryEffect::Nothing),
            PlayerAction::DamageFall => (PlayerAction::DamageFall, ExpiryEffect::Nothing),
            PlayerAction::LedgeGetup => (PlayerAction::Idle, ExpiryEffect::IdleFromLedge),
            PlayerAction::LedgeGetupSlow => (PlayerAction::Idle, ExpiryEffect::IdleFromLedge),
            PlayerAction::LedgeJump => (PlayerAction::Fall, ExpiryEffect::FallFromLedgeJump),
            PlayerAction::LedgeJumpSlow => (PlayerAction::Fall, ExpiryEffect::FallFromLedgeJump),
            PlayerAction::LedgeIdle => (PlayerAction::LedgeIdle, ExpiryEffect::Nothing),
            PlayerAction::LedgeIdleChain => (PlayerAction::LedgeIdleChain, ExpiryEffect::Nothing),
            PlayerAction::LedgeGrab => (PlayerAction::LedgeIdle, ExpiryEffect::ResetLedgeIdleTimer),
            PlayerAction::JumpSquat => (if input.jump_backwards { PlayerAction::JumpB } else { PlayerAction::JumpF }, ExpiryEffect::JumpSquatLaunch),
            PlayerAction::PowerShield => (if input.has_shield { PlayerAction::Shield } else { PlayerAction::Idle }, ExpiryEffect::Nothing),
            PlayerAction::ShieldOn => (PlayerAction::Shield, ExpiryEffect::Nothing),
            PlayerAction::Shield => (PlayerAction::Shield, ExpiryEffect::Nothing),
            PlayerAction::ShieldOff => (PlayerAction::Idle, ExpiryEffect::Nothing),
            PlayerAction::RollF => (PlayerAction::Idle, ExpiryEffect::Nothing),
            PlayerAction::RollB => (PlayerAction::Idle, ExpiryEffect::Nothing),
            PlayerAction::SpotDodge => (PlayerAction::Idle, ExpiryEffect::Nothing),
            PlayerAction::AerialDodge => (PlayerAction::SpecialFall, ExpiryEffect::Nothing),
            PlayerAction::SpecialFall => (PlayerAction::SpecialFall, ExpiryEffect::Nothing),
            PlayerAction::SpecialLand => (PlayerAction::Idle, ExpiryEffect::Nothing),
            PlayerAction::TechF => (PlayerAction::Idle, ExpiryEffect::Nothing),
            PlayerAction::TechN => (PlayerAction::Idle, ExpiryEffect::Nothing),
            PlayerAction::TechB => (PlayerAction::Idle, ExpiryEffect::Nothing),
            PlayerAction::MissedTechGetupF => (PlayerAction::Idle, ExpiryEffect::Nothing),
            PlayerAction::MissedTechGetupN => (PlayerAction::Idle, ExpiryEffect::Nothing),
            PlayerAction::MissedTechGetupB => (PlayerAction::Idle, ExpiryEffect::Nothing),
            PlayerAction::Rebound => (PlayerAction::Idle, ExpiryEffect::Nothing),
            PlayerAction::LedgeRoll => (PlayerAction::Idle, ExpiryEffect::IdleFromLedge),
            PlayerAction::LedgeRollSlow => (PlayerAction::Idle, ExpiryEffect::IdleFromLedge),
            PlayerAction::MissedTechStart => (PlayerAction::MissedTechIdle, ExpiryEffect::Nothing),
            PlayerAction::ShieldBreakFall => (PlayerAction::ShieldBreakFall, ExpiryEffect::Nothing),
            PlayerAction::Stun => (PlayerAction::Stun, ExpiryEffect::Nothing),
            PlayerAction::ShieldBreakGetup => (PlayerAction::Stun, ExpiryEffect::SetStunTimer),
            PlayerAction::Jab => (PlayerAction::Idle, ExpiryEffect::Nothing),
            PlayerAction::Jab2 => (PlayerAction::Idle, ExpiryEffect::Nothing),
            PlayerAction::Jab3 => (PlayerAction::Idle, ExpiryEffect::Nothing),
            PlayerAction::Utilt => (PlayerAction::Idle, ExpiryEffect::Nothing),
            PlayerAction::Dtilt => (PlayerAction::Crouch, ExpiryEffect::Nothing),
            PlayerAction::Ftilt => (PlayerAction::Idle, ExpiryEffect::Nothing),
            PlayerAction::DashAttack => (PlayerAction::Idle, ExpiryEffect::Nothing),
            PlayerAction::Usmash => (PlayerAction::Idle, ExpiryEffect::Nothing),
            PlayerAction::Dsmash => (PlayerAction::Idle, ExpiryEffect::Nothing),
            PlayerAction::Fsmash => (PlayerAction::Idle, ExpiryEffect::Nothing),
            PlayerAction::MissedTechAttack => (PlayerAction::Idle, ExpiryEffect::Nothing),
            PlayerAction::LedgeAttack => (PlayerAction::Idle, ExpiryEffect::IdleFromLedge),
            PlayerAction::LedgeAttackSlow => (PlayerAction::Idle, ExpiryEffect::IdleFromLedge),
            PlayerAction::Grab => (PlayerAction::Idle, ExpiryEffect::Nothing),
            PlayerAction::DashGrab => (PlayerAction::Idle, ExpiryEffect::Nothing),
            PlayerAction::GrabbingIdle => (PlayerAction::GrabbingIdle, ExpiryEffect::Nothing),
            PlayerAction::GrabbingEnd => (PlayerAction::Idle, ExpiryEffect::Nothing),
            PlayerAction::GrabbedIdleAir => (PlayerAction::GrabbedIdleAir, ExpiryEffect::Nothing),
            PlayerAction::GrabbedIdle => (PlayerAction::GrabbedIdle, ExpiryEffect::Nothing),
            PlayerAction::GrabbedEnd => (PlayerAction::Idle, ExpiryEffect::Nothing),
            PlayerAction::Uthrow => (PlayerAction::Idle, ExpiryEffect::Nothing),
            PlayerAction::Dthrow => (PlayerAction::Idle, ExpiryEffect::Nothing),
            PlayerAction::Fthrow => (PlayerAction::Idle, ExpiryEffect::Nothing),
            PlayerAction::Bthrow => (PlayerAction::Idle, ExpiryEffect::Nothing),
            PlayerAction::ItemGrab => (PlayerAction::Idle, ExpiryEffect::Nothing),
            PlayerAction::ItemEat => (PlayerAction::Idle, ExpiryEffect::Nothing),
            PlayerAction::ItemThrowU => (PlayerAction::Idle, ExpiryEffect::Nothing),
            PlayerAction::ItemThrowD => (PlayerAction::Idle, ExpiryEffect::Nothing),
            PlayerAction::ItemThrowF => (PlayerAction::Idle, ExpiryEffect::Nothing),
            PlayerAction::ItemThrowB => (PlayerAction::Idle, ExpiryEffect::Nothing),
            PlayerAction::ItemThrowAirU => (PlayerAction::Fall, ExpiryEffect::Nothing),
            PlayerAction::ItemThrowAirD => (PlayerAction::Fall, ExpiryEffect::Nothing),
            PlayerAction::ItemThrowAirF => (PlayerAction::Fall, ExpiryEffect::Nothing),
            PlayerAction::ItemThrowAirB => (PlayerAction::Fall, ExpiryEffect::Nothing),
            PlayerAction::Uair => (PlayerAction::Fall, ExpiryEffect::Nothing),
            PlayerAction::Dair => (PlayerAction::Fall, ExpiryEffect::Nothing),
            PlayerAction::Fair => (PlayerAction::Fall, ExpiryEffect::Nothing),
            PlayerAction::Bair => (PlayerAction::Fall, ExpiryEffect::Nothing),
            PlayerAction::Nair => (PlayerAction::Fall, ExpiryEffect::Nothing),
            PlayerAction::UairLand => (PlayerAction::Idle, ExpiryEffect::Nothing),
            PlayerAction::DairLand => (PlayerAction::Idle, ExpiryEffect::Nothing),
            PlayerAction::FairLand => (PlayerAction::Idle, ExpiryEffect::Nothing),
            PlayerAction::BairLand => (PlayerAction::Idle, ExpiryEffect::Nothing),
            PlayerAction::NairLand => (PlayerAction::Idle, ExpiryEffect::Nothing),
            PlayerAction::UspecialGroundStart => (PlayerAction::Idle, ExpiryEffect::Nothing),
            PlayerAction::DspecialGroundStart => (PlayerAction::Idle, ExpiryEffect::Nothing),
            PlayerAction::SspecialGroundStart => (PlayerAction::Idle, ExpiryEffect::Nothing),
            PlayerAction::NspecialGroundStart => (PlayerAction::Idle, ExpiryEffect::Nothing),
            PlayerAction::UspecialAirStart => (PlayerAction::Fall, ExpiryEffect::Nothing),
            PlayerAction::DspecialAirStart => (PlayerAction::Fall, ExpiryEffect::Nothing),
            PlayerAction::SspecialAirStart => (PlayerAction::Fall, ExpiryEffect::Nothing),
            PlayerAction::NspecialAirStart => (PlayerAction::Fall, ExpiryEffect::Nothing),
            PlayerAction::TauntUp => (PlayerAction::Idle, ExpiryEffect::Nothing),
            PlayerAction::TauntDown => (PlayerAction::Idle, ExpiryEffect::Nothing),
            PlayerAction::TauntLeft => (PlayerAction::Idle, ExpiryEffect::Nothing),
            PlayerAction::TauntRight => (PlayerAction::Idle, ExpiryEffect::Nothing),
            PlayerAction::Eliminated => (PlayerAction::Eliminated, ExpiryEffect::Nothing),
            PlayerAction::DummyFramePreStart => (PlayerAction::Spawn, ExpiryEffect::Nothing),
        }
    }

    /// Ends the current action: picks the next one, restarts the ledge idle timer after a ledge
    /// grab and stuns the fighter after getting up from a shield break. The other effects are
    /// handed back for the caller to apply to the fighter's position and velocity.
    pub fn expire_action(&mut self, action: PlayerAction, input: ExpiryInput) -> (r: (PlayerAction, ExpiryEffect))
        ensures
            r == spec_expired(action, input),
            r.1 is ResetLedgeIdleTimer ==> final(self).ledge_idle_timer == 0,
            !(r.1 is ResetLedgeIdleTimer) ==> final(self).ledge_idle_timer == old(self).ledge_idle_timer,
            r.1 is SetStunTimer ==> final(self).stun_timer == SHIELD_BREAK_STUN_FRAMES,
            !(r.1 is SetStunTimer) ==> final(self).stun_timer == old(self).stun_timer,
            final(self).stocks == old(self).stocks,
            final(self).tech_timer == old(self).tech_timer,
            final(self).air_jumps_left == old(self).air_jumps_left,
    {
        let r = Player::action_expired(action, input);
        match r.1 {
            ExpiryEffect::ResetLedgeIdleTimer => { self.ledge_idle_timer = 0; },
            ExpiryEffect::SetStunTimer => { self.stun_timer = SHIELD_BREAK_STUN_FRAMES; },
            _ => {},
        }
        r
    }

    /// A shielding action.
    pub fn is_shielding(action: Option<PlayerAction>) -> (r: bool)
        ensures
            r == (action matches Some(a) && (a is Shield || a is ShieldOn || a is ShieldOff || a is PowerShield)),
    {
        match action {
            Some(PlayerAction::Shield) | Some(PlayerAction::ShieldOn) | Some(PlayerAction::ShieldOff) | Some(PlayerAction::PowerShield) => true,
            _ => false,
        }
    }

    /// One frame of the fighter's timers: parry and shield stun run down; the l-cancel window
    /// runs down, or opens when a shield button or Z (other than the Z that started an aerial)
    /// is pressed; the tech timer steps through its windows.
    pub fn step_timers(
        &mut self,
        input: TimerInput,
        action: Option<PlayerAction>,
        frame: i64,
        lcancel_window: Option<u64>,
        tech: Option<TechWindows>,
    )
        requires
            tech matches Some(w) ==> w.active_window < u64::MAX && w.locked_window < u64::MAX,
        ensures
            final(self).parry_timer == if old(self).parry_timer > 0 { (old(self).parry_timer - 1) as u64 } else { 0 },
            final(self).shield_stun_timer == if old(self).shield_stun_timer > 0 { (old(self).shield_stun_timer - 1) as u64 } else { 0 },
            final(self).lcancel_timer == if old(self).lcancel_timer > 0 {
                (old(self).lcancel_timer - 1) as u64
            } else if input.l_press || input.r_press || input.trigger_held
                || (input.z_press && !(frame == 0 && (action matches Some(a) && a.is_air_attack()))) {
                match lcancel_window { Some(w) => w, None => 0 }
            } else {
                0
            },
            final(self).tech_timer == spec_tech_step(old(self).tech_timer, tech, input.l_press || input.r_press),
            final(self).stocks == old(self).stocks,
            final(self).air_jumps_left == old(self).air_jumps_left,
            final(self).stun_timer == old(self).stun_timer,
            final(self).ledge_idle_timer == old(self).ledge_idle_timer,
    {
        if self.parry_timer > 0 {
            self.parry_timer = self.parry_timer - 1;
        }
        if self.shield_stun_timer > 0 {
            self.shield_stun_timer = self.shield_stun_timer - 1;
        }
        if self.lcancel_timer > 0 {
            self.lcancel_timer = self.lcancel_timer - 1;
        } else if input.l_press || input.r_press || input.trigger_held || input.z_press && !(frame == 0 && match action {
            Some(a) => a.is_air_attack(),
            None => false,
        }) {
            if let Some(window) = lcancel_window {
                self.lcancel_timer = window;
            }
        }
        self.tech_timer = match (self.tech_timer, tech) {
            (LockTimer::Active(timer), Some(windows)) => {
                if timer > windows.active_window { LockTimer::Locked(0) } else { LockTimer::Active(timer + 1) }
            },
            (LockTimer::Locked(timer), Some(windows)) => {
                if timer > windows.locked_window { LockTimer::Free } else { LockTimer::Locked(timer + 1) }
            },
            (LockTimer::Free, Some(_)) => {
                if input.l_press || input.r_press { LockTimer::Active(0) } else { LockTimer::Free }
            },
            _ => LockTimer::Free,
        };
    }

    /// Lands the fighter: picks the landing action and landing lag, remembers an air dodge's
    /// frame, and gives back the fast fall and air jumps.
    pub fn land(&mut self, action: Option<PlayerAction>, frame: u64, input: LandInput, air_jumps: u64) -> (r: PlayerAction)
        ensures
            r == spec_land_action(action, old(self).tech_timer, input),
            final(self).land_frame_skip == spec_land_frame_skip(action, old(self).lcancel_timer),
            final(self).aerial_dodge_frame == if action == Some(PlayerAction::AerialDodge) { Some(frame) } else { None },
            !final(self).fastfalled,
            final(self).air_jumps_left == air_jumps,
            final(self).hit_by is None,
            final(self).stocks == old(self).stocks,
            final(self).tech_timer == old(self).tech_timer,
            final(self).lcancel_timer == old(self).lcancel_timer,
    {
        self.land_frame_skip = match action {
            Some(a) => {
                if a.is_air_attack() && self.lcancel_timer > 0 {
                    1
                } else {
                    match a {
                        PlayerAction::AerialDodge => 2,
                        PlayerAction::SpecialFall => 2,
                        _ => 0,
                    }
                }
            },
            None => 0,
        };
        self.aerial_dodge_frame = match action {
            Some(PlayerAction::AerialDodge) => Some(frame),
            _ => None,
        };
        self.fastfalled = false;
        self.air_jumps_left = air_jumps;
        self.hit_by = None;
        match action {
            Some(PlayerAction::Uair) => PlayerAction::UairLand,
            Some(PlayerAction::Dair) => PlayerAction::DairLand,
            Some(PlayerAction::Fair) => PlayerAction::FairLand,
            Some(PlayerAction::Bair) => PlayerAction::BairLand,
            Some(PlayerAction::Nair) => PlayerAction::NairLand,
            Some(PlayerAction::ShieldBreakFall) => PlayerAction::ShieldBreakGetup,
            Some(PlayerAction::DamageFly) | Some(PlayerAction::DamageFall) => {
                if self.tech_timer.is_active() {
                    if input.tech_forward {
                        PlayerAction::TechF
                    } else if input.tech_backward {
                        PlayerAction::TechB
                    } else {
                        PlayerAction::TechN
                    }
                } else {
                    PlayerAction::MissedTechStart
                }
            },
            Some(PlayerAction::SpecialFall) | Some(PlayerAction::AerialDodge) | None => PlayerAction::SpecialLand,
            Some(_) => if input.soft { PlayerAction::Idle } else { PlayerAction::Land },
        }
    }

    /// The fighter left the stage: the death is recorded with whoever hit it last; under last man
    /// standing it loses a stock and is eliminated at zero, otherwise it respawns.
    pub fn die(&mut self, game_frame: usize, goal: Goal, air_jumps: u64) -> (r: Option<PlayerAction>)
        requires
            goal == Goal::LastManStanding ==> (old(self).stocks matches Some(s) ==> s > 0),
        ensures
            final(self).result.deaths@ == old(self).result.deaths@.push(DeathRecord { player: old(self).hit_by, frame: game_frame }),
            final(self).air_jumps_left == air_jumps,
            !final(self).fastfalled,
            match goal {
                Goal::LastManStanding => match old(self).stocks {
                    Some(s) => final(self).stocks == Some((s - 1) as u64)
                        && r == Some(if s == 1 { PlayerAction::Eliminated } else { PlayerAction::ReSpawn }),
                    None => final(self).stocks is None && r is None,
                },
                Goal::KillDeathScore => final(self).stocks == old(self).stocks && r == Some(PlayerAction::ReSpawn),
            },
            final(self).hit_by == old(self).hit_by,
            final(self).tech_timer == old(self).tech_timer,
    {
        self.air_jumps_left = air_jumps;
        self.fastfalled = false;
        self.result.deaths.push(DeathRecord { player: self.hit_by, frame: game_frame });
        match goal {
            Goal::LastManStanding => {
                if let Some(stocks) = self.stocks {
                    let stocks = stocks - 1;
                    self.stocks = Some(stocks);
                    if stocks == 0 {
                        Some(PlayerAction::Eliminated)
                    } else {
                        Some(PlayerAction::ReSpawn)
                    }
                } else {
                    None
                }
            },
            Goal::KillDeathScore => Some(PlayerAction::ReSpawn),
        }
    }

    /// Reacts to the result of the fighter's physics step.
    pub fn physics_step(
        &mut self,
        physics: Option<PhysicsResult>,
        action: Option<PlayerAction>,
        frame: u64,
        land_input: LandInput,
        game_frame: usize,
        goal: Goal,
        air_jumps: u64,
    ) -> (r: Option<PlayerAction>)
        requires
            physics == Some(PhysicsResult::OutOfBounds) && goal == Goal::LastManStanding ==> (old(self).stocks matches Some(s) ==> s > 0),
        ensures
            physics is None ==> r is None && final(self).stocks == old(self).stocks && final(self).fastfalled == old(self).fastfalled,
            physics == Some(PhysicsResult::Fall) ==> r == Some(PlayerAction::Fall) && !final(self).fastfalled,
            physics == Some(PhysicsResult::Teeter) ==> r == Some(PlayerAction::Teeter),
            physics == Some(PhysicsResult::LedgeGrab) ==> r == Some(PlayerAction::LedgeGrab) && !final(self).fastfalled
                && final(self).air_jumps_left == air_jumps && final(self).hit_by is None,
            physics == Some(PhysicsResult::Land) ==> r == Some(spec_land_action(action, old(self).tech_timer, land_input))
                && final(self).land_frame_skip == spec_land_frame_skip(action, old(self).lcancel_timer),
            physics == Some(PhysicsResult::OutOfBounds) ==> final(self).result.deaths@.len() == old(self).result.deaths@.len() + 1
                && match goal {
                    Goal::LastManStanding => match old(self).stocks {
                        Some(s) => r == Some(if s == 1 { PlayerAction::Eliminated } else { PlayerAction::ReSpawn }),
                        None => r is None,
                    },
                    Goal::KillDeathScore => r == Some(PlayerAction::ReSpawn),
                },
    {
        match physics {
            Some(PhysicsResult::Fall) => {
                self.fastfalled = false;
                Some(PlayerAction::Fall)
            },
            Some(PhysicsResult::Land) => Some(self.land(action, frame, land_input, air_jumps)),
            Some(PhysicsResult::Teeter) => Some(PlayerAction::Teeter),
            Some(PhysicsResult::LedgeGrab) => {
                self.fastfalled = false;
                self.air_jumps_left = air_jumps;
                self.hit_by = None;
                Some(PlayerAction::LedgeGrab)
            },
            Some(PhysicsResult::OutOfBounds) => self.die(game_frame, goal, air_jumps),
            None => None,
        }
    }
}

/// The platform a fighter stands on or hangs from after platform `deleted` is deleted:
/// `None` when it was that platform (the fighter falls), otherwise its index in the shortened list.
pub fn platform_after_delete(platform_i: usize, deleted: usize) -> (r: Option<usize>)
    ensures
        platform_i == deleted ==> r is None,
        platform_i > deleted ==> r == Some((platform_i - 1) as usize),
        platform_i < deleted ==> r == Some(platform_i),
{
    if platform_i == deleted {
        None
    } else if platform_i > deleted {
        Some(platform_i - 1)
    } else {
        Some(platform_i)
    }
}

} // verus!

verus! {

/// The controller read for an aerial attack, with the stick directions resolved against the
/// fighter's facing: held directions for A or Z, flicks of the C stick otherwise.
#[derive(Clone, Copy, Debug, PartialEq, Eq, Structural)]
pub struct AerialAttackInput {
    pub a_press: bool,
    pub z_press: bool,
    pub stick_forward: bool,
    pub stick_back: bool,
    pub stick_down: bool,
    pub stick_up: bool,
    pub c_forward: bool,
    pub c_back: bool,
    pub c_down: bool,
    pub c_up: bool,
    pub holding_item: bool,
}

/// What an aerial attack check decides.
#[derive(Clone, Copy, Debug, PartialEq, Eq, Structural)]
pub enum AerialAttack {
    Act(PlayerAction),
    /// Let go of the held item without attacking.
    DropItem,
    Nothing,
}

/// The aerial attack for a controller read: with A or Z the held stick picks the direction
/// (Z throws a held item instead, and a neutral Z drops it); otherwise a C stick flick picks it,
/// throwing a held item instead.
pub open spec fn spec_aerial_attack(i: AerialAttackInput) -> AerialAttack {
    let throw = i.z_press && i.holding_item;
    if i.a_press || i.z_press {
        if i.stick_forward {
            AerialAttack::Act(if throw { PlayerAction::ItemThrowAirF } else { PlayerAction::Fair })
        } else if i.stick_back {
            AerialAttack::Act(if throw { PlayerAction::ItemThrowAirB } else { PlayerAction::Bair })
        } else if i.stick_down {
            AerialAttack::Act(if throw { PlayerAction::ItemThrowAirD } else { PlayerAction::Dair })
        } else if i.stick_up {
            AerialAttack::Act(if throw { PlayerAction::ItemThrowAirU } else { PlayerAction::Uair })
        } else if throw {
            AerialAttack::DropItem
        } else {
            AerialAttack::Act(PlayerAction::Nair)
        }
    } else if i.c_forward {
        AerialAttack::Act(if i.holding_item { PlayerAction::ItemThrowAirF } else { PlayerAction::Fair })
    } else if i.c_back {
        AerialAttack::Act(if i.holding_item { PlayerAction::ItemThrowAirB } else { PlayerAction::Bair })
    } else if i.c_down {
        AerialAttack::Act(if i.holding_item { PlayerAction::ItemThrowAirD } else { PlayerAction::Dair })
    } else if i.c_up {
        AerialAttack::Act(if i.holding_item { PlayerAction::ItemThrowAirU } else { PlayerAction::Uair })
    } else {
        AerialAttack::Nothing
    }
}

/// The controller read for a grounded attack, with the stick resolved against the fighter's facing.
#[derive(Clone, Copy, Debug, PartialEq, Eq, Structural)]
pub struct GroundAttackInput {
    pub a_press: bool,
    pub stick_forward: bool,
    pub stick_down: bool,
    pub stick_up: bool,
    pub holding_item: bool,
}

/// The controller read for a special move.
#[derive(Clone, Copy, Debug, PartialEq, Eq, Structural)]
pub struct SpecialInput {
    pub b_press: bool,
    pub stick_sideways: bool,
    pub stick_right: bool,
    pub stick_down: bool,
    pub stick_up: bool,
}

/// The controller read for a smash attack: strong stick tilts from near neutral, with A, or C stick flicks.
#[derive(Clone, Copy, Debug, PartialEq, Eq, Structural)]
pub struct SmashInput {
    pub a_press: bool,
    pub stick_smash_right: bool,
    pub stick_smash_left: bool,
    pub stick_smash_up: bool,
    pub stick_smash_down: bool,
    pub stick_right: bool,
    pub c_smash_side: bool,
    pub c_right: bool,
    pub c_smash_up: bool,
    pub c_smash_down: bool,
}

/// The controller read for shielding.
#[derive(Clone, Copy, Debug, PartialEq, Eq, Structural)]
pub struct ShieldInput {
    pub l_or_r_press: bool,
    /// L or R held, digitally or past the analog threshold.
    pub held: bool,
}

/// How a jump was asked for.
#[derive(Clone, Copy, Debug, PartialEq, Eq, Structural)]
pub enum JumpResult {
    Button,
    Stick,
    NoJump,
}

impl JumpResult {
    #[verifier::allow_in_spec]
    pub fn jump(&self) -> bool
        returns
            !(*self is NoJump),
    {
        match self {
            JumpResult::NoJump => false,
            _ => true,
        }
    }
}

impl Player {
    /// Checks for an aerial attack.
    pub fn check_attacks_aerial(input: AerialAttackInput) -> (r: AerialAttack)
        ensures
            r == spec_aerial_attack(input),
    {
        let throw = input.z_press && input.holding_item;
        if input.a_press || input.z_press {
            if input.stick_forward {
                AerialAttack::Act(if throw { PlayerAction::ItemThrowAirF } else { PlayerAction::Fair })
            } else if input.stick_back {
                AerialAttack::Act(if throw { PlayerAction::ItemThrowAirB } else { PlayerAction::Bair })
            } else if input.stick_down {
                AerialAttack::Act(if throw { PlayerAction::ItemThrowAirD } else { PlayerAction::Dair })
            } else if input.stick_up {
                AerialAttack::Act(if throw { PlayerAction::ItemThrowAirU } else { PlayerAction::Uair })
            } else if throw {
                AerialAttack::DropItem
            } else {
                AerialAttack::Act(PlayerAction::Nair)
            }
        } else if input.c_forward {
            AerialAttack::Act(if input.holding_item { PlayerAction::ItemThrowAirF } else { PlayerAction::Fair })
        } else if input.c_back {
            AerialAttack::Act(if input.holding_item { PlayerAction::ItemThrowAirB } else { PlayerAction::Bair })
        } else if input.c_down {
            AerialAttack::Act(if input.holding_item { PlayerAction::ItemThrowAirD } else { PlayerAction::Dair })
        } else if input.c_up {
            AerialAttack::Act(if input.holding_item { PlayerAction::ItemThrowAirU } else { PlayerAction::Uair })
        } else {
            AerialAttack::Nothing
        }
    }

    /// Checks for a grounded attack on A: forward, down and up tilts or a jab, or throwing a held item.
    pub fn check_attacks(input: GroundAttackInput) -> (r: Option<PlayerAction>)
        ensures
            !input.a_press ==> r is None,
            input.a_press ==> r == Some(if input.stick_forward {
                if input.holding_item { PlayerAction::ItemThrowF } else { PlayerAction::Ftilt }
            } else if input.stick_down {
                if input.holding_item { PlayerAction::ItemThrowD } else { PlayerAction::Dtilt }
            } else if input.stick_up {
                if input.holding_item { PlayerAction::ItemThrowU } else { PlayerAction::Utilt }
            } else {
                if input.holding_item { PlayerAction::ItemThrowF } else { PlayerAction::Jab }
            }),
    {
        if input.a_press {
            if input.stick_forward {
                Some(if input.holding_item { PlayerAction::ItemThrowF } else { PlayerAction::Ftilt })
            } else if input.stick_down {
                Some(if input.holding_item { PlayerAction::ItemThrowD } else { PlayerAction::Dtilt })
            } else if input.stick_up {
                Some(if input.holding_item { PlayerAction::ItemThrowU } else { PlayerAction::Utilt })
            } else {
                Some(if input.holding_item { PlayerAction::ItemThrowF } else { PlayerAction::Jab })
            }
        } else {
            None
        }
    }

    /// Checks for a special move: side (turning to the stick), down, up or neutral; on the ground
    /// or in the air. Returns the action and, for a side special, the new facing.
    pub fn check_special(input: SpecialInput, airborne: bool) -> (r: Option<(PlayerAction, Option<bool>)>)
        ensures
            !input.b_press ==> r is None,
            input.b_press ==> r == Some(if input.stick_sideways {
                (if airborne { PlayerAction::SspecialAirStart } else { PlayerAction::SspecialGroundStart }, Some(input.stick_right))
            } else if input.stick_down {
                (if airborne { PlayerAction::DspecialAirStart } else { PlayerAction::DspecialGroundStart }, None::<bool>)
            } else if input.stick_up {
                (if airborne { PlayerAction::UspecialAirStart } else { PlayerAction::UspecialGroundStart }, None::<bool>)
            } else {
                (if airborne { PlayerAction::NspecialAirStart } else { PlayerAction::NspecialGroundStart }, None::<bool>)
            }),
    {
        if input.b_press {
            if input.stick_sideways {
                Some((if airborne { PlayerAction::SspecialAirStart } else { PlayerAction::SspecialGroundStart }, Some(input.stick_right)))
            } else if input.stick_down {
                Some((if airborne { PlayerAction::DspecialAirStart } else { PlayerAction::DspecialGroundStart }, None))
            } else if input.stick_up {
                Some((if airborne { PlayerAction::UspecialAirStart } else { PlayerAction::UspecialGroundStart }, None))
            } else {
                Some((if airborne { PlayerAction::NspecialAirStart } else { PlayerAction::NspecialGroundStart }, None))
            }
        } else {
            None
        }
    }

    /// Checks for a smash attack, returning it and, for a side smash, the new facing. A stick
    /// smash to the left counts even without A.
    pub fn check_smash(input: SmashInput) -> (r: Option<(PlayerAction, Option<bool>)>)
        ensures
            r == if (input.a_press && input.stick_smash_right) || input.stick_smash_left {
                Some((PlayerAction::Fsmash, Some(input.stick_right)))
            } else if input.a_press && input.stick_smash_up {
                Some((PlayerAction::Usmash, None::<bool>))
            } else if input.a_press && input.stick_smash_down {
                Some((PlayerAction::Dsmash, None::<bool>))
            } else if input.c_smash_side {
                Some((PlayerAction::Fsmash, Some(input.c_right)))
            } else if input.c_smash_up {
                Some((PlayerAction::Usmash, None::<bool>))
            } else if input.c_smash_down {
                Some((PlayerAction::Dsmash, None::<bool>))
            } else {
                None::<(PlayerAction, Option<bool>)>
            },
    {
        if input.a_press && input.stick_smash_right || input.stick_smash_left {
            Some((PlayerAction::Fsmash, Some(input.stick_right)))
        } else if input.a_press && input.stick_smash_up {
            Some((PlayerAction::Usmash, None))
        } else if input.a_press && input.stick_smash_down {
            Some((PlayerAction::Dsmash, None))
        } else if input.c_smash_side {
            Some((PlayerAction::Fsmash, Some(input.c_right)))
        } else if input.c_smash_up {
            Some((PlayerAction::Usmash, None))
        } else if input.c_smash_down {
            Some((PlayerAction::Dsmash, None))
        } else {
            None
        }
    }

    /// Checks for a taunt on the directional pad: up, down, left, right in that order.
    pub fn check_taunt(up: bool, down: bool, left: bool, right: bool) -> (r: Option<PlayerAction>)
        ensures
            r == if up {
                Some(PlayerAction::TauntUp)
            } else if down {
                Some(PlayerAction::TauntDown)
            } else if left {
                Some(PlayerAction::TauntLeft)
            } else if right {
                Some(PlayerAction::TauntRight)
            } else {
                None::<PlayerAction>
            },
    {
        if up {
            Some(PlayerAction::TauntUp)
        } else if down {
            Some(PlayerAction::TauntDown)
        } else if left {
            Some(PlayerAction::TauntLeft)
        } else if right {
            Some(PlayerAction::TauntRight)
        } else {
            None
        }
    }

    /// Checks for shielding: with both a shield and a power shield a fresh press power shields
    /// and a hold shields; with only one of them a hold uses it; with neither nothing happens.
    pub fn check_shield(has_shield: bool, has_power_shield: bool, input: ShieldInput) -> (r: Option<PlayerAction>)
        ensures
            r == if has_shield && has_power_shield {
                if input.l_or_r_press {
                    Some(PlayerAction::PowerShield)
                } else if input.held {
                    Some(PlayerAction::ShieldOn)
                } else {
                    None::<PlayerAction>
                }
            } else if has_power_shield {
                if input.held { Some(PlayerAction::PowerShield) } else { None::<PlayerAction> }
            } else if has_shield {
                if input.held { Some(PlayerAction::ShieldOn) } else { None::<PlayerAction> }
            } else {
                None::<PlayerAction>
            },
    {
        if has_shield && has_power_shield {
            if input.l_or_r_press {
                Some(PlayerAction::PowerShield)
            } else if input.held {
                Some(PlayerAction::ShieldOn)
            } else {
                None
            }
        } else if has_power_shield {
            if input.held { Some(PlayerAction::PowerShield) } else { None }
        } else if has_shield {
            if input.held { Some(PlayerAction::ShieldOn) } else { None }
        } else {
            None
        }
    }

    /// How a jump was asked for: X or Y, or a flick of the stick upwards.
    pub fn jump_input(x_or_y_press: bool, stick_flicked_up: bool) -> (r: JumpResult)
        ensures
            r == if x_or_y_press { JumpResult::Button } else if stick_flicked_up { JumpResult::Stick } else { JumpResult::NoJump },
    {
        if x_or_y_press {
            JumpResult::Button
        } else if stick_flicked_up {
            JumpResult::Stick
        } else {
            JumpResult::NoJump
        }
    }

    /// Checks for a grounded jump: it starts jump squat and remembers whether a button asked for it.
    pub fn check_jump(&mut self, x_or_y_press: bool, stick_flicked_up: bool) -> (r: Option<PlayerAction>)
        ensures
            (x_or_y_press || stick_flicked_up) ==> r == Some(PlayerAction::JumpSquat) && final(self).jumpsquat_button == x_or_y_press,
            !(x_or_y_press || stick_flicked_up) ==> r is None && final(self).jumpsquat_button == old(self).jumpsquat_button,
            final(self).air_jumps_left == old(self).air_jumps_left,
            *final(self) == (Player { jumpsquat_button: final(self).jumpsquat_button, ..*old(self) }),
    {
        match Player::jump_input(x_or_y_press, stick_flicked_up) {
            JumpResult::Button => {
                self.jumpsquat_button = true;
                Some(PlayerAction::JumpSquat)
            },
            JumpResult::Stick => {
                self.jumpsquat_button = false;
                Some(PlayerAction::JumpSquat)
            },
            JumpResult::NoJump => None,
        }
    }

    /// Checks for an air jump: it needs a jump input and an air jump left, which it uses up and
    /// which ends a fast fall; it goes backwards when the stick points back.
    pub fn check_jump_aerial(&mut self, jump: JumpResult, stick_back: bool) -> (r: Option<PlayerAction>)
        ensures
            jump.jump() && old(self).air_jumps_left > 0 ==> r == Some(if stick_back { PlayerAction::JumpAerialB } else { PlayerAction::JumpAerialF })
                && final(self).air_jumps_left == old(self).air_jumps_left - 1 && !final(self).fastfalled,
            !(jump.jump() && old(self).air_jumps_left > 0) ==> r is None && final(self).air_jumps_left == old(self).air_jumps_left
                && final(self).fastfalled == old(self).fastfalled,
            *final(self) == (Player { air_jumps_left: final(self).air_jumps_left, fastfalled: final(self).fastfalled, ..*old(self) }),
    {
        if jump.jump() && self.air_jumps_left > 0 {
            self.air_jumps_left = self.air_jumps_left - 1;
            self.fastfalled = false;
            if stick_back {
                Some(PlayerAction::JumpAerialB)
            } else {
                Some(PlayerAction::JumpAerialF)
            }
        } else {
            None
        }
    }
}

/// The aerial attack follows the stick. With A, or with Z and no item to throw, a stick held
/// forward gives a forward air, back a back air, down a down air, up an up air, and a
/// neutral stick a neutral air (forward and back taking precedence over down and up).
/// With Z and an item, the held stick throws it that way, and a neutral stick drops it.
/// Without A or Z, the C stick flicked forward, back, down or up gives that aerial (a throw
/// that way with an item), and nothing otherwise. Conversely each directional aerial, or a
/// throw in that direction, only ever comes from the stick held that way with A or Z, or from
/// the C stick flicked that way.
pub proof fn lemma_aerial_follows_stick(i: AerialAttackInput)
    ensures
        ({
            let r = spec_aerial_attack(i);
            let attack = (i.a_press || i.z_press) && !(i.z_press && i.holding_item);
            let throw = i.z_press && i.holding_item;
            let c_only = !i.a_press && !i.z_press;
            &&& attack && i.stick_forward ==> r == AerialAttack::Act(PlayerAction::Fair)
            &&& attack && !i.stick_forward && i.stick_back ==> r == AerialAttack::Act(PlayerAction::Bair)
            &&& attack && !i.stick_forward && !i.stick_back && i.stick_down ==> r == AerialAttack::Act(PlayerAction::Dair)
            &&& attack && !i.stick_forward && !i.stick_back && !i.stick_down && i.stick_up ==> r == AerialAttack::Act(
                PlayerAction::Uair,
            )
            &&& attack && !i.stick_forward && !i.stick_back && !i.stick_down && !i.stick_up ==> r == AerialAttack::Act(
                PlayerAction::Nair,
            )
            &&& (r == AerialAttack::Act(PlayerAction::Dair) || r == AerialAttack::Act(PlayerAction::ItemThrowAirD)) ==> ((
            i.a_press || i.z_press) && i.stick_down) || i.c_down
            &&& (r == AerialAttack::Act(PlayerAction::Uair) || r == AerialAttack::Act(PlayerAction::ItemThrowAirU)) ==> ((
            i.a_press || i.z_press) && i.stick_up) || i.c_up
            &&& (r == AerialAttack::Act(PlayerAction::Fair) || r == AerialAttack::Act(PlayerAction::ItemThrowAirF)) ==> ((
            i.a_press || i.z_press) && i.stick_forward) || i.c_forward
            &&& (r == AerialAttack::Act(PlayerAction::Bair) || r == AerialAttack::Act(PlayerAction::ItemThrowAirB)) ==> ((
            i.a_press || i.z_press) && i.stick_back) || i.c_back
            &&& r == AerialAttack::Act(PlayerAction::Nair) ==> attack
            &&& r == AerialAttack::DropItem ==> i.z_press && i.holding_item
            &&& throw && i.stick_forward ==> r == AerialAttack::Act(PlayerAction::ItemThrowAirF)
            &&& throw && !i.stick_forward && i.stick_back ==> r == AerialAttack::Act(PlayerAction::ItemThrowAirB)
            &&& throw && !i.stick_forward && !i.stick_back && i.stick_down ==> r == AerialAttack::Act(
                PlayerAction::ItemThrowAirD,
            )
            &&& throw && !i.stick_forward && !i.stick_back && !i.stick_down && i.stick_up ==> r == AerialAttack::Act(
                PlayerAction::ItemThrowAirU,
            )
            &&& throw && !i.stick_forward && !i.stick_back && !i.stick_down && !i.stick_up ==> r == AerialAttack::DropItem
            &&& c_only && i.c_forward ==> r == AerialAttack::Act(
                if i.holding_item { PlayerAction::ItemThrowAirF } else { PlayerAction::Fair },
            )
            &&& c_only && !i.c_forward && i.c_back ==> r == AerialAttack::Act(
                if i.holding_item { PlayerAction::ItemThrowAirB } else { PlayerAction::Bair },
            )
            &&& c_only && !i.c_forward && !i.c_back && i.c_down ==> r == AerialAttack::Act(
                if i.holding_item { PlayerAction::ItemThrowAirD } else { PlayerAction::Dair },
            )
            &&& c_only && !i.c_forward && !i.c_back && !i.c_down && i.c_up ==> r == AerialAttack::Act(
                if i.holding_item { PlayerAction::ItemThrowAirU } else { PlayerAction::Uair },
            )
            &&& c_only && !i.c_forward && !i.c_back && !i.c_down && !i.c_up ==> r == AerialAttack::Nothing
        }),
{
}

} // verus!

verus! {

/// A collision of a fighter, as far as it decides the fighter's next action.
#[derive(Clone, Copy, Debug, PartialEq, Eq, Structural)]
pub enum FighterCollision {
    /// Hit by an attack; `flies` when the knockback velocity is above the flying threshold.
    HitDef { flies: bool },
    /// Grabbed another fighter.
    GrabAtk,
    /// Grabbed by the entity `grabber`, which faces right when `grabber_faces_right`.
    GrabDef { grabber: usize, grabber_faces_right: bool },
    /// Any other collision, which leaves the action alone.
    Other,
}

/// The action a collision moves the fighter to, if any.
pub open spec fn collision_action_of(c: FighterCollision) -> Option<PlayerAction> {
    match c {
        FighterCollision::HitDef { flies } => Some(if flies { PlayerAction::DamageFly } else { PlayerAction::Damage }),
        FighterCollision::GrabAtk => Some(PlayerAction::GrabbingIdle),
        FighterCollision::GrabDef { .. } => Some(PlayerAction::GrabbedIdle),
        FighterCollision::Other => None,
    }
}

/// Who holds a fighter after the collisions of a frame, and where it faces: the last grab
/// of it counts; the grabbed fighter is held by its grabber and turns to face away from it.
pub open spec fn spec_held_by(cs: Seq<FighterCollision>) -> Option<HeldBy>
    decreases cs.len(),
{
    if cs.len() == 0 {
        None
    } else {
        match cs.last() {
            FighterCollision::GrabDef { grabber, grabber_faces_right } => Some(
                HeldBy { grabber, face_right: !grabber_faces_right },
            ),
            _ => spec_held_by(cs.drop_last()),
        }
    }
}

/// A grabbed fighter's holder and its new facing.
#[derive(Clone, Copy, Debug, PartialEq, Eq, Structural)]
pub struct HeldBy {
    /// The entity holding the fighter.
    pub grabber: usize,
    /// The fighter faces right.
    pub face_right: bool,
}

/// What the collisions of a frame do to a fighter's action, holder and facing.
#[derive(Clone, Copy, Debug, PartialEq, Eq, Structural)]
pub struct CollisionStep {
    pub action: Option<PlayerAction>,
    /// Set when a grab took hold of the fighter; otherwise its location and facing stay.
    pub held_by: Option<HeldBy>,
}

/// The action the collisions of a frame move the fighter to: that of the last collision
/// that moves it.
pub open spec fn spec_collision_action(cs: Seq<FighterCollision>) -> Option<PlayerAction>
    decreases cs.len(),
{
    if cs.len() == 0 {
        None
    } else {
        match collision_action_of(cs.last()) {
            Some(a) => Some(a),
            None => spec_collision_action(cs.drop_last()),
        }
    }
}

/// How long a perfectly timed shield works, and what it does for how long.
#[derive(Clone, Copy, Debug, PartialEq, Eq, Structural)]
pub struct PowerShieldEffect {
    pub window: u64,
    pub duration: u64,
}

impl Player {
    /// What the collisions of a frame do to the fighter: the action of the last that moves
    /// it (launched, flying or not, grabbing or grabbed), and, for the last grab of it, the
    /// grabber that now holds it and the facing away from that grabber.
    pub fn collision_action(collisions: &Vec<FighterCollision>) -> (r: CollisionStep)
        ensures
            r.action == spec_collision_action(collisions@),
            r.held_by == spec_held_by(collisions@),
    {
        let mut result: Option<PlayerAction> = None;
        let mut held: Option<HeldBy> = None;
        let mut i: usize = 0;
        while i < collisions.len()
            invariant
                i <= collisions@.len(),
                result == spec_collision_action(collisions@.subrange(0, i as int)),
                held == spec_held_by(collisions@.subrange(0, i as int)),
            decreases collisions@.len() - i,
        {
            assert(collisions@.subrange(0, i + 1).drop_last() =~= collisions@.subrange(0, i as int));
            match collisions[i] {
                FighterCollision::HitDef { flies } => {
                    result = Some(if flies { PlayerAction::DamageFly } else { PlayerAction::Damage });
                },
                FighterCollision::GrabAtk => {
                    result = Some(PlayerAction::GrabbingIdle);
                },
                FighterCollision::GrabDef { grabber, grabber_faces_right } => {
                    result = Some(PlayerAction::GrabbedIdle);
                    held = Some(HeldBy { grabber, face_right: !grabber_faces_right });
                },
                FighterCollision::Other => {},
            }
            i = i + 1;
        }
        assert(collisions@.subrange(0, collisions@.len() as int) =~= collisions@);
        CollisionStep { action: result, held_by: held }
    }

    /// An attack of this fighter hit a shield. When this fighter is power shielding and the
    /// defender's power shield stuns, the stun applies while the defender's frame is inside
    /// its window.
    pub fn shield_hit_stun(&mut self, action: Option<PlayerAction>, enemy_stun: Option<PowerShieldEffect>, defender_frame: i64)
        ensures
            ({
                let stunned = action == Some(PlayerAction::PowerShield) && (enemy_stun matches Some(s)
                    && s.window > (defender_frame as u64));
                &&& stunned ==> final(self).stun_timer == enemy_stun->0.duration
                &&& !stunned ==> final(self).stun_timer == old(self).stun_timer
            }),
            final(self).parry_timer == old(self).parry_timer,
            final(self).shield_stun_timer == old(self).shield_stun_timer,
    {
        match (action, enemy_stun) {
            (Some(PlayerAction::PowerShield), Some(stun)) => {
                if stun.window > (defender_frame as u64) {
                    self.stun_timer = stun.duration;
                }
            },
            _ => {},
        }
    }

    /// This fighter's shield was hit. Power shielding inside the parry window parries.
    /// Returns whether the shield takes the hit's damage: when there is no parry running.
    pub fn shield_hit_parry(&mut self, action: Option<PlayerAction>, parry: Option<PowerShieldEffect>, frame: i64) -> (r: bool)
        ensures
            ({
                let parried = action == Some(PlayerAction::PowerShield) && (parry matches Some(p)
                    && p.window > (frame as u64));
                &&& parried ==> final(self).parry_timer == parry->0.duration
                &&& !parried ==> final(self).parry_timer == old(self).parry_timer
            }),
            r == (final(self).parry_timer == 0),
            final(self).stun_timer == old(self).stun_timer,
            final(self).shield_stun_timer == old(self).shield_stun_timer,
    {
        match (action, parry) {
            (Some(PlayerAction::PowerShield), Some(p)) => {
                if p.window > (frame as u64) {
                    self.parry_timer = p.duration;
                }
            },
            _ => {},
        }
        self.parry_timer == 0
    }
}

} // verus!


verus! {

/// What the controller says to a fighter hanging from a ledge, each resolved against its
/// facing: drop (stick or C stick just pushed down or away), jump, get up (stick just pushed
/// towards the stage or up), attack, roll.
#[derive(Clone, Copy, Debug, PartialEq, Eq, Structural)]
pub struct LedgeInput {
    pub drop: bool,
    pub jump: bool,
    pub getup: bool,
    pub attack: bool,
    pub roll: bool,
    /// The fighter has 100% damage or more: its ledge options are the slow ones.
    pub damage_high: bool,
}

/// How many frames a fighter may hang from a ledge before it falls.
pub const LEDGE_IDLE_FRAMES: u64 = 600;

impl Player {
    /// One frame of hanging from a ledge. The first of drop, jump, get up, attack and roll
    /// that is asked for is taken (the slow variant at high damage); dropping leaves the
    /// ledge into the air (the second result). A fighter that hung too long falls, damaged;
    /// otherwise the hanging time counts up.
    pub fn ledge_idle_action(&mut self, input: LedgeInput) -> (r: (Option<PlayerAction>, bool))
        ensures
            input.drop ==> r == (Some(PlayerAction::Fall), true),
            !input.drop && input.jump ==> r == (Some(
                if input.damage_high { PlayerAction::LedgeJumpSlow } else { PlayerAction::LedgeJump },
            ), false),
            !input.drop && !input.jump && input.getup ==> r == (Some(
                if input.damage_high { PlayerAction::LedgeGetupSlow } else { PlayerAction::LedgeGetup },
            ), false),
            !input.drop && !input.jump && !input.getup && input.attack ==> r == (Some(
                if input.damage_high { PlayerAction::LedgeAttackSlow } else { PlayerAction::LedgeAttack },
            ), false),
            !input.drop && !input.jump && !input.getup && !input.attack && input.roll ==> r == (Some(
                if input.damage_high { PlayerAction::LedgeRollSlow } else { PlayerAction::LedgeRoll },
            ), false),
            ({
                let idle = !input.drop && !input.jump && !input.getup && !input.attack && !input.roll;
                &&& idle && old(self).ledge_idle_timer > LEDGE_IDLE_FRAMES ==> r == (Some(PlayerAction::DamageFall), true)
                    && final(self).ledge_idle_timer == old(self).ledge_idle_timer
                &&& idle && old(self).ledge_idle_timer <= LEDGE_IDLE_FRAMES ==> r == (None::<PlayerAction>, false)
                    && final(self).ledge_idle_timer == old(self).ledge_idle_timer + 1
                &&& !idle ==> final(self).ledge_idle_timer == old(self).ledge_idle_timer
            }),
            *final(self) == (Player { ledge_idle_timer: final(self).ledge_idle_timer, ..*old(self) }),
    {
        if input.drop {
            (Some(PlayerAction::Fall), true)
        } else if input.jump {
            (Some(if input.damage_high { PlayerAction::LedgeJumpSlow } else { PlayerAction::LedgeJump }), false)
        } else if input.getup {
            (Some(if input.damage_high { PlayerAction::LedgeGetupSlow } else { PlayerAction::LedgeGetup }), false)
        } else if input.attack {
            (Some(if input.damage_high { PlayerAction::LedgeAttackSlow } else { PlayerAction::LedgeAttack }), false)
        } else if input.roll {
            (Some(if input.damage_high { PlayerAction::LedgeRollSlow } else { PlayerAction::LedgeRoll }), false)
        } else if self.ledge_idle_timer > LEDGE_IDLE_FRAMES {
            (Some(PlayerAction::DamageFall), true)
        } else {
            self.ledge_idle_timer = self.ledge_idle_timer + 1;
            (None, false)
        }
    }
}

/// What the controller says to a running fighter, resolved against its facing.
#[derive(Clone, Copy, Debug, PartialEq, Eq, Structural)]
pub struct RunInput {
    pub x_or_y_press: bool,
    pub stick_flicked_up: bool,
    pub has_shield: bool,
    pub has_power_shield: bool,
    pub shield: ShieldInput,
    /// The stick points back far enough to turn round.
    pub stick_back: bool,
    /// The stick points forward far enough to keep running.
    pub stick_run: bool,
    pub z_press: bool,
    pub a_press: bool,
    pub special: SpecialInput,
}

impl Player {
    /// The shield check's choice.
    pub open spec fn shield_choice(has_shield: bool, has_power_shield: bool, input: ShieldInput) -> Option<PlayerAction> {
        if has_shield && has_power_shield {
            if input.l_or_r_press {
                Some(PlayerAction::PowerShield)
            } else if input.held {
                Some(PlayerAction::ShieldOn)
            } else {
                None
            }
        } else if has_power_shield {
            if input.held { Some(PlayerAction::PowerShield) } else { None }
        } else if has_shield {
            if input.held { Some(PlayerAction::ShieldOn) } else { None }
        } else {
            None
        }
    }

    /// The special check's choice, with the facing a side special turns to.
    pub open spec fn special_choice(input: SpecialInput, airborne: bool) -> Option<(PlayerAction, Option<bool>)> {
        if input.b_press {
            Some(if input.stick_sideways {
                (if airborne { PlayerAction::SspecialAirStart } else { PlayerAction::SspecialGroundStart }, Some(input.stick_right))
            } else if input.stick_down {
                (if airborne { PlayerAction::DspecialAirStart } else { PlayerAction::DspecialGroundStart }, None::<bool>)
            } else if input.stick_up {
                (if airborne { PlayerAction::UspecialAirStart } else { PlayerAction::UspecialGroundStart }, None::<bool>)
            } else {
                (if airborne { PlayerAction::NspecialAirStart } else { PlayerAction::NspecialGroundStart }, None::<bool>)
            })
        } else {
            None
        }
    }

    /// One frame of running: the first that applies of jump, shield, turning round (stick
    /// back), stopping (stick not forward enough), dash grab (Z), dash attack (A) and a ground
    /// special (with the facing it turns to); otherwise the run speeds up, which the caller does.
    pub fn run_action(&mut self, input: RunInput) -> (r: (Option<PlayerAction>, Option<bool>))
        ensures
            ({
                let jump = input.x_or_y_press || input.stick_flicked_up;
                let shield = Player::shield_choice(input.has_shield, input.has_power_shield, input.shield);
                &&& jump ==> r == (Some(PlayerAction::JumpSquat), None::<bool>) && final(self).jumpsquat_button == input.x_or_y_press
                &&& !jump ==> final(self).jumpsquat_button == old(self).jumpsquat_button
                &&& !jump && shield is Some ==> r == (shield, None::<bool>)
                &&& !jump && shield is None && input.stick_back ==> r == (Some(PlayerAction::RunTurn), None::<bool>)
                &&& !jump && shield is None && !input.stick_back && !input.stick_run ==> r == (Some(PlayerAction::RunEnd), None::<bool>)
                &&& !jump && shield is None && !input.stick_back && input.stick_run && input.z_press ==> r == (Some(PlayerAction::DashGrab), None::<bool>)
                &&& !jump && shield is None && !input.stick_back && input.stick_run && !input.z_press && input.a_press
                    ==> r == (Some(PlayerAction::DashAttack), None::<bool>)
                &&& !jump && shield is None && !input.stick_back && input.stick_run && !input.z_press && !input.a_press
                    ==> r == (match Player::special_choice(input.special, false) {
                        Some((a, face)) => (Some(a), face),
                        None => (None::<PlayerAction>, None::<bool>),
                    })
            }),
            *final(self) == (Player { jumpsquat_button: final(self).jumpsquat_button, ..*old(self) }),
    {
        if let Some(a) = self.check_jump(input.x_or_y_press, input.stick_flicked_up) {
            return (Some(a), None);
        }
        if let Some(a) = Player::check_shield(input.has_shield, input.has_power_shield, input.shield) {
            return (Some(a), None);
        }
        if input.stick_back {
            return (Some(PlayerAction::RunTurn), None);
        }
        if !input.stick_run {
            return (Some(PlayerAction::RunEnd), None);
        }
        if input.z_press {
            return (Some(PlayerAction::DashGrab), None);
        }
        if input.a_press {
            return (Some(PlayerAction::DashAttack), None);
        }
        match Player::check_special(input.special, false) {
            Some((a, face)) => (Some(a), face),
            None => (None, None),
        }
    }
}

/// What the controller says to a dashing fighter, resolved against its facing.
#[derive(Clone, Copy, Debug, PartialEq, Eq, Structural)]
pub struct DashInput {
    /// The stick points forward far enough to run.
    pub stick_run: bool,
    pub has_shield: bool,
    pub has_power_shield: bool,
    pub shield: ShieldInput,
    pub z_press: bool,
    pub a_press: bool,
    pub x_or_y_press: bool,
    pub stick_flicked_up: bool,
    /// The stick was just smashed backward.
    pub smash_turn: bool,
}

/// The frame of a dash from which holding forward turns it into a run.
pub const DASH_RUN_FRAME: i64 = 13;

/// What else happens to a dashing fighter besides its next action.
#[derive(Clone, Copy, Debug, PartialEq, Eq, Structural)]
pub enum DashEffect {
    Nothing,
    /// Shielding out of a dash keeps a quarter of the velocity.
    ShieldSlow,
    /// The fighter turns round and keeps a quarter of its velocity.
    SmashTurn,
}

/// A dash of `frame_count` frames on `frame` has gone on long enough to become a run: it
/// reached the run frame, or, for a dash shorter than that, it is on its last frame.
pub open spec fn dash_can_run(frame: i64, frame_count: usize) -> bool {
    frame >= DASH_RUN_FRAME || (DASH_RUN_FRAME > frame_count - 1 && frame >= frame_count - 1)
}

impl Player {
    /// One frame of dashing on `frame` of a dash of `frame_count` frames: it becomes a run
    /// when it can and the stick holds forward; otherwise the first that applies of shield,
    /// dash grab (Z), dash attack (A), jump and smash turn. The dash's own speed changes are
    /// the caller's.
    pub fn dash_action(&mut self, frame: i64, frame_count: usize, input: DashInput) -> (r: (Option<PlayerAction>, DashEffect))
        ensures
            ({
                let run = dash_can_run(frame, frame_count) && input.stick_run;
                let shield = Player::shield_choice(input.has_shield, input.has_power_shield, input.shield);
                let jump = input.x_or_y_press || input.stick_flicked_up;
                &&& run ==> r == (Some(PlayerAction::Run), DashEffect::Nothing)
                &&& !run && shield is Some ==> r == (shield, DashEffect::ShieldSlow)
                &&& !run && shield is None && input.z_press ==> r == (Some(PlayerAction::DashGrab), DashEffect::Nothing)
                &&& !run && shield is None && !input.z_press && input.a_press ==> r == (Some(PlayerAction::DashAttack), DashEffect::Nothing)
                &&& !run && shield is None && !input.z_press && !input.a_press && jump ==> r == (Some(PlayerAction::JumpSquat), DashEffect::Nothing)
                    && final(self).jumpsquat_button == input.x_or_y_press
                &&& !(!run && shield is None && !input.z_press && !input.a_press && jump) ==> final(self).jumpsquat_button
                    == old(self).jumpsquat_button
                &&& !run && shield is None && !input.z_press && !input.a_press && !jump && input.smash_turn ==> r == (Some(
                    PlayerAction::SmashTurn,
                ), DashEffect::SmashTurn)
                &&& !run && shield is None && !input.z_press && !input.a_press && !jump && !input.smash_turn ==> r == (None::<
                    PlayerAction,
                >, DashEffect::Nothing)
            }),
            *final(self) == (Player { jumpsquat_button: final(self).jumpsquat_button, ..*old(self) }),
    {
        let can_run = (frame as i128) >= (DASH_RUN_FRAME as i128) || ((DASH_RUN_FRAME as i128) > (frame_count as i128) - 1
            && (frame as i128) >= (frame_count as i128) - 1);
        if can_run && input.stick_run {
            return (Some(PlayerAction::Run), DashEffect::Nothing);
        }
        if let Some(a) = Player::check_shield(input.has_shield, input.has_power_shield, input.shield) {
            return (Some(a), DashEffect::ShieldSlow);
        }
        if input.z_press {
            return (Some(PlayerAction::DashGrab), DashEffect::Nothing);
        }
        if input.a_press {
            return (Some(PlayerAction::DashAttack), DashEffect::Nothing);
        }
        if let Some(a) = self.check_jump(input.x_or_y_press, input.stick_flicked_up) {
            return (Some(a), DashEffect::Nothing);
        }
        if input.smash_turn {
            return (Some(PlayerAction::SmashTurn), DashEffect::SmashTurn);
        }
        (None, DashEffect::Nothing)
    }
}

} // verus!
