use vstd::prelude::*;

use crate::player::{Player, PlayerAction};

verus! {

/// The per-frame behaviour that runs for a fighter's action.
#[derive(Clone, Copy, Debug, PartialEq, Eq, Structural)]
pub enum FrameHandler {
    /// Nothing happens besides the action playing out.
    Still,
    SpawnIdle,
    Aerial,
    Jump,
    GroundIdle,
    ItemThrow,
    ItemThrowAir,
    AttackLand,
    Teeter,
    Land,
    DamageFly,
    DamageFall,
    Damage,
    MissedTech,
    MissedTechStart,
    AerialDodge,
    SpecialFall,
    Dtilt,
    CrouchStart,
    Crouch,
    Walk,
    Dash,
    Run,
    RunEnd,
    TiltTurn,
    SmashTurn,
    RunTurn,
    LedgeIdle,
    ShieldOn,
    Shield,
    ShieldOff,
    ShieldBreakFall,
    ShieldBreakGetup,
    Stun,
    GrabbingIdle,
    GrabbedIdle,
}

/// Which behaviour runs each frame for each action.
pub open spec fn spec_frame_handler(action: Option<PlayerAction>) -> FrameHandler {
    match action {
        Some(a) => match a {
            PlayerAction::ReSpawnIdle => FrameHandler::SpawnIdle,
            PlayerAction::AerialFall | PlayerAction::JumpAerialF | PlayerAction::Fair | PlayerAction::Bair
            | PlayerAction::Dair | PlayerAction::Uair | PlayerAction::Nair | PlayerAction::JumpAerialB
            | PlayerAction::Fall => FrameHandler::Aerial,
            PlayerAction::JumpF | PlayerAction::JumpB => FrameHandler::Jump,
            PlayerAction::Jab | PlayerAction::Jab2 | PlayerAction::Jab3 | PlayerAction::Utilt
            | PlayerAction::Ftilt | PlayerAction::DashAttack | PlayerAction::Dsmash | PlayerAction::Fsmash
            | PlayerAction::Usmash | PlayerAction::Idle | PlayerAction::Grab | PlayerAction::DashGrab
            | PlayerAction::TauntUp | PlayerAction::TauntDown | PlayerAction::TauntLeft
            | PlayerAction::TauntRight | PlayerAction::CrouchEnd => FrameHandler::GroundIdle,
            PlayerAction::ItemThrowU | PlayerAction::ItemThrowD | PlayerAction::ItemThrowF
            | PlayerAction::ItemThrowB => FrameHandler::ItemThrow,
            PlayerAction::ItemThrowAirU | PlayerAction::ItemThrowAirD | PlayerAction::ItemThrowAirF
            | PlayerAction::ItemThrowAirB => FrameHandler::ItemThrowAir,
            PlayerAction::FairLand | PlayerAction::BairLand | PlayerAction::UairLand | PlayerAction::DairLand
            | PlayerAction::NairLand | PlayerAction::SpecialLand => FrameHandler::AttackLand,
            PlayerAction::Teeter | PlayerAction::TeeterIdle => FrameHandler::Teeter,
            PlayerAction::Land => FrameHandler::Land,
            PlayerAction::DamageFly => FrameHandler::DamageFly,
            PlayerAction::DamageFall => FrameHandler::DamageFall,
            PlayerAction::Damage => FrameHandler::Damage,
            PlayerAction::MissedTechIdle => FrameHandler::MissedTech,
            PlayerAction::MissedTechStart => FrameHandler::MissedTechStart,
            PlayerAction::AerialDodge => FrameHandler::AerialDodge,
            PlayerAction::SpecialFall => FrameHandler::SpecialFall,
            PlayerAction::Dtilt => FrameHandler::Dtilt,
            PlayerAction::CrouchStart => FrameHandler::CrouchStart,
            PlayerAction::Crouch => FrameHandler::Crouch,
            PlayerAction::Walk => FrameHandler::Walk,
            PlayerAction::Dash => FrameHandler::Dash,
            PlayerAction::Run => FrameHandler::Run,
            PlayerAction::RunEnd => FrameHandler::RunEnd,
            PlayerAction::TiltTurn => FrameHandler::TiltTurn,
            PlayerAction::SmashTurn => FrameHandler::SmashTurn,
            PlayerAction::RunTurn => FrameHandler::RunTurn,
            PlayerAction::LedgeIdle => FrameHandler::LedgeIdle,
            PlayerAction::ShieldOn => FrameHandler::ShieldOn,
            PlayerAction::PowerShield | PlayerAction::Shield => FrameHandler::Shield,
            PlayerAction::ShieldOff => FrameHandler::ShieldOff,
            PlayerAction::ShieldBreakFall => FrameHandler::ShieldBreakFall,
            PlayerAction::ShieldBreakGetup => FrameHandler::ShieldBreakGetup,
            PlayerAction::Stun => FrameHandler::Stun,
            PlayerAction::GrabbingIdle => FrameHandler::GrabbingIdle,
            PlayerAction::GrabbedIdle => FrameHandler::GrabbedIdle,
            _ => FrameHandler::Still,
        },
        None => FrameHandler::Still,
    }
}

/// The direction an item is thrown in, relative to the thrower's facing.
#[derive(Clone, Copy, Debug, PartialEq, Eq, Structural)]
pub enum ThrowDirection {
    Forward,
    Back,
    Up,
    Down,
}

/// What an item throw does to the held item.
#[derive(Clone, Copy, Debug, PartialEq, Eq, Structural)]
pub enum ItemRelease {
    Throw(ThrowDirection),
    Drop,
}

/// The frame of an item throw on which the item leaves the hand.
pub const ITEM_RELEASE_FRAME: i64 = 4;

/// How an item throw lets go of the item: in the direction of the throw, on the ground or in
/// the air; any other action drops it.
pub open spec fn spec_item_release(action: Option<PlayerAction>) -> ItemRelease {
    match action {
        Some(PlayerAction::ItemThrowF) | Some(PlayerAction::ItemThrowAirF) => ItemRelease::Throw(ThrowDirection::Forward),
        Some(PlayerAction::ItemThrowB) | Some(PlayerAction::ItemThrowAirB) => ItemRelease::Throw(ThrowDirection::Back),
        Some(PlayerAction::ItemThrowU) | Some(PlayerAction::ItemThrowAirU) => ItemRelease::Throw(ThrowDirection::Up),
        Some(PlayerAction::ItemThrowD) | Some(PlayerAction::ItemThrowAirD) => ItemRelease::Throw(ThrowDirection::Down),
        _ => ItemRelease::Drop,
    }
}

impl Player {
    /// Which behaviour runs this frame for `action`.
    pub fn frame_handler(action: Option<PlayerAction>) -> (r: FrameHandler)
        ensures
            r == spec_frame_handler(action),
    {
        match action {
            Some(a) => match a {
                PlayerAction::ReSpawnIdle => FrameHandler::SpawnIdle,
                PlayerAction::AerialFall | PlayerAction::JumpAerialF | PlayerAction::Fair | PlayerAction::Bair
                | PlayerAction::Dair | PlayerAction::Uair | PlayerAction::Nair | PlayerAction::JumpAerialB
                | PlayerAction::Fall => FrameHandler::Aerial,
                PlayerAction::JumpF | PlayerAction::JumpB => FrameHandler::Jump,
                PlayerAction::Jab | PlayerAction::Jab2 | PlayerAction::Jab3 | PlayerAction::Utilt
                | PlayerAction::Ftilt | PlayerAction::DashAttack | PlayerAction::Dsmash | PlayerAction::Fsmash
                | PlayerAction::Usmash | PlayerAction::Idle | PlayerAction::Grab | PlayerAction::DashGrab
                | PlayerAction::TauntUp | PlayerAction::TauntDown | PlayerAction::TauntLeft
                | PlayerAction::TauntRight | PlayerAction::CrouchEnd => FrameHandler::GroundIdle,
                PlayerAction::ItemThrowU | PlayerAction::ItemThrowD | PlayerAction::ItemThrowF
                | PlayerAction::ItemThrowB => FrameHandler::ItemThrow,
                PlayerAction::ItemThrowAirU | PlayerAction::ItemThrowAirD | PlayerAction::ItemThrowAirF
                | PlayerAction::ItemThrowAirB => FrameHandler::ItemThrowAir,
                PlayerAction::FairLand | PlayerAction::BairLand | PlayerAction::UairLand | PlayerAction::DairLand
                | PlayerAction::NairLand | PlayerAction::SpecialLand => FrameHandler::AttackLand,
                PlayerAction::Teeter | PlayerAction::TeeterIdle => FrameHandler::Teeter,
                PlayerAction::Land => FrameHandler::Land,
                PlayerAction::DamageFly => FrameHandler::DamageFly,
                PlayerAction::DamageFall => FrameHandler::DamageFall,
                PlayerAction::Damage => FrameHandler::Damage,
                PlayerAction::MissedTechIdle => FrameHandler::MissedTech,
                PlayerAction::MissedTechStart => FrameHandler::MissedTechStart,
                PlayerAction::AerialDodge => FrameHandler::AerialDodge,
                PlayerAction::SpecialFall => FrameHandler::SpecialFall,
                PlayerAction::Dtilt => FrameHandler::Dtilt,
                PlayerAction::CrouchStart => FrameHandler::CrouchStart,
                PlayerAction::Crouch => FrameHandler::Crouch,
                PlayerAction::Walk => FrameHandler::Walk,
                PlayerAction::Dash => FrameHandler::Dash,
                PlayerAction::Run => FrameHandler::Run,
                PlayerAction::RunEnd => FrameHandler::RunEnd,
                PlayerAction::TiltTurn => FrameHandler::TiltTurn,
                PlayerAction::SmashTurn => FrameHandler::SmashTurn,
                PlayerAction::RunTurn => FrameHandler::RunTurn,
                PlayerAction::LedgeIdle => FrameHandler::LedgeIdle,
                PlayerAction::ShieldOn => FrameHandler::ShieldOn,
                PlayerAction::PowerShield | PlayerAction::Shield => FrameHandler::Shield,
                PlayerAction::ShieldOff => FrameHandler::ShieldOff,
                PlayerAction::ShieldBreakFall => FrameHandler::ShieldBreakFall,
                PlayerAction::ShieldBreakGetup => FrameHandler::ShieldBreakGetup,
                PlayerAction::Stun => FrameHandler::Stun,
                PlayerAction::GrabbingIdle => FrameHandler::GrabbingIdle,
                PlayerAction::GrabbedIdle => FrameHandler::GrabbedIdle,
                _ => FrameHandler::Still,
            },
            None => FrameHandler::Still,
        }
    }

    /// One frame of an item throw in `action` on `frame`: on the release frame a held item
    /// (`holding_item`) is thrown in the throw's direction, or dropped. Its velocities are the
    /// caller's; the throw itself plays out.
    pub fn item_throw_action(action: Option<PlayerAction>, frame: i64, holding_item: bool) -> (r: Option<ItemRelease>)
        ensures
            r == (if frame == ITEM_RELEASE_FRAME && holding_item { Some(spec_item_release(action)) } else { None }),
    {
        if frame == ITEM_RELEASE_FRAME && holding_item {
            Some(match action {
                Some(PlayerAction::ItemThrowF) | Some(PlayerAction::ItemThrowAirF) => ItemRelease::Throw(ThrowDirection::Forward),
                Some(PlayerAction::ItemThrowB) | Some(PlayerAction::ItemThrowAirB) => ItemRelease::Throw(ThrowDirection::Back),
                Some(PlayerAction::ItemThrowU) | Some(PlayerAction::ItemThrowAirU) => ItemRelease::Throw(ThrowDirection::Up),
                Some(PlayerAction::ItemThrowD) | Some(PlayerAction::ItemThrowAirD) => ItemRelease::Throw(ThrowDirection::Down),
                _ => ItemRelease::Drop,
            })
        } else {
            None
        }
    }
}

} // verus!
