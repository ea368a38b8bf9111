use vstd::prelude::*;

use crate::player::{
    spec_aerial_attack, AerialAttack, AerialAttackInput, JumpResult, Player, PlayerAction, SpecialInput,
};

verus! {

/// What the controller says to a fighter in the air, each check resolved against the
/// fighter's facing.
#[derive(Clone, Copy, Debug, PartialEq, Eq, Structural)]
pub struct AirInput {
    pub attack: AerialAttackInput,
    pub special: SpecialInput,
    pub jump: JumpResult,
    /// The stick points back far enough for a backward air jump.
    pub stick_back: bool,
    /// L or R was just pressed: an air dodge.
    pub l_or_r_press: bool,
    /// The stick was just smashed down while the fighter falls: a fast fall.
    pub fastfall: bool,
    /// The stick was just pushed past the threshold in any direction: leaves tumble.
    pub stick_flick: bool,
}

/// One frame of a fighter in the air.
#[derive(Clone, Copy, Debug, PartialEq, Eq, Structural)]
pub struct AirStep {
    /// The next action, if it changes.
    pub action: Option<PlayerAction>,
    /// The fighter turns to face right (`true`) or left, for a side special.
    pub face_right: Option<bool>,
    /// The held item is let go.
    pub drop_item: bool,
    /// No action was taken and the fighter started to fast fall: it takes its fast fall
    /// velocity. When no action was taken and it did not, gravity and drift move it.
    pub fastfall_started: bool,
}

/// The first of aerial attack, special, air jump (with the air jumps left) and, where
/// `dodge` allows, air dodge that the controller asks for, with the facing a side special turns
/// to. The special is an air special unless `ground_special`.
pub open spec fn air_choice(i: AirInput, air_jumps_left: u64, dodge: bool, ground_special: bool) -> Option<(PlayerAction, Option<bool>)> {
    match spec_aerial_attack(i.attack) {
        AerialAttack::Act(a) => Some((a, None::<bool>)),
        _ => match Player::special_choice(i.special, !ground_special) {
            Some(s) => Some(s),
            None => if i.jump.jump() && air_jumps_left > 0 {
                Some((if i.stick_back { PlayerAction::JumpAerialB } else { PlayerAction::JumpAerialF }, None::<bool>))
            } else if dodge && i.l_or_r_press {
                Some((PlayerAction::AerialDodge, None::<bool>))
            } else {
                None
            },
        },
    }
}

/// The fighter after the air checks chose `choice`: an air jump uses one up, and an air jump or
/// an air dodge ends a fast fall.
pub open spec fn after_air_choice(p: Player, choice: Option<(PlayerAction, Option<bool>)>) -> Player {
    match choice {
        Some((PlayerAction::JumpAerialF, _)) | Some((PlayerAction::JumpAerialB, _)) => Player {
            air_jumps_left: (p.air_jumps_left - 1) as u64,
            fastfalled: false,
            ..p
        },
        Some((PlayerAction::AerialDodge, _)) => Player { fastfalled: false, ..p },
        _ => p,
    }
}

/// The step of a fighter in the air whose checks chose `choice`: with no action, a fast fall
/// starts when asked for and the fighter is not fast falling already.
pub open spec fn air_step_of(choice: Option<(PlayerAction, Option<bool>)>, drop_item: bool, fastfalled: bool, fastfall: bool) -> AirStep {
    match choice {
        Some((a, face)) => AirStep { action: Some(a), face_right: face, drop_item, fastfall_started: false },
        None => AirStep { action: None, face_right: None, drop_item, fastfall_started: !fastfalled && fastfall },
    }
}

/// The fighter after an air step: a fast fall that starts is recorded.
pub open spec fn after_air_step(p: Player, step: AirStep) -> Player {
    if step.fastfall_started { Player { fastfalled: true, ..p } } else { p }
}

impl Player {
    /// The air checks in order: aerial attack, air special, air jump and, where `dodge` allows,
    /// air dodge. Returns the action with the facing a side special turns to, and whether the
    /// aerial attack check let go of the held item.
    fn air_checks(&mut self, input: AirInput, dodge: bool, ground_special: bool) -> (r: (Option<(PlayerAction, Option<bool>)>, bool))
        ensures
            r.0 == air_choice(input, old(self).air_jumps_left, dodge, ground_special),
            r.1 == (spec_aerial_attack(input.attack) is DropItem),
            *final(self) == after_air_choice(*old(self), r.0),
    {
        let attack = Player::check_attacks_aerial(input.attack);
        let drop_item = match attack {
            AerialAttack::Act(a) => { return (Some((a, None)), false); },
            AerialAttack::DropItem => true,
            AerialAttack::Nothing => false,
        };
        if let Some(s) = Player::check_special(input.special, !ground_special) {
            return (Some(s), drop_item);
        }
        if let Some(a) = self.check_jump_aerial(input.jump, input.stick_back) {
            return (Some((a, None)), drop_item);
        }
        if dodge && input.l_or_r_press {
            self.fastfalled = false;
            return (Some((PlayerAction::AerialDodge, None)), drop_item);
        }
        (None, drop_item)
    }

    /// With no action taken, a fast fall starts when asked for and not started already.
    fn air_fall(&mut self, fastfall: bool) -> (r: bool)
        ensures
            r == (!old(self).fastfalled && fastfall),
            *final(self) == (if r { Player { fastfalled: true, ..*old(self) } } else { *old(self) }),
    {
        if !self.fastfalled && fastfall {
            self.fastfalled = true;
            true
        } else {
            false
        }
    }

    /// One frame of an aerial action: while it can be interrupted, the air checks (with air
    /// dodge) may change it; otherwise, or when none applies, the fighter drifts and may start
    /// a fast fall.
    pub fn aerial_action(&mut self, interruptible: bool, input: AirInput) -> (r: AirStep)
        ensures
            ({
                let choice = if interruptible { air_choice(input, old(self).air_jumps_left, true, false) } else { None };
                let drop_item = interruptible && spec_aerial_attack(input.attack) is DropItem;
                let mid = after_air_choice(*old(self), choice);
                &&& r == air_step_of(choice, drop_item, mid.fastfalled, input.fastfall)
                &&& *final(self) == after_air_step(mid, r)
            }),
    {
        let (choice, drop_item) = if interruptible { self.air_checks(input, true, false) } else { (None, false) };
        match choice {
            Some((a, face)) => AirStep { action: Some(a), face_right: face, drop_item, fastfall_started: false },
            None => {
                let started = self.air_fall(input.fastfall);
                AirStep { action: None, face_right: None, drop_item, fastfall_started: started }
            },
        }
    }

    /// One frame of a jump: the air checks (with air dodge) may change it at any frame;
    /// otherwise the fighter drifts and may start a fast fall.
    pub fn jump_action(&mut self, input: AirInput) -> (r: AirStep)
        ensures
            ({
                let choice = air_choice(input, old(self).air_jumps_left, true, false);
                let drop_item = spec_aerial_attack(input.attack) is DropItem;
                let mid = after_air_choice(*old(self), choice);
                &&& r == air_step_of(choice, drop_item, mid.fastfalled, input.fastfall)
                &&& *final(self) == after_air_step(mid, r)
            }),
    {
        self.aerial_action(true, input)
    }

    /// One frame of tumbling: while it can be interrupted, the air checks (without air dodge)
    /// may change it, and a flick of the stick leaves tumble into a plain fall; otherwise the
    /// fighter drifts and may start a fast fall.
    pub fn damage_fall_action(&mut self, interruptible: bool, input: AirInput) -> (r: AirStep)
        ensures
            ({
                let checks = air_choice(input, old(self).air_jumps_left, false, false);
                let choice = if !interruptible {
                    None
                } else if checks is Some {
                    checks
                } else if input.stick_flick {
                    Some((PlayerAction::Fall, None::<bool>))
                } else {
                    None
                };
                let drop_item = interruptible && spec_aerial_attack(input.attack) is DropItem;
                let mid = after_air_choice(*old(self), choice);
                &&& r == air_step_of(choice, drop_item, mid.fastfalled, input.fastfall)
                &&& *final(self) == after_air_step(mid, r)
            }),
    {
        let (mut choice, drop_item) = if interruptible { self.air_checks(input, false, false) } else { (None, false) };
        if interruptible && choice.is_none() && input.stick_flick {
            choice = Some((PlayerAction::Fall, None));
        }
        match choice {
            Some((a, face)) => AirStep { action: Some(a), face_right: face, drop_item, fastfall_started: false },
            None => {
                let started = self.air_fall(input.fastfall);
                AirStep { action: None, face_right: None, drop_item, fastfall_started: started }
            },
        }
    }
}

/// How many frames a respawned fighter may wait on its platform before it falls.
pub const RESPAWN_IDLE_FRAMES: i64 = 1000;

impl Player {
    /// One frame of waiting on the respawn platform, on `frame_no_restart` of the action: the
    /// first of aerial attack, ground special, air jump and air dodge that is asked for;
    /// otherwise the fighter falls when the stick moves (`stick_moved`) or it waited too long.
    /// Nothing else moves it.
    pub fn spawn_idle_action(&mut self, input: AirInput, stick_moved: bool, frame_no_restart: i64) -> (r: AirStep)
        ensures
            ({
                let checks = air_choice(input, old(self).air_jumps_left, true, true);
                let choice = if checks is Some {
                    checks
                } else if stick_moved || frame_no_restart >= RESPAWN_IDLE_FRAMES {
                    Some((PlayerAction::Fall, None::<bool>))
                } else {
                    None
                };
                &&& r == air_step_of(choice, spec_aerial_attack(input.attack) is DropItem, true, false)
                &&& *final(self) == after_air_choice(*old(self), choice)
            }),
    {
        let (mut choice, drop_item) = self.air_checks(input, true, true);
        if choice.is_none() && (stick_moved || frame_no_restart >= RESPAWN_IDLE_FRAMES) {
            choice = Some((PlayerAction::Fall, None));
        }
        match choice {
            Some((a, face)) => AirStep { action: Some(a), face_right: face, drop_item, fastfall_started: false },
            None => AirStep { action: None, face_right: None, drop_item, fastfall_started: false },
        }
    }

    /// One frame of tumbling through the air after a hit: once the hitstun is over
    /// (`hitstun_over`) the tumble becomes a damage fall. The hitstun countdown and falling
    /// are the caller's.
    pub fn damage_fly_action(hitstun_over: bool) -> (r: Option<PlayerAction>)
        ensures
            r == (if hitstun_over { Some(PlayerAction::DamageFall) } else { None }),
    {
        if hitstun_over {
            Some(PlayerAction::DamageFall)
        } else {
            None
        }
    }

    /// One frame of flinching from a hit: once the hitstun is over (`hitstun_over`) the
    /// fighter falls when in the air and stands idle on the ground. Until then falling or
    /// friction, and the hitstun countdown, are the caller's.
    pub fn damage_action(hitstun_over: bool, airborne: bool) -> (r: Option<PlayerAction>)
        ensures
            r == (if !hitstun_over {
                None
            } else if airborne {
                Some(PlayerAction::Fall)
            } else {
                Some(PlayerAction::Idle)
            }),
    {
        if !hitstun_over {
            None
        } else if airborne {
            Some(PlayerAction::Fall)
        } else {
            Some(PlayerAction::Idle)
        }
    }
}

} // verus!
