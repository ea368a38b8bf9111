use vstd::prelude::*;

use crate::air::{after_air_choice, after_air_step, air_choice, air_step_of, AirInput, AirStep};
use crate::ground::{first_check, idle_checks, outcome, GroundEffect, GroundInput};
use crate::player::{spec_aerial_attack, Player, PlayerAction};

verus! {

/// Toriel's three specials.
#[derive(Clone, Copy, Debug, PartialEq, Eq, Structural)]
pub enum TorielSpecial {
    /// Summons an item above her.
    Down,
    /// Fires a projectile straight ahead.
    Side,
    /// Throws a fireball.
    Neutral,
}

/// The entity a special summons on its spawn frame. Its position and velocities, in front of
/// Toriel, are the caller's.
#[derive(Clone, Copy, Debug, PartialEq, Eq, Structural)]
pub enum TorielSpawn {
    /// A falling item that belongs to nobody.
    Item,
    /// A projectile owned by Toriel, flying the way she faces.
    Projectile { owner_id: usize, face_right: bool },
    /// A fireball owned by Toriel, flying the way she faces.
    Fireball { owner_id: usize, face_right: bool },
}

/// The frame of a special on which it summons its entity.
pub const SPECIAL_SPAWN_FRAME: i64 = 5;

/// The special an action starts, and whether it is the air version.
pub open spec fn spec_special_of(action: Option<PlayerAction>) -> Option<(TorielSpecial, bool)> {
    match action {
        Some(PlayerAction::DspecialGroundStart) => Some((TorielSpecial::Down, false)),
        Some(PlayerAction::DspecialAirStart) => Some((TorielSpecial::Down, true)),
        Some(PlayerAction::SspecialGroundStart) => Some((TorielSpecial::Side, false)),
        Some(PlayerAction::SspecialAirStart) => Some((TorielSpecial::Side, true)),
        Some(PlayerAction::NspecialGroundStart) => Some((TorielSpecial::Neutral, false)),
        Some(PlayerAction::NspecialAirStart) => Some((TorielSpecial::Neutral, true)),
        _ => None,
    }
}

/// What `special` summons on `frame`, for a Toriel with `owner_id` facing right or left.
pub open spec fn spec_spawn(special: TorielSpecial, frame: i64, owner_id: usize, face_right: bool) -> Option<TorielSpawn> {
    if frame == SPECIAL_SPAWN_FRAME {
        Some(match special {
            TorielSpecial::Down => TorielSpawn::Item,
            TorielSpecial::Side => TorielSpawn::Projectile { owner_id, face_right },
            TorielSpecial::Neutral => TorielSpawn::Fireball { owner_id, face_right },
        })
    } else {
        None
    }
}

/// The fighter Toriel: a fighter with her own specials.
#[derive(Clone, Debug)]
pub struct Toriel {
    pub player: Player,
}

impl Toriel {
    pub fn new(player: Player) -> (r: Toriel)
        ensures
            r.player == player,
    {
        Toriel { player }
    }

    /// The special an action starts, and whether it is the air version.
    pub fn special_of(action: Option<PlayerAction>) -> (r: Option<(TorielSpecial, bool)>)
        ensures
            r == spec_special_of(action),
    {
        match action {
            Some(PlayerAction::DspecialGroundStart) => Some((TorielSpecial::Down, false)),
            Some(PlayerAction::DspecialAirStart) => Some((TorielSpecial::Down, true)),
            Some(PlayerAction::SspecialGroundStart) => Some((TorielSpecial::Side, false)),
            Some(PlayerAction::SspecialAirStart) => Some((TorielSpecial::Side, true)),
            Some(PlayerAction::NspecialGroundStart) => Some((TorielSpecial::Neutral, false)),
            Some(PlayerAction::NspecialAirStart) => Some((TorielSpecial::Neutral, true)),
            _ => None,
        }
    }

    /// The action that follows a special of Toriel's when it runs out: standing idle after a
    /// ground special, falling after an air special. `None` for any other action, which runs
    /// out as any fighter's does.
    pub fn action_expired(action: Option<PlayerAction>) -> (r: Option<PlayerAction>)
        ensures
            r == (match spec_special_of(action) {
                Some((_, true)) => Some(PlayerAction::Fall),
                Some((_, false)) => Some(PlayerAction::Idle),
                None => None,
            }),
    {
        match Toriel::special_of(action) {
            Some((_, true)) => Some(PlayerAction::Fall),
            Some((_, false)) => Some(PlayerAction::Idle),
            None => None,
        }
    }

    /// What `special` summons on `frame`.
    pub fn spawn(&self, special: TorielSpecial, frame: i64, face_right: bool) -> (r: Option<TorielSpawn>)
        ensures
            r == spec_spawn(special, frame, self.player.id, face_right),
    {
        if frame == SPECIAL_SPAWN_FRAME {
            Some(match special {
                TorielSpecial::Down => TorielSpawn::Item,
                TorielSpecial::Side => TorielSpawn::Projectile { owner_id: self.player.id, face_right },
                TorielSpecial::Neutral => TorielSpawn::Fireball { owner_id: self.player.id, face_right },
            })
        } else {
            None
        }
    }

    /// One frame of a ground special on `frame` of `action`: it runs as standing idle does,
    /// and, when that picks no action, summons the special's entity on the spawn frame.
    pub fn special_ground_action(&mut self, special: TorielSpecial, action: Option<PlayerAction>, frame: i64, interruptible: bool, face_right: bool, input: GroundInput)
        -> (r: ((Option<PlayerAction>, GroundEffect, bool), Option<TorielSpawn>))
        ensures
            r.0.2 == (action == Some(PlayerAction::TauntDown) && frame == 0 && input.b_held),
            interruptible ==> (r.0.0, r.0.1) == outcome(first_check(idle_checks(), action, input), GroundEffect::Friction),
            !interruptible ==> r.0.0 is None && r.0.1 == GroundEffect::Friction,
            r.0.0 is None ==> r.1 == spec_spawn(special, frame, old(self).player.id, face_right),
            r.0.0 is Some ==> r.1 is None,
            r.0.0 == Some(PlayerAction::JumpSquat) ==> final(self).player.jumpsquat_button == input.x_or_y_press,
            r.0.0 != Some(PlayerAction::JumpSquat) ==> final(self).player.jumpsquat_button == old(self).player.jumpsquat_button,
            final(self).player == (Player { jumpsquat_button: final(self).player.jumpsquat_button, ..old(self).player }),
    {
        let idle = self.player.ground_idle_action(action, frame, interruptible, input);
        if idle.0.is_some() {
            return (idle, None);
        }
        let spawned = self.spawn(special, frame, face_right);
        (idle, spawned)
    }

    /// One frame of an air special on `frame`: it runs as an aerial does, and, when that
    /// picks no action, summons the special's entity on the spawn frame.
    pub fn special_air_action(&mut self, special: TorielSpecial, frame: i64, interruptible: bool, face_right: bool, input: AirInput)
        -> (r: (AirStep, Option<TorielSpawn>))
        ensures
            ({
                let choice = if interruptible { air_choice(input, old(self).player.air_jumps_left, true, false) } else { None };
                let drop_item = interruptible && spec_aerial_attack(input.attack) is DropItem;
                let mid = after_air_choice(old(self).player, choice);
                &&& r.0 == air_step_of(choice, drop_item, mid.fastfalled, input.fastfall)
                &&& final(self).player == after_air_step(mid, r.0)
            }),
            r.0.action is None ==> r.1 == spec_spawn(special, frame, old(self).player.id, face_right),
            r.0.action is Some ==> r.1 is None,
    {
        let step = self.player.aerial_action(interruptible, input);
        if step.action.is_some() {
            return (step, None);
        }
        let spawned = self.spawn(special, frame, face_right);
        (step, spawned)
    }
}

} // verus!
