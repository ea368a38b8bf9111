use vstd::prelude::*;

use crate::player::{Player, PlayerAction};

verus! {

/// What decides a shielding fighter's next action, resolved from the controller and the
/// fighter's definition.
#[derive(Clone, Copy, Debug, PartialEq, Eq, Structural)]
pub struct ShieldStateInput {
    /// The fighter's definition has a shield.
    pub has_shield: bool,
    /// The shield locks the stick and B is held.
    pub stick_lock: bool,
    /// This frame's cost used up the shield's health: the shield breaks.
    pub broken: bool,
    /// A or Z was just pressed: a grab out of shield.
    pub grab: bool,
    pub x_or_y_press: bool,
    pub stick_flicked_up: bool,
    /// The fighter stands on a pass-through platform, on the frame it can drop through, and
    /// the stick was pushed down for it.
    pub pass_platform: bool,
    /// Both triggers are let go, digitally and past the analog threshold.
    pub released: bool,
}

/// The shield checks shared by putting a shield up, holding it and dropping it: a broken
/// shield sends the fighter falling; unless shield stun and the stick lock hold it, the fighter
/// may grab, jump or drop through a platform.
pub open spec fn shield_shared_choice(shield_stun_timer: u64, i: ShieldStateInput) -> Option<PlayerAction> {
    if !i.has_shield {
        None
    } else if i.broken {
        Some(PlayerAction::ShieldBreakFall)
    } else if shield_stun_timer > 0 && i.stick_lock {
        None
    } else if i.grab {
        Some(PlayerAction::Grab)
    } else if i.x_or_y_press || i.stick_flicked_up {
        Some(PlayerAction::JumpSquat)
    } else if i.pass_platform {
        Some(PlayerAction::PassPlatform)
    } else {
        None
    }
}

/// A jump out of shield records whether it was asked for by button.
pub open spec fn after_shield_choice(p: Player, choice: Option<PlayerAction>, i: ShieldStateInput) -> Player {
    if choice == Some(PlayerAction::JumpSquat) {
        Player { jumpsquat_button: i.x_or_y_press, ..p }
    } else {
        p
    }
}

impl Player {
    /// The shield checks shared by the shield actions. The shield's health, size and offset,
    /// and the velocities of a broken shield's fall, are the caller's.
    pub fn shield_shared_action(&mut self, input: ShieldStateInput) -> (r: Option<PlayerAction>)
        ensures
            r == shield_shared_choice(old(self).shield_stun_timer, input),
            *final(self) == after_shield_choice(*old(self), r, input),
    {
        if !input.has_shield {
            return None;
        }
        if input.broken {
            return Some(PlayerAction::ShieldBreakFall);
        }
        if self.shield_stun_timer > 0 && input.stick_lock {
            return None;
        }
        if input.grab {
            return Some(PlayerAction::Grab);
        }
        if let Some(a) = self.check_jump(input.x_or_y_press, input.stick_flicked_up) {
            return Some(a);
        }
        if input.pass_platform {
            return Some(PlayerAction::PassPlatform);
        }
        None
    }

    /// One frame of holding a shield: the shared checks, and then, when shield stun is over and
    /// the triggers are let go, the shield drops: straight to idle while a parry is on.
    pub fn shield_action(&mut self, input: ShieldStateInput) -> (r: Option<PlayerAction>)
        ensures
            ({
                let shared = shield_shared_choice(old(self).shield_stun_timer, input);
                &&& shared is Some ==> r == shared
                &&& shared is None ==> r == (if old(self).shield_stun_timer == 0 && input.released {
                    Some(if old(self).parry_timer > 0 { PlayerAction::Idle } else { PlayerAction::ShieldOff })
                } else {
                    None
                })
                &&& *final(self) == after_shield_choice(*old(self), shared, input)
            }),
    {
        let shared = self.shield_shared_action(input);
        if shared.is_some() {
            return shared;
        }
        if self.shield_stun_timer == 0 && input.released {
            if self.parry_timer > 0 {
                Some(PlayerAction::Idle)
            } else {
                Some(PlayerAction::ShieldOff)
            }
        } else {
            None
        }
    }

    /// One frame of the stun after a broken shield: the stun counts down and the fighter
    /// stands up when it runs out. (Capping the shield's health and friction are the caller's.)
    pub fn stun_action(&mut self) -> (r: Option<PlayerAction>)
        requires
            old(self).stun_timer > 0,
        ensures
            final(self).stun_timer == old(self).stun_timer - 1,
            r == (if final(self).stun_timer == 0 { Some(PlayerAction::Idle) } else { None }),
            *final(self) == (Player { stun_timer: final(self).stun_timer, ..*old(self) }),
    {
        self.stun_timer = self.stun_timer - 1;
        if self.stun_timer == 0 {
            Some(PlayerAction::Idle)
        } else {
            None
        }
    }
}

} // verus!
