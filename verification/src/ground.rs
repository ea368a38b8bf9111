use vstd::prelude::*;

use crate::player::{
    GroundAttackInput, Player, PlayerAction, ShieldInput, SmashInput, SpecialInput,
};

verus! {

/// What the controller says to a fighter on the ground, each check resolved against the
/// fighter's facing and the entity definition.
#[derive(Clone, Copy, Debug, PartialEq, Eq, Structural)]
pub struct GroundInput {
    pub x_or_y_press: bool,
    pub stick_flicked_up: bool,
    pub has_shield: bool,
    pub has_power_shield: bool,
    pub shield: ShieldInput,
    pub special: SpecialInput,
    pub smash: SmashInput,
    pub attack: GroundAttackInput,
    pub z_press: bool,
    pub taunt_up: bool,
    pub taunt_down: bool,
    pub taunt_left: bool,
    pub taunt_right: bool,
    /// The stick is held far enough down to crouch.
    pub stick_crouch: bool,
    /// The stick was just smashed forward: a dash.
    pub dash: bool,
    /// The stick was just smashed backward: a smash turn.
    pub smash_turn: bool,
    /// The stick points backward: a tilt turn.
    pub tilt_turn: bool,
    /// The stick points sideways far enough to walk.
    pub walk: bool,
    /// The stick points sideways far enough to walk off a teeter.
    pub walk_teeter: bool,
    /// The stick is no longer held down far enough to stay crouched.
    pub crouch_end: bool,
    /// This is the first frame the landing can be interrupted and the stick is held down.
    pub land_crouch: bool,
    /// The stick points back far enough to turn a run round.
    pub run_turn: bool,
    /// B is held.
    pub b_held: bool,
}

/// What else happens to the fighter besides its next action.
#[derive(Clone, Copy, Debug, PartialEq, Eq, Structural)]
pub enum GroundEffect {
    Nothing,
    /// The fighter turns to face right (`true`) or left.
    Face(bool),
    /// The fighter gets its dash's starting velocity.
    DashVelocity,
    /// The fighter turns round and keeps a quarter of its velocity.
    SmashTurn,
    /// The fighter speeds up to its walking velocity.
    WalkVelocity,
    /// No action was taken: friction slows the fighter.
    Friction,
    /// No action was taken while walking: the fighter speeds up towards the stick's walking
    /// speed, or friction slows it when it is faster.
    Walking,
}

/// One of the checks a grounded action makes.
#[derive(Clone, Copy, Debug, PartialEq, Eq, Structural)]
pub enum GroundCheck {
    Jump,
    Shield,
    Special,
    Smash,
    Attack,
    Grab,
    Taunt,
    Crouch,
    Dash,
    SmashTurn,
    TiltTurn,
    Walk,
    WalkTeeter,
    CrouchEnd,
    LandCrouch,
    RunTurn,
}

/// The crouch check: crouching starts unless the fighter already crouches.
pub open spec fn crouch_check(action: Option<PlayerAction>, stick_crouch: bool) -> Option<PlayerAction> {
    if stick_crouch {
        match action {
            Some(PlayerAction::CrouchStart) | Some(PlayerAction::Crouch) | Some(PlayerAction::CrouchEnd) => None,
            Some(_) => Some(PlayerAction::CrouchStart),
            None => None,
        }
    } else {
        None
    }
}

/// The smash check's choice, with the facing a side smash turns to.
pub open spec fn smash_choice(s: SmashInput) -> Option<(PlayerAction, Option<bool>)> {
    if (s.a_press && s.stick_smash_right) || s.stick_smash_left {
        Some((PlayerAction::Fsmash, Some(s.stick_right)))
    } else if s.a_press && s.stick_smash_up {
        Some((PlayerAction::Usmash, None::<bool>))
    } else if s.a_press && s.stick_smash_down {
        Some((PlayerAction::Dsmash, None::<bool>))
    } else if s.c_smash_side {
        Some((PlayerAction::Fsmash, Some(s.c_right)))
    } else if s.c_smash_up {
        Some((PlayerAction::Usmash, None::<bool>))
    } else if s.c_smash_down {
        Some((PlayerAction::Dsmash, None::<bool>))
    } else {
        None
    }
}

/// The attack check's choice: tilts and jab, or throwing a held item.
pub open spec fn attack_choice(a: GroundAttackInput) -> Option<PlayerAction> {
    if a.a_press {
        Some(if a.stick_forward {
            if a.holding_item { PlayerAction::ItemThrowF } else { PlayerAction::Ftilt }
        } else if a.stick_down {
            if a.holding_item { PlayerAction::ItemThrowD } else { PlayerAction::Dtilt }
        } else if a.stick_up {
            if a.holding_item { PlayerAction::ItemThrowU } else { PlayerAction::Utilt }
        } else {
            if a.holding_item { PlayerAction::ItemThrowF } else { PlayerAction::Jab }
        })
    } else {
        None
    }
}

/// The taunt check's choice.
pub open spec fn taunt_choice(i: GroundInput) -> Option<PlayerAction> {
    if i.taunt_up {
        Some(PlayerAction::TauntUp)
    } else if i.taunt_down {
        Some(PlayerAction::TauntDown)
    } else if i.taunt_left {
        Some(PlayerAction::TauntLeft)
    } else if i.taunt_right {
        Some(PlayerAction::TauntRight)
    } else {
        None
    }
}

/// The effect of a choice that may turn the fighter.
pub open spec fn facing_effect(face: Option<bool>) -> GroundEffect {
    match face {
        Some(right) => GroundEffect::Face(right),
        None => GroundEffect::Nothing,
    }
}

/// An action without an effect, if any.
pub open spec fn plain(a: Option<PlayerAction>) -> Option<(PlayerAction, GroundEffect)> {
    match a {
        Some(x) => Some((x, GroundEffect::Nothing)),
        None => None,
    }
}

/// What check `c` picks, if it applies.
pub open spec fn check_result(c: GroundCheck, action: Option<PlayerAction>, i: GroundInput) -> Option<(PlayerAction, GroundEffect)> {
    match c {
        GroundCheck::Jump => if i.x_or_y_press || i.stick_flicked_up {
            Some((PlayerAction::JumpSquat, GroundEffect::Nothing))
        } else {
            None
        },
        GroundCheck::Shield => plain(Player::shield_choice(i.has_shield, i.has_power_shield, i.shield)),
        GroundCheck::Special => match Player::special_choice(i.special, false) {
            Some((a, face)) => Some((a, facing_effect(face))),
            None => None,
        },
        GroundCheck::Smash => match smash_choice(i.smash) {
            Some((a, face)) => Some((a, facing_effect(face))),
            None => None,
        },
        GroundCheck::Attack => plain(attack_choice(i.attack)),
        GroundCheck::Grab => if i.z_press {
            Some((PlayerAction::Grab, GroundEffect::Nothing))
        } else {
            None
        },
        GroundCheck::Taunt => plain(taunt_choice(i)),
        GroundCheck::Crouch => plain(crouch_check(action, i.stick_crouch)),
        GroundCheck::Dash => if i.dash {
            Some((PlayerAction::Dash, GroundEffect::DashVelocity))
        } else {
            None
        },
        GroundCheck::SmashTurn => if i.smash_turn {
            Some((PlayerAction::SmashTurn, GroundEffect::SmashTurn))
        } else {
            None
        },
        GroundCheck::TiltTurn => if i.tilt_turn {
            Some((PlayerAction::TiltTurn, GroundEffect::Nothing))
        } else {
            None
        },
        GroundCheck::Walk => if i.walk {
            Some((PlayerAction::Walk, GroundEffect::WalkVelocity))
        } else {
            None
        },
        GroundCheck::WalkTeeter => if i.walk_teeter {
            Some((PlayerAction::Walk, GroundEffect::WalkVelocity))
        } else {
            None
        },
        GroundCheck::CrouchEnd => if i.crouch_end {
            Some((PlayerAction::CrouchEnd, GroundEffect::Nothing))
        } else {
            None
        },
        GroundCheck::LandCrouch => if i.land_crouch {
            Some((PlayerAction::Crouch, GroundEffect::Nothing))
        } else {
            None
        },
        GroundCheck::RunTurn => if i.run_turn {
            Some((PlayerAction::RunTurn, GroundEffect::Nothing))
        } else {
            None
        },
    }
}

/// The first of `checks` that applies, in order.
pub open spec fn first_check(checks: Seq<GroundCheck>, action: Option<PlayerAction>, i: GroundInput) -> Option<(PlayerAction, GroundEffect)>
    decreases checks.len(),
{
    if checks.len() == 0 {
        None
    } else {
        match check_result(checks[0], action, i) {
            Some(r) => Some(r),
            None => first_check(checks.drop_first(), action, i),
        }
    }
}

/// The checks of a fighter standing idle.
pub open spec fn idle_checks() -> Seq<GroundCheck> {
    seq![
        GroundCheck::Jump, GroundCheck::Shield, GroundCheck::Special, GroundCheck::Smash,
        GroundCheck::Attack, GroundCheck::Grab, GroundCheck::Taunt, GroundCheck::Crouch,
        GroundCheck::Dash, GroundCheck::SmashTurn, GroundCheck::TiltTurn, GroundCheck::Walk,
    ]
}

/// The checks of a walking fighter.
pub open spec fn walk_checks() -> Seq<GroundCheck> {
    seq![
        GroundCheck::Jump, GroundCheck::Shield, GroundCheck::Special, GroundCheck::Smash,
        GroundCheck::Attack, GroundCheck::Grab, GroundCheck::Crouch, GroundCheck::Dash,
        GroundCheck::SmashTurn, GroundCheck::TiltTurn, GroundCheck::Taunt,
    ]
}

/// The checks of a crouching fighter.
pub open spec fn crouch_checks() -> Seq<GroundCheck> {
    seq![
        GroundCheck::Jump, GroundCheck::Shield, GroundCheck::Special, GroundCheck::Smash,
        GroundCheck::Attack, GroundCheck::Grab, GroundCheck::Taunt, GroundCheck::Dash,
        GroundCheck::SmashTurn, GroundCheck::TiltTurn, GroundCheck::CrouchEnd,
    ]
}

/// The checks of a landing fighter.
pub open spec fn land_checks() -> Seq<GroundCheck> {
    seq![
        GroundCheck::Jump, GroundCheck::Shield, GroundCheck::Special, GroundCheck::Smash,
        GroundCheck::Attack, GroundCheck::Grab, GroundCheck::Taunt, GroundCheck::Dash,
        GroundCheck::SmashTurn, GroundCheck::TiltTurn, GroundCheck::Walk, GroundCheck::LandCrouch,
    ]
}

/// The checks of a teetering fighter.
pub open spec fn teeter_checks() -> Seq<GroundCheck> {
    seq![
        GroundCheck::Jump, GroundCheck::Shield, GroundCheck::Special, GroundCheck::Smash,
        GroundCheck::Attack, GroundCheck::Grab, GroundCheck::Taunt, GroundCheck::Crouch,
        GroundCheck::Dash, GroundCheck::SmashTurn, GroundCheck::TiltTurn, GroundCheck::WalkTeeter,
    ]
}

/// The checks of a fighter turning round on a tilt, after the dash out of it.
pub open spec fn tilt_turn_checks() -> Seq<GroundCheck> {
    seq![
        GroundCheck::Jump, GroundCheck::Shield, GroundCheck::Special, GroundCheck::Smash,
        GroundCheck::Attack, GroundCheck::Grab, GroundCheck::Taunt,
    ]
}

/// The checks of a fighter in a down tilt, once it can be interrupted.
pub open spec fn dtilt_checks() -> Seq<GroundCheck> {
    seq![
        GroundCheck::Jump, GroundCheck::Shield, GroundCheck::Special, GroundCheck::Smash,
        GroundCheck::Attack, GroundCheck::Grab, GroundCheck::Dash, GroundCheck::SmashTurn,
        GroundCheck::TiltTurn, GroundCheck::Walk, GroundCheck::Taunt,
    ]
}

/// The checks of a fighter starting to crouch, after dropping through a platform.
pub open spec fn crouch_start_checks() -> Seq<GroundCheck> {
    seq![
        GroundCheck::Shield, GroundCheck::Special, GroundCheck::Smash, GroundCheck::Attack,
        GroundCheck::Grab, GroundCheck::Taunt, GroundCheck::Jump,
    ]
}

/// The checks at the end of a run: crouching only after its first two frames.
pub open spec fn run_end_checks(frame: i64) -> Seq<GroundCheck> {
    if frame > 1 {
        seq![GroundCheck::Jump, GroundCheck::Crouch, GroundCheck::RunTurn]
    } else {
        seq![GroundCheck::Jump, GroundCheck::RunTurn]
    }
}

/// The checks picked a jump.
pub open spec fn jumped(r: Option<(PlayerAction, GroundEffect)>) -> bool {
    r matches Some(x) && x.0 == PlayerAction::JumpSquat
}

/// The outcome of checks: the first that applies, else `none` with no action.
pub open spec fn outcome(r: Option<(PlayerAction, GroundEffect)>, none: GroundEffect) -> (Option<PlayerAction>, GroundEffect) {
    match r {
        Some((a, e)) => (Some(a), e),
        None => (None, none),
    }
}

fn make_checks(kind: u8, frame: i64) -> (r: Vec<GroundCheck>)
    requires
        kind < 9,
    ensures
        kind == 0 ==> r@ == idle_checks(),
        kind == 1 ==> r@ == walk_checks(),
        kind == 2 ==> r@ == crouch_checks(),
        kind == 3 ==> r@ == land_checks(),
        kind == 4 ==> r@ == teeter_checks(),
        kind == 5 ==> r@ == tilt_turn_checks(),
        kind == 6 ==> r@ == run_end_checks(frame),
        kind == 7 ==> r@ == dtilt_checks(),
        kind == 8 ==> r@ == crouch_start_checks(),
{
    let r = if kind == 0 {
        vec![
            GroundCheck::Jump, GroundCheck::Shield, GroundCheck::Special, GroundCheck::Smash,
            GroundCheck::Attack, GroundCheck::Grab, GroundCheck::Taunt, GroundCheck::Crouch,
            GroundCheck::Dash, GroundCheck::SmashTurn, GroundCheck::TiltTurn, GroundCheck::Walk,
        ]
    } else if kind == 1 {
        vec![
            GroundCheck::Jump, GroundCheck::Shield, GroundCheck::Special, GroundCheck::Smash,
            GroundCheck::Attack, GroundCheck::Grab, GroundCheck::Crouch, GroundCheck::Dash,
            GroundCheck::SmashTurn, GroundCheck::TiltTurn, GroundCheck::Taunt,
        ]
    } else if kind == 2 {
        vec![
            GroundCheck::Jump, GroundCheck::Shield, GroundCheck::Special, GroundCheck::Smash,
            GroundCheck::Attack, GroundCheck::Grab, GroundCheck::Taunt, GroundCheck::Dash,
            GroundCheck::SmashTurn, GroundCheck::TiltTurn, GroundCheck::CrouchEnd,
        ]
    } else if kind == 3 {
        vec![
            GroundCheck::Jump, GroundCheck::Shield, GroundCheck::Special, GroundCheck::Smash,
            GroundCheck::Attack, GroundCheck::Grab, GroundCheck::Taunt, GroundCheck::Dash,
            GroundCheck::SmashTurn, GroundCheck::TiltTurn, GroundCheck::Walk, GroundCheck::LandCrouch,
        ]
    } else if kind == 4 {
        vec![
            GroundCheck::Jump, GroundCheck::Shield, GroundCheck::Special, GroundCheck::Smash,
            GroundCheck::Attack, GroundCheck::Grab, GroundCheck::Taunt, GroundCheck::Crouch,
            GroundCheck::Dash, GroundCheck::SmashTurn, GroundCheck::TiltTurn, GroundCheck::WalkTeeter,
        ]
    } else if kind == 5 {
        vec![
            GroundCheck::Jump, GroundCheck::Shield, GroundCheck::Special, GroundCheck::Smash,
            GroundCheck::Attack, GroundCheck::Grab, GroundCheck::Taunt,
        ]
    } else if kind == 7 {
        vec![
            GroundCheck::Jump, GroundCheck::Shield, GroundCheck::Special, GroundCheck::Smash,
            GroundCheck::Attack, GroundCheck::Grab, GroundCheck::Dash, GroundCheck::SmashTurn,
            GroundCheck::TiltTurn, GroundCheck::Walk, GroundCheck::Taunt,
        ]
    } else if kind == 8 {
        vec![
            GroundCheck::Shield, GroundCheck::Special, GroundCheck::Smash, GroundCheck::Attack,
            GroundCheck::Grab, GroundCheck::Taunt, GroundCheck::Jump,
        ]
    } else if frame > 1 {
        vec![GroundCheck::Jump, GroundCheck::Crouch, GroundCheck::RunTurn]
    } else {
        vec![GroundCheck::Jump, GroundCheck::RunTurn]
    };
    assert(kind == 0 ==> r@ =~= idle_checks());
    assert(kind == 1 ==> r@ =~= walk_checks());
    assert(kind == 2 ==> r@ =~= crouch_checks());
    assert(kind == 3 ==> r@ =~= land_checks());
    assert(kind == 4 ==> r@ =~= teeter_checks());
    assert(kind == 5 ==> r@ =~= tilt_turn_checks());
    assert(kind == 6 ==> r@ =~= run_end_checks(frame));
    assert(kind == 7 ==> r@ =~= dtilt_checks());
    assert(kind == 8 ==> r@ =~= crouch_start_checks());
    r
}

impl Player {
    /// Runs check `c`; a jump remembers whether a button asked for it.
    fn check_one(&mut self, c: GroundCheck, action: Option<PlayerAction>, i: GroundInput) -> (r: Option<(PlayerAction, GroundEffect)>)
        ensures
            r == check_result(c, action, i),
            c == GroundCheck::Jump && r is Some ==> final(self).jumpsquat_button == i.x_or_y_press,
            !(c == GroundCheck::Jump && r is Some) ==> final(self).jumpsquat_button == old(self).jumpsquat_button,
            *final(self) == (Player { jumpsquat_button: final(self).jumpsquat_button, ..*old(self) }),
    {
        match c {
            GroundCheck::Jump => match self.check_jump(i.x_or_y_press, i.stick_flicked_up) {
                Some(a) => Some((a, GroundEffect::Nothing)),
                None => None,
            },
            GroundCheck::Shield => match Player::check_shield(i.has_shield, i.has_power_shield, i.shield) {
                Some(a) => Some((a, GroundEffect::Nothing)),
                None => None,
            },
            GroundCheck::Special => match Player::check_special(i.special, false) {
                Some((a, Some(right))) => Some((a, GroundEffect::Face(right))),
                Some((a, None)) => Some((a, GroundEffect::Nothing)),
                None => None,
            },
            GroundCheck::Smash => match Player::check_smash(i.smash) {
                Some((a, Some(right))) => Some((a, GroundEffect::Face(right))),
                Some((a, None)) => Some((a, GroundEffect::Nothing)),
                None => None,
            },
            GroundCheck::Attack => match Player::check_attacks(i.attack) {
                Some(a) => Some((a, GroundEffect::Nothing)),
                None => None,
            },
            GroundCheck::Grab => if i.z_press {
                Some((PlayerAction::Grab, GroundEffect::Nothing))
            } else {
                None
            },
            GroundCheck::Taunt => match Player::check_taunt(i.taunt_up, i.taunt_down, i.taunt_left, i.taunt_right) {
                Some(a) => Some((a, GroundEffect::Nothing)),
                None => None,
            },
            GroundCheck::Crouch => if i.stick_crouch {
                match action {
                    Some(PlayerAction::CrouchStart) | Some(PlayerAction::Crouch) | Some(PlayerAction::CrouchEnd) => None,
                    Some(_) => Some((PlayerAction::CrouchStart, GroundEffect::Nothing)),
                    None => None,
                }
            } else {
                None
            },
            GroundCheck::Dash => if i.dash {
                Some((PlayerAction::Dash, GroundEffect::DashVelocity))
            } else {
                None
            },
            GroundCheck::SmashTurn => if i.smash_turn {
                Some((PlayerAction::SmashTurn, GroundEffect::SmashTurn))
            } else {
                None
            },
            GroundCheck::TiltTurn => if i.tilt_turn {
                Some((PlayerAction::TiltTurn, GroundEffect::Nothing))
            } else {
                None
            },
            GroundCheck::Walk => if i.walk {
                Some((PlayerAction::Walk, GroundEffect::WalkVelocity))
            } else {
                None
            },
            GroundCheck::WalkTeeter => if i.walk_teeter {
                Some((PlayerAction::Walk, GroundEffect::WalkVelocity))
            } else {
                None
            },
            GroundCheck::CrouchEnd => if i.crouch_end {
                Some((PlayerAction::CrouchEnd, GroundEffect::Nothing))
            } else {
                None
            },
            GroundCheck::LandCrouch => if i.land_crouch {
                Some((PlayerAction::Crouch, GroundEffect::Nothing))
            } else {
                None
            },
            GroundCheck::RunTurn => if i.run_turn {
                Some((PlayerAction::RunTurn, GroundEffect::Nothing))
            } else {
                None
            },
        }
    }

    /// Runs `checks` in order until one applies.
    fn run_checks(&mut self, checks: &Vec<GroundCheck>, action: Option<PlayerAction>, i: GroundInput) -> (r: Option<(PlayerAction, GroundEffect)>)
        ensures
            r == first_check(checks@, action, i),
            jumped(r) ==> final(self).jumpsquat_button == i.x_or_y_press,
            !jumped(r) ==> final(self).jumpsquat_button == old(self).jumpsquat_button,
            *final(self) == (Player { jumpsquat_button: final(self).jumpsquat_button, ..*old(self) }),
    {
        let mut k: usize = 0;
        assert(checks@.subrange(0, checks@.len() as int) =~= checks@);
        while k < checks.len()
            invariant
                k <= checks@.len(),
                first_check(checks@.subrange(k as int, checks@.len() as int), action, i) == first_check(checks@, action, i),
                *self == *old(self),
            decreases checks@.len() - k,
        {
            let ghost rest = checks@.subrange(k as int, checks@.len() as int);
            assert(rest.drop_first() =~= checks@.subrange(k + 1, checks@.len() as int));
            let r = self.check_one(checks[k], action, i);
            if r.is_some() {
                proof {
                    if checks@[k as int] != GroundCheck::Jump {
                        assert(!jumped(r));
                    }
                }
                return r;
            }
            k = k + 1;
        }
        assert(checks@.subrange(k as int, checks@.len() as int) =~= Seq::<GroundCheck>::empty());
        None
    }

    /// One frame of a fighter standing idle in `action` on `frame`. Taunting down on the
    /// first frame with B held also drops an item (the third result). Once the action can be
    /// interrupted, the first of the idle checks that applies picks the next action: jump,
    /// shield, special, smash, attack, grab, taunt, crouch, dash, smash turn, tilt turn, walk.
    /// When nothing is picked, friction slows the fighter.
    pub fn ground_idle_action(&mut self, action: Option<PlayerAction>, frame: i64, interruptible: bool, input: GroundInput) -> (r: (Option<PlayerAction>, GroundEffect, bool))
        ensures
            r.2 == (action == Some(PlayerAction::TauntDown) && frame == 0 && input.b_held),
            interruptible ==> (r.0, r.1) == outcome(first_check(idle_checks(), action, input), GroundEffect::Friction),
            !interruptible ==> r.0 is None && r.1 == GroundEffect::Friction,
            r.0 == Some(PlayerAction::JumpSquat) ==> final(self).jumpsquat_button == input.x_or_y_press,
            r.0 != Some(PlayerAction::JumpSquat) ==> final(self).jumpsquat_button == old(self).jumpsquat_button,
            *final(self) == (Player { jumpsquat_button: final(self).jumpsquat_button, ..*old(self) }),
    {
        let drop_item = action == Some(PlayerAction::TauntDown) && frame == 0 && input.b_held;
        if !interruptible {
            return (None, GroundEffect::Friction, drop_item);
        }
        let checks = make_checks(0, frame);
        match self.run_checks(&checks, action, input) {
            Some((a, e)) => (Some(a), e, drop_item),
            None => (None, GroundEffect::Friction, drop_item),
        }
    }

    /// One frame of walking in `action`; `stick_neutral` when the stick is at rest, which
    /// stops the walk. Otherwise the first of the walking checks that applies picks the next
    /// action: jump, shield, special, smash, attack, grab, crouch, dash, smash turn, tilt turn,
    /// taunt; else the walk goes on.
    pub fn walk_action(&mut self, action: Option<PlayerAction>, stick_neutral: bool, input: GroundInput) -> (r: (Option<PlayerAction>, GroundEffect))
        ensures
            stick_neutral ==> r == (Some(PlayerAction::Idle), GroundEffect::Nothing),
            !stick_neutral ==> r == outcome(first_check(walk_checks(), action, input), GroundEffect::Walking),
            r.0 == Some(PlayerAction::JumpSquat) ==> final(self).jumpsquat_button == input.x_or_y_press,
            r.0 != Some(PlayerAction::JumpSquat) ==> final(self).jumpsquat_button == old(self).jumpsquat_button,
            *final(self) == (Player { jumpsquat_button: final(self).jumpsquat_button, ..*old(self) }),
    {
        if stick_neutral {
            return (Some(PlayerAction::Idle), GroundEffect::Nothing);
        }
        let checks = make_checks(1, 0);
        match self.run_checks(&checks, action, input) {
            Some((a, e)) => (Some(a), e),
            None => (None, GroundEffect::Walking),
        }
    }

    /// One frame of a grounded action whose checks are `kind`'s, once it can be
    /// interrupted; friction slows the fighter when nothing is picked.
    fn checked_action(&mut self, kind: u8, frame: i64, action: Option<PlayerAction>, interruptible: bool, input: GroundInput) -> (r: (Option<PlayerAction>, GroundEffect))
        requires
            kind < 9,
        ensures
            ({
                let checks = if kind == 7 {
                    dtilt_checks()
                } else if kind == 8 {
                    crouch_start_checks()
                } else if kind == 2 {
                    crouch_checks()
                } else if kind == 3 {
                    land_checks()
                } else if kind == 4 {
                    teeter_checks()
                } else if kind == 5 {
                    tilt_turn_checks()
                } else if kind == 6 {
                    run_end_checks(frame)
                } else if kind == 1 {
                    walk_checks()
                } else {
                    idle_checks()
                };
                &&& interruptible ==> r == outcome(first_check(checks, action, input), GroundEffect::Friction)
                &&& !interruptible ==> r == (None::<PlayerAction>, GroundEffect::Friction)
            }),
            r.0 == Some(PlayerAction::JumpSquat) ==> final(self).jumpsquat_button == input.x_or_y_press,
            r.0 != Some(PlayerAction::JumpSquat) ==> final(self).jumpsquat_button == old(self).jumpsquat_button,
            *final(self) == (Player { jumpsquat_button: final(self).jumpsquat_button, ..*old(self) }),
    {
        if !interruptible {
            return (None, GroundEffect::Friction);
        }
        let checks = make_checks(kind, frame);
        match self.run_checks(&checks, action, input) {
            Some((a, e)) => (Some(a), e),
            None => (None, GroundEffect::Friction),
        }
    }

    /// One frame of crouching: once interruptible, jump, shield, special, smash, attack,
    /// grab, taunt, dash, smash turn, tilt turn, or leaving the crouch when the stick comes
    /// up; else friction.
    pub fn crouch_action(&mut self, action: Option<PlayerAction>, interruptible: bool, input: GroundInput) -> (r: (Option<PlayerAction>, GroundEffect))
        ensures
            interruptible ==> r == outcome(first_check(crouch_checks(), action, input), GroundEffect::Friction),
            !interruptible ==> r == (None::<PlayerAction>, GroundEffect::Friction),
            r.0 == Some(PlayerAction::JumpSquat) ==> final(self).jumpsquat_button == input.x_or_y_press,
            r.0 != Some(PlayerAction::JumpSquat) ==> final(self).jumpsquat_button == old(self).jumpsquat_button,
            *final(self) == (Player { jumpsquat_button: final(self).jumpsquat_button, ..*old(self) }),
    {
        self.checked_action(2, 0, action, interruptible, input)
    }

    /// One frame of landing: once interruptible, jump, shield, special, smash, attack, grab,
    /// taunt, dash, smash turn, tilt turn, walk, or crouching on the first interruptible frame
    /// with the stick down; else friction.
    pub fn land_action(&mut self, action: Option<PlayerAction>, interruptible: bool, input: GroundInput) -> (r: (Option<PlayerAction>, GroundEffect))
        ensures
            interruptible ==> r == outcome(first_check(land_checks(), action, input), GroundEffect::Friction),
            !interruptible ==> r == (None::<PlayerAction>, GroundEffect::Friction),
            r.0 == Some(PlayerAction::JumpSquat) ==> final(self).jumpsquat_button == input.x_or_y_press,
            r.0 != Some(PlayerAction::JumpSquat) ==> final(self).jumpsquat_button == old(self).jumpsquat_button,
            *final(self) == (Player { jumpsquat_button: final(self).jumpsquat_button, ..*old(self) }),
    {
        self.checked_action(3, 0, action, interruptible, input)
    }

    /// One frame of the landing of an attack or special on `frame`: the landing's choices,
    /// else the frames the landing skips are skipped.
    pub fn attack_land_action(&mut self, action: Option<PlayerAction>, frame: i64, interruptible: bool, input: GroundInput) -> (r: (Option<PlayerAction>, Option<i64>, GroundEffect))
        requires
            frame + 1 + 255 <= i64::MAX,
        ensures
            ({
                let land = if interruptible {
                    outcome(first_check(land_checks(), action, input), GroundEffect::Friction)
                } else {
                    (None::<PlayerAction>, GroundEffect::Friction)
                };
                &&& land.0 is Some ==> r == (land.0, None::<i64>, land.1)
                &&& land.0 is None ==> r == (None::<PlayerAction>, Some((frame + old(self).land_frame_skip + 1) as i64), land.1)
            }),
            r.0 == Some(PlayerAction::JumpSquat) ==> final(self).jumpsquat_button == input.x_or_y_press,
            r.0 != Some(PlayerAction::JumpSquat) ==> final(self).jumpsquat_button == old(self).jumpsquat_button,
            *final(self) == (Player { jumpsquat_button: final(self).jumpsquat_button, ..*old(self) }),
    {
        let next_frame = frame + self.land_frame_skip as i64 + 1;
        let (a, e) = self.land_action(action, interruptible, input);
        match a {
            Some(x) => (Some(x), None, e),
            None => (None, Some(next_frame), e),
        }
    }

    /// One frame of teetering: once interruptible, jump, shield, special, smash, attack,
    /// grab, taunt, crouch, dash, smash turn, tilt turn, or walking off; nothing else happens.
    pub fn teeter_action(&mut self, action: Option<PlayerAction>, interruptible: bool, input: GroundInput) -> (r: Option<(PlayerAction, GroundEffect)>)
        ensures
            interruptible ==> r == first_check(teeter_checks(), action, input),
            !interruptible ==> r is None,
            jumped(r) ==> final(self).jumpsquat_button == input.x_or_y_press,
            !jumped(r) ==> final(self).jumpsquat_button == old(self).jumpsquat_button,
            *final(self) == (Player { jumpsquat_button: final(self).jumpsquat_button, ..*old(self) }),
    {
        if !interruptible {
            return None;
        }
        let checks = make_checks(4, 0);
        self.run_checks(&checks, action, input)
    }

    /// One frame of the end of a run on `frame`: jump, crouch (after the first two frames)
    /// or turning round; else friction.
    pub fn run_end_action(&mut self, action: Option<PlayerAction>, frame: i64, input: GroundInput) -> (r: (Option<PlayerAction>, GroundEffect))
        ensures
            r == outcome(first_check(run_end_checks(frame), action, input), GroundEffect::Friction),
            r.0 == Some(PlayerAction::JumpSquat) ==> final(self).jumpsquat_button == input.x_or_y_press,
            r.0 != Some(PlayerAction::JumpSquat) ==> final(self).jumpsquat_button == old(self).jumpsquat_button,
            *final(self) == (Player { jumpsquat_button: final(self).jumpsquat_button, ..*old(self) }),
    {
        self.checked_action(6, frame, action, true, input)
    }

    /// One frame of a down tilt: once interruptible, jump, shield, special, smash, attack,
    /// grab, dash, smash turn, tilt turn, walk or taunt; else friction.
    pub fn dtilt_action(&mut self, action: Option<PlayerAction>, interruptible: bool, input: GroundInput) -> (r: (Option<PlayerAction>, GroundEffect))
        ensures
            interruptible ==> r == outcome(first_check(dtilt_checks(), action, input), GroundEffect::Friction),
            !interruptible ==> r == (None::<PlayerAction>, GroundEffect::Friction),
            r.0 == Some(PlayerAction::JumpSquat) ==> final(self).jumpsquat_button == input.x_or_y_press,
            r.0 != Some(PlayerAction::JumpSquat) ==> final(self).jumpsquat_button == old(self).jumpsquat_button,
            *final(self) == (Player { jumpsquat_button: final(self).jumpsquat_button, ..*old(self) }),
    {
        self.checked_action(7, 0, action, interruptible, input)
    }

    /// One frame of starting to crouch: once interruptible, dropping through the platform
    /// (`pass_platform`: the fighter stands on a pass-through platform on the frame it can
    /// drop and the stick was pushed down for it; the caller puts it in the air), then shield,
    /// special, smash, attack, grab, taunt or jump; else friction.
    pub fn crouch_start_action(&mut self, action: Option<PlayerAction>, interruptible: bool, pass_platform: bool, input: GroundInput)
        -> (r: (Option<PlayerAction>, GroundEffect))
        ensures
            interruptible && pass_platform ==> r == (Some(PlayerAction::PassPlatform), GroundEffect::Nothing),
            interruptible && !pass_platform ==> r == outcome(first_check(crouch_start_checks(), action, input), GroundEffect::Friction),
            !interruptible ==> r == (None::<PlayerAction>, GroundEffect::Friction),
            r.0 == Some(PlayerAction::JumpSquat) ==> final(self).jumpsquat_button == input.x_or_y_press,
            r.0 != Some(PlayerAction::JumpSquat) ==> final(self).jumpsquat_button == old(self).jumpsquat_button,
            *final(self) == (Player { jumpsquat_button: final(self).jumpsquat_button, ..*old(self) }),
    {
        if interruptible && pass_platform {
            return (Some(PlayerAction::PassPlatform), GroundEffect::Nothing);
        }
        self.checked_action(8, 0, action, interruptible, input)
    }

    /// One frame of a smash turn on `frame`: on its first frame the stick held forward
    /// (`dash_forward`) dashes; otherwise jump, shield, special, smash, attack, grab or taunt;
    /// else friction.
    pub fn smash_turn_action(&mut self, action: Option<PlayerAction>, frame: i64, dash_forward: bool, input: GroundInput)
        -> (r: (Option<PlayerAction>, GroundEffect))
        ensures
            frame == 0 && dash_forward ==> r == (Some(PlayerAction::Dash), GroundEffect::Nothing),
            !(frame == 0 && dash_forward) ==> r == outcome(first_check(tilt_turn_checks(), action, input), GroundEffect::Friction),
            r.0 == Some(PlayerAction::JumpSquat) ==> final(self).jumpsquat_button == input.x_or_y_press,
            r.0 != Some(PlayerAction::JumpSquat) ==> final(self).jumpsquat_button == old(self).jumpsquat_button,
            *final(self) == (Player { jumpsquat_button: final(self).jumpsquat_button, ..*old(self) }),
    {
        if frame == 0 && dash_forward {
            return (Some(PlayerAction::Dash), GroundEffect::Nothing);
        }
        self.checked_action(5, frame, action, true, input)
    }
}

/// What decides a tilt turn's frame: the frame it flips the fighter on and the last frame
/// from which it can turn into a dash.
#[derive(Clone, Copy, Debug, PartialEq, Eq, Structural)]
pub struct TiltTurnFrames {
    pub flip_dir_frame: u64,
    pub into_dash_iasa: u64,
}

/// The tilt turn flips the fighter on this frame: its flip frame, or, when that lies past
/// the action's `frame_count` frames, its last frame.
pub open spec fn tilt_turn_flips(frame: i64, frame_count: usize, f: TiltTurnFrames) -> bool {
    frame == f.flip_dir_frame || (f.flip_dir_frame > frame_count - 1 && frame >= frame_count - 1)
}

impl Player {
    /// One frame of a tilt turn on `frame` of an action of `frame_count` frames. It flips
    /// the fighter (the second result) on its flip frame. Up to the dash frame, the stick
    /// held forward (with the facing after that flip) dashes, flipping again when the flip
    /// frame comes after the dash frame; otherwise jump, shield, special, smash, attack, grab
    /// or taunt; else friction.
    pub fn tilt_turn_action(&mut self, action: Option<PlayerAction>, frame: i64, frame_count: usize, frames: TiltTurnFrames, dash_forward: bool, input: GroundInput)
        -> (r: (Option<PlayerAction>, bool, GroundEffect))
        ensures
            ({
                let flip = tilt_turn_flips(frame, frame_count, frames);
                let dash = frames.into_dash_iasa >= frame && dash_forward;
                &&& dash ==> r == (Some(PlayerAction::Dash), flip != (frames.flip_dir_frame > frames.into_dash_iasa), GroundEffect::Nothing)
                    && final(self).jumpsquat_button == old(self).jumpsquat_button
                &&& !dash ==> r == ({
                    let o = outcome(first_check(tilt_turn_checks(), action, input), GroundEffect::Friction);
                    (o.0, flip, o.1)
                })
                &&& !dash && r.0 == Some(PlayerAction::JumpSquat) ==> final(self).jumpsquat_button == input.x_or_y_press
                &&& !dash && r.0 != Some(PlayerAction::JumpSquat) ==> final(self).jumpsquat_button
                    == old(self).jumpsquat_button
            }),
            *final(self) == (Player { jumpsquat_button: final(self).jumpsquat_button, ..*old(self) }),
    {
        let flip = (frame as i128) == (frames.flip_dir_frame as i128) || ((frames.flip_dir_frame as i128) > (frame_count as i128)
            - 1 && (frame as i128) >= (frame_count as i128) - 1);
        if (frames.into_dash_iasa as i128) >= (frame as i128) && dash_forward {
            let flips_again = frames.flip_dir_frame > frames.into_dash_iasa;
            return (Some(PlayerAction::Dash), flip != flips_again, GroundEffect::Nothing);
        }
        let (a, e) = self.checked_action(5, frame, action, true, input);
        (a, flip, e)
    }
}


/// What the controller says to a fighter lying after a missed tech, resolved against its facing.
#[derive(Clone, Copy, Debug, PartialEq, Eq, Structural)]
pub struct MissedTechInput {
    /// The stick points far back.
    pub back: bool,
    /// The stick points far forward.
    pub forward: bool,
    /// The stick points far up.
    pub up: bool,
    /// A or B was just pressed.
    pub attack: bool,
}

/// The getup a fighter lying after a missed tech takes: rolling back or forward, standing up
/// or attacking, or, with a forced getup frame passed, standing up anyway.
pub open spec fn missed_tech_choice(i: MissedTechInput, forced_getup: Option<u64>, frame_no_restart: i64) -> Option<PlayerAction> {
    if i.back {
        Some(PlayerAction::MissedTechGetupB)
    } else if i.forward {
        Some(PlayerAction::MissedTechGetupF)
    } else if i.up {
        Some(PlayerAction::MissedTechGetupN)
    } else if i.attack {
        Some(PlayerAction::MissedTechAttack)
    } else {
        match forced_getup {
            Some(g) => if frame_no_restart > g as i64 { Some(PlayerAction::MissedTechGetupN) } else { None },
            None => None,
        }
    }
}

/// What the controller says to a fighter holding another, as flicks of either stick resolved
/// against its facing.
#[derive(Clone, Copy, Debug, PartialEq, Eq, Structural)]
pub struct ThrowInput {
    pub back: bool,
    pub forward: bool,
    pub up: bool,
    pub down: bool,
}

/// How many frames a fighter holds a grabbed one before letting go.
pub const GRAB_HOLD_FRAMES: i64 = 60;

impl Player {
    /// One frame of lying after a missed tech, on `frame_no_restart` of the action, where the
    /// fighter's definition may force a getup after some frame. Returns the getup, if any, and
    /// whether friction slows the fighter (when no getup was taken). The hitstun countdown is
    /// the caller's.
    pub fn missed_tech_action(input: MissedTechInput, forced_getup: Option<u64>, frame_no_restart: i64) -> (r: (Option<PlayerAction>, bool))
        ensures
            r.0 == missed_tech_choice(input, forced_getup, frame_no_restart),
            r.1 == (r.0 is None),
    {
        let a = if input.back {
            Some(PlayerAction::MissedTechGetupB)
        } else if input.forward {
            Some(PlayerAction::MissedTechGetupF)
        } else if input.up {
            Some(PlayerAction::MissedTechGetupN)
        } else if input.attack {
            Some(PlayerAction::MissedTechAttack)
        } else {
            match forced_getup {
                Some(g) => if frame_no_restart > g as i64 { Some(PlayerAction::MissedTechGetupN) } else { None },
                None => None,
            }
        };
        (a, a.is_none())
    }

    /// One frame of holding a grabbed fighter, on `frame_no_restart` of the action: a stick
    /// flick back, forward, up or down throws; after the hold frames the grab ends. Friction
    /// is the caller's.
    pub fn grabbing_idle_action(input: ThrowInput, frame_no_restart: i64) -> (r: Option<PlayerAction>)
        ensures
            r == (if input.back {
                Some(PlayerAction::Bthrow)
            } else if input.forward {
                Some(PlayerAction::Fthrow)
            } else if input.up {
                Some(PlayerAction::Uthrow)
            } else if input.down {
                Some(PlayerAction::Dthrow)
            } else if frame_no_restart > GRAB_HOLD_FRAMES {
                Some(PlayerAction::GrabbingEnd)
            } else {
                None
            }),
    {
        if input.back {
            Some(PlayerAction::Bthrow)
        } else if input.forward {
            Some(PlayerAction::Fthrow)
        } else if input.up {
            Some(PlayerAction::Uthrow)
        } else if input.down {
            Some(PlayerAction::Dthrow)
        } else if frame_no_restart > GRAB_HOLD_FRAMES {
            Some(PlayerAction::GrabbingEnd)
        } else {
            None
        }
    }
}

/// A turn flips the fighter on `frame` of an action of `frame_count` frames: on its flip
/// frame, or, when that lies past the action's last frame, on the last frame.
pub open spec fn turn_flips(frame: i64, frame_count: usize, flip_dir_frame: u64) -> bool {
    frame == flip_dir_frame || (flip_dir_frame > frame_count - 1 && frame >= frame_count - 1)
}

impl Player {
    /// One frame of turning a run round on `frame` of an action of `frame_count` frames, which
    /// flips the fighter (the second result) on its flip frame: a jump, else friction.
    pub fn run_turn_action(&mut self, frame: i64, frame_count: usize, flip_dir_frame: u64, input: GroundInput)
        -> (r: (Option<PlayerAction>, bool, GroundEffect))
        ensures
            r.1 == turn_flips(frame, frame_count, flip_dir_frame),
            (input.x_or_y_press || input.stick_flicked_up) ==> r.0 == Some(PlayerAction::JumpSquat) && r.2 == GroundEffect::Nothing
                && final(self).jumpsquat_button == input.x_or_y_press,
            !(input.x_or_y_press || input.stick_flicked_up) ==> r.0 is None && r.2 == GroundEffect::Friction
                && final(self).jumpsquat_button == old(self).jumpsquat_button,
            *final(self) == (Player { jumpsquat_button: final(self).jumpsquat_button, ..*old(self) }),
    {
        let flip = (frame as i128) == (flip_dir_frame as i128) || ((flip_dir_frame as i128) > (frame_count as i128) - 1
            && (frame as i128) >= (frame_count as i128) - 1);
        match self.check_jump(input.x_or_y_press, input.stick_flicked_up) {
            Some(a) => (Some(a), flip, GroundEffect::Nothing),
            None => (None, flip, GroundEffect::Friction),
        }
    }
}

} // verus!
