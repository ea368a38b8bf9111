use vstd::prelude::*;

use crate::text::{same_text, string_of};

verus! {

/// How an entity is drawn: its model, its debug overlay, or both, and whether
/// earlier frames are drawn behind it.
#[derive(Clone, Copy, Debug, PartialEq, Eq, Structural)]
pub enum RenderDebugType {
    Normal,
    NormalAndDebug,
    Debug,
    DebugOnionSkin,
}

impl Default for RenderDebugType {
    fn default() -> (r: RenderDebugType)
        ensures
            r == RenderDebugType::Normal,
    {
        RenderDebugType::Normal
    }
}

/// The render mode that follows `t` when the user cycles through them.
pub open spec fn next_render_type(t: RenderDebugType) -> RenderDebugType {
    match t {
        RenderDebugType::Normal => RenderDebugType::NormalAndDebug,
        RenderDebugType::NormalAndDebug => RenderDebugType::Debug,
        RenderDebugType::Debug => RenderDebugType::DebugOnionSkin,
        RenderDebugType::DebugOnionSkin => RenderDebugType::Normal,
    }
}

impl RenderDebugType {
    /// Moves on to the next render mode, wrapping around after the last.
    pub fn step(&mut self)
        ensures
            *final(self) == next_render_type(*old(self)),
    {
        *self = match *self {
            RenderDebugType::Normal => RenderDebugType::NormalAndDebug,
            RenderDebugType::NormalAndDebug => RenderDebugType::Debug,
            RenderDebugType::Debug => RenderDebugType::DebugOnionSkin,
            RenderDebugType::DebugOnionSkin => RenderDebugType::Normal,
        };
    }

    /// The model is drawn.
    pub fn normal(&self) -> (r: bool)
        ensures
            r == (*self == RenderDebugType::Normal || *self == RenderDebugType::NormalAndDebug),
    {
        match self {
            RenderDebugType::Normal => true,
            RenderDebugType::NormalAndDebug => true,
            RenderDebugType::Debug => false,
            RenderDebugType::DebugOnionSkin => false,
        }
    }

    /// The debug overlay is drawn.
    pub fn debug(&self) -> (r: bool)
        ensures
            r == (*self != RenderDebugType::Normal),
    {
        match self {
            RenderDebugType::Normal => false,
            RenderDebugType::NormalAndDebug => true,
            RenderDebugType::Debug => true,
            RenderDebugType::DebugOnionSkin => true,
        }
    }

    /// Earlier frames are drawn behind the current one.
    pub fn onion_skin(&self) -> (r: bool)
        ensures
            r == (*self == RenderDebugType::DebugOnionSkin),
    {
        match self {
            RenderDebugType::Normal => false,
            RenderDebugType::NormalAndDebug => false,
            RenderDebugType::Debug => false,
            RenderDebugType::DebugOnionSkin => true,
        }
    }
}

/// Cycling through the render modes visits all four and comes back after four steps:
/// one to three steps give another mode, four give the same.
pub proof fn lemma_render_type_cycle(t: RenderDebugType)
    ensures
        next_render_type(next_render_type(next_render_type(next_render_type(t)))) == t,
        next_render_type(t) != t,
        next_render_type(next_render_type(t)) != t,
        next_render_type(next_render_type(next_render_type(t))) != t,
{
}

/// Which debug information is shown for one entity.
#[derive(Clone, Copy, Debug, PartialEq, Eq, Structural)]
pub struct DebugEntity {
    pub render: RenderDebugType,
    pub physics: bool,
    pub input: bool,
    pub input_diff: bool,
    pub action: bool,
    pub frame: bool,
    pub stick_vector: bool,
    pub c_stick_vector: bool,
    pub di_vector: bool,
    pub hitbox_vectors: bool,
    pub ecb: bool,
    pub cam_area: bool,
    pub item_grab_area: bool,
}

/// The same flag for every piece of debug information.
pub open spec fn debug_flags_all(d: DebugEntity, value: bool) -> bool {
    &&& d.physics == value
    &&& d.input == value
    &&& d.input_diff == value
    &&& d.action == value
    &&& d.frame == value
    &&& d.stick_vector == value
    &&& d.c_stick_vector == value
    &&& d.di_vector == value
    &&& d.hitbox_vectors == value
    &&& d.ecb == value
    &&& d.cam_area == value
    &&& d.item_grab_area == value
}

impl Default for DebugEntity {
    /// Nothing shown, the model drawn normally.
    fn default() -> (r: DebugEntity)
        ensures
            r.render == RenderDebugType::Normal,
            debug_flags_all(r, false),
    {
        DebugEntity {
            render: RenderDebugType::Normal,
            physics: false,
            input: false,
            input_diff: false,
            action: false,
            frame: false,
            stick_vector: false,
            c_stick_vector: false,
            di_vector: false,
            hitbox_vectors: false,
            ecb: false,
            cam_area: false,
            item_grab_area: false,
        }
    }
}

impl DebugEntity {
    /// Everything shown, the debug overlay drawn over the model.
    pub open spec fn spec_all() -> DebugEntity {
        DebugEntity {
            render: RenderDebugType::NormalAndDebug,
            physics: true,
            input: true,
            input_diff: true,
            action: true,
            frame: true,
            stick_vector: true,
            c_stick_vector: true,
            di_vector: true,
            hitbox_vectors: true,
            ecb: true,
            cam_area: true,
            item_grab_area: true,
        }
    }

    /// Everything shown, the debug overlay drawn over the model.
    pub fn all() -> (r: DebugEntity)
        ensures
            r == DebugEntity::spec_all(),
            r.render == RenderDebugType::NormalAndDebug,
            debug_flags_all(r, true),
    {
        DebugEntity {
            render: RenderDebugType::NormalAndDebug,
            physics: true,
            input: true,
            input_diff: true,
            action: true,
            frame: true,
            stick_vector: true,
            c_stick_vector: true,
            di_vector: true,
            hitbox_vectors: true,
            ecb: true,
            cam_area: true,
            item_grab_area: true,
        }
    }
}

/// The function keys pressed this frame, and whether shift is held.
#[derive(Clone, Copy, Debug, PartialEq, Eq, Structural)]
pub struct DebugKeys {
    pub shift_held: bool,
    pub f1: bool,
    pub f2: bool,
    pub f3: bool,
    pub f4: bool,
    pub f5: bool,
    pub f6: bool,
    pub f7: bool,
    pub f8: bool,
    pub f9: bool,
    pub f10: bool,
    pub f11: bool,
    pub f12: bool,
}

/// `b` toggled when `key` was pressed.
pub open spec fn toggled(b: bool, key: bool) -> bool {
    if key { !b } else { b }
}

/// The debug information shown after the function keys `keys` were pressed.
pub open spec fn spec_debug_step(d: DebugEntity, keys: DebugKeys) -> DebugEntity {
    if keys.f12 {
        DebugEntity {
            render: RenderDebugType::Normal,
            physics: false,
            input: false,
            input_diff: false,
            action: false,
            frame: false,
            stick_vector: false,
            c_stick_vector: false,
            di_vector: false,
            hitbox_vectors: false,
            ecb: false,
            cam_area: false,
            item_grab_area: false,
        }
    } else if keys.f11 {
        DebugEntity {
            render: RenderDebugType::NormalAndDebug,
            physics: true,
            input: true,
            input_diff: true,
            action: true,
            frame: true,
            stick_vector: true,
            c_stick_vector: true,
            di_vector: true,
            hitbox_vectors: true,
            ecb: true,
            cam_area: true,
            item_grab_area: true,
        }
    } else {
        DebugEntity {
            render: if keys.f9 { next_render_type(d.render) } else { d.render },
            physics: toggled(d.physics, keys.f1),
            input: toggled(d.input, keys.f2 && !keys.shift_held),
            input_diff: toggled(d.input_diff, keys.f2 && keys.shift_held),
            action: toggled(d.action, keys.f3),
            frame: toggled(d.frame, keys.f4),
            stick_vector: toggled(d.stick_vector, keys.f5),
            c_stick_vector: toggled(d.c_stick_vector, keys.f5),
            di_vector: toggled(d.di_vector, keys.f6),
            hitbox_vectors: toggled(d.hitbox_vectors, keys.f7),
            ecb: toggled(d.ecb, keys.f8),
            cam_area: toggled(d.cam_area, keys.f10),
            item_grab_area: d.item_grab_area,
        }
    }
}

impl DebugEntity {
    /// Toggles debug information by function key: F1 physics, F2 input (with shift, the
    /// input difference), F3 action, F4 frame, F5 both stick vectors, F6 the DI vector, F7
    /// hitbox vectors, F8 the ECB, F9 the next render mode, F10 the camera area. F11 then
    /// shows everything and F12, over all of these, nothing.
    pub fn step(&mut self, keys: DebugKeys)
        ensures
            *final(self) == spec_debug_step(*old(self), keys),
    {
        if keys.f12 {
            *self = DebugEntity::default();
        } else if keys.f11 {
            *self = DebugEntity::all();
        } else {
            let mut render = self.render;
            if keys.f9 {
                render.step();
            }
            *self = DebugEntity {
                render,
                physics: if keys.f1 { !self.physics } else { self.physics },
                input: if keys.f2 && !keys.shift_held { !self.input } else { self.input },
                input_diff: if keys.f2 && keys.shift_held { !self.input_diff } else { self.input_diff },
                action: if keys.f3 { !self.action } else { self.action },
                frame: if keys.f4 { !self.frame } else { self.frame },
                stick_vector: if keys.f5 { !self.stick_vector } else { self.stick_vector },
                c_stick_vector: if keys.f5 { !self.c_stick_vector } else { self.c_stick_vector },
                di_vector: if keys.f6 { !self.di_vector } else { self.di_vector },
                hitbox_vectors: if keys.f7 { !self.hitbox_vectors } else { self.hitbox_vectors },
                ecb: if keys.f8 { !self.ecb } else { self.ecb },
                cam_area: if keys.f10 { !self.cam_area } else { self.cam_area },
                item_grab_area: self.item_grab_area,
            };
        }
    }
}

/// What an entity's logic asks of its action state.
#[derive(Clone, Debug)]
pub enum ActionResult {
    /// Start the named action from its first frame.
    SetAction(String),
    /// Switch to the named action, staying on the current frame.
    SetActionKeepFrame(String),
    /// Go to the given frame of the current action.
    SetFrame(i64),
}

impl ActionResult {
    /// A request to start `action` from its first frame.
    pub fn set_action(action: &str) -> (r: Option<ActionResult>)
        ensures
            r matches Some(ActionResult::SetAction(a)) && a@ == action@,
    {
        Some(ActionResult::SetAction(string_of(action)))
    }

    /// A request to switch to `action` on the current frame.
    pub fn set_action_keep_frame(action: &str) -> (r: Option<ActionResult>)
        ensures
            r matches Some(ActionResult::SetActionKeepFrame(a)) && a@ == action@,
    {
        Some(ActionResult::SetActionKeepFrame(string_of(action)))
    }

    /// A request to go to `frame`.
    pub fn set_frame(frame: i64) -> (r: Option<ActionResult>)
        ensures
            r matches Some(ActionResult::SetFrame(f)) && f == frame,
    {
        Some(ActionResult::SetFrame(frame))
    }
}

} // verus!

verus! {

/// The actions of an item.
#[derive(Clone, Copy, Debug, PartialEq, Eq, Structural)]
pub enum ItemAction {
    Spawn,
    Idle,
    Fall,
    Held,
    Thrown,
    Dropped,
}

impl ItemAction {
    /// The action's name, as entity definitions key their actions.
    pub open spec fn spec_name(self) -> Seq<char> {
        match self {
            ItemAction::Spawn => "Spawn"@,
            ItemAction::Idle => "Idle"@,
            ItemAction::Fall => "Fall"@,
            ItemAction::Held => "Held"@,
            ItemAction::Thrown => "Thrown"@,
            ItemAction::Dropped => "Dropped"@,
        }
    }

    /// The action named `name`, if there is one.
    pub open spec fn spec_parse(name: Seq<char>) -> Option<ItemAction> {
        if name == "Spawn"@ {
            Some(ItemAction::Spawn)
        } else if name == "Idle"@ {
            Some(ItemAction::Idle)
        } else if name == "Fall"@ {
            Some(ItemAction::Fall)
        } else if name == "Held"@ {
            Some(ItemAction::Held)
        } else if name == "Thrown"@ {
            Some(ItemAction::Thrown)
        } else if name == "Dropped"@ {
            Some(ItemAction::Dropped)
        } else {
            None
        }
    }

    /// The action's name.
    pub fn name(&self) -> (r: &'static str)
        ensures
            r@ == self.spec_name(),
    {
        match self {
            ItemAction::Spawn => "Spawn",
            ItemAction::Idle => "Idle",
            ItemAction::Fall => "Fall",
            ItemAction::Held => "Held",
            ItemAction::Thrown => "Thrown",
            ItemAction::Dropped => "Dropped",
        }
    }

    /// The action named `name`, if there is one.
    pub fn from_name(name: &String) -> (r: Option<ItemAction>)
        ensures
            r == ItemAction::spec_parse(name@),
    {
        if same_text(name, "Spawn") {
            Some(ItemAction::Spawn)
        } else if same_text(name, "Idle") {
            Some(ItemAction::Idle)
        } else if same_text(name, "Fall") {
            Some(ItemAction::Fall)
        } else if same_text(name, "Held") {
            Some(ItemAction::Held)
        } else if same_text(name, "Thrown") {
            Some(ItemAction::Thrown)
        } else if same_text(name, "Dropped") {
            Some(ItemAction::Dropped)
        } else {
            None
        }
    }
}

/// Reading back an item action's name gives the action.
pub proof fn lemma_item_action_name_parses(a: ItemAction)
    ensures
        ItemAction::spec_parse(a.spec_name()) == Some(a),
{
    reveal_strlit("Spawn");
    reveal_strlit("Idle");
    reveal_strlit("Fall");
    reveal_strlit("Held");
    reveal_strlit("Thrown");
    reveal_strlit("Dropped");
    assert("Spawn"@.len() == 5 && "Thrown"@.len() == 6 && "Dropped"@.len() == 7);
    assert("Idle"@.len() == 4 && "Fall"@.len() == 4 && "Held"@.len() == 4);
    assert("Idle"@[0] == 'I' && "Fall"@[0] == 'F' && "Held"@[0] == 'H');
}

} // verus!

verus! {

/// The frames an entity stays frozen after a hit: while attacking or while being launched.
#[derive(Clone, Copy, Debug, PartialEq, Eq, Structural)]
pub enum Hitlag {
    Attack { counter: u64 },
    Launch { counter: u64 },
    Inactive,
}

/// The hitlag after one more frame has passed.
pub open spec fn hitlag_after_step(h: Hitlag) -> Hitlag {
    match h {
        Hitlag::Attack { counter } => if counter == 1 {
            Hitlag::Inactive
        } else {
            Hitlag::Attack { counter: (counter - 1) as u64 }
        },
        Hitlag::Launch { counter } => if counter == 1 {
            Hitlag::Inactive
        } else {
            Hitlag::Launch { counter: (counter - 1) as u64 }
        },
        Hitlag::Inactive => Hitlag::Inactive,
    }
}

impl Hitlag {
    /// Frames of hitlag still to come.
    pub open spec fn remaining(self) -> nat {
        match self {
            Hitlag::Attack { counter } => counter as nat,
            Hitlag::Launch { counter } => counter as nat,
            Hitlag::Inactive => 0,
        }
    }

    /// A running hitlag has at least one frame to go.
    pub open spec fn wf(self) -> bool {
        match self {
            Hitlag::Attack { counter } => counter > 0,
            Hitlag::Launch { counter } => counter > 0,
            Hitlag::Inactive => true,
        }
    }

    /// Counts one frame of hitlag down; at zero the hitlag ends.
    pub fn step(&mut self)
        requires
            old(self).wf(),
        ensures
            *final(self) == hitlag_after_step(*old(self)),
    {
        match *self {
            Hitlag::Attack { counter } => {
                *self = if counter == 1 {
                    Hitlag::Inactive
                } else {
                    Hitlag::Attack { counter: counter - 1 }
                };
            },
            Hitlag::Launch { counter } => {
                *self = if counter == 1 {
                    Hitlag::Inactive
                } else {
                    Hitlag::Launch { counter: counter - 1 }
                };
            },
            Hitlag::Inactive => {},
        }
    }
}

/// A hitlag of `n` frames ends after exactly `n` steps: each step takes one frame off
/// and keeps it well formed, and the last step ends it.
pub proof fn lemma_hitlag_step_counts_down(h: Hitlag)
    requires
        h.wf(),
    ensures
        hitlag_after_step(h).wf(),
        h.remaining() > 0 ==> hitlag_after_step(h).remaining() == h.remaining() - 1,
        h.remaining() == 0 ==> hitlag_after_step(h) == h,
        hitlag_after_step(h) is Inactive <==> h.remaining() <= 1,
{
}

/// What the action logic reads of one frame of an action.
#[derive(Clone, Copy, Debug, PartialEq, Eq, Structural)]
pub struct ActionFrame {
    /// Entering this frame lets the entity hit again what it already hit during the action.
    pub force_hitlist_reset: bool,
}

/// One action of an entity definition: its name, its frames, and the first frame
/// from which it can be interrupted.
#[derive(Clone, Debug)]
pub struct ActionDef {
    pub name: String,
    pub frames: Vec<ActionFrame>,
    pub iasa: i64,
}

/// The actions of one kind of entity, in order.
#[derive(Clone, Debug)]
pub struct EntityDef {
    pub actions: Vec<ActionDef>,
}

/// `i` is the first action of `actions` named `name`.
pub open spec fn is_first_action(actions: Seq<ActionDef>, name: Seq<char>, i: int) -> bool {
    &&& 0 <= i < actions.len()
    &&& actions[i].name@ == name
    &&& forall|k: int| 0 <= k < i ==> #[trigger] actions[k].name@ != name
}

/// Some action of `actions` is named `name`.
pub open spec fn has_action(actions: Seq<ActionDef>, name: Seq<char>) -> bool {
    exists|i: int| 0 <= i < actions.len() && #[trigger] actions[i].name@ == name
}

/// The action named `name`: the first with that name.
pub open spec fn action_named(actions: Seq<ActionDef>, name: Seq<char>) -> ActionDef {
    actions[choose|i: int| is_first_action(actions, name, i)]
}

/// An action that is present has a first occurrence, and only one.
pub proof fn lemma_first_action(actions: Seq<ActionDef>, name: Seq<char>, i: int)
    requires
        is_first_action(actions, name, i),
    ensures
        has_action(actions, name),
        action_named(actions, name) == actions[i],
{
    let j = choose|j: int| is_first_action(actions, name, j);
    assert(is_first_action(actions, name, j));
    if j < i {
        assert(actions[j].name@ != name);
    } else if i < j {
        assert(actions[i].name@ != name);
    }
}

impl EntityDef {
    /// The index of the action named `name`, the first one if several share it.
    pub fn action_index(&self, name: &String) -> (r: Option<usize>)
        ensures
            match r {
                Some(i) => is_first_action(self.actions@, name@, i as int),
                None => !has_action(self.actions@, name@),
            },
    {
        let mut i: usize = 0;
        while i < self.actions.len()
            invariant
                i <= self.actions@.len(),
                forall|k: int| 0 <= k < i ==> #[trigger] self.actions@[k].name@ != name@,
            decreases self.actions@.len() - i,
        {
            if self.actions[i].name == *name {
                return Some(i);
            }
            i = i + 1;
        }
        None
    }
}

} // verus!

verus! {

/// Where an entity is in its actions: which action of which definition, on which frame,
/// what it already hit during the action, and its hitlag.
#[derive(Clone, Debug)]
pub struct ActionState {
    pub entity_def_key: String,
    pub action: String,
    pub frame: i64,
    /// Frames since the action was last started anew; repeating an action keeps counting.
    pub frame_no_restart: i64,
    /// The entities (by key) hit since the action started.
    pub hitlist: Vec<u64>,
    pub hitlag: Hitlag,
}

/// `new` is `old` after starting the action named `action` from its first frame.
pub open spec fn action_started(old: ActionState, new: ActionState, action: Seq<char>) -> bool {
    &&& new.action@ == action
    &&& new.frame == 0
    &&& new.frame_no_restart == (if old.action@ == action { old.frame_no_restart + 1 } else { 0 })
    &&& new.hitlist@.len() == 0
    &&& new.entity_def_key@ == old.entity_def_key@
    &&& new.hitlag == old.hitlag
}

/// `new` is `old` after switching to the action named `action` on the same frame.
pub open spec fn action_switched(old: ActionState, new: ActionState, action: Seq<char>) -> bool {
    &&& new.action@ == action
    &&& new.frame == old.frame
    &&& new.frame_no_restart == old.frame_no_restart + 1
    &&& new.hitlist@.len() == 0
    &&& new.entity_def_key@ == old.entity_def_key@
    &&& new.hitlag == old.hitlag
}

/// `new` is `old` after going to `frame` of the same action, when that frame still
/// lies in the action or no action follows it.
pub open spec fn frame_set(old: ActionState, new: ActionState, frame: i64) -> bool {
    &&& new.action@ == old.action@
    &&& new.frame == frame
    &&& new.frame_no_restart == old.frame_no_restart + 1
    &&& new.hitlist@ == old.hitlist@
    &&& new.entity_def_key@ == old.entity_def_key@
    &&& new.hitlag == old.hitlag
}

/// `new` is `old` after going past the last frame of its action into the action named
/// `next`, which starts from its first frame; the frame counted for the step is kept.
pub open spec fn frame_expired(old: ActionState, new: ActionState, next: Seq<char>) -> bool {
    &&& new.action@ == next
    &&& new.frame == 0
    &&& new.frame_no_restart == (if old.action@ == next { old.frame_no_restart + 1 } else { 0 }) + 1
    &&& new.hitlist@.len() == 0
    &&& new.entity_def_key@ == old.entity_def_key@
    &&& new.hitlag == old.hitlag
}

/// The states are equal in every field.
pub open spec fn same_action_state(a: ActionState, b: ActionState) -> bool {
    &&& a.entity_def_key@ == b.entity_def_key@
    &&& a.action@ == b.action@
    &&& a.frame == b.frame
    &&& a.frame_no_restart == b.frame_no_restart
    &&& a.hitlist@ == b.hitlist@
    &&& a.hitlag == b.hitlag
}

/// `new` is `old` after carrying out `result`, with `expiry` the action that follows once the
/// frame passes the end of the action (none for entities whose actions run on).
pub open spec fn result_processed(
    old: ActionState,
    new: ActionState,
    entity_def: EntityDef,
    result: Option<ActionResult>,
    expiry: Option<String>,
) -> bool {
    match result {
        Some(ActionResult::SetAction(a)) => action_started(old, new, a@),
        Some(ActionResult::SetActionKeepFrame(a)) => action_switched(old, new, a@),
        Some(ActionResult::SetFrame(f)) => {
            let len = action_named(entity_def.actions@, old.action@).frames@.len();
            match expiry {
                Some(next) => if f >= len {
                    frame_expired(old, new, next@)
                } else {
                    frame_set(old, new, f)
                },
                None => frame_set(old, new, f),
            }
        },
        None => same_action_state(old, new),
    }
}

impl ActionState {
    /// An entity of definition `entity_def_key` at the first frame of `action`.
    pub fn new(entity_def_key: String, action: &str) -> (r: ActionState)
        ensures
            r.entity_def_key@ == entity_def_key@,
            r.action@ == action@,
            r.frame == 0,
            r.frame_no_restart == 0,
            r.hitlist@.len() == 0,
            r.hitlag == Hitlag::Inactive,
    {
        ActionState {
            entity_def_key,
            action: string_of(action),
            frame: 0,
            frame_no_restart: 0,
            hitlist: Vec::new(),
            hitlag: Hitlag::Inactive,
        }
    }

    /// The frame the entity is on, if its action exists and the frame lies in it.
    pub fn get_entity_frame<'a>(&self, entity_def: &'a EntityDef) -> (r: Option<&'a ActionFrame>)
        ensures
            match r {
                Some(f) => {
                    &&& has_action(entity_def.actions@, self.action@)
                    &&& 0 <= self.frame < action_named(entity_def.actions@, self.action@).frames@.len()
                    &&& *f == action_named(entity_def.actions@, self.action@).frames@[self.frame as int]
                },
                None => !has_action(entity_def.actions@, self.action@) || self.frame < 0
                    || self.frame >= action_named(entity_def.actions@, self.action@).frames@.len(),
            },
    {
        match entity_def.action_index(&self.action) {
            Some(i) => {
                proof {
                    lemma_first_action(entity_def.actions@, self.action@, i as int);
                }
                let frames = &entity_def.actions[i].frames;
                if 0 <= self.frame && (self.frame as u64) < (frames.len() as u64) {
                    Some(&frames[self.frame as usize])
                } else {
                    None
                }
            },
            None => None,
        }
    }

    /// The definition of the entity's action, which must exist.
    fn current_action<'a>(&self, entity_def: &'a EntityDef) -> (r: &'a ActionDef)
        requires
            has_action(entity_def.actions@, self.action@),
        ensures
            *r == action_named(entity_def.actions@, self.action@),
    {
        match entity_def.action_index(&self.action) {
            Some(i) => {
                proof {
                    lemma_first_action(entity_def.actions@, self.action@, i as int);
                }
                &entity_def.actions[i]
            },
            None => {
                proof {
                    let w = choose|k: int| 0 <= k < entity_def.actions@.len()
                        && #[trigger] entity_def.actions@[k].name@ == self.action@;
                    assert(entity_def.actions@[w].name@ == self.action@);
                }
                &entity_def.actions[0]
            },
        }
    }

    /// The action can be interrupted on this frame or has been since an earlier one.
    pub fn interruptible(&self, entity_def: &EntityDef) -> (r: bool)
        requires
            has_action(entity_def.actions@, self.action@),
        ensures
            r == (self.frame >= action_named(entity_def.actions@, self.action@).iasa),
    {
        self.frame >= self.current_action(entity_def).iasa
    }

    /// This is the first frame on which the action can be interrupted.
    pub fn first_interruptible(&self, entity_def: &EntityDef) -> (r: bool)
        requires
            has_action(entity_def.actions@, self.action@),
        ensures
            r == (self.frame == action_named(entity_def.actions@, self.action@).iasa),
    {
        self.frame == self.current_action(entity_def).iasa
    }

    /// The entity is on the last frame of its action or beyond it.
    pub fn last_frame(&self, entity_def: &EntityDef) -> (r: bool)
        requires
            has_action(entity_def.actions@, self.action@),
        ensures
            r == (self.frame >= action_named(entity_def.actions@, self.action@).frames@.len() - 1),
    {
        let len = self.current_action(entity_def).frames.len();
        (self.frame as i128) >= (len as i128) - 1
    }

    /// The entity is beyond the last frame of its action.
    pub fn past_last_frame(&self, entity_def: &EntityDef) -> (r: bool)
        requires
            has_action(entity_def.actions@, self.action@),
        ensures
            r == (self.frame >= action_named(entity_def.actions@, self.action@).frames@.len()),
    {
        let len = self.current_action(entity_def).frames.len();
        (self.frame as i128) >= (len as i128)
    }

    /// Starts the action named `action` from its first frame.
    fn start_action(&mut self, action: String)
        requires
            old(self).frame_no_restart < i64::MAX,
        ensures
            action_started(*old(self), *final(self), action@),
    {
        if self.action != action {
            self.frame_no_restart = 0;
        } else {
            self.frame_no_restart = self.frame_no_restart + 1;
        }
        self.frame = 0;
        self.action = action;
        self.hitlist.clear();
    }

    /// Carries out what the entity's logic asked for. `expiry` is the action that the
    /// entity moves on to once the frame passes the end of its action (none for entities
    /// whose actions simply run on).
    pub fn process_action_result(
        &mut self,
        entity_def: &EntityDef,
        result: Option<ActionResult>,
        expiry: Option<String>,
    )
        requires
            old(self).frame_no_restart < i64::MAX - 1,
            result matches Some(ActionResult::SetFrame(_)) ==> has_action(
                entity_def.actions@,
                old(self).action@,
            ),
        ensures
            result_processed(*old(self), *final(self), *entity_def, result, expiry),
    {
        match result {
            Some(ActionResult::SetAction(action)) => {
                self.start_action(action);
            },
            Some(ActionResult::SetActionKeepFrame(action)) => {
                self.frame_no_restart = self.frame_no_restart + 1;
                self.action = action;
                self.hitlist.clear();
            },
            Some(ActionResult::SetFrame(frame)) => {
                self.frame = frame;
                if self.past_last_frame(entity_def) {
                    match expiry {
                        Some(next) => {
                            self.start_action(next);
                        },
                        None => {},
                    }
                }
                self.frame_no_restart = self.frame_no_restart + 1;
            },
            None => {},
        }
    }

    /// Carries out the result of a frame's action step (`main`, which is the expiry's result
    /// when the step asked for nothing on the action's last frame): a new action starts, and
    /// then the caller steps that action and carries out its result as well (the returned
    /// flag); any other result is carried out; with no result the entity moves to its next
    /// frame.
    pub fn advance(&mut self, entity_def: &EntityDef, main: Option<ActionResult>, expiry: Option<String>) -> (again: bool)
        requires
            old(self).frame_no_restart < i64::MAX - 1,
            old(self).frame < i64::MAX,
            has_action(entity_def.actions@, old(self).action@),
        ensures
            again == (main matches Some(ActionResult::SetAction(_))),
            main is Some ==> result_processed(*old(self), *final(self), *entity_def, main, expiry),
            main is None ==> result_processed(
                *old(self),
                *final(self),
                *entity_def,
                Some(ActionResult::SetFrame((old(self).frame + 1) as i64)),
                expiry,
            ),
    {
        match main {
            Some(ActionResult::SetAction(a)) => {
                self.process_action_result(entity_def, Some(ActionResult::SetAction(a)), expiry);
                true
            },
            Some(r) => {
                self.process_action_result(entity_def, Some(r), expiry);
                false
            },
            None => {
                let next = self.frame + 1;
                self.process_action_result(entity_def, Some(ActionResult::SetFrame(next)), expiry);
                false
            },
        }
    }

    /// At the start of a frame's action step: a frame that forces it empties the list of
    /// entities hit, so that the action can hit them again.
    pub fn clear_hitlist_if_forced(&mut self, entity_def: &EntityDef)
        requires
            has_action(entity_def.actions@, old(self).action@),
            0 <= old(self).frame < action_named(entity_def.actions@, old(self).action@).frames@.len(),
        ensures
            final(self).hitlist@ == (if action_named(entity_def.actions@, old(self).action@).frames@[old(
                self,
            ).frame as int].force_hitlist_reset {
                Seq::<u64>::empty()
            } else {
                old(self).hitlist@
            }),
            final(self).action@ == old(self).action@,
            final(self).frame == old(self).frame,
            final(self).frame_no_restart == old(self).frame_no_restart,
            final(self).entity_def_key@ == old(self).entity_def_key@,
            final(self).hitlag == old(self).hitlag,
    {
        let forced = match self.get_entity_frame(entity_def) {
            Some(f) => f.force_hitlist_reset,
            None => false,
        };
        if forced {
            self.hitlist.clear();
        }
    }

    /// Records a collision the entity took part in: an attack that hit or was shielded
    /// remembers the defender (by key) and freezes the attacker for `counter` frames; a hit
    /// taken freezes the defender while it is launched, a hit on its shield while it
    /// attacks. Other collisions change nothing here.
    pub fn record_collision(&mut self, kind: CollisionKind, defender: u64, counter: u64)
        ensures
            kind == CollisionKind::HitAtk || kind == CollisionKind::HitShieldAtk ==> {
                &&& final(self).hitlist@ == old(self).hitlist@.push(defender)
                &&& final(self).hitlag == Hitlag::Attack { counter }
            },
            kind == CollisionKind::HitDef ==> {
                &&& final(self).hitlist@ == old(self).hitlist@
                &&& final(self).hitlag == Hitlag::Launch { counter }
            },
            kind == CollisionKind::HitShieldDef ==> {
                &&& final(self).hitlist@ == old(self).hitlist@
                &&& final(self).hitlag == Hitlag::Attack { counter }
            },
            !(kind == CollisionKind::HitAtk || kind == CollisionKind::HitShieldAtk || kind
                == CollisionKind::HitDef || kind == CollisionKind::HitShieldDef) ==> {
                &&& final(self).hitlist@ == old(self).hitlist@
                &&& final(self).hitlag == old(self).hitlag
            },
            final(self).action@ == old(self).action@,
            final(self).frame == old(self).frame,
            final(self).frame_no_restart == old(self).frame_no_restart,
            final(self).entity_def_key@ == old(self).entity_def_key@,
    {
        match kind {
            CollisionKind::HitAtk | CollisionKind::HitShieldAtk => {
                self.hitlist.push(defender);
                self.hitlag = Hitlag::Attack { counter };
            },
            CollisionKind::HitDef => {
                self.hitlag = Hitlag::Launch { counter };
            },
            CollisionKind::HitShieldDef => {
                self.hitlag = Hitlag::Attack { counter };
            },
            _ => {},
        }
    }

    /// Puts the entity back on an action and frame that exist: an action missing from the
    /// definition is replaced by the definition's first action, and a frame outside the
    /// action goes back to the first frame. Replays and edits can hold either.
    pub fn make_valid(&mut self, entity_def: &EntityDef)
        requires
            entity_def.actions@.len() > 0,
        ensures
            has_action(entity_def.actions@, final(self).action@),
            has_action(entity_def.actions@, old(self).action@) ==> {
                &&& final(self).action@ == old(self).action@
                &&& final(self).frame == (if 0 <= old(self).frame < action_named(
                    entity_def.actions@,
                    old(self).action@,
                ).frames@.len() {
                    old(self).frame
                } else {
                    0
                })
            },
            !has_action(entity_def.actions@, old(self).action@) ==> {
                &&& final(self).action@ == entity_def.actions@[0].name@
                &&& final(self).frame == (if 0 <= old(self).frame < action_named(
                    entity_def.actions@,
                    entity_def.actions@[0].name@,
                ).frames@.len() {
                    old(self).frame
                } else {
                    0
                })
            },
            final(self).entity_def_key@ == old(self).entity_def_key@,
            final(self).frame_no_restart == old(self).frame_no_restart,
            final(self).hitlist@ == old(self).hitlist@,
            final(self).hitlag == old(self).hitlag,
    {
        if entity_def.action_index(&self.action).is_none() {
            self.action = entity_def.actions[0].name.clone();
            assert(entity_def.actions@[0].name@ == self.action@);
        }
        match entity_def.action_index(&self.action) {
            Some(i) => {
                proof {
                    lemma_first_action(entity_def.actions@, self.action@, i as int);
                }
                let len = entity_def.actions[i].frames.len();
                if self.frame < 0 || (self.frame as u64) >= (len as u64) {
                    self.frame = 0;
                }
            },
            None => {},
        }
    }
}

} // verus!

verus! {

/// The history entries from `lo` up to `hi` at which the entity is drawn as an onion skin,
/// newest first: those where it exists on a frame its action still has (`Some(true)`).
pub open spec fn onion_entries(h: Seq<Option<bool>>, lo: int, hi: int) -> Seq<usize>
    decreases hi - lo,
{
    if lo >= hi {
        Seq::empty()
    } else {
        let rest = onion_entries(h, lo + 1, hi);
        if h[lo] == Some(true) {
            rest.push(lo as usize)
        } else {
            rest
        }
    }
}

/// How many past frames an entity's drawing looks back over.
pub const ONION_SKIN_FRAMES: usize = 5;

proof fn lemma_onion_len(h: Seq<Option<bool>>, lo: int, hi: int)
    ensures
        onion_entries(h, lo, hi).len() <= if lo >= hi { 0 } else { hi - lo },
    decreases hi - lo,
{
    if lo < hi {
        lemma_onion_len(h, lo + 1, hi);
    }
}

/// The past frames an entity is drawn on besides its current one: of the last five entries of
/// the history (`history[k]`: `None` where the entity did not exist, else whether its frame
/// lay in its action; an edit can delete frames), those with a frame to draw, newest first.
/// With the current frame, an entity is drawn on at least one and at most ten frames.
pub fn onion_skin_frames(history: &Vec<Option<bool>>) -> (r: Vec<usize>)
    ensures
        ({
            let n = history@.len() as int;
            let lo = if n > ONION_SKIN_FRAMES { n - ONION_SKIN_FRAMES } else { 0 };
            r@ == onion_entries(history@, lo, n)
        }),
        r@.len() <= ONION_SKIN_FRAMES,
        1 <= r@.len() + 1 <= 10,
{
    let n = history.len();
    let lo = if n > ONION_SKIN_FRAMES { n - ONION_SKIN_FRAMES } else { 0 };
    let mut r: Vec<usize> = Vec::new();
    let mut i: usize = n;
    while i > lo
        invariant
            lo <= i <= n,
            n == history@.len(),
            r@ == onion_entries(history@, i as int, n as int),
        decreases i,
    {
        i = i - 1;
        if history[i] == Some(true) {
            r.push(i);
        }
    }
    proof {
        lemma_onion_len(history@, lo as int, n as int);
    }
    r
}

/// The kind of one collision an entity took part in this frame.
#[derive(Clone, Copy, Debug, PartialEq, Eq, Structural)]
pub enum CollisionKind {
    PhantomDef,
    PhantomAtk,
    HitDef,
    HitAtk,
    HitShieldAtk,
    HitShieldDef,
    ReflectDef,
    ReflectAtk,
    AbsorbDef,
    AbsorbAtk,
    GrabDef,
    GrabAtk,
    Clang,
}

/// A collision that stops a projectile: it clanged, hit, was shielded, reflected or absorbed.
pub open spec fn stops_projectile(k: CollisionKind) -> bool {
    k == CollisionKind::Clang || k == CollisionKind::HitAtk || k == CollisionKind::HitShieldAtk
        || k == CollisionKind::ReflectAtk || k == CollisionKind::AbsorbAtk
}

/// A collision that knocks an item into falling: it clanged, hit, was hit, was shielded or reflected.
pub open spec fn knocks_item(k: CollisionKind) -> bool {
    k == CollisionKind::Clang || k == CollisionKind::HitAtk || k == CollisionKind::HitDef
        || k == CollisionKind::HitShieldAtk || k == CollisionKind::ReflectAtk
}

/// Some collision of `kinds` stops a projectile.
pub open spec fn any_stops_projectile(kinds: Seq<CollisionKind>) -> bool {
    exists|i: int| 0 <= i < kinds.len() && stops_projectile(#[trigger] kinds[i])
}

/// Some collision of `kinds` knocks an item.
pub open spec fn any_knocks_item(kinds: Seq<CollisionKind>) -> bool {
    exists|i: int| 0 <= i < kinds.len() && knocks_item(#[trigger] kinds[i])
}

fn is_projectile_stop(k: CollisionKind) -> (r: bool)
    ensures
        r == stops_projectile(k),
{
    match k {
        CollisionKind::Clang | CollisionKind::HitAtk | CollisionKind::HitShieldAtk
        | CollisionKind::ReflectAtk | CollisionKind::AbsorbAtk => true,
        _ => false,
    }
}

fn is_item_knock(k: CollisionKind) -> (r: bool)
    ensures
        r == knocks_item(k),
{
    match k {
        CollisionKind::Clang | CollisionKind::HitAtk | CollisionKind::HitDef
        | CollisionKind::HitShieldAtk | CollisionKind::ReflectAtk => true,
        _ => false,
    }
}

fn any_projectile_stop(kinds: &Vec<CollisionKind>) -> (r: bool)
    ensures
        r == any_stops_projectile(kinds@),
{
    let mut i: usize = 0;
    while i < kinds.len()
        invariant
            i <= kinds@.len(),
            forall|k: int| 0 <= k < i ==> !stops_projectile(#[trigger] kinds@[k]),
        decreases kinds@.len() - i,
    {
        if is_projectile_stop(kinds[i]) {
            return true;
        }
        i = i + 1;
    }
    false
}

fn any_item_knock(kinds: &Vec<CollisionKind>) -> (r: bool)
    ensures
        r == any_knocks_item(kinds@),
{
    let mut i: usize = 0;
    while i < kinds.len()
        invariant
            i <= kinds@.len(),
            forall|k: int| 0 <= k < i ==> !knocks_item(#[trigger] kinds@[k]),
        decreases kinds@.len() - i,
    {
        if is_item_knock(kinds[i]) {
            return true;
        }
        i = i + 1;
    }
    false
}

/// The entity's current frame is the last of an action of `frame_count` frames, or beyond it.
pub open spec fn on_last_frame(frame: i64, frame_count: usize) -> bool {
    frame + 1 >= frame_count
}

fn is_on_last_frame(frame: i64, frame_count: usize) -> (r: bool)
    ensures
        r == on_last_frame(frame, frame_count),
{
    (frame as i128) + 1 >= (frame_count as i128)
}

impl ItemAction {
    /// The action an item moves on to when `self` has run out: a spawning item idles,
    /// every other action repeats.
    pub open spec fn spec_expired(self) -> ItemAction {
        match self {
            ItemAction::Spawn => ItemAction::Idle,
            other => other,
        }
    }

    /// The action an item moves on to when `self` has run out.
    pub fn expired(&self) -> (r: ItemAction)
        ensures
            r == self.spec_expired(),
    {
        match self {
            ItemAction::Spawn => ItemAction::Idle,
            ItemAction::Idle => ItemAction::Idle,
            ItemAction::Fall => ItemAction::Fall,
            ItemAction::Held => ItemAction::Held,
            ItemAction::Thrown => ItemAction::Thrown,
            ItemAction::Dropped => ItemAction::Dropped,
        }
    }
}

/// The item's owner and what its logic decides; its position and velocities are kept by the caller.
#[derive(Clone, Copy, Debug, PartialEq, Eq, Structural)]
pub struct Item {
    pub owner_id: Option<usize>,
}

/// How an item's fall or landing ended this frame.
#[derive(Clone, Copy, Debug, PartialEq, Eq, Structural)]
pub enum ItemPhysics {
    Fall,
    Land,
    OutOfBounds,
    Nothing,
}

/// A message sent to an item by the fighter holding it.
#[derive(Clone, Copy, Debug, PartialEq, Eq, Structural)]
pub enum ItemMessage {
    Thrown,
    Dropped,
}

impl Item {
    /// At the end of a frame of `action` (of `frame_count` frames, on `frame`): an item on its
    /// last frame moves on to the action that follows. A spawning or idle item loses its owner.
    pub fn action_step(&mut self, action: Option<ItemAction>, frame: i64, frame_count: usize) -> (r: Option<ActionResult>)
        requires
            on_last_frame(frame, frame_count) ==> action is Some,
        ensures
            final(self).owner_id == (if action == Some(ItemAction::Spawn) || action == Some(
                ItemAction::Idle,
            ) {
                None
            } else {
                old(self).owner_id
            }),
            on_last_frame(frame, frame_count) ==> (action matches Some(a) && r matches Some(
                ActionResult::SetAction(n),
            ) && n@ == a.spec_expired().spec_name()),
            !on_last_frame(frame, frame_count) ==> r is None,
    {
        match action {
            Some(ItemAction::Spawn) | Some(ItemAction::Idle) => {
                self.owner_id = None;
            },
            _ => {},
        }
        if is_on_last_frame(frame, frame_count) {
            match action {
                Some(a) => ActionResult::set_action(a.expired().name()),
                None => None,
            }
        } else {
            None
        }
    }

    /// Picked up by the entity with player id `grabbed_by_id`, if any: it becomes the owner.
    pub fn grabbed(&mut self, grabbed_by_id: Option<usize>) -> (r: Option<ActionResult>)
        ensures
            final(self).owner_id == grabbed_by_id,
            r matches Some(ActionResult::SetAction(n)) && n@ == ItemAction::Held.spec_name(),
    {
        self.owner_id = grabbed_by_id;
        ActionResult::set_action(ItemAction::Held.name())
    }

    /// A thrown item flies, a dropped one falls.
    pub fn process_message(&self, message: ItemMessage) -> (r: Option<ActionResult>)
        ensures
            r matches Some(ActionResult::SetAction(n)) && n@ == (match message {
                ItemMessage::Thrown => ItemAction::Thrown,
                ItemMessage::Dropped => ItemAction::Dropped,
            }).spec_name(),
    {
        match message {
            ItemMessage::Thrown => ActionResult::set_action(ItemAction::Thrown.name()),
            ItemMessage::Dropped => ActionResult::set_action(ItemAction::Dropped.name()),
        }
    }

    /// After the physics step: walking off falls, landing idles, leaving the stage deletes the item.
    pub fn physics_result(physics: ItemPhysics) -> (r: (Option<ActionResult>, bool))
        ensures
            physics == ItemPhysics::Fall ==> (r.0 matches Some(ActionResult::SetAction(n)) && n@
                == ItemAction::Fall.spec_name()) && !r.1,
            physics == ItemPhysics::Land ==> (r.0 matches Some(ActionResult::SetAction(n)) && n@
                == ItemAction::Idle.spec_name()) && !r.1,
            physics == ItemPhysics::OutOfBounds ==> r.0 is None && r.1,
            physics == ItemPhysics::Nothing ==> r.0 is None && !r.1,
    {
        match physics {
            ItemPhysics::Fall => (ActionResult::set_action(ItemAction::Fall.name()), false),
            ItemPhysics::Land => (ActionResult::set_action(ItemAction::Idle.name()), false),
            ItemPhysics::OutOfBounds => (None, true),
            ItemPhysics::Nothing => (None, false),
        }
    }

    /// A clang, hit, shield or reflect sends the item falling.
    pub fn step_collision(kinds: &Vec<CollisionKind>) -> (r: Option<ActionResult>)
        ensures
            any_knocks_item(kinds@) ==> (r matches Some(ActionResult::SetAction(n)) && n@
                == ItemAction::Fall.spec_name()),
            !any_knocks_item(kinds@) ==> r is None,
    {
        if any_item_knock(kinds) {
            ActionResult::set_action(ItemAction::Fall.name())
        } else {
            None
        }
    }
}

} // verus!

verus! {

/// The actions of a projectile; Toriel's fireball has the same three, and they run the same way.
#[derive(Clone, Copy, Debug, PartialEq, Eq, Structural)]
pub enum ProjectileAction {
    Spawn,
    Travel,
    Hit,
}

impl Default for ProjectileAction {
    fn default() -> (r: ProjectileAction)
        ensures
            r == ProjectileAction::Spawn,
    {
        ProjectileAction::Spawn
    }
}

impl ProjectileAction {
    /// The action's name, as entity definitions key their actions.
    pub open spec fn spec_name(self) -> Seq<char> {
        match self {
            ProjectileAction::Spawn => "Spawn"@,
            ProjectileAction::Travel => "Travel"@,
            ProjectileAction::Hit => "Hit"@,
        }
    }

    /// The action named `name`, if there is one.
    pub open spec fn spec_parse(name: Seq<char>) -> Option<ProjectileAction> {
        if name == "Spawn"@ {
            Some(ProjectileAction::Spawn)
        } else if name == "Travel"@ {
            Some(ProjectileAction::Travel)
        } else if name == "Hit"@ {
            Some(ProjectileAction::Hit)
        } else {
            None
        }
    }

    /// The action's name.
    pub fn name(&self) -> (r: &'static str)
        ensures
            r@ == self.spec_name(),
    {
        match self {
            ProjectileAction::Spawn => "Spawn",
            ProjectileAction::Travel => "Travel",
            ProjectileAction::Hit => "Hit",
        }
    }

    /// The action named `name`, if there is one.
    pub fn from_name(name: &String) -> (r: Option<ProjectileAction>)
        ensures
            r == ProjectileAction::spec_parse(name@),
    {
        if same_text(name, "Spawn") {
            Some(ProjectileAction::Spawn)
        } else if same_text(name, "Travel") {
            Some(ProjectileAction::Travel)
        } else if same_text(name, "Hit") {
            Some(ProjectileAction::Hit)
        } else {
            None
        }
    }

    /// The action that follows `self` when it has run out, and whether the projectile is
    /// then deleted: a spawned projectile travels, a travelling one keeps travelling, and
    /// one that hit is deleted.
    pub open spec fn spec_expired(self) -> (ProjectileAction, bool) {
        match self {
            ProjectileAction::Spawn => (ProjectileAction::Travel, false),
            ProjectileAction::Travel => (ProjectileAction::Travel, false),
            ProjectileAction::Hit => (ProjectileAction::Hit, true),
        }
    }

    /// The action that follows `self` when it has run out, and whether the projectile is deleted.
    pub fn expired(&self) -> (r: (ProjectileAction, bool))
        ensures
            r == self.spec_expired(),
    {
        match self {
            ProjectileAction::Spawn => (ProjectileAction::Travel, false),
            ProjectileAction::Travel => (ProjectileAction::Travel, false),
            ProjectileAction::Hit => (ProjectileAction::Hit, true),
        }
    }

    /// At the end of a frame of `action`: a projectile on the last of its `frame_count`
    /// frames moves on to the action that follows, or is deleted after a hit. A projectile
    /// beyond the blast zone is deleted too.
    pub fn action_step(action: Option<ProjectileAction>, frame: i64, frame_count: usize, out_of_bounds: bool) -> (r: (Option<ActionResult>, bool))
        requires
            on_last_frame(frame, frame_count) ==> action is Some,
        ensures
            on_last_frame(frame, frame_count) ==> (action matches Some(a) && r.0 matches Some(
                ActionResult::SetAction(n),
            ) && n@ == a.spec_expired().0.spec_name() && r.1 == (out_of_bounds
                || a.spec_expired().1)),
            !on_last_frame(frame, frame_count) ==> r.0 is None && r.1 == out_of_bounds,
    {
        if is_on_last_frame(frame, frame_count) {
            match action {
                Some(a) => {
                    let (next, delete) = a.expired();
                    (ActionResult::set_action(next.name()), out_of_bounds || delete)
                },
                None => (None, out_of_bounds),
            }
        } else {
            (None, out_of_bounds)
        }
    }

    /// A clang, hit, shield, reflect or absorb ends the projectile in its hit action.
    pub fn step_collision(kinds: &Vec<CollisionKind>) -> (r: Option<ActionResult>)
        ensures
            any_stops_projectile(kinds@) ==> (r matches Some(ActionResult::SetAction(n)) && n@
                == ProjectileAction::Hit.spec_name()),
            !any_stops_projectile(kinds@) ==> r is None,
    {
        if any_projectile_stop(kinds) {
            ActionResult::set_action(ProjectileAction::Hit.name())
        } else {
            None
        }
    }
}

/// Reading back a projectile action's name gives the action.
pub proof fn lemma_projectile_action_name_parses(a: ProjectileAction)
    ensures
        ProjectileAction::spec_parse(a.spec_name()) == Some(a),
{
    reveal_strlit("Spawn");
    reveal_strlit("Travel");
    reveal_strlit("Hit");
    assert("Spawn"@.len() == 5 && "Travel"@.len() == 6 && "Hit"@.len() == 3);
}

/// The actions of the oven that Toriel's special summons.
#[derive(Clone, Copy, Debug, PartialEq, Eq, Structural)]
pub enum TorielOvenAction {
    EarlyEnd,
    AttackExtended,
    Attack,
}

impl TorielOvenAction {
    /// The action's name, as entity definitions key their actions.
    pub open spec fn spec_name(self) -> Seq<char> {
        match self {
            TorielOvenAction::EarlyEnd => "EarlyEnd"@,
            TorielOvenAction::AttackExtended => "AttackExtended"@,
            TorielOvenAction::Attack => "Attack"@,
        }
    }

    /// The action named `name`, if there is one.
    pub open spec fn spec_parse(name: Seq<char>) -> Option<TorielOvenAction> {
        if name == "EarlyEnd"@ {
            Some(TorielOvenAction::EarlyEnd)
        } else if name == "AttackExtended"@ {
            Some(TorielOvenAction::AttackExtended)
        } else if name == "Attack"@ {
            Some(TorielOvenAction::Attack)
        } else {
            None
        }
    }

    /// The action's name.
    pub fn name(&self) -> (r: &'static str)
        ensures
            r@ == self.spec_name(),
    {
        match self {
            TorielOvenAction::EarlyEnd => "EarlyEnd",
            TorielOvenAction::AttackExtended => "AttackExtended",
            TorielOvenAction::Attack => "Attack",
        }
    }

    /// The action named `name`, if there is one.
    pub fn from_name(name: &String) -> (r: Option<TorielOvenAction>)
        ensures
            r == TorielOvenAction::spec_parse(name@),
    {
        if same_text(name, "EarlyEnd") {
            Some(TorielOvenAction::EarlyEnd)
        } else if same_text(name, "AttackExtended") {
            Some(TorielOvenAction::AttackExtended)
        } else if same_text(name, "Attack") {
            Some(TorielOvenAction::Attack)
        } else {
            None
        }
    }
}

/// Reading back an oven action's name gives the action.
pub proof fn lemma_toriel_oven_action_name_parses(a: TorielOvenAction)
    ensures
        TorielOvenAction::spec_parse(a.spec_name()) == Some(a),
{
    reveal_strlit("EarlyEnd");
    reveal_strlit("AttackExtended");
    reveal_strlit("Attack");
    assert("EarlyEnd"@.len() == 8 && "AttackExtended"@.len() == 14 && "Attack"@.len() == 6);
}

/// A message to the oven from the fighter who summoned it.
#[derive(Clone, Copy, Debug, PartialEq, Eq, Structural)]
pub enum MessageTorielOven {
    /// The special button is still held: the oven does not end early.
    KeepAlive,
}

/// The frame of the early-ending action on which the oven decides to attack.
pub const TORIEL_OVEN_DECISION_FRAME: i64 = 20;

/// The oven's owner, which way it faces, and whether it was kept alive this frame;
/// its position is kept by the caller.
#[derive(Clone, Copy, Debug, PartialEq, Eq, Structural)]
pub struct TorielOven {
    pub owner_id: Option<usize>,
    pub face_right: bool,
    pub keep_alive: bool,
}

impl TorielOven {
    /// A new oven of player `owner_id`, facing as its owner does.
    pub fn new(owner_id: usize, face_right: bool) -> (r: TorielOven)
        ensures
            r.owner_id == Some(owner_id),
            r.face_right == face_right,
            !r.keep_alive,
    {
        TorielOven { owner_id: Some(owner_id), face_right, keep_alive: false }
    }

    /// Keeps the oven alive through this frame.
    pub fn process_message(&mut self, message: MessageTorielOven) -> (r: Option<ActionResult>)
        ensures
            r is None,
            final(self).keep_alive,
            final(self).owner_id == old(self).owner_id,
            final(self).face_right == old(self).face_right,
    {
        match message {
            MessageTorielOven::KeepAlive => {
                self.keep_alive = true;
                None
            },
        }
    }

    /// One frame of the oven. On the decision frame of its early-ending action, an oven kept
    /// alive attacks, on the same frame: turned round into the extended attack when the
    /// special button is held, else the plain attack. It is deleted on the last of its
    /// `frame_count` frames, and must be kept alive again by the next frame.
    pub fn action_step(&mut self, action: Option<TorielOvenAction>, frame: i64, frame_count: usize, b_held: bool) -> (r: (Option<ActionResult>, bool))
        ensures
            r.1 == on_last_frame(frame, frame_count),
            !final(self).keep_alive,
            final(self).owner_id == old(self).owner_id,
            ({
                let attacks = action == Some(TorielOvenAction::EarlyEnd) && frame == TORIEL_OVEN_DECISION_FRAME
                    && old(self).keep_alive;
                &&& attacks && b_held ==> (r.0 matches Some(ActionResult::SetActionKeepFrame(n)) && n@
                    == TorielOvenAction::AttackExtended.spec_name()) && final(self).face_right
                    == !old(self).face_right
                &&& attacks && !b_held ==> (r.0 matches Some(ActionResult::SetActionKeepFrame(n)) && n@
                    == TorielOvenAction::Attack.spec_name()) && final(self).face_right
                    == old(self).face_right
                &&& !attacks ==> r.0 is None && final(self).face_right == old(self).face_right
            }),
    {
        let delete = is_on_last_frame(frame, frame_count);
        let result = match action {
            Some(TorielOvenAction::EarlyEnd) => {
                if frame == TORIEL_OVEN_DECISION_FRAME && self.keep_alive {
                    if b_held {
                        self.face_right = !self.face_right;
                        ActionResult::set_action_keep_frame(TorielOvenAction::AttackExtended.name())
                    } else {
                        ActionResult::set_action_keep_frame(TorielOvenAction::Attack.name())
                    }
                } else {
                    None
                }
            },
            Some(TorielOvenAction::AttackExtended) => None,
            Some(TorielOvenAction::Attack) => None,
            None => None,
        };
        self.keep_alive = false;
        (result, delete)
    }
}

/// Which kind of entity, with what decides whom it belongs to.
#[derive(Clone, Copy, Debug, PartialEq, Eq, Structural)]
pub enum EntityKind {
    Fighter { id: usize, team: usize },
    Projectile { owner_id: Option<usize> },
    Item { owner_id: Option<usize> },
    TorielFireball { owner_id: Option<usize> },
    TorielOven { owner_id: Option<usize> },
}

impl EntityKind {
    /// The player the entity is, or belongs to; none when it belongs to nobody.
    pub open spec fn spec_player_id(self) -> Option<usize> {
        match self {
            EntityKind::Fighter { id, .. } => Some(id),
            EntityKind::Projectile { owner_id } => owner_id,
            EntityKind::Item { owner_id } => owner_id,
            EntityKind::TorielFireball { owner_id } => owner_id,
            EntityKind::TorielOven { owner_id } => owner_id,
        }
    }

    /// The player the entity is, or belongs to.
    pub fn player_id(&self) -> (r: Option<usize>)
        ensures
            r == self.spec_player_id(),
    {
        match self {
            EntityKind::Fighter { id, .. } => Some(*id),
            EntityKind::Projectile { owner_id } => *owner_id,
            EntityKind::Item { owner_id } => *owner_id,
            EntityKind::TorielFireball { owner_id } => *owner_id,
            EntityKind::TorielOven { owner_id } => *owner_id,
        }
    }

    /// An entity can hit another unless both are, or belong to, the same player
    /// (two entities that belong to nobody cannot hit each other either).
    pub fn can_hit(&self, other: &EntityKind) -> (r: bool)
        ensures
            r == (self.spec_player_id() != other.spec_player_id()),
    {
        let a = self.player_id();
        let b = other.player_id();
        match (a, b) {
            (Some(x), Some(y)) => x != y,
            (None, None) => false,
            _ => true,
        }
    }

    /// The fighter's team; other entities count as team 0.
    pub fn team(&self) -> (r: usize)
        ensures
            r == (match *self {
                EntityKind::Fighter { team, .. } => team,
                _ => 0,
            }),
    {
        match self {
            EntityKind::Fighter { team, .. } => *team,
            _ => 0,
        }
    }
}

/// No entity can hit itself, and whether one can hit another does not depend on which attacks.
pub proof fn lemma_can_hit_symmetric(a: EntityKind, b: EntityKind)
    ensures
        !(a.spec_player_id() != a.spec_player_id()),
        (a.spec_player_id() != b.spec_player_id()) == (b.spec_player_id() != a.spec_player_id()),
{
}

} // verus!

verus! {

/// Who may hold a ledge when a second fighter reaches it.
#[derive(Clone, Copy, Debug, PartialEq, Eq, Structural)]
pub enum LedgeLogic {
    Hog,
    Share,
    Trump,
}

} // verus!
