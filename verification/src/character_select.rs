use vstd::prelude::*;

use crate::menu::{free_team, get_free_team, lemma_free_team, PlayerSelect, PlayerSelectUi};
use crate::menu_ticker::MenuTicker;

verus! {

/// What one controller did on a menu frame: directions already resolved from the
/// analog stick, buttons as pressed this frame or held.
#[derive(Clone, Copy, Debug, PartialEq, Eq, Structural)]
pub struct MenuInput {
    pub plugged_in: bool,
    pub up: bool,
    pub down: bool,
    pub left: bool,
    pub right: bool,
    pub a_press: bool,
    pub b_press: bool,
    pub start_press: bool,
    pub b_held: bool,
    pub l_press: bool,
    pub r_press: bool,
}

/// The number of slots that belong to humans.
pub open spec fn count_humans(s: Seq<PlayerSelect>) -> nat
    decreases s.len(),
{
    if s.len() == 0 {
        0
    } else {
        count_humans(s.drop_last()) + if s.last().ui.is_cpu() { 0nat } else { 1nat }
    }
}

/// The number of slots that are drawn.
pub open spec fn count_visible(s: Seq<PlayerSelect>) -> nat
    decreases s.len(),
{
    if s.len() == 0 {
        0
    } else {
        count_visible(s.drop_last()) + if s.last().ui.is_visible() { 1nat } else { 0nat }
    }
}

/// The slot `s[j]` is steered by controller `k`.
pub open spec fn steered_by(s: Seq<PlayerSelect>, j: int, k: int) -> bool {
    s[j].controller matches Some(c) && c.0 == k
}

/// The ticker of a slot shows the entries the slot's screen has, for `fighter_count` fighters and `color_count` team colors.
pub open spec fn ui_wf(ui: PlayerSelectUi, fighter_count: nat, color_count: nat) -> bool {
    match ui {
        PlayerSelectUi::CpuAi(t) => t.wf() && t.cursor_max == 0,
        PlayerSelectUi::CpuFighter(t) => t.wf() && t.cursor_max == fighter_count + 2,
        PlayerSelectUi::CpuTeam(t) => t.wf() && t.cursor_max == color_count,
        PlayerSelectUi::HumanFighter(t) => t.wf() && t.cursor_max == fighter_count + 1,
        PlayerSelectUi::HumanTeam(t) => t.wf() && t.cursor_max == color_count,
        PlayerSelectUi::HumanUnplugged => true,
    }
}

/// The slots of the character select screen are consistent, with the `h` human slots first:
/// every controller steers at most one slot, a human slot is only ever steered by its own
/// controller, a human who is not unplugged always steers some slot, and an unplugged
/// human's controller steers no other slot.
pub open spec fn selections_wf_with(s: Seq<PlayerSelect>, h: nat, fighter_count: nat, color_count: nat) -> bool {
    &&& h <= s.len()
    &&& fighter_count + 3 <= usize::MAX
    &&& color_count + 1 <= usize::MAX
    &&& forall|i: int| 0 <= i < s.len() ==> (i < h <==> !(#[trigger] s[i]).ui.is_cpu())
    &&& forall|i: int| 0 <= i < s.len() ==> ui_wf(#[trigger] s[i].ui, fighter_count, color_count)
    &&& forall|i: int| 0 <= i < s.len() ==> ((#[trigger] s[i]).fighter matches Some(k) ==> k < fighter_count)
    &&& forall|i: int| 0 <= i < s.len() ==> (#[trigger] s[i]).animation_frame < usize::MAX
    &&& forall|i: int| 0 <= i < s.len() ==> ((#[trigger] s[i]).controller matches Some(c) ==> c.0 < h && c.1.wf())
    &&& forall|i: int, j: int| 0 <= i < s.len() && 0 <= j < s.len() && i != j && #[trigger] s[i].controller is Some
        && #[trigger] s[j].controller is Some ==> s[i].controller.unwrap().0 != s[j].controller.unwrap().0
    &&& forall|k: int| 0 <= k < h ==> ((#[trigger] s[k]).controller matches Some(c) ==> c.0 == k)
    &&& forall|k: int, j: int| 0 <= k < h && 0 <= j < s.len() && j != k && s[k].ui is HumanUnplugged
        ==> !#[trigger] steered_by(s, j, k)
    &&& forall|k: int| 0 <= k < h && !((#[trigger] s[k]).ui is HumanUnplugged) ==> exists|j: int|
        0 <= j < s.len() && #[trigger] steered_by(s, j, k)
}

/// The slots are consistent, with the human slots first.
pub open spec fn selections_wf(s: Seq<PlayerSelect>, fighter_count: nat, color_count: nat) -> bool {
    selections_wf_with(s, count_humans(s), fighter_count, color_count)
}

/// When exactly the first `h` slots are human, `h` humans are counted.
pub proof fn lemma_count_humans(s: Seq<PlayerSelect>, h: nat)
    requires
        h <= s.len(),
        forall|i: int| 0 <= i < s.len() ==> (i < h <==> !(#[trigger] s[i]).ui.is_cpu()),
    ensures
        count_humans(s) == h,
    decreases s.len(),
{
    if s.len() > 0 {
        let s2 = s.drop_last();
        if h == s.len() {
            assert(!s[s.len() - 1].ui.is_cpu());
            assert forall|i: int| 0 <= i < s2.len() implies (i < (h - 1) as nat <==> !(#[trigger] s2[i]).ui.is_cpu()) by {
                assert(s2[i] == s[i]);
            }
            lemma_count_humans(s2, (h - 1) as nat);
        } else {
            assert(s[s.len() - 1].ui.is_cpu());
            assert forall|i: int| 0 <= i < s2.len() implies (i < h <==> !(#[trigger] s2[i]).ui.is_cpu()) by {
                assert(s2[i] == s[i]);
            }
            lemma_count_humans(s2, h);
        }
    }
}

/// The slot made for input `i` when the slots are rebuilt.
pub open spec fn slot_for_input(prefix: Seq<PlayerSelect>, i: int, input: MenuInput, fighter_count: usize) -> PlayerSelect {
    PlayerSelect {
        controller: Some((i as usize, MenuTicker::new(1))),
        fighter: None,
        cpu_ai: None,
        ui: if input.plugged_in { PlayerSelectUi::human_fighter(fighter_count) } else { PlayerSelectUi::HumanUnplugged },
        animation_frame: 0,
        team: free_team(prefix) as usize,
    }
}

/// One human slot per input, each steered by its own controller, added one by one.
pub open spec fn rebuilt_selections(inputs: Seq<MenuInput>, fighter_count: usize) -> Seq<PlayerSelect>
    decreases inputs.len(),
{
    if inputs.len() == 0 {
        Seq::empty()
    } else {
        let prefix = rebuilt_selections(inputs.drop_last(), fighter_count);
        prefix.push(slot_for_input(prefix, prefix.len() as int, inputs.last(), fighter_count))
    }
}

/// The slots after a frame's check for added or removed controllers: when the number of human
/// slots no longer matches the number of inputs, they are all thrown away and rebuilt.
pub open spec fn spec_add_remove(s: Seq<PlayerSelect>, inputs: Seq<MenuInput>, fighter_count: usize) -> Seq<PlayerSelect> {
    if count_humans(s) != inputs.len() {
        rebuilt_selections(inputs, fighter_count)
    } else {
        s
    }
}

proof fn lemma_rebuilt_len(inputs: Seq<MenuInput>, fighter_count: usize)
    ensures
        rebuilt_selections(inputs, fighter_count).len() == inputs.len(),
    decreases inputs.len(),
{
    if inputs.len() > 0 {
        lemma_rebuilt_len(inputs.drop_last(), fighter_count);
    }
}

/// Each rebuilt slot is the slot made for its input.
proof fn lemma_rebuilt_index(inputs: Seq<MenuInput>, fighter_count: usize, i: int)
    requires
        0 <= i < inputs.len(),
    ensures
        rebuilt_selections(inputs, fighter_count)[i] == slot_for_input(
            rebuilt_selections(inputs.subrange(0, i), fighter_count),
            i,
            inputs[i],
            fighter_count,
        ),
    decreases inputs.len(),
{
    lemma_rebuilt_len(inputs.drop_last(), fighter_count);
    if i == inputs.len() - 1 {
        assert(inputs.subrange(0, i) =~= inputs.drop_last());
    } else {
        assert(inputs.drop_last().subrange(0, i) =~= inputs.subrange(0, i));
        lemma_rebuilt_index(inputs.drop_last(), fighter_count, i);
    }
}

/// Rebuilt slots are consistent.
pub proof fn lemma_rebuilt_wf(inputs: Seq<MenuInput>, fighter_count: nat, color_count: nat)
    requires
        fighter_count + 3 <= usize::MAX,
        color_count + 1 <= usize::MAX,
        inputs.len() <= usize::MAX,
    ensures
        selections_wf_with(rebuilt_selections(inputs, fighter_count as usize), inputs.len(), fighter_count, color_count),
{
    let s = rebuilt_selections(inputs, fighter_count as usize);
    let fc = fighter_count as usize;
    lemma_rebuilt_len(inputs, fc);
    assert forall|i: int| 0 <= i < s.len() implies (#[trigger] s[i]).controller == Some((i as usize, MenuTicker::new(1)))
        && s[i].fighter is None && s[i].animation_frame == 0
        && (s[i].ui == PlayerSelectUi::human_fighter(fc) || s[i].ui is HumanUnplugged) by {
        lemma_rebuilt_index(inputs, fc, i);
    }
    assert forall|i: int| 0 <= i < s.len() implies (i < inputs.len() <==> !(#[trigger] s[i]).ui.is_cpu()) by {
        assert(s[i].controller == Some((i as usize, MenuTicker::new(1))));
    }
    assert forall|i: int| 0 <= i < s.len() implies ui_wf(#[trigger] s[i].ui, fighter_count, color_count) by {
        assert(s[i].controller == Some((i as usize, MenuTicker::new(1))));
    }
    assert forall|i: int| 0 <= i < s.len() implies ((#[trigger] s[i]).controller matches Some(c) ==> c.0 < inputs.len() && c.1.wf()) by {
        assert(s[i].controller == Some((i as usize, MenuTicker::new(1))));
    }
    assert forall|i: int, j: int| 0 <= i < s.len() && 0 <= j < s.len() && i != j && #[trigger] s[i].controller is Some
        && #[trigger] s[j].controller is Some implies s[i].controller.unwrap().0 != s[j].controller.unwrap().0 by {
        assert(s[i].controller == Some((i as usize, MenuTicker::new(1))));
        assert(s[j].controller == Some((j as usize, MenuTicker::new(1))));
    }
    assert forall|k: int, j: int| 0 <= k < inputs.len() && 0 <= j < s.len() && j != k && s[k].ui is HumanUnplugged
        implies !#[trigger] steered_by(s, j, k) by {
        assert(s[j].controller == Some((j as usize, MenuTicker::new(1))));
    }
    assert forall|k: int| 0 <= k < inputs.len() && !((#[trigger] s[k]).ui is HumanUnplugged) implies exists|j: int|
        0 <= j < s.len() && #[trigger] steered_by(s, j, k) by {
        assert(s[k].controller == Some((k as usize, MenuTicker::new(1))));
        assert(steered_by(s, k, k));
    }
}

/// Resets the slots when controllers were added or removed, so that there is one human slot per input.
pub fn add_remove_fighter_selections(selections: &mut Vec<PlayerSelect>, fighter_count: usize, player_inputs: &Vec<MenuInput>)
    requires
        fighter_count + 2 <= usize::MAX,
    ensures
        final(selections)@ == spec_add_remove(old(selections)@, player_inputs@, fighter_count),
{
    let mut humans: usize = 0;
    let mut i: usize = 0;
    while i < selections.len()
        invariant
            i <= selections@.len(),
            humans == count_humans(selections@.subrange(0, i as int)),
            humans <= i,
        decreases selections@.len() - i,
    {
        assert(selections@.subrange(0, i as int) =~= selections@.subrange(0, i + 1).drop_last());
        if !selections[i].ui.is_cpu() {
            humans = humans + 1;
        }
        i = i + 1;
    }
    assert(selections@.subrange(0, i as int) =~= selections@);
    if humans != player_inputs.len() {
        selections.clear();
        let mut i: usize = 0;
        while i < player_inputs.len()
            invariant
                fighter_count + 2 <= usize::MAX,
                i <= player_inputs@.len(),
                selections@ == rebuilt_selections(player_inputs@.subrange(0, i as int), fighter_count),
            decreases player_inputs@.len() - i,
        {
            let input = player_inputs[i];
            let ui = if input.plugged_in {
                PlayerSelectUi::human_fighter(fighter_count)
            } else {
                PlayerSelectUi::HumanUnplugged
            };
            proof { lemma_rebuilt_len(player_inputs@.subrange(0, i as int), fighter_count); }
            let team = get_free_team(selections);
            selections.push(PlayerSelect {
                controller: Some((i, MenuTicker::new(1))),
                fighter: None,
                cpu_ai: None,
                ui,
                animation_frame: 0,
                team,
            });
            assert(player_inputs@.subrange(0, i + 1).drop_last() =~= player_inputs@.subrange(0, i as int));
            i = i + 1;
        }
        assert(player_inputs@.subrange(0, i as int) =~= player_inputs@);
    }
}

} // verus!

verus! {

/// The slot after one frame of its fighter's idle animation on the character select screen;
/// `css_frames[k]` is the number of frames of fighter `k`'s animation, where it has one.
pub open spec fn animated(sel: PlayerSelect, css_frames: Seq<Option<usize>>) -> PlayerSelect {
    match sel.fighter {
        Some(k) => match css_frames[k as int] {
            Some(n) => PlayerSelect { animation_frame: ((sel.animation_frame + 1) % (n as int)) as usize, ..sel },
            None => sel,
        },
        None => sel,
    }
}

/// Every slot after one frame of animation.
pub open spec fn spec_animate(s: Seq<PlayerSelect>, css_frames: Seq<Option<usize>>) -> Seq<PlayerSelect> {
    Seq::new(s.len(), |i: int| animated(s[i], css_frames))
}

/// The animation frame counts cover every fighter and none is empty.
pub open spec fn css_frames_wf(css_frames: Seq<Option<usize>>, fighter_count: nat) -> bool {
    &&& css_frames.len() == fighter_count
    &&& forall|k: int| 0 <= k < css_frames.len() ==> (#[trigger] css_frames[k] matches Some(n) ==> n > 0)
}

/// Steps the idle animation of every chosen fighter.
fn animate_fighters(selections: &mut Vec<PlayerSelect>, css_frames: &Vec<Option<usize>>, Ghost(h): Ghost<nat>, Ghost(fighter_count): Ghost<nat>, Ghost(color_count): Ghost<nat>)
    requires
        selections_wf_with(old(selections)@, h, fighter_count, color_count),
        css_frames_wf(css_frames@, fighter_count),
    ensures
        final(selections)@ == spec_animate(old(selections)@, css_frames@),
        selections_wf_with(final(selections)@, h, fighter_count, color_count),
{
    let ghost s0 = selections@;
    let mut i: usize = 0;
    while i < selections.len()
        invariant
            i <= selections@.len(),
            selections@.len() == s0.len(),
            selections_wf_with(s0, h, fighter_count, color_count),
            css_frames_wf(css_frames@, fighter_count),
            forall|j: int| 0 <= j < i ==> selections@[j] == animated(s0[j], css_frames@),
            forall|j: int| i <= j < s0.len() ==> selections@[j] == s0[j],
        decreases selections@.len() - i,
    {
        let sel = selections[i];
        assert(sel == s0[i as int]);
        if let Some(k) = sel.fighter {
            if let Some(n) = css_frames[k] {
                selections.set(i, PlayerSelect { animation_frame: (sel.animation_frame + 1) % n, ..sel });
            }
        }
        i = i + 1;
    }
    assert(selections@ =~= spec_animate(s0, css_frames@));
    assert forall|j: int| 0 <= j < selections@.len() implies (#[trigger] selections@[j]) == (PlayerSelect {
        animation_frame: selections@[j].animation_frame,
        ..s0[j]
    }) && selections@[j].animation_frame < usize::MAX by {
        assert(selections@[j] == animated(s0[j], css_frames@));
    }
    proof { lemma_wf_same_but_animation(s0, selections@, h, fighter_count, color_count); }
}

/// Changing only animation frames keeps the slots consistent.
proof fn lemma_wf_same_but_animation(s: Seq<PlayerSelect>, r: Seq<PlayerSelect>, h: nat, fighter_count: nat, color_count: nat)
    requires
        selections_wf_with(s, h, fighter_count, color_count),
        r.len() == s.len(),
        forall|j: int| 0 <= j < r.len() ==> (#[trigger] r[j]) == (PlayerSelect { animation_frame: r[j].animation_frame, ..s[j] })
            && r[j].animation_frame < usize::MAX,
    ensures
        selections_wf_with(r, h, fighter_count, color_count),
{
    assert forall|j: int, k: int| 0 <= j < r.len() implies #[trigger] steered_by(r, j, k) == steered_by(s, j, k) by {
        assert(r[j].controller == s[j].controller);
    }
    assert forall|i: int| 0 <= i < r.len() implies (i < h <==> !(#[trigger] r[i]).ui.is_cpu()) by {
        assert(r[i].ui == s[i].ui);
    }
    assert forall|i: int| 0 <= i < r.len() implies ui_wf(#[trigger] r[i].ui, fighter_count, color_count) by {
        assert(r[i].ui == s[i].ui);
    }
    assert forall|i: int| 0 <= i < r.len() implies ((#[trigger] r[i]).fighter matches Some(k) ==> k < fighter_count) by {
        assert(r[i].fighter == s[i].fighter);
    }
    assert forall|i: int| 0 <= i < r.len() implies ((#[trigger] r[i]).controller matches Some(c) ==> c.0 < h && c.1.wf()) by {
        assert(r[i].controller == s[i].controller);
    }
    assert forall|i: int, j: int| 0 <= i < r.len() && 0 <= j < r.len() && i != j && #[trigger] r[i].controller is Some
        && #[trigger] r[j].controller is Some implies r[i].controller.unwrap().0 != r[j].controller.unwrap().0 by {
        assert(r[i].controller == s[i].controller);
        assert(r[j].controller == s[j].controller);
    }
    assert forall|k: int| 0 <= k < h implies ((#[trigger] r[k]).controller matches Some(c) ==> c.0 == k) by {
        assert(r[k].controller == s[k].controller);
    }
    assert forall|k: int, j: int| 0 <= k < h && 0 <= j < r.len() && j != k && r[k].ui is HumanUnplugged
        implies !#[trigger] steered_by(r, j, k) by {
        assert(r[k].ui == s[k].ui);
    }
    assert forall|k: int| 0 <= k < h && !((#[trigger] r[k]).ui is HumanUnplugged) implies exists|j: int|
        0 <= j < r.len() && #[trigger] steered_by(r, j, k) by {
        assert(r[k].ui == s[k].ui);
        let j = choose|j: int| 0 <= j < s.len() && #[trigger] steered_by(s, j, k);
        assert(steered_by(r, j, k));
    }
}

/// Every slot steered by controller `k` steered by nobody.
pub open spec fn release_controller(s: Seq<PlayerSelect>, k: int) -> Seq<PlayerSelect> {
    Seq::new(s.len(), |j: int| if steered_by(s, j, k) { PlayerSelect { controller: None, ..s[j] } } else { s[j] })
}

/// The slots after checking whether input `i` was plugged in or pulled out: a human plugging in
/// comes back picking a fighter with the first free team; a human pulling out while picking a
/// fighter is marked unplugged and releases whatever slot their controller was steering.
pub open spec fn plug_step(s: Seq<PlayerSelect>, inputs: Seq<MenuInput>, i: int, fighter_count: usize) -> Seq<PlayerSelect> {
    if inputs[i].plugged_in {
        if s[i].ui is HumanUnplugged {
            s.update(
                i,
                PlayerSelect {
                    ui: PlayerSelectUi::human_fighter(fighter_count),
                    team: free_team(s) as usize,
                    controller: Some((i as usize, MenuTicker::new(1))),
                    ..s[i]
                },
            )
        } else {
            s
        }
    } else if s[i].ui is HumanFighter {
        release_controller(s.update(i, PlayerSelect { ui: PlayerSelectUi::HumanUnplugged, ..s[i] }), i)
    } else {
        s
    }
}

/// The slots after checking the first `k` inputs for plugging in or pulling out.
pub open spec fn plugged_upto(s: Seq<PlayerSelect>, inputs: Seq<MenuInput>, fighter_count: usize, k: nat) -> Seq<PlayerSelect>
    decreases k,
{
    if k == 0 {
        s
    } else {
        plug_step(plugged_upto(s, inputs, fighter_count, (k - 1) as nat), inputs, k - 1, fighter_count)
    }
}

/// Checking one input keeps the slots consistent.
proof fn lemma_plug_step_wf(s: Seq<PlayerSelect>, inputs: Seq<MenuInput>, i: int, fighter_count: nat, color_count: nat)
    requires
        selections_wf_with(s, inputs.len(), fighter_count, color_count),
        0 <= i < inputs.len(),
        inputs.len() <= usize::MAX,
    ensures
        selections_wf_with(plug_step(s, inputs, i, fighter_count as usize), inputs.len(), fighter_count, color_count),
        plug_step(s, inputs, i, fighter_count as usize).len() == s.len(),
        inputs[i].plugged_in ==> !(plug_step(s, inputs, i, fighter_count as usize)[i].ui is HumanUnplugged),
        forall|j: int| 0 <= j < s.len() && j != i ==> #[trigger] plug_step(s, inputs, i, fighter_count as usize)[j].ui == s[j].ui,
{
    let h = inputs.len();
    let fc = fighter_count as usize;
    let r = plug_step(s, inputs, i, fc);
    if inputs[i].plugged_in {
        if s[i].ui is HumanUnplugged {
            lemma_free_team(s);
            assert forall|a: int, b: int| 0 <= a < r.len() && 0 <= b < r.len() && a != b && #[trigger] r[a].controller is Some
                && #[trigger] r[b].controller is Some implies r[a].controller.unwrap().0 != r[b].controller.unwrap().0 by {
                if a == i {
                    assert(!steered_by(s, b, i));
                } else if b == i {
                    assert(!steered_by(s, a, i));
                }
            }
            assert forall|k: int, j: int| 0 <= k < h && 0 <= j < r.len() && j != k && r[k].ui is HumanUnplugged
                implies !#[trigger] steered_by(r, j, k) by {
                assert(k != i);
                if j == i {
                    assert(r[i].controller.unwrap().0 == i);
                } else {
                    assert(!steered_by(s, j, k));
                }
            }
            assert forall|k: int| 0 <= k < h && !((#[trigger] r[k]).ui is HumanUnplugged) implies exists|j: int|
                0 <= j < r.len() && #[trigger] steered_by(r, j, k) by {
                if k == i {
                    assert(steered_by(r, i, i));
                } else {
                    let j = choose|j: int| 0 <= j < s.len() && #[trigger] steered_by(s, j, k);
                    assert(j != i) by {
                        if j == i {
                            assert(!steered_by(s, i, i) || i == i);
                        }
                    }
                    if j == i {
                        assert(false) by {
                            assert(s[i].ui is HumanUnplugged);
                            assert(!steered_by(s, i, k)) by {
                                if steered_by(s, i, k) {
                                    assert(s[i].controller.unwrap().0 == i);
                                }
                            }
                        }
                    }
                    assert(steered_by(r, j, k));
                }
            }
        }
    } else if s[i].ui is HumanFighter {
        let s1 = s.update(i, PlayerSelect { ui: PlayerSelectUi::HumanUnplugged, ..s[i] });
        assert forall|a: int, b: int| 0 <= a < r.len() && 0 <= b < r.len() && a != b && #[trigger] r[a].controller is Some
            && #[trigger] r[b].controller is Some implies r[a].controller.unwrap().0 != r[b].controller.unwrap().0 by {
            assert(s[a].controller is Some && s[b].controller is Some);
        }
        assert forall|k: int, j: int| 0 <= k < h && 0 <= j < r.len() && j != k && r[k].ui is HumanUnplugged
            implies !#[trigger] steered_by(r, j, k) by {
            if k != i {
                assert(!steered_by(s, j, k));
            }
        }
        assert forall|k: int| 0 <= k < h && !((#[trigger] r[k]).ui is HumanUnplugged) implies exists|j: int|
            0 <= j < r.len() && #[trigger] steered_by(r, j, k) by {
            assert(k != i);
            let j = choose|j: int| 0 <= j < s.len() && #[trigger] steered_by(s, j, k);
            assert(steered_by(r, j, k));
        }
        assert forall|x: int| 0 <= x < r.len() implies ((#[trigger] r[x]).controller matches Some(c) ==> c.0 < h && c.1.wf()) by {
            assert(s[x].controller matches Some(c) ==> c.0 < h && c.1.wf());
        }
        assert forall|k: int| 0 <= k < h implies ((#[trigger] r[k]).controller matches Some(c) ==> c.0 == k) by {
            assert(s[k].controller matches Some(c) ==> c.0 == k);
        }
    }
}

/// Checks every input for a controller that was plugged in or pulled out.
fn plug_unplug(selections: &mut Vec<PlayerSelect>, fighter_count: usize, player_inputs: &Vec<MenuInput>, Ghost(color_count): Ghost<nat>)
    requires
        selections_wf_with(old(selections)@, player_inputs@.len(), fighter_count as nat, color_count),
    ensures
        final(selections)@ == plugged_upto(old(selections)@, player_inputs@, fighter_count, player_inputs@.len()),
        selections_wf_with(final(selections)@, player_inputs@.len(), fighter_count as nat, color_count),
        forall|k: int| 0 <= k < player_inputs@.len() && player_inputs@[k].plugged_in ==> !((#[trigger] final(selections)@[k]).ui is HumanUnplugged),
{
    let ghost s0 = selections@;
    let ghost h = player_inputs@.len();
    let mut input_i: usize = 0;
    while input_i < player_inputs.len()
        invariant
            input_i <= h,
            h == player_inputs@.len(),
            selections@ == plugged_upto(s0, player_inputs@, fighter_count, input_i as nat),
            selections_wf_with(selections@, h, fighter_count as nat, color_count),
            forall|k: int| 0 <= k < input_i && player_inputs@[k].plugged_in ==> !((#[trigger] selections@[k]).ui is HumanUnplugged),
        decreases h - input_i,
    {
        let ghost before = selections@;
        proof { lemma_plug_step_wf(before, player_inputs@, input_i as int, fighter_count as nat, color_count); }
        let free_team = get_free_team(selections);
        let input = player_inputs[input_i];
        if input.plugged_in {
            let selection = selections[input_i];
            if let PlayerSelectUi::HumanUnplugged = selection.ui {
                selections.set(input_i, PlayerSelect {
                    ui: PlayerSelectUi::human_fighter(fighter_count),
                    team: free_team,
                    controller: Some((input_i, MenuTicker::new(1))),
                    ..selection
                });
            }
        } else if let PlayerSelectUi::HumanFighter(_) = selections[input_i].ui {
            let selection = selections[input_i];
            selections.set(input_i, PlayerSelect { ui: PlayerSelectUi::HumanUnplugged, ..selection });
            let ghost mid = selections@;
            let mut j: usize = 0;
            while j < selections.len()
                invariant
                    j <= mid.len(),
                    selections@.len() == mid.len(),
                    forall|x: int| 0 <= x < j ==> selections@[x] == release_controller(mid, input_i as int)[x],
                    forall|x: int| j <= x < mid.len() ==> selections@[x] == mid[x],
                decreases mid.len() - j,
            {
                let selection = selections[j];
                if let Some((controller, _)) = selection.controller {
                    if controller == input_i {
                        selections.set(j, PlayerSelect { controller: None, ..selection });
                    }
                }
                j = j + 1;
            }
            assert(selections@ =~= release_controller(mid, input_i as int));
        }
        assert(selections@ =~= plug_step(before, player_inputs@, input_i as int, fighter_count));
        input_i = input_i + 1;
    }
}

} // verus!

verus! {

/// The last of the first `n` slots that controller `k` steers, or 0 when there is none.
pub open spec fn last_steered_upto(s: Seq<PlayerSelect>, k: int, n: nat) -> int
    decreases n,
{
    if n == 0 {
        0
    } else if steered_by(s, n - 1, k) {
        n - 1
    } else {
        last_steered_upto(s, k, (n - 1) as nat)
    }
}

/// The slot that controller `k` steers.
pub open spec fn selection_of(s: Seq<PlayerSelect>, k: int) -> int {
    last_steered_upto(s, k, s.len())
}

proof fn lemma_last_steered(s: Seq<PlayerSelect>, k: int, n: nat)
    requires
        n <= s.len(),
    ensures
        0 <= last_steered_upto(s, k, n) < if n == 0 { 1 } else { n as int },
        (exists|j: int| 0 <= j < n && #[trigger] steered_by(s, j, k)) ==> steered_by(s, last_steered_upto(s, k, n), k),
    decreases n,
{
    if n > 0 {
        lemma_last_steered(s, k, (n - 1) as nat);
        if !steered_by(s, n - 1, k) && exists|j: int| 0 <= j < n && #[trigger] steered_by(s, j, k) {
            let j = choose|j: int| 0 <= j < n && #[trigger] steered_by(s, j, k);
            assert(j < n - 1);
        }
    }
}

/// A controller may move onto slot `j`: a CPU slot nobody steers, or the controller's own human slot.
pub open spec fn move_candidate(s: Seq<PlayerSelect>, j: int, k: int) -> bool {
    s[j].is_free() || j == k
}

/// The highest slot in `lo..hi` that controller `k` may move onto.
pub open spec fn max_candidate(s: Seq<PlayerSelect>, k: int, lo: int, hi: int) -> Option<int>
    decreases hi - lo,
{
    if hi <= lo {
        None
    } else if move_candidate(s, hi - 1, k) {
        Some(hi - 1)
    } else {
        max_candidate(s, k, lo, hi - 1)
    }
}

/// The lowest slot in `lo..hi` that controller `k` may move onto.
pub open spec fn min_candidate(s: Seq<PlayerSelect>, k: int, lo: int, hi: int) -> Option<int>
    decreases hi - lo,
{
    if hi <= lo {
        None
    } else if move_candidate(s, lo, k) {
        Some(lo)
    } else {
        min_candidate(s, k, lo + 1, hi)
    }
}

/// Moving left from slot `sel` goes to the nearest slot before it, wrapping to the last one after it.
pub open spec fn left_target(s: Seq<PlayerSelect>, sel: int, k: int) -> Option<int> {
    match max_candidate(s, k, 0, sel) {
        Some(j) => Some(j),
        None => max_candidate(s, k, sel + 1, s.len() as int),
    }
}

/// Moving right from slot `sel` goes to the nearest slot after it, wrapping to the first one before it.
pub open spec fn right_target(s: Seq<PlayerSelect>, sel: int, k: int) -> Option<int> {
    match min_candidate(s, k, sel + 1, s.len() as int) {
        Some(j) => Some(j),
        None => min_candidate(s, k, 0, sel),
    }
}

proof fn lemma_max_candidate(s: Seq<PlayerSelect>, k: int, lo: int, hi: int)
    ensures
        max_candidate(s, k, lo, hi) matches Some(j) ==> lo <= j < hi && move_candidate(s, j, k),
    decreases hi - lo,
{
    if hi > lo && !move_candidate(s, hi - 1, k) {
        lemma_max_candidate(s, k, lo, hi - 1);
    }
}

proof fn lemma_min_candidate(s: Seq<PlayerSelect>, k: int, lo: int, hi: int)
    ensures
        min_candidate(s, k, lo, hi) matches Some(j) ==> lo <= j < hi && move_candidate(s, j, k),
    decreases hi - lo,
{
    if hi > lo && !move_candidate(s, lo, k) {
        lemma_min_candidate(s, k, lo + 1, hi);
    }
}

/// The slot `sel` with its controller's ticker replaced by `t`.
pub open spec fn with_controller_ticker(sel: PlayerSelect, t: MenuTicker) -> PlayerSelect {
    PlayerSelect { controller: Some((sel.controller.unwrap().0, t)), ..sel }
}

/// The controller of slot `from` moves to slot `to`, and `from` is put back at the top of its list.
pub open spec fn move_controller(s: Seq<PlayerSelect>, from: int, to: int) -> Seq<PlayerSelect> {
    s.update(to, PlayerSelect { controller: s[from].controller, ..s[to] }).update(
        from,
        PlayerSelect { controller: None, ui: s[from].ui.spec_full_reset(), ..s[from] },
    )
}

/// The slots after controller `k` moved left or right between slots, if it did.
pub open spec fn move_step(s: Seq<PlayerSelect>, inputs: Seq<MenuInput>, k: int) -> Seq<PlayerSelect> {
    if !inputs[k].plugged_in {
        s
    } else {
        let sel = selection_of(s, k);
        let t = s[sel].controller.unwrap().1;
        if inputs[k].left || inputs[k].right {
            let (t2, ticked) = t.spec_tick();
            let s1 = s.update(sel, with_controller_ticker(s[sel], t2));
            if ticked {
                let target = if inputs[k].left { left_target(s1, sel, k) } else { right_target(s1, sel, k) };
                match target {
                    Some(n) => move_controller(s1, sel, n),
                    None => s1,
                }
            } else {
                s1
            }
        } else {
            s.update(sel, with_controller_ticker(s[sel], MenuTicker { reset: true, ..t }))
        }
    }
}

/// The slots after the first `n` controllers had their chance to move.
pub open spec fn moved_upto(s: Seq<PlayerSelect>, inputs: Seq<MenuInput>, n: nat) -> Seq<PlayerSelect>
    decreases n,
{
    if n == 0 {
        s
    } else {
        move_step(moved_upto(s, inputs, (n - 1) as nat), inputs, n - 1)
    }
}

/// Every plugged in controller has a slot that is not unplugged.
pub open spec fn plugged_ok(s: Seq<PlayerSelect>, inputs: Seq<MenuInput>) -> bool {
    forall|k: int| 0 <= k < inputs.len() && inputs[k].plugged_in ==> !((#[trigger] s[k]).ui is HumanUnplugged)
}

proof fn lemma_spec_tick_wf(t: MenuTicker)
    requires
        t.wf(),
    ensures
        t.spec_tick().0.wf(),
        t.spec_tick().0.cursor == t.cursor,
        t.spec_tick().0.cursor_max == t.cursor_max,
{
}

/// Giving a slot's controller a new well-formed ticker keeps the slots consistent.
proof fn lemma_retick_wf(s: Seq<PlayerSelect>, h: nat, fighter_count: nat, color_count: nat, sel: int, t: MenuTicker)
    requires
        selections_wf_with(s, h, fighter_count, color_count),
        0 <= sel < s.len(),
        s[sel].controller is Some,
        t.wf(),
    ensures
        selections_wf_with(s.update(sel, with_controller_ticker(s[sel], t)), h, fighter_count, color_count),
{
    let r = s.update(sel, with_controller_ticker(s[sel], t));
    assert forall|j: int, k: int| 0 <= j < r.len() implies #[trigger] steered_by(r, j, k) == steered_by(s, j, k) by {}
    assert forall|k: int| 0 <= k < h && !((#[trigger] r[k]).ui is HumanUnplugged) implies exists|j: int|
        0 <= j < r.len() && #[trigger] steered_by(r, j, k) by {
        let j = choose|j: int| 0 <= j < s.len() && #[trigger] steered_by(s, j, k);
        assert(steered_by(r, j, k));
    }
    assert forall|i: int, j: int| 0 <= i < r.len() && 0 <= j < r.len() && i != j && #[trigger] r[i].controller is Some
        && #[trigger] r[j].controller is Some implies r[i].controller.unwrap().0 != r[j].controller.unwrap().0 by {
        assert(s[i].controller is Some && s[j].controller is Some);
    }
}

/// One controller's move keeps the slots consistent.
proof fn lemma_move_step_wf(s: Seq<PlayerSelect>, inputs: Seq<MenuInput>, k: int, fighter_count: nat, color_count: nat)
    requires
        selections_wf_with(s, inputs.len(), fighter_count, color_count),
        plugged_ok(s, inputs),
        0 <= k < inputs.len(),
    ensures
        selections_wf_with(move_step(s, inputs, k), inputs.len(), fighter_count, color_count),
        plugged_ok(move_step(s, inputs, k), inputs),
        inputs[k].plugged_in ==> steered_by(s, selection_of(s, k), k) && 0 <= selection_of(s, k) < s.len()
            && s[selection_of(s, k)].controller.unwrap().1.wf(),
{
    let h = inputs.len();
    if inputs[k].plugged_in {
        let sel = selection_of(s, k);
        assert(!(s[k].ui is HumanUnplugged));
        lemma_last_steered(s, k, s.len());
        assert(steered_by(s, sel, k));
        let t = s[sel].controller.unwrap().1;
        if inputs[k].left || inputs[k].right {
            lemma_spec_tick_wf(t);
            let (t2, ticked) = t.spec_tick();
            let s1 = s.update(sel, with_controller_ticker(s[sel], t2));
            lemma_retick_wf(s, h, fighter_count, color_count, sel, t2);
            assert(plugged_ok(s1, inputs)) by {
                assert forall|x: int| 0 <= x < inputs.len() && inputs[x].plugged_in implies !((#[trigger] s1[x]).ui is HumanUnplugged) by {
                    assert(!(s[x].ui is HumanUnplugged));
                }
            }
            if ticked {
                let target = if inputs[k].left { left_target(s1, sel, k) } else { right_target(s1, sel, k) };
                lemma_max_candidate(s1, k, 0, sel);
                lemma_max_candidate(s1, k, sel + 1, s1.len() as int);
                lemma_min_candidate(s1, k, sel + 1, s1.len() as int);
                lemma_min_candidate(s1, k, 0, sel);
                if let Some(n) = target {
                    assert(n != sel && 0 <= n < s1.len() && move_candidate(s1, n, k));
                    lemma_move_controller_wf(s1, inputs, sel, n, k, fighter_count, color_count);
                }
            }
        } else {
            lemma_retick_wf(s, h, fighter_count, color_count, sel, MenuTicker { reset: true, ..t });
            let r = s.update(sel, with_controller_ticker(s[sel], MenuTicker { reset: true, ..t }));
            assert forall|x: int| 0 <= x < inputs.len() && inputs[x].plugged_in implies !((#[trigger] r[x]).ui is HumanUnplugged) by {
                assert(!(s[x].ui is HumanUnplugged));
            }
        }
    }
}

proof fn lemma_move_controller_wf(s: Seq<PlayerSelect>, inputs: Seq<MenuInput>, from: int, to: int, k: int, fighter_count: nat, color_count: nat)
    requires
        selections_wf_with(s, inputs.len(), fighter_count, color_count),
        plugged_ok(s, inputs),
        0 <= k < inputs.len(),
        inputs[k].plugged_in,
        0 <= from < s.len(),
        0 <= to < s.len(),
        from != to,
        steered_by(s, from, k),
        move_candidate(s, to, k),
    ensures
        selections_wf_with(move_controller(s, from, to), inputs.len(), fighter_count, color_count),
        plugged_ok(move_controller(s, from, to), inputs),
{
    let h = inputs.len();
    let r = move_controller(s, from, to);
    assert(!(s[k].ui is HumanUnplugged));
    assert(s[to].controller is None) by {
        if to == k {
            if s[to].controller is Some {
                assert(s[to].controller.unwrap().0 == k);
            }
        }
    }
    assert forall|x: int| 0 <= x < r.len() implies ui_wf(#[trigger] r[x].ui, fighter_count, color_count) by {
        assert(ui_wf(s[x].ui, fighter_count, color_count));
    }
    assert forall|x: int| 0 <= x < r.len() implies (x < h <==> !(#[trigger] r[x]).ui.is_cpu()) by {
        assert(x < h <==> !s[x].ui.is_cpu());
    }
    assert forall|x: int| 0 <= x < r.len() implies ((#[trigger] r[x]).fighter matches Some(f) ==> f < fighter_count) by {
        assert(s[x].fighter matches Some(f) ==> f < fighter_count);
    }
    assert forall|x: int| 0 <= x < r.len() implies (#[trigger] r[x]).animation_frame < usize::MAX by {
        assert(s[x].animation_frame < usize::MAX);
    }
    assert forall|x: int| 0 <= x < r.len() implies ((#[trigger] r[x]).controller matches Some(c) ==> c.0 < h && c.1.wf()) by {
        assert(s[x].controller matches Some(c) ==> c.0 < h && c.1.wf());
        assert(s[from].controller matches Some(c) ==> c.0 < h && c.1.wf());
    }
    assert forall|a: int, b: int| 0 <= a < r.len() && 0 <= b < r.len() && a != b && #[trigger] r[a].controller is Some
        && #[trigger] r[b].controller is Some implies r[a].controller.unwrap().0 != r[b].controller.unwrap().0 by {
        if a == to {
            assert(s[b].controller is Some);
            assert(b != from);
        } else if b == to {
            assert(s[a].controller is Some);
            assert(a != from);
        } else {
            assert(s[a].controller is Some && s[b].controller is Some);
        }
    }
    assert forall|x: int| 0 <= x < h implies ((#[trigger] r[x]).controller matches Some(c) ==> c.0 == x) by {
        assert(s[x].controller matches Some(c) ==> c.0 == x);
        if x == to && to < h {
            assert(!s[to].ui.is_cpu());
            assert(!s[to].is_free());
            assert(to == k);
        }
    }
    assert forall|x: int, j: int| 0 <= x < h && 0 <= j < r.len() && j != x && r[x].ui is HumanUnplugged
        implies !#[trigger] steered_by(r, j, x) by {
        assert(s[x].ui is HumanUnplugged);
        assert(x != k);
        if j == to {
            assert(steered_by(s, from, k));
        } else {
            assert(!steered_by(s, j, x));
        }
    }
    assert forall|x: int| 0 <= x < h && !((#[trigger] r[x]).ui is HumanUnplugged) implies exists|j: int|
        0 <= j < r.len() && #[trigger] steered_by(r, j, x) by {
        if x == k {
            assert(steered_by(r, to, k));
        } else {
            assert(!(s[x].ui is HumanUnplugged));
            let j = choose|j: int| 0 <= j < s.len() && #[trigger] steered_by(s, j, x);
            assert(j != from);
            assert(j != to);
            assert(steered_by(r, j, x));
        }
    }
    assert forall|x: int| 0 <= x < inputs.len() && inputs[x].plugged_in implies !((#[trigger] r[x]).ui is HumanUnplugged) by {
        assert(!(s[x].ui is HumanUnplugged));
    }
}

} // verus!

verus! {

/// The last slot that controller `k` steers, or 0 when there is none.
fn find_selection(selections: &Vec<PlayerSelect>, k: usize) -> (r: usize)
    ensures
        r == selection_of(selections@, k as int),
{
    let mut selection_i: usize = 0;
    let mut i: usize = 0;
    while i < selections.len()
        invariant
            i <= selections@.len(),
            selection_i == last_steered_upto(selections@, k as int, i as nat),
        decreases selections@.len() - i,
    {
        if let Some((controller, _)) = selections[i].controller {
            if controller == k {
                selection_i = i;
            }
        }
        i = i + 1;
    }
    selection_i
}

/// The highest slot in `lo..hi` that controller `k` may move onto, scanning upwards.
fn last_candidate_in(selections: &Vec<PlayerSelect>, k: usize, lo: usize, hi: usize) -> (r: Option<usize>)
    requires
        hi <= selections@.len(),
    ensures
        r == (match max_candidate(selections@, k as int, lo as int, hi as int) { Some(j) => Some(j as usize), None => None::<usize> }),
{
    let mut found: Option<usize> = None;
    let mut i: usize = 0;
    while i < selections.len()
        invariant
            i <= selections@.len(),
            hi <= selections@.len(),
            found == (match max_candidate(selections@, k as int, lo as int, if i < hi { i as int } else { hi as int }) {
                Some(j) => Some(j as usize),
                None => None::<usize>,
            }),
        decreases selections@.len() - i,
    {
        if lo <= i && i < hi && (selections[i].is_free() || i == k) {
            found = Some(i);
        }
        proof {
            if i < lo {
                assert(max_candidate(selections@, k as int, lo as int, i as int) is None);
                assert(max_candidate(selections@, k as int, lo as int, i + 1) is None);
            }
        }
        i = i + 1;
    }
    found
}

/// The lowest slot in `lo..hi` that controller `k` may move onto, scanning downwards.
fn first_candidate_in(selections: &Vec<PlayerSelect>, k: usize, lo: usize, hi: usize) -> (r: Option<usize>)
    requires
        hi <= selections@.len(),
    ensures
        r == (match min_candidate(selections@, k as int, lo as int, hi as int) { Some(j) => Some(j as usize), None => None::<usize> }),
{
    let mut found: Option<usize> = None;
    let mut i: usize = selections.len();
    while i > 0
        invariant
            i <= selections@.len(),
            hi <= selections@.len(),
            found == (match min_candidate(selections@, k as int, if i < lo { lo as int } else { i as int }, hi as int) {
                Some(j) => Some(j as usize),
                None => None::<usize>,
            }),
        decreases i,
    {
        i = i - 1;
        if lo <= i && i < hi && (selections[i].is_free() || i == k) {
            found = Some(i);
        }
        proof {
            if i >= hi {
                assert(min_candidate(selections@, k as int, i as int, hi as int) is None);
            }
        }
    }
    found
}

/// Moves each plugged in controller left or right between the slots it may steer.
fn move_controllers(selections: &mut Vec<PlayerSelect>, player_inputs: &Vec<MenuInput>, Ghost(fighter_count): Ghost<nat>, Ghost(color_count): Ghost<nat>)
    requires
        selections_wf_with(old(selections)@, player_inputs@.len(), fighter_count, color_count),
        plugged_ok(old(selections)@, player_inputs@),
    ensures
        final(selections)@ == moved_upto(old(selections)@, player_inputs@, player_inputs@.len()),
        selections_wf_with(final(selections)@, player_inputs@.len(), fighter_count, color_count),
        plugged_ok(final(selections)@, player_inputs@),
{
    let ghost s0 = selections@;
    let mut controller_i: usize = 0;
    while controller_i < player_inputs.len()
        invariant
            controller_i <= player_inputs@.len(),
            selections@ == moved_upto(s0, player_inputs@, controller_i as nat),
            selections_wf_with(selections@, player_inputs@.len(), fighter_count, color_count),
            plugged_ok(selections@, player_inputs@),
        decreases player_inputs@.len() - controller_i,
    {
        let ghost before = selections@;
        proof { lemma_move_step_wf(before, player_inputs@, controller_i as int, fighter_count, color_count); }
        let input = player_inputs[controller_i];
        if input.plugged_in {
            let selection_i = find_selection(selections, controller_i);
            let selection = selections[selection_i];
            let (controller, mut ticker) = selection.controller.unwrap();
            if input.left || input.right {
                let ticked = ticker.tick();
                selections.set(selection_i, PlayerSelect { controller: Some((controller, ticker)), ..selection });
                if ticked {
                    let len = selections.len();
                    let new_selection_i = if input.left {
                        let above = last_candidate_in(selections, controller_i, selection_i + 1, len);
                        let below = last_candidate_in(selections, controller_i, 0, selection_i);
                        if below.is_some() { below } else { above }
                    } else {
                        let below = first_candidate_in(selections, controller_i, 0, selection_i);
                        let above = first_candidate_in(selections, controller_i, selection_i + 1, len);
                        if above.is_some() { above } else { below }
                    };
                    proof {
                        lemma_max_candidate(selections@, controller_i as int, 0, selection_i as int);
                        lemma_max_candidate(selections@, controller_i as int, selection_i + 1, len as int);
                        lemma_min_candidate(selections@, controller_i as int, 0, selection_i as int);
                        lemma_min_candidate(selections@, controller_i as int, selection_i + 1, len as int);
                    }
                    if let Some(new_selection_i) = new_selection_i {
                        let moving = selections[selection_i];
                        let target = selections[new_selection_i];
                        selections.set(new_selection_i, PlayerSelect { controller: moving.controller, ..target });
                        let mut ui = moving.ui;
                        ui.ticker_full_reset();
                        selections.set(selection_i, PlayerSelect { controller: None, ui, ..moving });
                    }
                }
            } else {
                ticker.reset();
                selections.set(selection_i, PlayerSelect { controller: Some((controller, ticker)), ..selection });
            }
        }
        assert(selections@ =~= move_step(before, player_inputs@, controller_i as int));
        controller_i = controller_i + 1;
    }
}

} // verus!

verus! {

/// The slot after its controller pressed A or B: B backs out of the current choice, A confirms
/// the entry under the cursor. "Add CPU" and "remove" entries leave the slot as it is here.
pub open spec fn pressed(sel: PlayerSelect, input: MenuInput, fighter_count: usize, color_count: usize) -> PlayerSelect {
    if input.b_press {
        match sel.ui {
            PlayerSelectUi::HumanFighter(_) => PlayerSelect { fighter: None, ..sel },
            PlayerSelectUi::CpuFighter(_) => PlayerSelect { fighter: None, ..sel },
            PlayerSelectUi::HumanTeam(_) => PlayerSelect { ui: PlayerSelectUi::human_fighter(fighter_count), ..sel },
            PlayerSelectUi::CpuTeam(_) => PlayerSelect { ui: PlayerSelectUi::cpu_fighter(fighter_count), ..sel },
            PlayerSelectUi::CpuAi(_) => PlayerSelect { ui: PlayerSelectUi::cpu_fighter(fighter_count), ..sel },
            PlayerSelectUi::HumanUnplugged => sel,
        }
    } else if input.a_press {
        match sel.ui {
            PlayerSelectUi::HumanFighter(t) => if t.cursor < fighter_count {
                PlayerSelect { fighter: Some(t.cursor), animation_frame: 0, ..sel }
            } else if t.cursor == fighter_count {
                PlayerSelect { ui: PlayerSelectUi::human_team(color_count), ..sel }
            } else {
                sel
            },
            PlayerSelectUi::CpuFighter(t) => if t.cursor < fighter_count {
                PlayerSelect { fighter: Some(t.cursor), animation_frame: 0, ..sel }
            } else if t.cursor == fighter_count {
                PlayerSelect { ui: PlayerSelectUi::cpu_team(color_count), ..sel }
            } else {
                sel
            },
            PlayerSelectUi::HumanTeam(t) => if t.cursor < color_count {
                PlayerSelect { team: t.cursor, ..sel }
            } else {
                PlayerSelect { ui: PlayerSelectUi::human_fighter(fighter_count), ..sel }
            },
            PlayerSelectUi::CpuTeam(t) => if t.cursor < color_count {
                PlayerSelect { team: t.cursor, ..sel }
            } else {
                PlayerSelect { ui: PlayerSelectUi::cpu_fighter(fighter_count), ..sel }
            },
            PlayerSelectUi::CpuAi(_) => sel,
            PlayerSelectUi::HumanUnplugged => sel,
        }
    } else {
        sel
    }
}

/// The slot after its list scrolled with the controller's up and down.
pub open spec fn scrolled(sel: PlayerSelect, input: MenuInput) -> PlayerSelect {
    match sel.ui.ticker() {
        Some(t) => PlayerSelect {
            ui: sel.ui.with_ticker(
                if input.up { t.spec_up() } else if input.down { t.spec_down() } else { MenuTicker { reset: true, ..t } },
            ),
            ..sel
        },
        None => sel,
    }
}

/// The slot after a frame of input from the controller steering it.
pub open spec fn updated(sel: PlayerSelect, inputs: Seq<MenuInput>, fighter_count: usize, color_count: usize) -> PlayerSelect {
    match sel.controller {
        None => sel,
        Some(c) => scrolled(pressed(sel, inputs[c.0 as int], fighter_count, color_count), inputs[c.0 as int]),
    }
}

/// Every slot after a frame of input.
pub open spec fn spec_update(s: Seq<PlayerSelect>, inputs: Seq<MenuInput>, fighter_count: usize, color_count: usize) -> Seq<PlayerSelect> {
    Seq::new(s.len(), |i: int| updated(s[i], inputs, fighter_count, color_count))
}

/// A human confirmed "add CPU".
pub open spec fn wants_add_cpu(sel: PlayerSelect, inputs: Seq<MenuInput>, fighter_count: usize) -> bool {
    &&& sel.controller matches Some(c)
    &&& !inputs[c.0 as int].b_press
    &&& inputs[c.0 as int].a_press
    &&& sel.ui matches PlayerSelectUi::HumanFighter(t)
    &&& t.cursor == fighter_count + 1
}

/// A controller confirmed "remove" on a CPU slot.
pub open spec fn wants_remove_cpu(sel: PlayerSelect, inputs: Seq<MenuInput>, fighter_count: usize) -> bool {
    &&& sel.controller matches Some(c)
    &&& !inputs[c.0 as int].b_press
    &&& inputs[c.0 as int].a_press
    &&& sel.ui matches PlayerSelectUi::CpuFighter(t)
    &&& t.cursor == fighter_count + 2
}

/// Some slot asked for a CPU to be added.
pub open spec fn any_add_cpu(s: Seq<PlayerSelect>, inputs: Seq<MenuInput>, fighter_count: usize) -> bool {
    exists|i: int| 0 <= i < s.len() && #[trigger] wants_add_cpu(s[i], inputs, fighter_count)
}

/// The last of the first `n` slots that asked to be removed.
pub open spec fn last_remove_upto(s: Seq<PlayerSelect>, inputs: Seq<MenuInput>, fighter_count: usize, n: nat) -> Option<int>
    decreases n,
{
    if n == 0 {
        None
    } else if wants_remove_cpu(s[n - 1], inputs, fighter_count) {
        Some(n - 1)
    } else {
        last_remove_upto(s, inputs, fighter_count, (n - 1) as nat)
    }
}

proof fn lemma_last_remove(s: Seq<PlayerSelect>, inputs: Seq<MenuInput>, fighter_count: usize, n: nat)
    requires
        n <= s.len(),
    ensures
        last_remove_upto(s, inputs, fighter_count, n) matches Some(i) ==> 0 <= i < n && wants_remove_cpu(s[i], inputs, fighter_count),
    decreases n,
{
    if n > 0 {
        lemma_last_remove(s, inputs, fighter_count, (n - 1) as nat);
    }
}

proof fn lemma_up_down_wf(t: MenuTicker)
    requires
        t.wf(),
    ensures
        t.spec_up().wf() && t.spec_up().cursor_max == t.cursor_max,
        t.spec_down().wf() && t.spec_down().cursor_max == t.cursor_max,
{
}

/// A frame of input keeps every slot consistent; slots keep their controllers, and human
/// slots stay human, CPU slots stay CPU and unplugged slots stay unplugged.
proof fn lemma_updated(sel: PlayerSelect, i: int, inputs: Seq<MenuInput>, h: nat, fighter_count: nat, color_count: nat)
    requires
        ui_wf(sel.ui, fighter_count, color_count),
        sel.fighter matches Some(k) ==> k < fighter_count,
        sel.animation_frame < usize::MAX,
        sel.controller matches Some(c) ==> c.0 < inputs.len() && c.1.wf(),
        sel.controller is Some && sel.ui is HumanUnplugged ==> !inputs[sel.controller.unwrap().0 as int].plugged_in,
        fighter_count + 3 <= usize::MAX,
        color_count + 1 <= usize::MAX,
    ensures
        ({
            let r = updated(sel, inputs, fighter_count as usize, color_count as usize);
            &&& ui_wf(r.ui, fighter_count, color_count)
            &&& r.fighter matches Some(k) ==> k < fighter_count
            &&& r.animation_frame < usize::MAX
            &&& r.controller == sel.controller
            &&& r.ui.is_cpu() == sel.ui.is_cpu()
            &&& (r.ui is HumanUnplugged) == (sel.ui is HumanUnplugged)
        }),
{
    if let Some(c) = sel.controller {
        let input = inputs[c.0 as int];
        let p = pressed(sel, input, fighter_count as usize, color_count as usize);
        if sel.ui is HumanUnplugged {
            assert(!input.plugged_in);
        }
        assert(ui_wf(p.ui, fighter_count, color_count));
        if let Some(t) = p.ui.ticker() {
            lemma_up_down_wf(t);
        }
    }
}

/// Every slot takes its controller's input for this frame.
fn update_selections(selections: &mut Vec<PlayerSelect>, player_inputs: &Vec<MenuInput>, fighter_count: usize, color_count: usize)
    -> (r: (bool, Option<usize>))
    requires
        selections_wf_with(old(selections)@, player_inputs@.len(), fighter_count as nat, color_count as nat),
        plugged_ok(old(selections)@, player_inputs@),
    ensures
        final(selections)@ == spec_update(old(selections)@, player_inputs@, fighter_count, color_count),
        r.0 == any_add_cpu(old(selections)@, player_inputs@, fighter_count),
        r.1 == (match last_remove_upto(old(selections)@, player_inputs@, fighter_count, old(selections)@.len()) {
            Some(i) => Some(i as usize),
            None => None::<usize>,
        }),
        selections_wf_with(final(selections)@, player_inputs@.len(), fighter_count as nat, color_count as nat),
        plugged_ok(final(selections)@, player_inputs@),
        forall|i: int| 0 <= i < final(selections)@.len() ==> (#[trigger] final(selections)@[i]).controller == old(selections)@[i].controller
            && final(selections)@[i].ui.is_cpu() == old(selections)@[i].ui.is_cpu()
            && (final(selections)@[i].ui is HumanUnplugged) == (old(selections)@[i].ui is HumanUnplugged),
{
    let ghost s0 = selections@;
    let ghost h = player_inputs@.len();
    let mut add_cpu = false;
    let mut remove_cpu: Option<usize> = None;
    let mut selection_i: usize = 0;
    while selection_i < selections.len()
        invariant
            selection_i <= s0.len(),
            selections@.len() == s0.len(),
            selections_wf_with(s0, h, fighter_count as nat, color_count as nat),
            plugged_ok(s0, player_inputs@),
            h == player_inputs@.len(),
            forall|j: int| 0 <= j < selection_i ==> selections@[j] == updated(s0[j], player_inputs@, fighter_count, color_count),
            forall|j: int| selection_i <= j < s0.len() ==> selections@[j] == s0[j],
            add_cpu == exists|j: int| 0 <= j < selection_i && #[trigger] wants_add_cpu(s0[j], player_inputs@, fighter_count),
            remove_cpu == (match last_remove_upto(s0, player_inputs@, fighter_count, selection_i as nat) {
                Some(i) => Some(i as usize),
                None => None::<usize>,
            }),
        decreases s0.len() - selection_i,
    {
        let mut selection = selections[selection_i];
        assert(selection == s0[selection_i as int]);
        proof {
            if let Some(c) = selection.controller {
                if selection.ui is HumanUnplugged {
                    assert(selection_i < h);
                    assert(c.0 == selection_i);
                }
            }
            assert(ui_wf(selection.ui, fighter_count as nat, color_count as nat));
        }
        if let Some((controller, _)) = selection.controller {
            let input = player_inputs[controller];
            if input.b_press {
                match selection.ui {
                    PlayerSelectUi::HumanFighter(_) | PlayerSelectUi::CpuFighter(_) => {
                        selection.fighter = None;
                    },
                    PlayerSelectUi::HumanTeam(_) => {
                        selection.ui = PlayerSelectUi::human_fighter(fighter_count);
                    },
                    PlayerSelectUi::CpuTeam(_) | PlayerSelectUi::CpuAi(_) => {
                        selection.ui = PlayerSelectUi::cpu_fighter(fighter_count);
                    },
                    PlayerSelectUi::HumanUnplugged => {},
                }
            } else if input.a_press {
                match selection.ui {
                    PlayerSelectUi::HumanFighter(ticker) => {
                        if ticker.cursor < fighter_count {
                            selection.fighter = Some(ticker.cursor);
                            selection.animation_frame = 0;
                        } else {
                            match ticker.cursor - fighter_count {
                                0 => { selection.ui = PlayerSelectUi::human_team(color_count); },
                                1 => { add_cpu = true; },
                                _ => unreached(),
                            }
                        }
                    },
                    PlayerSelectUi::CpuFighter(ticker) => {
                        if ticker.cursor < fighter_count {
                            selection.fighter = Some(ticker.cursor);
                            selection.animation_frame = 0;
                        } else {
                            match ticker.cursor - fighter_count {
                                0 => { selection.ui = PlayerSelectUi::cpu_team(color_count); },
                                1 => {},
                                2 => { remove_cpu = Some(selection_i); },
                                _ => unreached(),
                            }
                        }
                    },
                    PlayerSelectUi::HumanTeam(ticker) => {
                        if ticker.cursor < color_count {
                            selection.team = ticker.cursor;
                        } else {
                            match ticker.cursor - color_count {
                                0 => { selection.ui = PlayerSelectUi::human_fighter(fighter_count); },
                                _ => unreached(),
                            }
                        }
                    },
                    PlayerSelectUi::CpuTeam(ticker) => {
                        if ticker.cursor < color_count {
                            selection.team = ticker.cursor;
                        } else {
                            match ticker.cursor - color_count {
                                0 => { selection.ui = PlayerSelectUi::cpu_fighter(fighter_count); },
                                _ => unreached(),
                            }
                        }
                    },
                    PlayerSelectUi::CpuAi(_) | PlayerSelectUi::HumanUnplugged => {},
                }
            }
            proof {
                if let Some(t) = selection.ui.ticker() {
                    assert(ui_wf(selection.ui, fighter_count as nat, color_count as nat));
                }
            }
            match selection.ui {
                PlayerSelectUi::HumanFighter(mut ticker) => {
                    if input.up { ticker.up(); } else if input.down { ticker.down(); } else { ticker.reset(); }
                    selection.ui = PlayerSelectUi::HumanFighter(ticker);
                },
                PlayerSelectUi::CpuFighter(mut ticker) => {
                    if input.up { ticker.up(); } else if input.down { ticker.down(); } else { ticker.reset(); }
                    selection.ui = PlayerSelectUi::CpuFighter(ticker);
                },
                PlayerSelectUi::HumanTeam(mut ticker) => {
                    if input.up { ticker.up(); } else if input.down { ticker.down(); } else { ticker.reset(); }
                    selection.ui = PlayerSelectUi::HumanTeam(ticker);
                },
                PlayerSelectUi::CpuTeam(mut ticker) => {
                    if input.up { ticker.up(); } else if input.down { ticker.down(); } else { ticker.reset(); }
                    selection.ui = PlayerSelectUi::CpuTeam(ticker);
                },
                PlayerSelectUi::CpuAi(mut ticker) => {
                    if input.up { ticker.up(); } else if input.down { ticker.down(); } else { ticker.reset(); }
                    selection.ui = PlayerSelectUi::CpuAi(ticker);
                },
                PlayerSelectUi::HumanUnplugged => {},
            }
            selections.set(selection_i, selection);
        }
        proof {
            lemma_updated(s0[selection_i as int], selection_i as int, player_inputs@, h, fighter_count as nat, color_count as nat);
            if wants_add_cpu(s0[selection_i as int], player_inputs@, fighter_count) {
                assert(add_cpu);
            }
        }
        assert(selections@[selection_i as int] == updated(s0[selection_i as int], player_inputs@, fighter_count, color_count));
        selection_i = selection_i + 1;
    }
    let ghost r = selections@;
    assert(r =~= spec_update(s0, player_inputs@, fighter_count, color_count));
    proof {
        assert forall|i: int| 0 <= i < r.len() implies (#[trigger] r[i]).controller == s0[i].controller
            && r[i].ui.is_cpu() == s0[i].ui.is_cpu() && (r[i].ui is HumanUnplugged) == (s0[i].ui is HumanUnplugged)
            && ui_wf(r[i].ui, fighter_count as nat, color_count as nat)
            && (r[i].fighter matches Some(k) ==> k < fighter_count) && r[i].animation_frame < usize::MAX by {
            if let Some(c) = s0[i].controller {
                if s0[i].ui is HumanUnplugged {
                    assert(i < h);
                    assert(c.0 == i);
                }
            }
            lemma_updated(s0[i], i, player_inputs@, h, fighter_count as nat, color_count as nat);
        }
        lemma_wf_same_controllers(s0, r, h, fighter_count as nat, color_count as nat);
        assert forall|x: int| 0 <= x < h && player_inputs@[x].plugged_in implies !((#[trigger] r[x]).ui is HumanUnplugged) by {
            assert(!(s0[x].ui is HumanUnplugged));
        }
    }
    (add_cpu, remove_cpu)
}

/// Changing slots without changing who steers them, which slots are human or unplugged,
/// or the consistency of each slot keeps the slots consistent.
proof fn lemma_wf_same_controllers(s: Seq<PlayerSelect>, r: Seq<PlayerSelect>, h: nat, fighter_count: nat, color_count: nat)
    requires
        selections_wf_with(s, h, fighter_count, color_count),
        r.len() == s.len(),
        forall|i: int| 0 <= i < r.len() ==> (#[trigger] r[i]).controller == s[i].controller
            && r[i].ui.is_cpu() == s[i].ui.is_cpu() && (r[i].ui is HumanUnplugged) == (s[i].ui is HumanUnplugged)
            && ui_wf(r[i].ui, fighter_count, color_count)
            && (r[i].fighter matches Some(k) ==> k < fighter_count) && r[i].animation_frame < usize::MAX,
    ensures
        selections_wf_with(r, h, fighter_count, color_count),
{
    assert forall|j: int, k: int| 0 <= j < r.len() implies #[trigger] steered_by(r, j, k) == steered_by(s, j, k) by {
        assert(r[j].controller == s[j].controller);
    }
    assert forall|i: int| 0 <= i < r.len() implies (i < h <==> !(#[trigger] r[i]).ui.is_cpu()) by {
        assert(r[i].ui.is_cpu() == s[i].ui.is_cpu());
    }
    assert forall|i: int| 0 <= i < r.len() implies ((#[trigger] r[i]).controller matches Some(c) ==> c.0 < h && c.1.wf()) by {
        assert(r[i].controller == s[i].controller);
    }
    assert forall|i: int, j: int| 0 <= i < r.len() && 0 <= j < r.len() && i != j && #[trigger] r[i].controller is Some
        && #[trigger] r[j].controller is Some implies r[i].controller.unwrap().0 != r[j].controller.unwrap().0 by {
        assert(r[i].controller == s[i].controller);
        assert(r[j].controller == s[j].controller);
    }
    assert forall|k: int| 0 <= k < h implies ((#[trigger] r[k]).controller matches Some(c) ==> c.0 == k) by {
        assert(r[k].controller == s[k].controller);
    }
    assert forall|k: int, j: int| 0 <= k < h && 0 <= j < r.len() && j != k && r[k].ui is HumanUnplugged
        implies !#[trigger] steered_by(r, j, k) by {
        assert((r[k].ui is HumanUnplugged) == (s[k].ui is HumanUnplugged));
    }
    assert forall|k: int| 0 <= k < h && !((#[trigger] r[k]).ui is HumanUnplugged) implies exists|j: int|
        0 <= j < r.len() && #[trigger] steered_by(r, j, k) by {
        assert((r[k].ui is HumanUnplugged) == (s[k].ui is HumanUnplugged));
        let j = choose|j: int| 0 <= j < s.len() && #[trigger] steered_by(s, j, k);
        assert(steered_by(r, j, k));
    }
}

} // verus!

verus! {

/// The CPU slot `si` is removed and its controller goes back to the human slot it belongs to.
pub open spec fn spec_remove_cpu(s: Seq<PlayerSelect>, si: int) -> Seq<PlayerSelect> {
    let home = s[si].controller.unwrap().0 as int;
    s.update(home, PlayerSelect { controller: s[si].controller, ..s[home] }).remove(si)
}

/// A new CPU slot nobody steers, picking a fighter, with the first free team.
pub open spec fn new_cpu(s: Seq<PlayerSelect>, fighter_count: usize) -> PlayerSelect {
    PlayerSelect {
        controller: None,
        fighter: None,
        cpu_ai: None,
        ui: PlayerSelectUi::cpu_fighter(fighter_count),
        animation_frame: 0,
        team: free_team(s) as usize,
    }
}

/// The slots after the removal and addition of CPUs asked for this frame; at most four slots are ever drawn.
pub open spec fn spec_add_remove_cpus(s: Seq<PlayerSelect>, add_cpu: bool, remove_cpu: Option<int>, fighter_count: usize) -> Seq<PlayerSelect> {
    let s1 = match remove_cpu {
        Some(si) => spec_remove_cpu(s, si),
        None => s,
    };
    if add_cpu && count_visible(s1) < 4 {
        s1.push(new_cpu(s1, fighter_count))
    } else {
        s1
    }
}

/// The slots after one frame on the character select screen.
pub open spec fn spec_step_selections(
    s: Seq<PlayerSelect>,
    inputs: Seq<MenuInput>,
    css_frames: Seq<Option<usize>>,
    fighter_count: usize,
    color_count: usize,
) -> Seq<PlayerSelect> {
    let s1 = spec_animate(s, css_frames);
    let s2 = plugged_upto(s1, inputs, fighter_count, inputs.len());
    let s3 = moved_upto(s2, inputs, inputs.len());
    let s4 = spec_update(s3, inputs, fighter_count, color_count);
    spec_add_remove_cpus(s4, any_add_cpu(s3, inputs, fighter_count), last_remove_upto(s3, inputs, fighter_count, s3.len()), fighter_count)
}

proof fn lemma_remove_cpu_wf(s: Seq<PlayerSelect>, si: int, h: nat, fighter_count: nat, color_count: nat, inputs: Seq<MenuInput>)
    requires
        selections_wf_with(s, h, fighter_count, color_count),
        plugged_ok(s, inputs),
        h == inputs.len(),
        0 <= si < s.len(),
        s[si].controller is Some,
        s[si].ui.is_cpu(),
    ensures
        selections_wf_with(spec_remove_cpu(s, si), h, fighter_count, color_count),
        plugged_ok(spec_remove_cpu(s, si), inputs),
        spec_remove_cpu(s, si).len() == s.len() - 1,
{
    let home = s[si].controller.unwrap().0 as int;
    assert(home < h && si >= h);
    assert(s[home].controller is None) by {
        if s[home].controller is Some {
            assert(s[home].controller.unwrap().0 == home);
        }
    }
    let s1 = s.update(home, PlayerSelect { controller: s[si].controller, ..s[home] });
    let r = s1.remove(si);
    assert forall|x: int| 0 <= x < r.len() implies #[trigger] r[x] == (if x < si { s1[x] } else { s1[x + 1] }) by {}
    assert forall|x: int| 0 <= x < r.len() implies (x < h <==> !(#[trigger] r[x]).ui.is_cpu()) by {
        if x < si { assert(x < h <==> !s[x].ui.is_cpu()); } else { assert(x + 1 < h <==> !s[x + 1].ui.is_cpu()); }
    }
    assert forall|x: int| 0 <= x < r.len() implies ui_wf(#[trigger] r[x].ui, fighter_count, color_count) by {
        if x < si { assert(ui_wf(s[x].ui, fighter_count, color_count)); } else { assert(ui_wf(s[x + 1].ui, fighter_count, color_count)); }
    }
    assert forall|x: int| 0 <= x < r.len() implies ((#[trigger] r[x]).fighter matches Some(k) ==> k < fighter_count) by {
        if x < si { assert(s[x].fighter matches Some(k) ==> k < fighter_count); } else { assert(s[x + 1].fighter matches Some(k) ==> k < fighter_count); }
    }
    assert forall|x: int| 0 <= x < r.len() implies (#[trigger] r[x]).animation_frame < usize::MAX by {
        if x < si { assert(s[x].animation_frame < usize::MAX); } else { assert(s[x + 1].animation_frame < usize::MAX); }
    }
    assert forall|x: int| 0 <= x < r.len() implies ((#[trigger] r[x]).controller matches Some(c) ==> c.0 < h && c.1.wf()) by {
        assert(s[si].controller matches Some(c) ==> c.0 < h && c.1.wf());
        if x < si { assert(s[x].controller matches Some(c) ==> c.0 < h && c.1.wf()); } else { assert(s[x + 1].controller matches Some(c) ==> c.0 < h && c.1.wf()); }
    }
    assert forall|a: int, b: int| 0 <= a < r.len() && 0 <= b < r.len() && a != b && #[trigger] r[a].controller is Some
        && #[trigger] r[b].controller is Some implies r[a].controller.unwrap().0 != r[b].controller.unwrap().0 by {
        let a0 = if a < si { a } else { a + 1 };
        let b0 = if b < si { b } else { b + 1 };
        if a0 == home {
            assert(s[b0].controller is Some);
            assert(b0 != si);
        } else if b0 == home {
            assert(s[a0].controller is Some);
            assert(a0 != si);
        } else {
            assert(s[a0].controller is Some && s[b0].controller is Some);
        }
    }
    assert forall|k: int| 0 <= k < h implies ((#[trigger] r[k]).controller matches Some(c) ==> c.0 == k) by {
        assert(s[k].controller matches Some(c) ==> c.0 == k);
    }
    assert forall|k: int, j: int| 0 <= k < h && 0 <= j < r.len() && j != k && r[k].ui is HumanUnplugged
        implies !#[trigger] steered_by(r, j, k) by {
        let j0 = if j < si { j } else { j + 1 };
        assert(s[k].ui is HumanUnplugged);
        if j0 == home {
            assert(steered_by(s, si, home));
            assert(home != k);
        } else {
            assert(!steered_by(s, j0, k));
        }
    }
    assert forall|k: int| 0 <= k < h && !((#[trigger] r[k]).ui is HumanUnplugged) implies exists|j: int|
        0 <= j < r.len() && #[trigger] steered_by(r, j, k) by {
        if k == home {
            assert(steered_by(r, home, k));
        } else {
            assert(!(s[k].ui is HumanUnplugged));
            let j0 = choose|j: int| 0 <= j < s.len() && #[trigger] steered_by(s, j, k);
            assert(j0 != si);
            assert(j0 != home);
            let j = if j0 < si { j0 } else { j0 - 1 };
            assert(steered_by(r, j, k));
        }
    }
    assert forall|x: int| 0 <= x < inputs.len() && inputs[x].plugged_in implies !((#[trigger] r[x]).ui is HumanUnplugged) by {
        assert(!(s[x].ui is HumanUnplugged));
    }
}

proof fn lemma_add_cpu_wf(s: Seq<PlayerSelect>, h: nat, fighter_count: nat, color_count: nat, inputs: Seq<MenuInput>)
    requires
        selections_wf_with(s, h, fighter_count, color_count),
        plugged_ok(s, inputs),
        h == inputs.len(),
    ensures
        selections_wf_with(s.push(new_cpu(s, fighter_count as usize)), h, fighter_count, color_count),
        plugged_ok(s.push(new_cpu(s, fighter_count as usize)), inputs),
{
    let r = s.push(new_cpu(s, fighter_count as usize));
    assert forall|j: int, k: int| 0 <= j < s.len() implies #[trigger] steered_by(r, j, k) == steered_by(s, j, k) by {}
    assert forall|k: int| 0 <= k < h && !((#[trigger] r[k]).ui is HumanUnplugged) implies exists|j: int|
        0 <= j < r.len() && #[trigger] steered_by(r, j, k) by {
        let j = choose|j: int| 0 <= j < s.len() && #[trigger] steered_by(s, j, k);
        assert(steered_by(r, j, k));
    }
    assert forall|a: int, b: int| 0 <= a < r.len() && 0 <= b < r.len() && a != b && #[trigger] r[a].controller is Some
        && #[trigger] r[b].controller is Some implies r[a].controller.unwrap().0 != r[b].controller.unwrap().0 by {
        assert(s[a].controller is Some && s[b].controller is Some);
    }
    assert forall|x: int| 0 <= x < inputs.len() && inputs[x].plugged_in implies !((#[trigger] r[x]).ui is HumanUnplugged) by {
        assert(!(s[x].ui is HumanUnplugged));
    }
}

/// The number of slots that are drawn.
fn visible_count(selections: &Vec<PlayerSelect>) -> (n: usize)
    ensures
        n == count_visible(selections@),
{
    let mut n: usize = 0;
    let mut i: usize = 0;
    while i < selections.len()
        invariant
            i <= selections@.len(),
            n == count_visible(selections@.subrange(0, i as int)),
            n <= i,
        decreases selections@.len() - i,
    {
        assert(selections@.subrange(0, i as int) =~= selections@.subrange(0, i + 1).drop_last());
        if selections[i].ui.is_visible() {
            n = n + 1;
        }
        i = i + 1;
    }
    assert(selections@.subrange(0, i as int) =~= selections@);
    n
}

/// Runs one frame of the character select screen on the slots, with one human slot per input:
/// animate, plug in and pull out controllers, move controllers between slots, take each
/// controller's presses and scrolling, then remove and add the CPUs asked for.
pub fn step_selections(
    selections: &mut Vec<PlayerSelect>,
    css_frames: &Vec<Option<usize>>,
    player_inputs: &Vec<MenuInput>,
    fighter_count: usize,
    color_count: usize,
)
    requires
        selections_wf_with(old(selections)@, player_inputs@.len(), fighter_count as nat, color_count as nat),
        css_frames_wf(css_frames@, fighter_count as nat),
    ensures
        final(selections)@ == spec_step_selections(old(selections)@, player_inputs@, css_frames@, fighter_count, color_count),
        selections_wf_with(final(selections)@, player_inputs@.len(), fighter_count as nat, color_count as nat),
{
    let ghost h = player_inputs@.len();
    animate_fighters(selections, css_frames, Ghost(h), Ghost(fighter_count as nat), Ghost(color_count as nat));
    plug_unplug(selections, fighter_count, player_inputs, Ghost(color_count as nat));
    move_controllers(selections, player_inputs, Ghost(fighter_count as nat), Ghost(color_count as nat));
    let ghost s3 = selections@;
    let slot_count = selections.len();
    let (add_cpu, remove_cpu) = update_selections(selections, player_inputs, fighter_count, color_count);
    let ghost s4 = selections@;
    if let Some(selection_i) = remove_cpu {
        proof {
            lemma_last_remove(s3, player_inputs@, fighter_count, s3.len());
            let li = last_remove_upto(s3, player_inputs@, fighter_count, s3.len()).unwrap();
            assert(li as usize == selection_i);
            assert(0 <= li < s3.len());
            assert(s3.len() == slot_count);
            assert(li == selection_i);
            assert(wants_remove_cpu(s3[li], player_inputs@, fighter_count));
            assert(s3[li].controller is Some);
            assert(s3[li].ui is CpuFighter);
            assert(s4[selection_i as int].controller == s3[selection_i as int].controller);
            assert(s4[selection_i as int].ui.is_cpu() == s3[selection_i as int].ui.is_cpu());
            lemma_remove_cpu_wf(s4, selection_i as int, h, fighter_count as nat, color_count as nat, player_inputs@);
        }
        let removed = selections[selection_i];
        let home_selection_i = removed.controller.unwrap().0;
        let home = selections[home_selection_i];
        selections.set(home_selection_i, PlayerSelect { controller: removed.controller, ..home });
        selections.remove(selection_i);
        assert(selections@ =~= spec_remove_cpu(s4, selection_i as int));
    }
    let ghost s5 = selections@;
    if add_cpu && visible_count(selections) < 4 {
        proof { lemma_add_cpu_wf(s5, h, fighter_count as nat, color_count as nat, player_inputs@); }
        let team = get_free_team(selections);
        selections.push(PlayerSelect {
            controller: None,
            fighter: None,
            cpu_ai: None,
            ui: PlayerSelectUi::cpu_fighter(fighter_count),
            animation_frame: 0,
            team,
        });
    }
}

} // verus!
