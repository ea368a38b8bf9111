use vstd::prelude::*;

use std::collections::HashSet;

use crate::entity::ActionState;
use crate::game::Edit;

verus! {

broadcast use vstd::std_specs::hash::group_hash_axioms;

/// What the editor edits after number key `key` was pressed: 0 picks the stage, 1 to 9
/// the entity of that rank among `entity_keys`; a rank with no entity keeps `current`.
pub fn edit_for_number_key(current: Edit, key: usize, entity_keys: &Vec<u64>) -> (r: Edit)
    requires
        key <= 9,
    ensures
        key == 0 ==> r == Edit::Stage,
        key > 0 && key - 1 < entity_keys@.len() ==> r == Edit::Entity(entity_keys@[key - 1]),
        key > 0 && key - 1 >= entity_keys@.len() ==> r == current,
{
    if key == 0 {
        Edit::Stage
    } else if key - 1 < entity_keys.len() {
        Edit::Entity(entity_keys[key - 1])
    } else {
        current
    }
}

/// How many frames the editor adds at once to the action of an entity: after a landing
/// of a fighter, the frames its landing skips as well, so that stepping through the action
/// shows the same frames.
pub fn repeat_frames(is_fighter: bool, landing: bool, land_frame_skip: u8) -> (r: u64)
    ensures
        r == (if is_fighter && landing { land_frame_skip + 1 } else { 1 }),
{
    if is_fighter && landing {
        land_frame_skip as u64 + 1
    } else {
        1
    }
}

/// Adds to `selected` every index `i` with `hits[i]`, or takes them out of it when `remove`.
pub fn apply_selection(selected: &mut HashSet<usize>, hits: &Vec<bool>, remove: bool)
    ensures
        forall|i: usize|
            #[trigger] final(selected)@.contains(i) == (if i < hits@.len() && hits@[i as int] {
                !remove
            } else {
                old(selected)@.contains(i)
            }),
{
    let mut i: usize = 0;
    while i < hits.len()
        invariant
            i <= hits@.len(),
            forall|j: usize|
                #[trigger] selected@.contains(j) == (if j < i && hits@[j as int] {
                    !remove
                } else {
                    old(selected)@.contains(j)
                }),
        decreases hits@.len() - i,
    {
        if hits[i] {
            if remove {
                selected.remove(&i);
            } else {
                selected.insert(i);
            }
        }
        i = i + 1;
    }
}

/// The topmost of the selected collision boxes, which are drawn in index order: the
/// highest index, if any is selected.
pub fn topmost(selected: &Vec<usize>) -> (r: Option<usize>)
    ensures
        match r {
            Some(m) => selected@.contains(m) && forall|k: int| 0 <= k < selected@.len() ==> selected@[k] <= m,
            None => selected@.len() == 0,
        },
{
    if selected.len() == 0 {
        return None;
    }
    let mut best = selected[0];
    let mut i: usize = 1;
    while i < selected.len()
        invariant
            1 <= i <= selected@.len(),
            selected@.contains(best),
            forall|k: int| 0 <= k < i ==> selected@[k] <= best,
        decreases selected@.len() - i,
    {
        if selected[i] > best {
            best = selected[i];
        }
        i = i + 1;
    }
    Some(best)
}

/// After a frame of an action was deleted from the entity definition `def_key`, an entity
/// of that definition and action left on the frame just past the new end steps back onto
/// the last frame.
pub fn after_frame_deleted(state: &mut ActionState, def_key: &String, action: &String, frame_count: usize)
    ensures
        ({
            let moved = old(state).entity_def_key@ == def_key@ && old(state).action@ == action@
                && old(state).frame == frame_count;
            &&& final(state).frame == (if moved { old(state).frame - 1 } else { old(state).frame as int })
            &&& final(state).action@ == old(state).action@
            &&& final(state).entity_def_key@ == old(state).entity_def_key@
            &&& final(state).frame_no_restart == old(state).frame_no_restart
            &&& final(state).hitlist@ == old(state).hitlist@
            &&& final(state).hitlag == old(state).hitlag
        }),
{
    if state.entity_def_key == *def_key && state.action == *action && state.frame >= 0
        && (state.frame as u64) == (frame_count as u64) {
        state.frame = state.frame - 1;
    }
}

/// `s` without the elements at the positions in `idx`, the others in their order.
pub open spec fn without_indices<T>(s: Seq<T>, idx: Set<int>) -> Seq<T>
    decreases s.len(),
{
    if s.len() == 0 {
        s
    } else {
        let rest = without_indices(s.drop_last(), idx);
        if idx.contains(s.len() - 1) {
            rest
        } else {
            rest.push(s.last())
        }
    }
}

/// The positions listed in `indices`.
pub open spec fn index_set(indices: Seq<usize>) -> Set<int> {
    Set::new(|i: int| exists|k: int| 0 <= k < indices.len() && indices[k] as int == i)
}

fn listed(indices: &Vec<usize>, i: usize) -> (r: bool)
    ensures
        r == index_set(indices@).contains(i as int),
{
    let mut k: usize = 0;
    while k < indices.len()
        invariant
            k <= indices@.len(),
            forall|j: int| 0 <= j < k ==> indices@[j] != i,
        decreases indices@.len() - k,
    {
        if indices[k] == i {
            return true;
        }
        k = k + 1;
    }
    false
}

/// Deletes the elements of `v` at the positions in `indices`, keeping the others in their
/// order (as deleting them one by one from the highest position down does).
pub fn remove_indices<T>(v: &mut Vec<T>, indices: &Vec<usize>)
    ensures
        final(v)@ == without_indices(old(v)@, index_set(indices@)),
{
    let ghost s = v@;
    let ghost idx = index_set(indices@);
    let mut kept: Vec<T> = Vec::new();
    let mut i: usize = v.len();
    assert(s.subrange(0, i as int) =~= s);
    assert(kept@.reverse() =~= Seq::<T>::empty());
    assert(without_indices(s.subrange(0, i as int), idx) + kept@.reverse() =~= without_indices(s, idx));
    while i > 0
        invariant
            i <= s.len(),
            v@ == s.subrange(0, i as int),
            idx == index_set(indices@),
            without_indices(s.subrange(0, i as int), idx) + kept@.reverse() == without_indices(s, idx),
        decreases i,
    {
        let ghost before = kept@;
        assert(s.subrange(0, i as int).drop_last() =~= s.subrange(0, i - 1));
        let x = v.pop().unwrap();
        i = i - 1;
        if !listed(indices, i) {
            kept.push(x);
            assert(kept@.reverse() =~= seq![x] + before.reverse());
            assert(without_indices(s.subrange(0, i + 1), idx) =~= without_indices(s.subrange(0, i as int), idx).push(x));
            assert(without_indices(s.subrange(0, i as int), idx) + kept@.reverse() =~= without_indices(s.subrange(0, i + 1), idx) + before.reverse());
        }
    }
    assert(without_indices(s.subrange(0, 0), idx) =~= Seq::<T>::empty());
    assert(kept@.reverse() =~= without_indices(s, idx));
    let ghost target = kept@.reverse();
    while kept.len() > 0
        invariant
            target == without_indices(s, idx),
            v@ + kept@.reverse() == target,
        decreases kept@.len(),
    {
        let ghost before = kept@;
        let x = kept.pop().unwrap();
        assert(before =~= kept@.push(x));
        assert(before.reverse() =~= seq![x] + kept@.reverse());
        v.push(x);
        assert(v@ + kept@.reverse() =~= (v@.drop_last() + seq![x]) + kept@.reverse());
    }
    assert(kept@.reverse() =~= Seq::<T>::empty());
    assert(v@ =~= v@ + kept@.reverse());
}

} // verus!
