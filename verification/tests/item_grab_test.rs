use canon_collision::item_grab::{collision_check, GrabWorld};

#[test]
fn closer_fighter_takes_the_item() {
    let w = GrabWorld {
        free_fighters: vec![true, true, false],
        free_items: vec![false, false, true],
        collides: vec![vec![false, false, true], vec![false, false, true], vec![false, false, false]],
        distance: vec![vec![0, 0, 3], vec![0, 0, 1], vec![0, 0, 0]],
    };
    assert_eq!(collision_check(&w), vec![None, Some(2), Some(1)]);
}

#[test]
fn a_fighter_takes_its_closest_item() {
    // the closer item comes first
    let w = GrabWorld {
        free_fighters: vec![true, false, false],
        free_items: vec![false, true, true],
        collides: vec![vec![false, true, true], vec![false; 3], vec![false; 3]],
        distance: vec![vec![0, 1, 5], vec![0; 3], vec![0; 3]],
    };
    assert_eq!(collision_check(&w), vec![Some(1), Some(0), None]);
    // the closer item comes last
    let w = GrabWorld {
        free_fighters: vec![true, false, false],
        free_items: vec![false, true, true],
        collides: vec![vec![false, true, true], vec![false; 3], vec![false; 3]],
        distance: vec![vec![0, 5, 1], vec![0; 3], vec![0; 3]],
    };
    assert_eq!(collision_check(&w), vec![Some(2), None, Some(0)]);
}

#[test]
fn a_fighter_pushed_off_its_item_takes_the_next_closest() {
    // fighter 0 is closest to item 2, but fighter 1 is closer to it; fighter 0 gets item 3
    let w = GrabWorld {
        free_fighters: vec![true, true, false, false],
        free_items: vec![false, false, true, true],
        collides: vec![vec![false, false, true, true], vec![false, false, true, false], vec![false; 4], vec![false; 4]],
        distance: vec![vec![0, 0, 2, 4], vec![0, 0, 1, 0], vec![0; 4], vec![0; 4]],
    };
    assert_eq!(collision_check(&w), vec![Some(3), Some(2), Some(1), Some(0)]);
}

#[test]
fn nothing_to_grab() {
    let w = GrabWorld {
        free_fighters: vec![true, false],
        free_items: vec![false, true],
        collides: vec![vec![false, false], vec![false, false]],
        distance: vec![vec![0, 0], vec![0, 0]],
    };
    assert_eq!(collision_check(&w), vec![None, None]);
    let held = GrabWorld {
        free_fighters: vec![false, false],
        free_items: vec![false, true],
        collides: vec![vec![false, true], vec![false, false]],
        distance: vec![vec![0, 0], vec![0, 0]],
    };
    assert_eq!(collision_check(&held), vec![None, None]);
}
