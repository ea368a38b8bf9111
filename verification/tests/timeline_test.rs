use canon_collision::game::{
    advance_from_input, game_over, step_replay_backwards, step_replay_forwards_from_history,
    time_out,
};
use canon_collision::rules::Rules;
use canon_collision::timeline::Timeline;

#[test]
fn local_step_records_the_frame_it_leaves() {
    let mut t: Timeline<&str> = Timeline::new(vec![], 0, 0, None);
    t.record_local_step("frame0");
    t.record_local_step("frame1");
    assert_eq!(t.current_frame, 2);
    assert_eq!(t.current_history_index(), 2);
    assert_eq!(t.snapshot_at(0), Some(&"frame0"));
    assert_eq!(t.snapshot_at(1), Some(&"frame1"));
    assert_eq!(t.snapshot_at(2), None);
    assert!(t.jump_frame(1));
    assert_eq!(t.current_frame, 1);
    assert_eq!(t.snapshot_at(t.current_frame), Some(&"frame1"));
}

#[test]
fn local_step_forgets_the_future() {
    let mut t: Timeline<u32> = Timeline::new(vec![10, 11, 12, 13], 4, 0, None);
    assert!(t.jump_frame(1));
    t.record_local_step(99);
    assert_eq!(t.current_frame, 2);
    // the kept snapshot of frame 1 stays, the later ones are gone
    assert_eq!(t.history, vec![10, 11]);
    assert!(!t.jump_frame(2));
}

#[test]
fn local_step_keeps_at_most_the_limit() {
    let mut t: Timeline<u32> = Timeline::new(vec![], 0, 0, Some(2));
    for i in 0..5 {
        t.record_local_step(i);
    }
    assert_eq!(t.history, vec![3, 4]);
    assert_eq!(t.deleted_history_frames, 3);
    assert_eq!(t.current_frame, 5);
    assert_eq!(t.snapshot_at(3), Some(&3));
    assert_eq!(t.snapshot_at(2), None);
    assert!(!t.jump_frame(2));
    assert!(t.jump_frame(4));
}

#[test]
fn saved_frame_can_be_jumped_back_to() {
    let mut t: Timeline<u32> = Timeline::new(vec![5, 6, 7], 2, 0, None);
    t.save_frame();
    assert_eq!(t.saved_frame, 2);
    assert!(t.jump_frame(0));
    let saved = t.saved_frame;
    assert!(t.jump_frame(saved));
    assert_eq!(t.current_frame, 2);
}

#[test]
fn rollback_recomputes_the_last_frames() {
    let mut t: Timeline<u32> = Timeline::new(vec![0, 1, 2, 3], 4, 0, None);
    let (start, end, restore) = t.begin_rollback(2);
    assert_eq!((start, end, restore), (3, 5, Some(2)));
    assert_eq!(t.history, vec![0, 1, 2]);
    t.push_snapshot(30);
    t.push_snapshot(40);
    assert_eq!(t.history, vec![0, 1, 2, 30, 40]);
    let mut fresh: Timeline<u32> = Timeline::new(vec![], 0, 0, None);
    assert_eq!(fresh.begin_rollback(1), (0, 1, None));
}

#[test]
fn replay_backwards_stops_at_frame_zero() {
    let mut t: Timeline<u32> = Timeline::new(vec![0, 1], 1, 0, None);
    assert_eq!(step_replay_backwards(&mut t, false), (true, false));
    assert_eq!(t.current_frame, 0);
    assert_eq!(step_replay_backwards(&mut t, false), (false, true));
    assert_eq!(t.current_frame, 0);
}

#[test]
fn replay_forwards_from_history_pauses_at_the_newest_frame() {
    let mut t: Timeline<u32> = Timeline::new(vec![0, 1, 2], 0, 0, None);
    assert_eq!(step_replay_forwards_from_history(&mut t, false), (true, false));
    assert_eq!(step_replay_forwards_from_history(&mut t, false), (true, false));
    assert_eq!(t.current_frame, 2);
    assert_eq!(step_replay_forwards_from_history(&mut t, false), (false, false));
    assert_eq!(step_replay_forwards_from_history(&mut t, true), (false, true));
    let mut end: Timeline<u32> = Timeline::new(vec![0], 1, 0, None);
    assert_eq!(step_replay_forwards_from_history(&mut end, false), (false, true));
}

#[test]
fn replay_from_input_runs_while_input_is_recorded() {
    let mut t: Timeline<u32> = Timeline::new(vec![], 3, 0, None);
    assert!(advance_from_input(&mut t, 3));
    assert_eq!(t.current_frame, 4);
    assert!(!advance_from_input(&mut t, 3));
    assert_eq!(t.current_frame, 4);
}

#[test]
fn time_out_after_the_limit() {
    let mut rules = Rules::default();
    rules.time_limit_seconds = Some(2);
    assert!(!time_out(120, &rules));
    assert!(time_out(121, &rules));
    rules.time_limit_seconds = None;
    assert!(!time_out(1_000_000, &rules));
    assert_eq!(Rules::default().time_limit_frames(), Some(28800));
}

#[test]
fn game_over_conditions() {
    assert!(game_over(true, 4, 3));
    assert!(game_over(false, 1, 0));
    assert!(!game_over(false, 1, 1));
    assert!(game_over(false, 3, 1));
    assert!(!game_over(false, 3, 2));
    assert!(!game_over(false, 0, 0));
}
