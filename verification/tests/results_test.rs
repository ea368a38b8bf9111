use canon_collision::order::{sorted_distinct, stable_key_order};
use canon_collision::results::{generate_game_results, result_key, DeathRecord, RawPlayerResult};
use canon_collision::rules::Goal;

fn raw(team: usize, deaths: usize, rank: u64, fighter: &str) -> RawPlayerResult {
    RawPlayerResult {
        team,
        lcancel_attempts: 4,
        lcancel_success: 3,
        deaths: (0..deaths).map(|f| DeathRecord { player: None, frame: f * 10 }).collect(),
        final_damage_rank: Some(rank),
        ended_as_fighter: Some(fighter.to_string()),
    }
}

#[test]
fn sorted_distinct_sorts_and_removes_repeats() {
    assert_eq!(sorted_distinct(&vec![5, 1, 5, 3, 1]), vec![1, 3, 5]);
    assert_eq!(sorted_distinct(&vec![]), Vec::<usize>::new());
}

#[test]
fn stable_key_order_keeps_equal_keys_in_order() {
    let keys = vec![(2, 0), (1, 5), (2, 0), (1, 1)];
    assert_eq!(stable_key_order(&keys), vec![3, 1, 0, 2]);
}

fn raw_dying_at(team: usize, frames: &[usize], fighter: &str) -> RawPlayerResult {
    RawPlayerResult {
        team,
        lcancel_attempts: 0,
        lcancel_success: 0,
        deaths: frames.iter().map(|f| DeathRecord { player: None, frame: *f }).collect(),
        final_damage_rank: None,
        ended_as_fighter: Some(fighter.to_string()),
    }
}

#[test]
fn result_keys_by_goal() {
    // two stocks lost, the last on frame 10
    let r = raw(0, 2, 7, "toriel");
    assert_eq!(result_key(Goal::LastManStanding, &r), (2, u64::MAX - 10));
    assert_eq!(result_key(Goal::KillDeathScore, &r), (2, 0));
    let alive = raw(0, 0, 7, "toriel");
    assert_eq!(result_key(Goal::LastManStanding, &alive), (0, 7));
}

#[test]
fn game_results_place_each_player_by_its_rank() {
    // player 0 lost two stocks, player 1 none, player 2 one
    let raws = vec![raw(0, 2, 0, "a"), raw(1, 0, 1, "b"), raw(2, 1, 2, "c")];
    let controllers = vec![7, 8, 9];
    let results = generate_game_results(Goal::LastManStanding, &raws, &controllers);
    // most stocks remaining first: b, then c, then a
    let places: Vec<usize> = results.player_results.iter().map(|r| r.place).collect();
    assert_eq!(places, vec![0, 1, 2]);
    let fighters: Vec<&str> = results.player_results.iter().map(|r| r.fighter.as_str()).collect();
    assert_eq!(fighters, vec!["b", "c", "a"]);
    assert_eq!(results.player_results[2].controller, 7);
    assert_eq!(results.player_results[2].deaths.len(), 2);
    assert_eq!(results.player_results[1].team, 2);
    assert_eq!(results.player_results[0].lcancel_success, 3);
    assert!(results.player_results[0].kills.is_empty());
}

#[test]
fn game_results_break_ties_by_damage_among_the_living() {
    let raws = vec![raw(0, 0, 5, "a"), raw(1, 0, 2, "b")];
    let results = generate_game_results(Goal::LastManStanding, &raws, &vec![0, 1]);
    assert_eq!(results.player_results[0].fighter, "b");
    assert_eq!(results.player_results[0].place, 0);
    let results = generate_game_results(Goal::KillDeathScore, &raws, &vec![0, 1]);
    assert_eq!(results.player_results[0].fighter, "a");
}

#[test]
fn game_results_break_ties_by_the_last_stock_lost_last() {
    // both lost two stocks, with no damage recorded; b lost its last stock later and wins
    let raws = vec![raw_dying_at(0, &[5, 40], "a"), raw_dying_at(1, &[10, 90], "b")];
    let results = generate_game_results(Goal::LastManStanding, &raws, &vec![3, 4]);
    assert_eq!(results.player_results[0].fighter, "b");
    assert_eq!(results.player_results[0].controller, 4);
    assert_eq!(results.player_results[1].fighter, "a");
    assert_eq!(results.player_results[1].place, 1);
}
