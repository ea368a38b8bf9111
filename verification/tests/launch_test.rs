use canon_collision::game::GameState;
use canon_collision::launch::{launch_setup, LaunchError, LaunchOptions};

fn options() -> LaunchOptions {
    LaunchOptions {
        fighter_names: vec![],
        stage_name: None,
        max_human_players: None,
        total_cpu_players: None,
        debug: false,
        max_history_frames: None,
    }
}

fn names(v: &[&str]) -> Vec<String> {
    v.iter().map(|s| s.to_string()).collect()
}

#[test]
fn launch_needs_fighters_and_stages() {
    assert!(matches!(
        launch_setup(options(), &vec![], &names(&["Stage"]), 1, 11),
        Err(LaunchError::NoEntities)
    ));
    assert!(matches!(
        launch_setup(options(), &names(&["Toriel"]), &vec![], 1, 11),
        Err(LaunchError::NoStages)
    ));
}

#[test]
fn launch_rejects_unknown_names() {
    let mut o = options();
    o.fighter_names = names(&["Toriel", "Nobody", "Ghost"]);
    match launch_setup(o, &names(&["Toriel"]), &names(&["Stage"]), 1, 11) {
        Err(LaunchError::UnknownFighter(n)) => assert_eq!(n, "Nobody"),
        _ => panic!("expected an unknown fighter"),
    }
    let mut o = options();
    o.stage_name = Some("Moon".to_string());
    match launch_setup(o, &names(&["Toriel"]), &names(&["Stage"]), 1, 11) {
        Err(LaunchError::UnknownStage(n)) => assert_eq!(n, "Moon"),
        _ => panic!("expected an unknown stage"),
    }
}

#[test]
fn launch_deals_fighters_to_humans_then_cpus() {
    let mut o = options();
    o.fighter_names = names(&["A", "B"]);
    o.max_human_players = Some(2);
    o.total_cpu_players = Some(2);
    o.debug = true;
    let setup = launch_setup(o, &names(&["A", "B"]), &names(&["S1", "S2"]), 3, 11).unwrap();
    let fighters: Vec<&str> = setup.players.iter().map(|p| p.fighter.as_str()).collect();
    assert_eq!(fighters, vec!["A", "B", "A", "B"]);
    let teams: Vec<usize> = setup.players.iter().map(|p| p.team).collect();
    assert_eq!(teams, vec![0, 1, 2, 3]);
    assert_eq!(setup.controllers, vec![0, 1, 3, 4]);
    assert_eq!(setup.ais, vec![0, 0]);
    assert_eq!(setup.stage, "S1");
    assert!(setup.debug);
    assert!(matches!(setup.state, GameState::Local));
    assert_eq!(setup.rules.time_limit_seconds, None);
    assert_eq!(setup.rules.stock_count, Some(4));
    assert_eq!(setup.init_seed, 11);
}

#[test]
fn launch_defaults_to_the_first_fighter() {
    let setup = launch_setup(options(), &names(&["Toriel", "Dave"]), &names(&["Stage"]), 2, 11).unwrap();
    assert_eq!(setup.players.len(), 2);
    assert_eq!(setup.players[1].fighter, "Toriel");
    assert_eq!(setup.controllers, vec![0, 1]);
    assert!(setup.ais.is_empty());
}
