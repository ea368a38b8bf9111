use canon_collision::character_select::MenuInput;
use canon_collision::game::GameState;
use canon_collision::menu::{
    MenuCommand, MenuContext, MenuState, NetplayStatus, PlayerSelectUi,
};
use canon_collision::menu::Menu;
use canon_collision::menu_ticker::MenuTicker;
use canon_collision::rules::{Goal, Pause, Rules, Teams};

fn idle() -> MenuInput {
    MenuInput {
        plugged_in: true,
        up: false,
        down: false,
        left: false,
        right: false,
        a_press: false,
        b_press: false,
        start_press: false,
        b_held: false,
        l_press: false,
        r_press: false,
    }
}

fn ctx() -> MenuContext {
    MenuContext {
        fighter_names: vec!["Toriel".to_string(), "Dave".to_string()],
        css_frames: vec![None, Some(3)],
        stage_names: vec!["Stage".to_string()],
        color_count: 4,
        replay_names: vec!["a".to_string(), "b".to_string()],
        netplay_region: None,
        auto_save_replay: false,
        single_peer: true,
        init_seed: 7,
        netplay: NetplayStatus::Offline,
    }
}

#[test]
fn ticker_ticks_fast_while_held() {
    let mut t = MenuTicker::new(3);
    assert_eq!(t.cursor_max, 2);
    assert!(t.tick());
    assert_eq!(t.ticks_remaining, 20);
    for _ in 0..19 {
        assert!(!t.tick());
    }
    assert!(t.tick());
    assert_eq!(t.ticks_remaining, 20);
    for _ in 0..19 {
        assert!(!t.tick());
    }
    assert!(t.tick());
    assert_eq!(t.ticks_remaining, 12);
}

#[test]
fn ticker_wraps_and_resets() {
    let mut t = MenuTicker::new(3);
    t.up();
    assert_eq!(t.cursor, 2);
    t.reset();
    t.down();
    assert_eq!(t.cursor, 0);
    t.reset();
    t.down();
    assert_eq!(t.cursor, 1);
    assert_eq!(MenuTicker::new(0).cursor_max, 0);
}

#[test]
fn default_rules() {
    let r = Rules::default();
    assert_eq!(r.goal, Goal::LastManStanding);
    assert_eq!(r.stock_count, Some(4));
    assert_eq!(r.time_limit_seconds, Some(480));
    assert_eq!(r.best_of, 1);
    assert_eq!(r.pause, Pause::On);
    assert_eq!(r.teams, Teams::Off);
    assert!(!r.grab_clang);
}

#[test]
fn select_slots() {
    assert!(PlayerSelectUi::cpu_ai().is_cpu());
    assert!(PlayerSelectUi::cpu_ai().is_visible());
    assert!(!PlayerSelectUi::HumanUnplugged.is_visible());
    assert!(PlayerSelectUi::human_team(4).is_human_plugged_in());
    assert!(!PlayerSelectUi::cpu_team(4).is_human_plugged_in());
    assert_eq!(PlayerSelectUi::human_team(4).ticker_unwrap().cursor_max, 4);
    let mut ui = PlayerSelectUi::cpu_team(4);
    ui.ticker_full_reset();
    assert!(ui.ticker_unwrap().reset);
    assert!(matches!(MenuState::character_select(), MenuState::CharacterSelect { back_counter: 0 }));
    assert!(matches!(MenuState::game_results(), MenuState::GameResults { replay_saved: false }));
}

#[test]
fn game_select_opens_local_play() {
    let c = ctx();
    let mut menu = Menu::new(MenuState::GameSelect);
    let mut press = idle();
    press.a_press = true;
    let command = menu.step_game_select(&c, &vec![press]);
    assert!(command.is_none());
    assert!(matches!(menu.state, MenuState::CharacterSelect { back_counter: 0 }));
}

#[test]
fn game_select_scrolls_to_replays() {
    let c = ctx();
    let mut menu = Menu::new(MenuState::GameSelect);
    let mut up = idle();
    up.up = true;
    menu.step_game_select(&c, &vec![up]);
    assert_eq!(menu.game_ticker.cursor, 2);
    let mut press = idle();
    press.start_press = true;
    menu.step_game_select(&c, &vec![press]);
    match &menu.state {
        MenuState::ReplaySelect(names, ticker) => {
            assert_eq!(names, &vec!["a".to_string(), "b".to_string()]);
            assert_eq!(ticker.cursor_max, 1);
        }
        _ => panic!("expected the replay list"),
    }
    let command = menu.step_replay_select(&c, &vec![press]);
    assert!(matches!(command, Some(MenuCommand::LoadReplay(ref n)) if n == "a"));
}

#[test]
fn game_select_online_asks_for_match_making() {
    let c = ctx();
    let mut menu = Menu::new(MenuState::GameSelect);
    let mut down = idle();
    down.down = true;
    menu.step_game_select(&c, &vec![down]);
    let mut press = idle();
    press.a_press = true;
    let command = menu.step_game_select(&c, &vec![press]);
    match command {
        Some(MenuCommand::ConnectMatchMaking { region, players }) => {
            assert_eq!(region, "AU");
            assert_eq!(players, 2);
        }
        _ => panic!("expected match making"),
    }
}

#[test]
fn character_select_starts_a_local_game() {
    let c = ctx();
    let mut menu = Menu::new(MenuState::character_select());
    let inputs = vec![idle()];
    menu.step_fighter_select(&c, &inputs);
    assert_eq!(menu.fighter_selections.len(), 1);
    assert!(menu.fighter_selections[0].ui.is_human_plugged_in());
    menu.stage_ticker = Some(MenuTicker::new(1));
    assert!(menu.game_setup(&c).players.is_empty());
    menu.fighter_selections[0].fighter = Some(1);
    let setup = menu.game_setup(&c);
    assert_eq!(setup.init_seed, 7);
    assert!(matches!(setup.state, GameState::Local));
    assert_eq!(setup.stage, "Stage");
    assert_eq!(setup.players.len(), 1);
    assert_eq!(setup.players[0].fighter, "Dave");
    assert_eq!(setup.controllers, vec![0]);
}

#[test]
fn netplay_wait_shows_the_search() {
    let mut c = ctx();
    c.netplay = NetplayStatus::MatchMaking { region: "EU".to_string() };
    let mut menu = Menu::new(MenuState::NetplayWait { message: String::new() });
    let command = menu.step_netplay_wait(&c, &vec![idle()]);
    assert!(command.is_none());
    match &menu.state {
        MenuState::NetplayWait { message } => assert_eq!(message, "Searching for online match in EU |"),
        _ => panic!("expected the waiting screen"),
    }
    let mut back = idle();
    back.b_press = true;
    let command = menu.step_netplay_wait(&c, &vec![back]);
    assert!(matches!(command, Some(MenuCommand::SetOffline)));
    assert!(matches!(menu.state, MenuState::GameSelect));
}

#[test]
fn menu_steps_keep_one_snapshot_per_frame() {
    let mut menu = Menu::new(MenuState::GameSelect);
    let c = ctx();
    for k in 0..4 {
        let commands = menu.step_frames(1, &c, &vec![vec![idle()]]);
        assert_eq!(commands.len(), 1);
        assert_eq!(menu.current_frame, k + 1);
        assert_eq!(menu.netplay_history.len(), menu.current_frame);
    }
    // a rollback of three frames steps them again from the snapshot before them
    let commands = menu.step_frames(3, &c, &vec![vec![idle()], vec![idle()], vec![idle()]]);
    assert_eq!(commands.len(), 3);
    assert_eq!(menu.current_frame, 5);
    assert_eq!(menu.netplay_history.len(), 5);
}

#[test]
fn held_ticker_fires_then_every_five_calls() {
    let mut t = MenuTicker::new(100);
    let mut fired = vec![];
    for call in 1..=100 {
        if t.tick() {
            fired.push(call);
        }
    }
    assert_eq!(fired, vec![1, 21, 41, 53, 63, 71, 77, 82, 87, 92, 97]);
    assert_eq!(t.cursor, 0);
}

#[test]
fn presses_of_an_unplugged_controller_are_taken() {
    let c = ctx();
    let mut menu = Menu::new(MenuState::character_select());
    menu.step_fighter_select(&c, &vec![idle()]);
    let mut unplugged = idle();
    unplugged.plugged_in = false;
    unplugged.a_press = true;
    unplugged.b_press = true;
    let command = menu.step_fighter_select(&c, &vec![unplugged]);
    assert!(command.is_none());
    assert!(menu.fighter_selections.iter().all(|s| !s.ui.is_human_plugged_in()));
}
