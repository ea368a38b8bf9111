use std::collections::HashSet;

use canon_collision::camera::{CameraControlState, CameraKeys, CameraModes, TransformMode};
use canon_collision::editor::{
    after_frame_deleted, apply_selection, edit_for_number_key, remove_indices, repeat_frames,
    topmost,
};
use canon_collision::entity::ActionState;
use canon_collision::game::{
    local_pause_pressed, pause_command, replay_backwards_keys, replay_forwards_keys,
    selected_surfaces, step_pause, Edit, GameState, PauseCommand, ReplayKeys, SurfaceSelection,
};
use canon_collision::game::{fighters_still_in, frames_remaining, game_over, initial_debug_entities, input_for, step_plan, OsInputKind, PlayerSetup, StepKind};
use canon_collision::menu::ResumeMenu;
use canon_collision::player::PlayerAction;
use canon_collision::replays::Replay;
use canon_collision::rules::Rules;
use canon_collision::seed::frame_seed;
use canon_collision::text::{same_text, string_of};

fn no_keys() -> ReplayKeys {
    ReplayKeys {
        shift_held: false,
        space: false,
        enter: false,
        h: false,
        j: false,
        k: false,
        l: false,
        u: false,
        i: false,
    }
}

#[test]
fn frame_seed_is_little_endian_seed_and_frame() {
    let seed = frame_seed(0x0102_0304_0506_0708, 0x1234);
    assert_eq!(&seed[0..8], &[8, 7, 6, 5, 4, 3, 2, 1]);
    assert_eq!(&seed[8..16], &[0x34, 0x12, 0, 0, 0, 0, 0, 0]);
    assert_eq!(&seed[16..32], &[0u8; 16]);
}

#[test]
fn text_helpers() {
    let s = string_of("Frame: 3");
    assert_eq!(s, "Frame: 3");
    assert!(same_text(&s, "Frame: 3"));
    assert!(!same_text(&s, "Frame"));
}

#[test]
fn pause_keys_follow_their_priority() {
    let mut keys = no_keys();
    assert_eq!(pause_command(keys), PauseCommand::Nothing);
    keys.enter = true;
    assert_eq!(pause_command(keys), PauseCommand::Resume);
    keys.l = true;
    assert_eq!(pause_command(keys), PauseCommand::ReplayForwardsFromHistory);
    keys.shift_held = true;
    assert_eq!(pause_command(keys), PauseCommand::ReplayForwardsFromInput);
    keys.k = true;
    assert_eq!(pause_command(keys), PauseCommand::StepForwardFromInput);
    keys.j = true;
    assert_eq!(pause_command(keys), PauseCommand::StepBackward);
    let mut save = no_keys();
    save.u = true;
    save.i = true;
    assert_eq!(pause_command(save), PauseCommand::SaveFrame);
}

#[test]
fn paused_match_quits_or_resumes() {
    assert!(matches!(step_pause(true, true), Some(GameState::Quit(ResumeMenu::Unchanged))));
    assert!(matches!(step_pause(false, true), Some(GameState::Local)));
    assert!(step_pause(false, false).is_none());
}

#[test]
fn replay_keys_change_state() {
    let mut keys = no_keys();
    assert!(replay_forwards_keys(keys).is_none());
    keys.h = true;
    assert!(matches!(replay_forwards_keys(keys), Some(GameState::ReplayBackwards)));
    keys.space = true;
    assert!(matches!(replay_forwards_keys(keys), Some(GameState::Paused)));
    assert!(local_pause_pressed(keys));
    let mut back = no_keys();
    back.enter = true;
    assert!(matches!(replay_backwards_keys(back), Some(GameState::Paused)));
    back.l = true;
    assert!(matches!(replay_backwards_keys(back), Some(GameState::ReplayForwardsFromHistory)));
}

#[test]
fn surface_selection_indices() {
    assert_eq!(SurfaceSelection::P2(4).index(), 4);
    assert_eq!(SurfaceSelection::default(), SurfaceSelection::P1(0));
    let sel = vec![
        SurfaceSelection::P2(3),
        SurfaceSelection::P1(1),
        SurfaceSelection::P1(3),
    ];
    assert_eq!(selected_surfaces(&sel), vec![1, 3]);
}

#[test]
fn editor_number_keys() {
    let keys = vec![11, 22, 33];
    assert_eq!(edit_for_number_key(Edit::Entity(22), 0, &keys), Edit::Stage);
    assert_eq!(edit_for_number_key(Edit::Stage, 2, &keys), Edit::Entity(22));
    assert_eq!(edit_for_number_key(Edit::Stage, 4, &keys), Edit::Stage);
    assert_eq!(Edit::default(), Edit::Stage);
}

#[test]
fn editor_repeat_frames() {
    assert_eq!(repeat_frames(true, true, 2), 3);
    assert_eq!(repeat_frames(true, false, 2), 1);
    assert_eq!(repeat_frames(false, true, 2), 1);
}

#[test]
fn editor_selection_adds_and_removes() {
    let mut selected: HashSet<usize> = [0, 2].into_iter().collect();
    apply_selection(&mut selected, &vec![false, true, true], false);
    assert_eq!(selected, [0, 1, 2].into_iter().collect());
    apply_selection(&mut selected, &vec![true, false, false, true], true);
    assert_eq!(selected, [1, 2].into_iter().collect());
    assert_eq!(topmost(&vec![4, 9, 2]), Some(9));
    assert_eq!(topmost(&vec![]), None);
}

#[test]
fn editor_removes_listed_positions() {
    let mut v = vec!["a", "b", "c", "d", "e"];
    remove_indices(&mut v, &vec![3, 0, 3]);
    assert_eq!(v, vec!["b", "c", "e"]);
    let mut w = vec![1, 2];
    remove_indices(&mut w, &vec![]);
    assert_eq!(w, vec![1, 2]);
}

#[test]
fn editor_frame_deletion_moves_entities_back() {
    let mut s = ActionState::new("toriel".to_string(), "Jab");
    s.frame = 4;
    after_frame_deleted(&mut s, &"toriel".to_string(), &"Jab".to_string(), 4);
    assert_eq!(s.frame, 3);
    after_frame_deleted(&mut s, &"toriel".to_string(), &"Jab".to_string(), 4);
    assert_eq!(s.frame, 3);
    after_frame_deleted(&mut s, &"other".to_string(), &"Jab".to_string(), 3);
    assert_eq!(s.frame, 3);
}

#[test]
fn camera_modes() {
    let mut modes = CameraModes::new();
    assert!(!modes.dev_mode());
    assert!(modes.debug_print().is_empty());
    let mut keys = CameraKeys {
        middle_mouse_pressed: false,
        scrolled: false,
        wasd_pressed: true,
        backspace_pressed: false,
        escape_pressed: false,
    };
    modes.update_os_input(keys);
    assert_eq!(modes.control_state, CameraControlState::Manual);
    assert_eq!(modes.debug_print(), vec!["Press Backspace to leave manual camera mode.".to_string()]);
    keys.wasd_pressed = false;
    keys.escape_pressed = true;
    modes.update_os_input(keys);
    assert_eq!(modes.transform_mode, TransformMode::Dev);
    assert!(modes.dev_mode());
    keys.escape_pressed = false;
    keys.backspace_pressed = true;
    modes.update_os_input(keys);
    assert_eq!(modes.control_state, CameraControlState::Auto);
    assert_eq!(modes.debug_print(), vec!["Press Esc to leave developer mode.".to_string()]);
    assert_eq!(CameraControlState::default(), CameraControlState::Auto);
    assert_eq!(TransformMode::default(), TransformMode::Dev);
}

fn replay() -> Replay {
    Replay {
        init_seed: 9,
        selected_controllers: vec![0, 1],
        selected_players: vec![],
        selected_ais: vec![1],
        selected_stage: "Stage".to_string(),
        rules: Rules::default(),
        max_history_frames: None,
        deleted_history_frames: 5,
        hot_reload_current_frame: 30,
        hot_reload_as_running: true,
        hot_reload_edit: Edit::Stage,
    }
}

#[test]
fn replay_setup_plays_back_from_the_oldest_frame() {
    let setup = replay().into_game_setup(false);
    assert!(matches!(setup.state, GameState::ReplayForwardsFromHistory));
    assert_eq!(setup.current_frame, 5);
    assert_eq!(setup.init_seed, 9);
    assert_eq!(setup.controllers, vec![0, 1]);
    assert!(!setup.debug);
    let reloaded = replay().into_game_setup(true);
    assert!(matches!(reloaded.state, GameState::Local));
    assert_eq!(reloaded.current_frame, 30);
    let mut paused = replay();
    paused.hot_reload_as_running = false;
    assert!(matches!(paused.into_game_setup(true).state, GameState::Paused));
}

#[test]
fn replay_records_fighters_and_resumes_as_it_was() {
    let entities = vec![
        Some(PlayerSetup { fighter: "Toriel".to_string(), team: 1 }),
        None,
        Some(PlayerSetup { fighter: "Dave".to_string(), team: 0 }),
        None,
    ];
    let replay = Replay::new(
        7,
        &entities,
        &GameState::Paused,
        vec![0],
        vec![],
        "Stage".to_string(),
        Rules::default(),
        Some(600),
        2,
        44,
        Edit::Entity(3),
    );
    assert_eq!(replay.selected_players.len(), 2);
    assert_eq!(replay.selected_players[0].fighter, "Toriel");
    assert_eq!(replay.selected_players[0].team, 1);
    assert_eq!(replay.selected_players[1].fighter, "Dave");
    assert!(!replay.hot_reload_as_running);
    let setup = replay.clone().into_game_setup(true);
    assert!(matches!(setup.state, GameState::Paused));
    assert_eq!(setup.current_frame, 44);
    assert_eq!(setup.players.len(), 2);
    assert_eq!(setup.edit, Edit::Entity(3));
    let running = Replay::new(7, &entities, &GameState::Local, vec![0], vec![], "Stage".to_string(), Rules::default(), None, 2, 44, Edit::Stage);
    assert!(running.hot_reload_as_running);
    assert!(matches!(running.into_game_setup(true).state, GameState::Local));
}

#[test]
fn step_plans_by_state() {
    let plan = step_plan(&GameState::StepBackwardThenPause);
    assert_eq!(plan.step, StepKind::ReplayBackwards);
    assert!(plan.pause_after);
    assert_eq!(plan.os_input, OsInputKind::Nothing);
    let plan = step_plan(&GameState::Paused);
    assert_eq!(plan.step, StepKind::Pause);
    assert_eq!(plan.os_input, OsInputKind::Pause);
    let plan = step_plan(&GameState::ReplayForwardsFromInput);
    assert_eq!(plan.os_input, OsInputKind::ReplayForwards);
    assert!(!plan.pause_after);

    let kept = vec![(9, canon_collision::entity::DebugEntity::default())];
    let debug = initial_debug_entities(&vec![1, 2], true, kept.clone());
    assert_eq!(debug.len(), 3);
    assert_eq!(debug[0], kept[0]);
    assert_eq!(debug[2].0, 2);
    assert!(debug[2].1.physics);
    assert_eq!(initial_debug_entities(&vec![1, 2], false, kept.clone()), kept);
}

#[test]
fn entities_read_their_players_controller() {
    let controllers = vec![2, 0, 5];
    assert_eq!(input_for(Some(0), &controllers, 4), Some(2));
    assert_eq!(input_for(Some(1), &controllers, 4), Some(0));
    // the controller sent no input this frame
    assert_eq!(input_for(Some(2), &controllers, 4), None);
    // no such player, or no player at all
    assert_eq!(input_for(Some(3), &controllers, 4), None);
    assert_eq!(input_for(None, &controllers, 4), None);
}

#[test]
fn match_ends_when_one_fighter_is_left() {
    let actions = vec![PlayerAction::Eliminated, PlayerAction::Idle, PlayerAction::Eliminated];
    assert_eq!(fighters_still_in(&actions), 1);
    assert!(game_over(false, 3, fighters_still_in(&actions)));
    let two = vec![PlayerAction::Fall, PlayerAction::Idle];
    assert_eq!(fighters_still_in(&two), 2);
    assert!(!game_over(false, 2, fighters_still_in(&two)));
    assert_eq!(fighters_still_in(&vec![]), 0);
}

#[test]
fn timer_counts_down_to_zero() {
    let mut rules = Rules::default();
    rules.time_limit_seconds = Some(2);
    assert_eq!(frames_remaining(20, &rules), Some(100));
    assert_eq!(frames_remaining(120, &rules), Some(0));
    assert_eq!(frames_remaining(500, &rules), Some(0));
    rules.time_limit_seconds = None;
    assert_eq!(frames_remaining(20, &rules), None);
}

#[test]
fn game_state_names() {
    assert_eq!(GameState::Local.name(), "Local");
    assert_eq!(GameState::Paused.name(), "Paused");
    assert_eq!(GameState::Quit(ResumeMenu::Unchanged).name(), "Quit");
    assert_eq!(GameState::StepBackwardThenPause.name(), "StepBackwardThenPause)");
}
