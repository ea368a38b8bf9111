use vstd::prelude::*;

use crate::game::{Edit, GameSetup, GameState, PlayerSetup};
use crate::rules::Rules;

verus! {

/// What a saved replay holds besides its recorded frames, inputs and editor state, which
/// the caller keeps.
#[derive(Clone, Debug)]
pub struct Replay {
    pub init_seed: u64,
    pub selected_controllers: Vec<usize>,
    pub selected_players: Vec<PlayerSetup>,
    pub selected_ais: Vec<usize>,
    pub selected_stage: String,
    pub rules: Rules,
    pub max_history_frames: Option<usize>,
    pub deleted_history_frames: usize,
    pub hot_reload_current_frame: usize,
    pub hot_reload_as_running: bool,
    pub hot_reload_edit: Edit,
}

/// The fighters among a match's entities, in entity order: `Some` for each fighter entity.
pub open spec fn fighter_setups(entities: Seq<Option<PlayerSetup>>) -> Seq<PlayerSetup>
    decreases entities.len(),
{
    if entities.len() == 0 {
        Seq::empty()
    } else {
        let rest = fighter_setups(entities.drop_last());
        match entities.last() {
            Some(p) => rest.push(p),
            None => rest,
        }
    }
}

impl Replay {
    /// This replay records a match with these fighters (in entity order), state and setup.
    pub open spec fn records(
        self,
        init_seed: u64,
        entities: Seq<Option<PlayerSetup>>,
        state: GameState,
        controllers: Seq<usize>,
        ais: Seq<usize>,
        stage: Seq<char>,
        rules: Rules,
        max_history_frames: Option<usize>,
        deleted_history_frames: usize,
        current_frame: usize,
        edit: Edit,
    ) -> bool {
        &&& self.selected_players@ == fighter_setups(entities)
        &&& self.hot_reload_as_running == (state is Local)
        &&& self.init_seed == init_seed
        &&& self.selected_controllers@ == controllers
        &&& self.selected_ais@ == ais
        &&& self.selected_stage@ == stage
        &&& self.rules == rules
        &&& self.max_history_frames == max_history_frames
        &&& self.deleted_history_frames == deleted_history_frames
        &&& self.hot_reload_current_frame == current_frame
        &&& self.hot_reload_edit == edit
    }

    /// `setup` starts a match from this replay. Played back as a replay, it starts replaying
    /// the history from its oldest kept frame; reloaded while editing, it resumes on the frame
    /// it was saved on, running or paused as it was.
    pub open spec fn sets_up(self, setup: GameSetup, hot_reload: bool) -> bool {
        &&& !hot_reload ==> setup.state is ReplayForwardsFromHistory
        &&& hot_reload && self.hot_reload_as_running ==> setup.state is Local
        &&& hot_reload && !self.hot_reload_as_running ==> setup.state is Paused
        &&& setup.current_frame == (if hot_reload { self.hot_reload_current_frame } else { self.deleted_history_frames })
        &&& setup.init_seed == self.init_seed
        &&& setup.controllers@ == self.selected_controllers@
        &&& setup.players@ == self.selected_players@
        &&& setup.ais@ == self.selected_ais@
        &&& setup.stage@ == self.selected_stage@
        &&& setup.rules == self.rules
        &&& setup.max_history_frames == self.max_history_frames
        &&& setup.deleted_history_frames == self.deleted_history_frames
        &&& setup.edit == self.hot_reload_edit
        &&& !setup.debug
    }

    /// The replay of a match: its fighters' setups in entity order (`entities` holds `Some`
    /// for each fighter entity), whether it was running (rather than paused or replaying) so
    /// that a reload resumes it the same way, and the rest of the match's setup and state as
    /// they are.
    pub fn new(
        init_seed: u64,
        entities: &Vec<Option<PlayerSetup>>,
        state: &GameState,
        selected_controllers: Vec<usize>,
        selected_ais: Vec<usize>,
        selected_stage: String,
        rules: Rules,
        max_history_frames: Option<usize>,
        deleted_history_frames: usize,
        current_frame: usize,
        edit: Edit,
    ) -> (r: Replay)
        ensures
            r.records(init_seed, entities@, *state, selected_controllers@, selected_ais@, selected_stage@, rules,
                max_history_frames, deleted_history_frames, current_frame, edit),
    {
        let mut players: Vec<PlayerSetup> = Vec::new();
        let mut k: usize = 0;
        while k < entities.len()
            invariant
                k <= entities@.len(),
                players@ == fighter_setups(entities@.take(k as int)),
            decreases entities@.len() - k,
        {
            assert(entities@.take(k + 1).drop_last() =~= entities@.take(k as int));
            match &entities[k] {
                Some(p) => {
                    players.push(PlayerSetup { fighter: p.fighter.clone(), team: p.team });
                },
                None => {},
            }
            k = k + 1;
        }
        assert(entities@.take(entities@.len() as int) =~= entities@);
        let hot_reload_as_running = match state {
            GameState::Local => true,
            _ => false,
        };
        Replay {
            init_seed,
            selected_controllers,
            selected_players: players,
            selected_ais,
            selected_stage,
            rules,
            max_history_frames,
            deleted_history_frames,
            hot_reload_current_frame: current_frame,
            hot_reload_as_running,
            hot_reload_edit: edit,
        }
    }

    /// The setup of a match that plays the replay back. Played back as a replay, it starts
    /// replaying its history from its oldest kept frame; reloaded while editing, it resumes
    /// on the frame it was saved on, running or paused as it was.
    pub fn into_game_setup(self, hot_reload: bool) -> (r: GameSetup)
        ensures
            self.sets_up(r, hot_reload),
    {
        let state = if !hot_reload {
            GameState::ReplayForwardsFromHistory
        } else if self.hot_reload_as_running {
            GameState::Local
        } else {
            GameState::Paused
        };
        let current_frame = if hot_reload {
            self.hot_reload_current_frame
        } else {
            self.deleted_history_frames
        };
        GameSetup {
            init_seed: self.init_seed,
            controllers: self.selected_controllers,
            players: self.selected_players,
            ais: self.selected_ais,
            stage: self.selected_stage,
            state,
            rules: self.rules,
            debug: false,
            max_history_frames: self.max_history_frames,
            deleted_history_frames: self.deleted_history_frames,
            current_frame,
            edit: self.hot_reload_edit,
        }
    }
}

/// A match saved to a replay and reloaded while editing resumes as it was: on the frame it
/// was saved on, running if it was running and paused otherwise, with the same seed, fighters,
/// controllers, stage, rules, history limits and edit; played back instead, the same match is
/// replayed from its oldest kept frame.
pub proof fn lemma_reload_resumes_match(
    replay: Replay,
    setup: GameSetup,
    hot_reload: bool,
    init_seed: u64,
    entities: Seq<Option<PlayerSetup>>,
    state: GameState,
    controllers: Seq<usize>,
    ais: Seq<usize>,
    stage: Seq<char>,
    rules: Rules,
    max_history_frames: Option<usize>,
    deleted_history_frames: usize,
    current_frame: usize,
    edit: Edit,
)
    requires
        replay.records(init_seed, entities, state, controllers, ais, stage, rules, max_history_frames,
            deleted_history_frames, current_frame, edit),
        replay.sets_up(setup, hot_reload),
    ensures
        hot_reload ==> setup.current_frame == current_frame,
        hot_reload ==> (setup.state is Local <==> state is Local),
        hot_reload && !(state is Local) ==> setup.state is Paused,
        !hot_reload ==> setup.state is ReplayForwardsFromHistory && setup.current_frame == deleted_history_frames,
        setup.players@ == fighter_setups(entities),
        setup.init_seed == init_seed,
        setup.controllers@ == controllers,
        setup.ais@ == ais,
        setup.stage@ == stage,
        setup.rules == rules,
        setup.max_history_frames == max_history_frames,
        setup.deleted_history_frames == deleted_history_frames,
        setup.edit == edit,
{
}

} // verus!
