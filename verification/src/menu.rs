use vstd::prelude::*;
use vstd::set_lib::*;

use crate::character_select::{
    add_remove_fighter_selections, count_humans, css_frames_wf, lemma_count_humans, lemma_rebuilt_wf,
    selections_wf, selections_wf_with, spec_add_remove, spec_step_selections, step_selections, MenuInput,
};
use crate::text::string_of;
use crate::game::{Edit, GameSetup, GameState, PlayerSetup};
use crate::rules::Rules;
use crate::menu_ticker::MenuTicker;
use crate::results::{duplicate_results, same_player_result, GameResults, PlayerResult};

verus! {

/// What a slot on the character select screen is showing and which ticker it scrolls with.
#[derive(Clone, Copy, Debug, PartialEq, Eq, Structural)]
pub enum PlayerSelectUi {
    CpuAi(MenuTicker),
    CpuFighter(MenuTicker),
    CpuTeam(MenuTicker),
    HumanFighter(MenuTicker),
    HumanTeam(MenuTicker),
    HumanUnplugged,
}

impl PlayerSelectUi {
    /// A CPU slot picking its AI.
    #[verifier::allow_in_spec]
    pub fn cpu_ai() -> Self
        returns
            PlayerSelectUi::CpuAi(MenuTicker::new(1)),
    {
        PlayerSelectUi::CpuAi(MenuTicker::new(1))
    }

    /// A CPU slot picking among `fighter_count` fighters, then "team", "AI" and "remove".
    #[verifier::allow_in_spec]
    pub fn cpu_fighter(fighter_count: usize) -> Self
        requires
            fighter_count + 3 <= usize::MAX,
        returns
            PlayerSelectUi::CpuFighter(MenuTicker::new((fighter_count + 3) as usize)),
    {
        PlayerSelectUi::CpuFighter(MenuTicker::new(fighter_count + 3))
    }

    /// A human slot picking among `fighter_count` fighters, then "team" and "add CPU".
    #[verifier::allow_in_spec]
    pub fn human_fighter(fighter_count: usize) -> Self
        requires
            fighter_count + 2 <= usize::MAX,
        returns
            PlayerSelectUi::HumanFighter(MenuTicker::new((fighter_count + 2) as usize)),
    {
        PlayerSelectUi::HumanFighter(MenuTicker::new(fighter_count + 2))
    }

    /// A CPU slot picking among `color_count` team colors, then "back".
    #[verifier::allow_in_spec]
    pub fn cpu_team(color_count: usize) -> Self
        requires
            color_count + 1 <= usize::MAX,
        returns
            PlayerSelectUi::CpuTeam(MenuTicker::new((color_count + 1) as usize)),
    {
        PlayerSelectUi::CpuTeam(MenuTicker::new(color_count + 1))
    }

    /// A human slot picking among `color_count` team colors, then "back".
    #[verifier::allow_in_spec]
    pub fn human_team(color_count: usize) -> Self
        requires
            color_count + 1 <= usize::MAX,
        returns
            PlayerSelectUi::HumanTeam(MenuTicker::new((color_count + 1) as usize)),
    {
        PlayerSelectUi::HumanTeam(MenuTicker::new(color_count + 1))
    }

    /// Every slot but an unplugged human is drawn.
    #[verifier::allow_in_spec]
    pub fn is_visible(&self) -> bool
        returns
            !(*self is HumanUnplugged),
    {
        match self {
            PlayerSelectUi::HumanUnplugged => false,
            _ => true,
        }
    }

    /// The slot belongs to a CPU.
    #[verifier::allow_in_spec]
    pub fn is_cpu(&self) -> bool
        returns
            (*self is CpuAi || *self is CpuFighter || *self is CpuTeam),
    {
        match self {
            PlayerSelectUi::CpuAi(_) | PlayerSelectUi::CpuFighter(_) | PlayerSelectUi::CpuTeam(_) => true,
            _ => false,
        }
    }

    /// The slot belongs to a human whose controller is plugged in.
    #[verifier::allow_in_spec]
    pub fn is_human_plugged_in(&self) -> bool
        returns
            (*self is HumanFighter || *self is HumanTeam),
    {
        match self {
            PlayerSelectUi::HumanFighter(_) | PlayerSelectUi::HumanTeam(_) => true,
            _ => false,
        }
    }

    /// The ticker of the slot, where it has one.
    pub open spec fn ticker(self) -> Option<MenuTicker> {
        match self {
            PlayerSelectUi::CpuAi(t) => Some(t),
            PlayerSelectUi::CpuFighter(t) => Some(t),
            PlayerSelectUi::CpuTeam(t) => Some(t),
            PlayerSelectUi::HumanFighter(t) => Some(t),
            PlayerSelectUi::HumanTeam(t) => Some(t),
            PlayerSelectUi::HumanUnplugged => None,
        }
    }

    /// The slot with its ticker replaced by `t`.
    pub open spec fn with_ticker(self, t: MenuTicker) -> PlayerSelectUi {
        match self {
            PlayerSelectUi::CpuAi(_) => PlayerSelectUi::CpuAi(t),
            PlayerSelectUi::CpuFighter(_) => PlayerSelectUi::CpuFighter(t),
            PlayerSelectUi::CpuTeam(_) => PlayerSelectUi::CpuTeam(t),
            PlayerSelectUi::HumanFighter(_) => PlayerSelectUi::HumanFighter(t),
            PlayerSelectUi::HumanTeam(_) => PlayerSelectUi::HumanTeam(t),
            PlayerSelectUi::HumanUnplugged => PlayerSelectUi::HumanUnplugged,
        }
    }

    /// The slot after `ticker_full_reset`.
    pub open spec fn spec_full_reset(self) -> PlayerSelectUi {
        match self.ticker() {
            Some(t) => self.with_ticker(MenuTicker { reset: true, cursor: 0, ..t }),
            None => self,
        }
    }

    /// The ticker of a slot that has one.
    pub fn ticker_unwrap(&self) -> (r: &MenuTicker)
        requires
            !(*self is HumanUnplugged),
        ensures
            self.ticker() == Some(*r),
    {
        match self {
            PlayerSelectUi::HumanFighter(ticker)
            | PlayerSelectUi::CpuFighter(ticker)
            | PlayerSelectUi::HumanTeam(ticker)
            | PlayerSelectUi::CpuTeam(ticker)
            | PlayerSelectUi::CpuAi(ticker) => ticker,
            PlayerSelectUi::HumanUnplugged => unreached(),
        }
    }

    /// Puts the ticker back at the top, ready to tick.
    pub fn ticker_full_reset(&mut self)
        ensures
            *final(self) == old(self).spec_full_reset(),
    {
        match self {
            PlayerSelectUi::HumanFighter(ticker) => {
                ticker.reset = true;
                ticker.cursor = 0;
            },
            PlayerSelectUi::CpuFighter(ticker) => {
                ticker.reset = true;
                ticker.cursor = 0;
            },
            PlayerSelectUi::HumanTeam(ticker) => {
                ticker.reset = true;
                ticker.cursor = 0;
            },
            PlayerSelectUi::CpuTeam(ticker) => {
                ticker.reset = true;
                ticker.cursor = 0;
            },
            PlayerSelectUi::CpuAi(ticker) => {
                ticker.reset = true;
                ticker.cursor = 0;
            },
            PlayerSelectUi::HumanUnplugged => {},
        }
    }
}

/// One slot of the character select screen.
#[derive(Clone, Copy, Debug)]
pub struct PlayerSelect {
    /// The controller (an input index) that currently steers this slot; the cursor of its ticker is not used.
    pub controller: Option<(usize, MenuTicker)>,
    pub fighter: Option<usize>,
    pub cpu_ai: Option<usize>,
    pub team: usize,
    pub ui: PlayerSelectUi,
    pub animation_frame: usize,
}

impl PlayerSelect {
    /// Returns true iff a controller can move to this selection.
    #[verifier::allow_in_spec]
    pub fn is_free(&self) -> bool
        returns
            (self.ui.is_cpu() && self.controller is None),
    {
        self.ui.is_cpu() && self.controller.is_none()
    }
}

/// Some visible slot uses team `t`.
pub open spec fn team_taken(s: Seq<PlayerSelect>, t: int) -> bool {
    exists|i: int| 0 <= i < s.len() && #[trigger] s[i].ui.is_visible() && s[i].team == t
}

/// The smallest team that no visible slot uses, searching upwards from `t` at most `fuel` steps.
pub open spec fn first_free_team_from(s: Seq<PlayerSelect>, t: nat, fuel: nat) -> nat
    decreases fuel,
{
    if fuel == 0 || !team_taken(s, t as int) {
        t
    } else {
        first_free_team_from(s, t + 1, (fuel - 1) as nat)
    }
}

/// The team a newly added slot gets: the smallest one that no visible slot uses.
pub open spec fn free_team(s: Seq<PlayerSelect>) -> nat {
    first_free_team_from(s, 0, s.len())
}

/// Distinct taken teams cannot outnumber the slots.
proof fn lemma_taken_set_bounded(s: Seq<PlayerSelect>, teams: Set<int>)
    requires
        teams.finite(),
        forall|t: int| teams.contains(t) ==> team_taken(s, t),
    ensures
        teams.len() <= s.len(),
    decreases s.len(),
{
    if s.len() == 0 {
        if teams.len() > 0 {
            let t = teams.choose();
            assert(teams.contains(t));
        }
    } else {
        let s2 = s.drop_last();
        let x = s.last();
        let rest = teams.remove(x.team as int);
        assert forall|t: int| rest.contains(t) implies team_taken(s2, t) by {
            assert(team_taken(s, t));
            let i = choose|i: int| 0 <= i < s.len() && #[trigger] s[i].ui.is_visible() && s[i].team == t;
            assert(i != s.len() - 1);
            assert(s2[i] == s[i]);
        }
        lemma_taken_set_bounded(s2, rest);
    }
}

/// When teams `0..t` are all taken, `t` cannot exceed the number of slots.
proof fn lemma_taken_prefix_bounded(s: Seq<PlayerSelect>, t: nat)
    requires
        forall|u: int| 0 <= u < t ==> team_taken(s, u),
    ensures
        t <= s.len(),
{
    let teams = Set::new(|u: int| 0 <= u < t);
    assert(teams =~= set_int_range(0, t as int));
    lemma_int_range(0, t as int);
    lemma_taken_set_bounded(s, teams);
}

/// `first_free_team_from` finds the smallest free team at or above `t`.
proof fn lemma_first_free_team_from(s: Seq<PlayerSelect>, t: nat, fuel: nat)
    requires
        forall|u: int| 0 <= u < t ==> team_taken(s, u),
        t + fuel >= s.len(),
    ensures
        !team_taken(s, first_free_team_from(s, t, fuel) as int),
        forall|u: int| 0 <= u < first_free_team_from(s, t, fuel) ==> team_taken(s, u),
    decreases fuel,
{
    if fuel == 0 {
        lemma_taken_prefix_bounded(s, t);
        if team_taken(s, t as int) {
            lemma_taken_prefix_bounded(s, t + 1);
        }
    } else if team_taken(s, t as int) {
        lemma_first_free_team_from(s, t + 1, (fuel - 1) as nat);
    }
}

/// The free team is not taken and every smaller team is.
pub proof fn lemma_free_team(s: Seq<PlayerSelect>)
    ensures
        !team_taken(s, free_team(s) as int),
        forall|u: int| 0 <= u < free_team(s) ==> team_taken(s, u),
        free_team(s) <= s.len(),
{
    lemma_first_free_team_from(s, 0, s.len());
    lemma_taken_prefix_bounded(s, free_team(s));
}

/// The smallest team that no visible slot uses.
pub fn get_free_team(selections: &Vec<PlayerSelect>) -> (team: usize)
    ensures
        team == free_team(selections@),
        !team_taken(selections@, team as int),
        forall|u: int| 0 <= u < team ==> team_taken(selections@, u),
{
    proof { lemma_free_team(selections@); }
    let mut team: usize = 0;
    loop
        invariant
            team <= selections@.len(),
            forall|u: int| 0 <= u < team ==> team_taken(selections@, u),
            first_free_team_from(selections@, team as nat, (selections@.len() - team) as nat)
                == free_team(selections@),
        decreases selections@.len() - team,
    {
        let mut taken = false;
        let mut i: usize = 0;
        while i < selections.len()
            invariant
                i <= selections@.len(),
                taken <==> exists|j: int| 0 <= j < i && #[trigger] selections@[j].ui.is_visible()
                    && selections@[j].team == team,
            decreases selections@.len() - i,
        {
            if selections[i].ui.is_visible() && selections[i].team == team {
                taken = true;
            }
            proof {
                if selections@[i as int].ui.is_visible() && selections@[i as int].team == team {
                    assert(selections@[i as int].ui.is_visible());
                }
            }
            i = i + 1;
        }
        if !taken {
            return team;
        }
        proof {
            lemma_taken_prefix_bounded(selections@, (team + 1) as nat);
        }
        team = team + 1;
    }
}

} // verus!

verus! {

/// Which screen the menu shows, with the data that screen does not share with the others.
#[derive(Clone, Debug)]
pub enum MenuState {
    GameSelect,
    /// The list of replays and the ticker scrolling through it; they must stay in step.
    ReplaySelect(Vec<String>, MenuTicker),
    CharacterSelect { back_counter: usize },
    StageSelect,
    GameResults { replay_saved: bool },
    NetplayWait { message: String },
}

/// Two menu states show the same screen with the same data.
pub open spec fn same_state(a: MenuState, b: MenuState) -> bool {
    match (a, b) {
        (MenuState::ReplaySelect(v1, t1), MenuState::ReplaySelect(v2, t2)) => v1@ == v2@ && t1 == t2,
        (MenuState::ReplaySelect(_, _), _) => false,
        (_, MenuState::ReplaySelect(_, _)) => false,
        _ => a == b,
    }
}

/// Two optional menu states are the same.
pub open spec fn same_opt_state(a: Option<MenuState>, b: Option<MenuState>) -> bool {
    match (a, b) {
        (Some(x), Some(y)) => same_state(x, y),
        (None, None) => true,
        _ => false,
    }
}

impl MenuState {
    /// The replay list screen over the given replay names.
    pub fn replay_select(replays: Vec<String>) -> (r: MenuState)
        ensures
            r matches MenuState::ReplaySelect(v, t) && v@ == replays@ && t == MenuTicker::new(replays@.len() as usize),
    {
        let ticker = MenuTicker::new(replays.len());
        MenuState::ReplaySelect(replays, ticker)
    }

    /// The character select screen with the back button not held.
    #[verifier::allow_in_spec]
    pub fn character_select() -> MenuState
        returns
            (MenuState::CharacterSelect { back_counter: 0 }),
    {
        MenuState::CharacterSelect { back_counter: 0 }
    }

    /// The results screen before any replay was saved.
    #[verifier::allow_in_spec]
    pub fn game_results() -> MenuState
        returns
            (MenuState::GameResults { replay_saved: false }),
    {
        MenuState::GameResults { replay_saved: false }
    }

    /// A copy of the state.
    pub fn snapshot(&self) -> (r: MenuState)
        ensures
            same_state(r, *self),
    {
        match self {
            MenuState::GameSelect => MenuState::GameSelect,
            MenuState::ReplaySelect(replays, ticker) => {
                let copied = replays.clone();
                assert(copied@ =~= replays@);
                MenuState::ReplaySelect(copied, *ticker)
            },
            MenuState::CharacterSelect { back_counter } => MenuState::CharacterSelect { back_counter: *back_counter },
            MenuState::StageSelect => MenuState::StageSelect,
            MenuState::GameResults { replay_saved } => MenuState::GameResults { replay_saved: *replay_saved },
            MenuState::NetplayWait { message } => MenuState::NetplayWait { message: message.clone() },
        }
    }
}

} // verus!

verus! {

/// How the menu is entered again after a match.
#[derive(Clone, Debug)]
pub enum ResumeMenu {
    Results(GameResults),
    Unchanged,
    NetplayDisconnect { reason: String },
}

impl Default for ResumeMenu {
    fn default() -> (r: ResumeMenu)
        ensures
            r is Unchanged,
    {
        ResumeMenu::Unchanged
    }
}

/// Where the netplay connection stands.
#[derive(Clone, Debug)]
pub enum NetplayStatus {
    Offline,
    MatchMaking { region: String },
    InitConnection,
    PingTest,
    Disconnected { reason: String },
    Running,
}

/// What the menu reads from outside on a frame.
#[derive(Clone, Debug)]
pub struct MenuContext {
    /// The names of the package's fighters, in package order.
    pub fighter_names: Vec<String>,
    /// For each fighter, the number of frames of its character select animation, where it has one.
    pub css_frames: Vec<Option<usize>>,
    /// The names of the package's stages, in package order.
    pub stage_names: Vec<String>,
    /// The number of team colors.
    pub color_count: usize,
    /// The names of the saved replays.
    pub replay_names: Vec<String>,
    /// The configured netplay region, if any.
    pub netplay_region: Option<String>,
    /// Save the replay of every match without being asked.
    pub auto_save_replay: bool,
    /// Exactly one peer takes part (the local one).
    pub single_peer: bool,
    /// The seed a new match starts from.
    pub init_seed: u64,
    pub netplay: NetplayStatus,
}

/// Work the menu hands back for the caller to do.
#[derive(Clone, Debug)]
pub enum MenuCommand {
    ConnectMatchMaking { region: String, players: usize },
    SetOffline,
    LoadReplay(String),
    SaveReplay,
    StartGame(GameSetup),
}

/// A snapshot of the menu kept for each frame so netplay can roll back.
#[derive(Clone, Debug)]
pub struct NetplayHistory {
    pub state: MenuState,
    pub prev_state: Option<MenuState>,
    pub fighter_selections: Vec<PlayerSelect>,
    pub stage_ticker: Option<MenuTicker>,
}

/// The menus before and between matches.
/// Data that helps players is kept here when moving between screens;
/// data that must be refreshed, or goes stale, is kept in the `MenuState` variants.
#[derive(Debug)]
pub struct Menu {
    pub state: MenuState,
    /// Only populated when the current state needs to jump back to the previous state.
    pub prev_state: Option<MenuState>,
    pub fighter_selections: Vec<PlayerSelect>,
    pub game_ticker: MenuTicker,
    /// Remembers the selected stage once there is one.
    pub stage_ticker: Option<MenuTicker>,
    pub current_frame: usize,
    pub back_counter_max: usize,
    pub game_results: Option<GameResults>,
    pub netplay_history: Vec<NetplayHistory>,
}

/// The index of the last entry of a list of `n` items (0 for an empty list).
pub open spec fn last_index(n: nat) -> nat {
    if n > 0 { (n - 1) as nat } else { 0 }
}

/// The data a menu shows cannot make a step panic.
pub open spec fn state_wf(state: MenuState) -> bool {
    state matches MenuState::ReplaySelect(v, t) ==> t.wf() && t.cursor_max == last_index(v@.len())
}

/// The menu context is usable: fighters and animation counts match and no count is near overflow.
pub open spec fn context_wf(ctx: MenuContext) -> bool {
    &&& css_frames_wf(ctx.css_frames@, ctx.fighter_names@.len())
    &&& ctx.fighter_names@.len() + 3 <= usize::MAX
    &&& ctx.color_count + 1 <= usize::MAX
}

/// A snapshot of history is consistent for the given package.
pub open spec fn history_wf(h: NetplayHistory, fighter_count: nat, color_count: nat, stage_count: nat) -> bool {
    &&& state_wf(h.state)
    &&& h.prev_state matches Some(p) ==> state_wf(p) && !(p is GameResults) && (p is StageSelect ==> h.stage_ticker is Some)
    &&& selections_wf(h.fighter_selections@, fighter_count, color_count)
    &&& h.stage_ticker matches Some(t) ==> t.wf() && t.cursor_max == last_index(stage_count)
    &&& h.state is GameResults ==> h.prev_state is Some
    &&& h.state is StageSelect ==> h.stage_ticker is Some
}

impl Menu {
    /// The menu is consistent for a package of `fighter_count` fighters and `stage_count` stages, with `color_count` team colors.
    pub open spec fn wf(self, fighter_count: nat, color_count: nat, stage_count: nat) -> bool {
        &&& state_wf(self.state)
        &&& self.prev_state matches Some(p) ==> state_wf(p) && !(p is GameResults) && (p is StageSelect ==> self.stage_ticker is Some)
        &&& selections_wf(self.fighter_selections@, fighter_count, color_count)
        &&& self.game_ticker.wf() && self.game_ticker.cursor_max == 2
        &&& self.stage_ticker matches Some(t) ==> t.wf() && t.cursor_max == last_index(stage_count)
        &&& self.back_counter_max < usize::MAX
        &&& self.state is GameResults ==> self.prev_state is Some && self.game_results is Some
        &&& self.state is StageSelect ==> self.stage_ticker is Some
        &&& forall|i: int| 0 <= i < self.netplay_history@.len() ==> history_wf(#[trigger] self.netplay_history@[i], fighter_count, color_count, stage_count)
        &&& self.game_results is None ==> forall|i: int| 0 <= i < self.netplay_history@.len() ==> !((#[trigger] self.netplay_history@[i]).state is GameResults)
    }

    /// The menu is consistent for the package described by `ctx`.
    pub open spec fn wf_for(self, ctx: MenuContext) -> bool {
        self.wf(ctx.fighter_names@.len(), ctx.color_count as nat, ctx.stage_names@.len())
    }

    /// A menu showing `state`, with no slots, the game list at the top and the back button allowed 90 frames.
    pub fn new(state: MenuState) -> (r: Menu)
        ensures
            r.state == state,
            r.prev_state is None,
            r.fighter_selections@.len() == 0,
            r.stage_ticker is None,
            r.game_ticker == MenuTicker::new(3),
            r.current_frame == 0,
            r.back_counter_max == 90,
            r.game_results is None,
            r.netplay_history@.len() == 0,
    {
        Menu {
            state,
            prev_state: None,
            fighter_selections: Vec::new(),
            stage_ticker: None,
            game_ticker: MenuTicker::new(3),
            current_frame: 0,
            back_counter_max: 90,
            game_results: None,
            netplay_history: Vec::new(),
        }
    }

    /// Comes back to the menu after a match: after a disconnect it waits with the reason; after
    /// results it shows them and remembers where to return; otherwise it is unchanged.
    pub fn resume(&mut self, resume_menu: ResumeMenu)
        ensures
            final(self).current_frame == 0,
            final(self).fighter_selections@ == old(self).fighter_selections@,
            final(self).stage_ticker == old(self).stage_ticker,
            final(self).game_ticker == old(self).game_ticker,
            final(self).back_counter_max == old(self).back_counter_max,
            final(self).netplay_history@ == old(self).netplay_history@,
            forall|f: nat, c: nat, sc: nat| old(self).wf(f, c, sc) && !(old(self).state is GameResults) ==> #[trigger] final(self).wf(f, c, sc),
            match resume_menu {
                ResumeMenu::NetplayDisconnect { reason } => final(self).state == (MenuState::NetplayWait { message: reason })
                    && final(self).prev_state == old(self).prev_state && final(self).game_results == old(self).game_results,
                ResumeMenu::Results(results) => final(self).state == MenuState::game_results()
                    && final(self).prev_state == Some(old(self).state) && final(self).game_results == Some(results),
                ResumeMenu::Unchanged => final(self).state == old(self).state
                    && final(self).prev_state == old(self).prev_state && final(self).game_results == old(self).game_results,
            },
    {
        self.current_frame = 0;
        match resume_menu {
            ResumeMenu::NetplayDisconnect { reason } => {
                self.state = MenuState::NetplayWait { message: reason };
            },
            ResumeMenu::Results(results) => {
                self.game_results = Some(results);
                let mut previous = MenuState::game_results();
                std::mem::swap(&mut self.state, &mut previous);
                self.prev_state = Some(previous);
            },
            ResumeMenu::Unchanged => {},
        }
    }
}

} // verus!

verus! {

/// A button or direction that menu screens react to when any controller gives it.
#[derive(Clone, Copy, Debug, PartialEq, Eq, Structural)]
pub enum MenuButton {
    Up,
    Down,
    AOrStart,
    BPress,
    Start,
    BHeld,
    AOrB,
    LAndR,
}

/// The input gives `button`.
pub open spec fn gives(input: MenuInput, button: MenuButton) -> bool {
    match button {
        MenuButton::Up => input.up,
        MenuButton::Down => input.down,
        MenuButton::AOrStart => input.a_press || input.start_press,
        MenuButton::BPress => input.b_press,
        MenuButton::Start => input.start_press,
        MenuButton::BHeld => input.b_held,
        MenuButton::AOrB => input.a_press || input.b_press,
        MenuButton::LAndR => input.l_press && input.r_press,
    }
}

/// Some controller gives `button`.
pub open spec fn any_gives(inputs: Seq<MenuInput>, button: MenuButton) -> bool {
    exists|i: int| 0 <= i < inputs.len() && #[trigger] gives(inputs[i], button)
}

/// Whether any controller gives `button`.
pub fn any_input(player_inputs: &Vec<MenuInput>, button: MenuButton) -> (r: bool)
    ensures
        r == any_gives(player_inputs@, button),
{
    let mut i: usize = 0;
    while i < player_inputs.len()
        invariant
            i <= player_inputs@.len(),
            forall|j: int| 0 <= j < i ==> !#[trigger] gives(player_inputs@[j], button),
        decreases player_inputs@.len() - i,
    {
        let input = player_inputs[i];
        let given = match button {
            MenuButton::Up => input.up,
            MenuButton::Down => input.down,
            MenuButton::AOrStart => input.a_press || input.start_press,
            MenuButton::BPress => input.b_press,
            MenuButton::Start => input.start_press,
            MenuButton::BHeld => input.b_held,
            MenuButton::AOrB => input.a_press || input.b_press,
            MenuButton::LAndR => input.l_press && input.r_press,
        };
        if given {
            assert(gives(player_inputs@[i as int], button));
            return true;
        }
        i = i + 1;
    }
    false
}

/// A list scrolled by all controllers together: up wins over down, and neither resets the ticker.
pub open spec fn scrolled_by_all(t: MenuTicker, inputs: Seq<MenuInput>) -> MenuTicker {
    if any_gives(inputs, MenuButton::Up) {
        t.spec_up()
    } else if any_gives(inputs, MenuButton::Down) {
        t.spec_down()
    } else {
        MenuTicker { reset: true, ..t }
    }
}

/// Scrolls a list with all controllers together.
fn scroll_by_all(ticker: &mut MenuTicker, player_inputs: &Vec<MenuInput>)
    requires
        old(ticker).wf(),
    ensures
        final(ticker).wf(),
        *final(ticker) == scrolled_by_all(*old(ticker), player_inputs@),
{
    if any_input(player_inputs, MenuButton::Up) {
        ticker.up();
    } else if any_input(player_inputs, MenuButton::Down) {
        ticker.down();
    } else {
        ticker.reset();
    }
}

/// The region to search for a match in: the configured one, or "AU".
pub open spec fn match_making_region(ctx: MenuContext) -> Seq<char> {
    match ctx.netplay_region {
        Some(r) => r@,
        None => "AU"@,
    }
}

impl Menu {
    /// The fields a screen step does not touch are unchanged.
    pub open spec fn keeps_history(self, other: Menu) -> bool {
        &&& other.netplay_history@ == self.netplay_history@
        &&& other.current_frame == self.current_frame
        &&& other.back_counter_max == self.back_counter_max
        &&& other.game_results == self.game_results
    }

    /// The game list: scroll it, and on A or Start (when there are stages) open local play,
    /// online match making, or the replay list.
    pub fn step_game_select(&mut self, ctx: &MenuContext, player_inputs: &Vec<MenuInput>) -> (command: Option<MenuCommand>)
        requires
            old(self).wf_for(*ctx),
        ensures
            final(self).wf_for(*ctx),
            old(self).keeps_history(*final(self)),
            game_select_post(*old(self), *final(self), *ctx, player_inputs@, command),
    {
        scroll_by_all(&mut self.game_ticker, player_inputs);
        if any_input(player_inputs, MenuButton::AOrStart) && ctx.stage_names.len() > 0 {
            match self.game_ticker.cursor {
                0 => {
                    self.state = MenuState::character_select();
                    None
                },
                1 => {
                    let region = match &ctx.netplay_region {
                        Some(region) => region.clone(),
                        None => string_of("AU"),
                    };
                    self.state = MenuState::NetplayWait { message: String::new() };
                    Some(MenuCommand::ConnectMatchMaking { region, players: 2 })
                },
                2 => {
                    self.state = MenuState::replay_select(ctx.replay_names.clone());
                    None
                },
                _ => unreached(),
            }
        } else {
            None
        }
    }
}

} // verus!

verus! {

impl Menu {
    /// The replay list: scroll it; on A or Start ask for the replay under the cursor to be
    /// loaded; on B go back to the game list.
    pub fn step_replay_select(&mut self, ctx: &MenuContext, player_inputs: &Vec<MenuInput>) -> (command: Option<MenuCommand>)
        requires
            old(self).state is ReplaySelect,
            old(self).wf_for(*ctx),
        ensures
            final(self).wf_for(*ctx),
            old(self).keeps_history(*final(self)),
            replay_select_post(*old(self), *final(self), *ctx, player_inputs@, command),
    {
        let mut state = MenuState::GameSelect;
        std::mem::swap(&mut self.state, &mut state);
        match state {
            MenuState::ReplaySelect(replays, mut ticker) => {
                scroll_by_all(&mut ticker, player_inputs);
                if any_input(player_inputs, MenuButton::AOrStart) && replays.len() > 0 {
                    let name = replays[ticker.cursor].clone();
                    self.state = MenuState::ReplaySelect(replays, ticker);
                    Some(MenuCommand::LoadReplay(name))
                } else if any_input(player_inputs, MenuButton::BPress) {
                    self.state = MenuState::GameSelect;
                    None
                } else {
                    self.state = MenuState::ReplaySelect(replays, ticker);
                    None
                }
            },
            _ => unreached(),
        }
    }

    /// The character select screen. Slots are rebuilt when controllers were added or removed;
    /// on the character select screen the slots take a frame of input, Start (with fighters
    /// available) goes on to stage select, and holding B long enough goes back to the game list.
    pub fn step_fighter_select(&mut self, ctx: &MenuContext, player_inputs: &Vec<MenuInput>) -> (command: Option<MenuCommand>)
        requires
            old(self).wf_for(*ctx),
            context_wf(*ctx),
        ensures
            final(self).wf_for(*ctx),
            old(self).keeps_history(*final(self)),
            fighter_select_post(*old(self), *final(self), *ctx, player_inputs@, command),
    {
        let fighter_count = ctx.fighter_names.len();
        let input_count = player_inputs.len();
        let ghost n = player_inputs@.len();
        let ghost old_s = self.fighter_selections@;
        add_remove_fighter_selections(&mut self.fighter_selections, fighter_count, player_inputs);
        proof {
            if count_humans(old_s) != n {
                lemma_rebuilt_wf(player_inputs@, fighter_count as nat, ctx.color_count as nat);
            }
        }
        assert(selections_wf_with(self.fighter_selections@, n, fighter_count as nat, ctx.color_count as nat));
        let mut command: Option<MenuCommand> = None;
        if let MenuState::CharacterSelect { back_counter } = self.state {
            step_selections(&mut self.fighter_selections, &ctx.css_frames, player_inputs, fighter_count, ctx.color_count);
            if any_input(player_inputs, MenuButton::Start) && fighter_count > 0 {
                if self.stage_ticker.is_none() {
                    self.stage_ticker = Some(MenuTicker::new(ctx.stage_names.len()));
                }
                self.state = MenuState::StageSelect;
            } else if any_input(player_inputs, MenuButton::BHeld) {
                if back_counter > self.back_counter_max {
                    command = Some(MenuCommand::SetOffline);
                    self.state = MenuState::GameSelect;
                } else {
                    self.state = MenuState::CharacterSelect { back_counter: back_counter + 1 };
                }
            } else {
                self.state = MenuState::CharacterSelect { back_counter: 0 };
            }
        }
        proof { lemma_count_humans(self.fighter_selections@, n); }
        command
    }
}

} // verus!

verus! {

/// The slot joins the match as a player: a plugged in human or a CPU, with a fighter chosen.
pub open spec fn joins(sel: PlayerSelect) -> bool {
    (sel.ui.is_human_plugged_in() || sel.ui.is_cpu()) && sel.fighter is Some
}

/// The players of the first `n` slots that join the match, in slot order.
pub open spec fn setup_players(s: Seq<PlayerSelect>, names: Seq<String>, n: nat) -> Seq<PlayerSetup>
    decreases n,
{
    if n == 0 {
        Seq::empty()
    } else {
        let p = setup_players(s, names, (n - 1) as nat);
        let sel = s[n - 1];
        if joins(sel) {
            p.push(PlayerSetup { fighter: names[sel.fighter.unwrap() as int], team: sel.team })
        } else {
            p
        }
    }
}

/// How many of the first `n` slots are CPUs without a fighter.
pub open spec fn cpus_skipped(s: Seq<PlayerSelect>, n: nat) -> nat
    decreases n,
{
    if n == 0 {
        0
    } else {
        cpus_skipped(s, (n - 1) as nat) + if s[n - 1].ui.is_cpu() && s[n - 1].fighter is None { 1nat } else { 0nat }
    }
}

/// The controller of each player of the first `n` slots: a human's slot index, and for a CPU
/// its slot index less the CPUs without a fighter before it.
pub open spec fn setup_controllers(s: Seq<PlayerSelect>, n: nat) -> Seq<usize>
    decreases n,
{
    if n == 0 {
        Seq::empty()
    } else {
        let c = setup_controllers(s, (n - 1) as nat);
        let sel = s[n - 1];
        if joins(sel) {
            if sel.ui.is_human_plugged_in() {
                c.push((n - 1) as usize)
            } else {
                c.push((n - 1 - cpus_skipped(s, (n - 1) as nat)) as usize)
            }
        } else {
            c
        }
    }
}

/// One AI (number 0) for each CPU player of the first `n` slots.
pub open spec fn setup_ais(s: Seq<PlayerSelect>, n: nat) -> Seq<usize>
    decreases n,
{
    if n == 0 {
        Seq::empty()
    } else {
        let a = setup_ais(s, (n - 1) as nat);
        if joins(s[n - 1]) && s[n - 1].ui.is_cpu() {
            a.push(0usize)
        } else {
            a
        }
    }
}

/// How many of the first `n` slots join the match, and how many of those are CPUs.
pub open spec fn joining_counts(s: Seq<PlayerSelect>, n: nat) -> (nat, nat)
    decreases n,
{
    if n == 0 {
        (0, 0)
    } else {
        let (all, cpus) = joining_counts(s, (n - 1) as nat);
        let sel = s[n - 1];
        if joins(sel) {
            (all + 1, if sel.ui.is_cpu() { cpus + 1 } else { cpus })
        } else {
            (all, cpus)
        }
    }
}

/// A match set up from the menus has one player and one controller for each slot that
/// joins it (a plugged-in human or a CPU, with a fighter chosen), and one AI for each CPU
/// among them.
pub proof fn lemma_setup_counts(s: Seq<PlayerSelect>, names: Seq<String>, n: nat)
    ensures
        setup_players(s, names, n).len() == joining_counts(s, n).0,
        setup_controllers(s, n).len() == joining_counts(s, n).0,
        setup_ais(s, n).len() == joining_counts(s, n).1,
    decreases n,
{
    if n > 0 {
        lemma_setup_counts(s, names, (n - 1) as nat);
    }
}

/// How many of the first `n` slots `pred` holds of.
pub open spec fn count_slots(s: Seq<PlayerSelect>, n: nat, pred: spec_fn(PlayerSelect) -> bool) -> nat
    decreases n,
{
    if n == 0 {
        0
    } else {
        count_slots(s, (n - 1) as nat, pred) + if pred(s[n - 1]) { 1nat } else { 0nat }
    }
}

proof fn lemma_cpus_skipped_counts(s: Seq<PlayerSelect>, n: nat)
    ensures
        cpus_skipped(s, n) == count_slots(s, n, |x: PlayerSelect| x.ui.is_cpu() && x.fighter is None),
    decreases n,
{
    if n > 0 {
        lemma_cpus_skipped_counts(s, (n - 1) as nat);
    }
}

/// Who plays a match set up from the menus: every plugged-in human and every CPU that chose a
/// fighter brings one player with that fighter and its team, and one controller; every CPU
/// among them brings one AI; nobody else plays.
pub proof fn lemma_setup_players_are_the_chosen(s: Seq<PlayerSelect>, names: Seq<String>, n: nat)
    requires
        n <= usize::MAX,
    ensures
        forall|w: int| 0 <= w < setup_ais(s, n).len() ==> #[trigger] setup_ais(s, n)[w] == 0,
        forall|k: int|
            0 <= k < n && (#[trigger] s[k]).ui.is_human_plugged_in() && s[k].fighter is Some ==> setup_controllers(
                s,
                n,
            ).contains(k as usize),
        forall|k: int|
            0 <= k < n && (#[trigger] s[k]).ui.is_cpu() && s[k].fighter is Some ==> setup_controllers(s, n).contains(
                (k - count_slots(s, k as nat, |x: PlayerSelect| x.ui.is_cpu() && x.fighter is None)) as usize,
            ),
        setup_ais(s, n).len() == count_slots(s, n, |x: PlayerSelect| x.ui.is_cpu() && x.fighter is Some),
        setup_players(s, names, n).len() == count_slots(
            s,
            n,
            |x: PlayerSelect| (x.ui.is_human_plugged_in() || x.ui.is_cpu()) && x.fighter is Some,
        ),
        setup_controllers(s, n).len() == setup_players(s, names, n).len(),
        forall|k: int|
            0 <= k < n && (s[k].ui.is_human_plugged_in() || s[k].ui.is_cpu()) && (#[trigger] s[k]).fighter is Some
                ==> setup_players(s, names, n).contains(
                PlayerSetup { fighter: names[s[k].fighter.unwrap() as int], team: s[k].team },
            ),
    decreases n,
{
    if n > 0 {
        let m = (n - 1) as nat;
        lemma_setup_players_are_the_chosen(s, names, m);
        let before = setup_players(s, names, m);
        let after = setup_players(s, names, n);
        assert forall|k: int|
            0 <= k < n && (s[k].ui.is_human_plugged_in() || s[k].ui.is_cpu()) && (#[trigger] s[k]).fighter is Some
                implies after.contains(PlayerSetup { fighter: names[s[k].fighter.unwrap() as int], team: s[k].team }) by {
            let x = PlayerSetup { fighter: names[s[k].fighter.unwrap() as int], team: s[k].team };
            if k < m {
                let w = choose|w: int| 0 <= w < before.len() && before[w] == x;
                assert(after[w] == x);
            } else {
                assert(after[before.len() as int] == x);
            }
        }
        let cb = setup_controllers(s, m);
        let ca = setup_controllers(s, n);
        assert forall|k: int|
            0 <= k < n && (#[trigger] s[k]).ui.is_human_plugged_in() && s[k].fighter is Some implies ca.contains(k as usize) by {
            if k < m {
                let w = choose|w: int| 0 <= w < cb.len() && cb[w] == k as usize;
                assert(ca[w] == k as usize);
            } else {
                assert(ca[cb.len() as int] == k as usize);
            }
        }
        assert(cpus_skipped(s, m) == count_slots(s, m, |x: PlayerSelect| x.ui.is_cpu() && x.fighter is None)) by {
            lemma_cpus_skipped_counts(s, m);
        }
        assert forall|k: int|
            0 <= k < n && (#[trigger] s[k]).ui.is_cpu() && s[k].fighter is Some implies ca.contains(
                (k - count_slots(s, k as nat, |x: PlayerSelect| x.ui.is_cpu() && x.fighter is None)) as usize,
            ) by {
            let x = (k - count_slots(s, k as nat, |x: PlayerSelect| x.ui.is_cpu() && x.fighter is None)) as usize;
            if k < m {
                let w = choose|w: int| 0 <= w < cb.len() && cb[w] == x;
                assert(ca[w] == x);
            } else {
                assert(!s[k].ui.is_human_plugged_in());
                assert(ca[cb.len() as int] == x);
            }
        }
        let ab = setup_ais(s, m);
        let aa = setup_ais(s, n);
        assert forall|w: int| 0 <= w < aa.len() implies #[trigger] aa[w] == 0 by {
            if w < ab.len() {
                assert(aa[w] == ab[w]);
            }
        }
    }
}

proof fn lemma_cpus_skipped_le(s: Seq<PlayerSelect>, n: nat)
    requires
        n <= s.len(),
    ensures
        cpus_skipped(s, n) <= n,
    decreases n,
{
    if n > 0 {
        lemma_cpus_skipped_le(s, (n - 1) as nat);
    }
}

impl Menu {
    /// The match chosen on the character and stage select screens.
    pub fn game_setup(&self, ctx: &MenuContext) -> (setup: GameSetup)
        requires
            self.wf_for(*ctx),
            self.stage_ticker is Some,
            ctx.stage_names@.len() > 0,
        ensures
            setup.players@ == setup_players(self.fighter_selections@, ctx.fighter_names@, self.fighter_selections@.len()),
            setup.controllers@ == setup_controllers(self.fighter_selections@, self.fighter_selections@.len()),
            setup.ais@ == setup_ais(self.fighter_selections@, self.fighter_selections@.len()),
            setup.stage == ctx.stage_names@[self.stage_ticker.unwrap().cursor as int],
            if ctx.single_peer { setup.state is Local } else { setup.state is Netplay },
            setup.init_seed == ctx.init_seed,
            setup.rules == Rules::spec_default(),
            !setup.debug,
            setup.max_history_frames is None,
            setup.current_frame == 0,
            setup.deleted_history_frames == 0,
            setup.edit == Edit::Stage,
    {
        let mut players: Vec<PlayerSetup> = Vec::new();
        let mut controllers: Vec<usize> = Vec::new();
        let mut ais: Vec<usize> = Vec::new();
        let mut ais_skipped: usize = 0;
        let ghost s = self.fighter_selections@;
        let ghost f = ctx.fighter_names@.len();
        let mut i: usize = 0;
        while i < self.fighter_selections.len()
            invariant
                s == self.fighter_selections@,
                i <= s.len(),
                selections_wf(s, f, ctx.color_count as nat),
                players@ == setup_players(s, ctx.fighter_names@, i as nat),
                controllers@ == setup_controllers(s, i as nat),
                ais@ == setup_ais(s, i as nat),
                ais_skipped == cpus_skipped(s, i as nat),
                f == ctx.fighter_names@.len(),
            decreases s.len() - i,
        {
            let selection = self.fighter_selections[i];
            proof { lemma_cpus_skipped_le(s, i as nat); }
            assert(selection.fighter matches Some(k) ==> k < f);
            if selection.ui.is_human_plugged_in() {
                if let Some(fighter) = selection.fighter {
                    players.push(PlayerSetup { fighter: ctx.fighter_names[fighter].clone(), team: selection.team });
                    controllers.push(i);
                }
            }
            if selection.ui.is_cpu() {
                if let Some(fighter) = selection.fighter {
                    players.push(PlayerSetup { fighter: ctx.fighter_names[fighter].clone(), team: selection.team });
                    controllers.push(i - ais_skipped);
                    ais.push(0);
                } else {
                    ais_skipped = ais_skipped + 1;
                }
            }
            assert(players@ =~= setup_players(s, ctx.fighter_names@, (i + 1) as nat));
            assert(controllers@ =~= setup_controllers(s, (i + 1) as nat));
            assert(ais@ =~= setup_ais(s, (i + 1) as nat));
            i = i + 1;
        }
        let stage_cursor = match self.stage_ticker {
            Some(ticker) => ticker.cursor,
            None => unreached(),
        };
        let stage = ctx.stage_names[stage_cursor].clone();
        let state = if ctx.single_peer { GameState::Local } else { GameState::Netplay };
        GameSetup {
            init_seed: ctx.init_seed,
            controllers,
            players,
            ais,
            stage,
            state,
            rules: Rules::default(),
            debug: false,
            max_history_frames: None,
            deleted_history_frames: 0,
            current_frame: 0,
            edit: Edit::Stage,
        }
    }

    /// The stage list: scroll it; on A or Start (with stages available) start the match;
    /// on B go back to character select.
    pub fn step_stage_select(&mut self, ctx: &MenuContext, player_inputs: &Vec<MenuInput>) -> (command: Option<MenuCommand>)
        requires
            old(self).wf_for(*ctx),
        ensures
            final(self).wf_for(*ctx),
            old(self).keeps_history(*final(self)),
            stage_select_post(*old(self), *final(self), *ctx, player_inputs@, command),
    {
        if self.stage_ticker.is_none() {
            self.stage_ticker = Some(MenuTicker::new(ctx.stage_names.len()));
        }
        let mut ticker = match self.stage_ticker {
            Some(ticker) => ticker,
            None => unreached(),
        };
        scroll_by_all(&mut ticker, player_inputs);
        self.stage_ticker = Some(ticker);
        if any_input(player_inputs, MenuButton::AOrStart) && ctx.stage_names.len() > 0 {
            Some(MenuCommand::StartGame(self.game_setup(ctx)))
        } else if any_input(player_inputs, MenuButton::BPress) {
            self.state = MenuState::character_select();
            None
        } else {
            None
        }
    }

    /// The results screen: A or Start goes back to where the match was started from; while the
    /// results are shown, the replay is saved once, when configured to or when L and R are pressed together.
    pub fn step_results(&mut self, ctx: &MenuContext, player_inputs: &Vec<MenuInput>) -> (command: Option<MenuCommand>)
        requires
            old(self).wf_for(*ctx),
            old(self).state is GameResults,
        ensures
            final(self).wf_for(*ctx),
            old(self).keeps_history(*final(self)),
            results_post(*old(self), *final(self), *ctx, player_inputs@, command),
    {
        if any_input(player_inputs, MenuButton::AOrStart) {
            let previous = self.prev_state.take();
            match previous {
                Some(state) => { self.state = state; },
                None => unreached(),
            }
        }
        if let MenuState::GameResults { replay_saved } = self.state {
            if !replay_saved && (ctx.auto_save_replay || any_input(player_inputs, MenuButton::LAndR)) {
                self.state = MenuState::GameResults { replay_saved: true };
                return Some(MenuCommand::SaveReplay);
            }
        }
        None
    }
}

} // verus!

verus! {

/// The spinner shown while waiting, turning every five frames.
pub open spec fn spinner(frame: nat) -> Seq<char> {
    let i = (frame / 5) % 4;
    if i == 0 {
        "|"@
    } else if i == 1 {
        "/"@
    } else if i == 2 {
        "-"@
    } else {
        "\\"@
    }
}

/// The message shown while the connection is being set up, or none when there is nothing to show.
pub open spec fn waiting_message(netplay: NetplayStatus, frame: nat) -> Option<Seq<char>> {
    match netplay {
        NetplayStatus::MatchMaking { region } => Some("Searching for online match in "@ + region@ + " "@ + spinner(frame)),
        NetplayStatus::InitConnection => Some("Connecting to peer "@ + spinner(frame)),
        NetplayStatus::PingTest => Some("Testing ping "@ + spinner(frame)),
        _ => None,
    }
}

/// The spinner for a frame.
fn spinner_text(frame: usize) -> (r: &'static str)
    ensures
        r@ == spinner(frame as nat),
{
    let loading_characters: [&'static str; 4] = ["|", "/", "-", "\\"];
    let i = (frame / 5) % 4;
    loading_characters[i]
}

impl Menu {
    /// Waiting for netplay: B gives up; while searching, connecting or testing the ping the
    /// message says so (and B also goes offline); once disconnected, A or B goes offline;
    /// once running, go to character select.
    pub fn step_netplay_wait(&mut self, ctx: &MenuContext, player_inputs: &Vec<MenuInput>) -> (command: Option<MenuCommand>)
        requires
            old(self).wf_for(*ctx),
        ensures
            final(self).wf_for(*ctx),
            old(self).keeps_history(*final(self)),
            netplay_wait_post(*old(self), *final(self), *ctx, player_inputs@, command),
    {
        let back = any_input(player_inputs, MenuButton::BPress);
        proof {
            if back {
                let i = choose|i: int| 0 <= i < player_inputs@.len() && #[trigger] gives(player_inputs@[i], MenuButton::BPress);
                assert(gives(player_inputs@[i], MenuButton::AOrB));
            }
        }
        if back {
            self.state = MenuState::GameSelect;
        }
        let load_character = spinner_text(self.current_frame);
        match &ctx.netplay {
            NetplayStatus::Offline => None,
            NetplayStatus::MatchMaking { region } => {
                let mut message = string_of("Searching for online match in ");
                message.append(region.as_str());
                message.append(" ");
                message.append(load_character);
                self.state = MenuState::NetplayWait { message };
                if back {
                    self.state = MenuState::GameSelect;
                    Some(MenuCommand::SetOffline)
                } else {
                    None
                }
            },
            NetplayStatus::InitConnection => {
                let mut message = string_of("Connecting to peer ");
                message.append(load_character);
                self.state = MenuState::NetplayWait { message };
                if back {
                    self.state = MenuState::GameSelect;
                    Some(MenuCommand::SetOffline)
                } else {
                    None
                }
            },
            NetplayStatus::PingTest => {
                let mut message = string_of("Testing ping ");
                message.append(load_character);
                self.state = MenuState::NetplayWait { message };
                if back {
                    self.state = MenuState::GameSelect;
                    Some(MenuCommand::SetOffline)
                } else {
                    None
                }
            },
            NetplayStatus::Disconnected { .. } => {
                if any_input(player_inputs, MenuButton::AOrB) {
                    self.state = MenuState::GameSelect;
                    Some(MenuCommand::SetOffline)
                } else {
                    None
                }
            },
            NetplayStatus::Running => {
                self.state = MenuState::character_select();
                None
            },
        }
    }
}

} // verus!

verus! {

/// What `Menu::step_game_select` does: how the menu after it relates to the menu before, and the command it hands back.
pub open spec fn game_select_post(pre: Menu, post: Menu, ctx: MenuContext, inputs: Seq<MenuInput>, command: Option<MenuCommand>) -> bool {
    &&& (post.prev_state == pre.prev_state)
    &&& (post.fighter_selections@ == pre.fighter_selections@)
    &&& (post.stage_ticker == pre.stage_ticker)
    &&& (post.game_ticker == scrolled_by_all(pre.game_ticker, inputs))
    &&& ({
        let cursor = post.game_ticker.cursor;
        if any_gives(inputs, MenuButton::AOrStart) && ctx.stage_names@.len() > 0 {
            if cursor == 0 {
                post.state == MenuState::character_select() && command is None
            } else if cursor == 1 {
                &&& post.state is NetplayWait
                &&& post.state->message@ == Seq::<char>::empty()
                &&& command matches Some(MenuCommand::ConnectMatchMaking { region, players })
                &&& region@ == match_making_region(ctx)
                &&& players == 2
            } else {
                &&& post.state matches MenuState::ReplaySelect(v, t)
                &&& v@ == ctx.replay_names@
                &&& t == MenuTicker::new(ctx.replay_names@.len() as usize)
                &&& command is None
            }
        } else {
            post.state == pre.state && command is None
        }
    })
}

/// What `Menu::step_replay_select` does: how the menu after it relates to the menu before, and the command it hands back.
pub open spec fn replay_select_post(pre: Menu, post: Menu, ctx: MenuContext, inputs: Seq<MenuInput>, command: Option<MenuCommand>) -> bool {
    &&& (post.prev_state == pre.prev_state)
    &&& (post.fighter_selections@ == pre.fighter_selections@)
    &&& (post.stage_ticker == pre.stage_ticker)
    &&& (post.game_ticker == pre.game_ticker)
    &&& ({
        let v = pre.state->ReplaySelect_0;
        let t = scrolled_by_all(pre.state->ReplaySelect_1, inputs);
        if any_gives(inputs, MenuButton::AOrStart) && v@.len() > 0 {
            &&& post.state matches MenuState::ReplaySelect(v2, t2)
            &&& v2@ == v@
            &&& t2 == t
            &&& command matches Some(MenuCommand::LoadReplay(name))
            &&& name == v@[t.cursor as int]
        } else if any_gives(inputs, MenuButton::BPress) {
            post.state is GameSelect && command is None
        } else {
            &&& post.state matches MenuState::ReplaySelect(v2, t2)
            &&& v2@ == v@
            &&& t2 == t
            &&& command is None
        }
    })
}

/// What `Menu::step_fighter_select` does: how the menu after it relates to the menu before, and the command it hands back.
pub open spec fn fighter_select_post(pre: Menu, post: Menu, ctx: MenuContext, inputs: Seq<MenuInput>, command: Option<MenuCommand>) -> bool {
    &&& (post.prev_state == pre.prev_state)
    &&& (post.game_ticker == pre.game_ticker)
    &&& ({
        let f = ctx.fighter_names@.len() as usize;
        let s1 = spec_add_remove(pre.fighter_selections@, inputs, f);
        match pre.state {
            MenuState::CharacterSelect { back_counter } => {
                &&& post.fighter_selections@ == spec_step_selections(s1, inputs, ctx.css_frames@, f, ctx.color_count)
                &&& if any_gives(inputs, MenuButton::Start) && f > 0 {
                    &&& post.state is StageSelect
                    &&& post.stage_ticker == if pre.stage_ticker is None {
                        Some(MenuTicker::new(ctx.stage_names@.len() as usize))
                    } else {
                        pre.stage_ticker
                    }
                    &&& command is None
                } else if any_gives(inputs, MenuButton::BHeld) {
                    &&& post.stage_ticker == pre.stage_ticker
                    &&& if back_counter > pre.back_counter_max {
                        post.state is GameSelect && command matches Some(MenuCommand::SetOffline)
                    } else {
                        post.state == (MenuState::CharacterSelect { back_counter: (back_counter + 1) as usize })
                            && command is None
                    }
                } else {
                    &&& post.stage_ticker == pre.stage_ticker
                    &&& post.state == MenuState::character_select()
                    &&& command is None
                }
            },
            _ => {
                &&& post.fighter_selections@ == s1
                &&& post.state == pre.state
                &&& post.stage_ticker == pre.stage_ticker
                &&& command is None
            },
        }
    })
}

/// What `Menu::step_stage_select` does: how the menu after it relates to the menu before, and the command it hands back.
pub open spec fn stage_select_post(pre: Menu, post: Menu, ctx: MenuContext, inputs: Seq<MenuInput>, command: Option<MenuCommand>) -> bool {
    &&& (post.prev_state == pre.prev_state)
    &&& (post.fighter_selections@ == pre.fighter_selections@)
    &&& (post.game_ticker == pre.game_ticker)
    &&& (post.stage_ticker == Some(scrolled_by_all(
        match pre.stage_ticker { Some(t) => t, None => MenuTicker::new(ctx.stage_names@.len() as usize) },
        inputs,
    )))
    &&& (if any_gives(inputs, MenuButton::AOrStart) && ctx.stage_names@.len() > 0 {
        &&& post.state == pre.state
        &&& command matches Some(MenuCommand::StartGame(setup))
        &&& setup.players@ == setup_players(pre.fighter_selections@, ctx.fighter_names@, pre.fighter_selections@.len())
        &&& setup.controllers@ == setup_controllers(pre.fighter_selections@, pre.fighter_selections@.len())
        &&& setup.ais@ == setup_ais(pre.fighter_selections@, pre.fighter_selections@.len())
        &&& setup.stage == ctx.stage_names@[post.stage_ticker.unwrap().cursor as int]
        &&& (if ctx.single_peer { setup.state is Local } else { setup.state is Netplay })
        &&& setup.init_seed == ctx.init_seed
    } else if any_gives(inputs, MenuButton::BPress) {
        post.state == MenuState::character_select() && command is None
    } else {
        post.state == pre.state && command is None
    })
}

/// What `Menu::step_results` does: how the menu after it relates to the menu before, and the command it hands back.
pub open spec fn results_post(pre: Menu, post: Menu, ctx: MenuContext, inputs: Seq<MenuInput>, command: Option<MenuCommand>) -> bool {
    &&& (post.fighter_selections@ == pre.fighter_selections@)
    &&& (post.game_ticker == pre.game_ticker)
    &&& (post.stage_ticker == pre.stage_ticker)
    &&& (if any_gives(inputs, MenuButton::AOrStart) {
        post.state == pre.prev_state.unwrap() && post.prev_state is None && command is None
    } else {
        &&& post.prev_state == pre.prev_state
        &&& if !pre.state->replay_saved && (ctx.auto_save_replay || any_gives(inputs, MenuButton::LAndR)) {
            post.state == (MenuState::GameResults { replay_saved: true }) && command matches Some(MenuCommand::SaveReplay)
        } else {
            post.state == pre.state && command is None
        }
    })
}

/// What `Menu::step_netplay_wait` does: how the menu after it relates to the menu before, and the command it hands back.
pub open spec fn netplay_wait_post(pre: Menu, post: Menu, ctx: MenuContext, inputs: Seq<MenuInput>, command: Option<MenuCommand>) -> bool {
    &&& (post.prev_state == pre.prev_state)
    &&& (post.fighter_selections@ == pre.fighter_selections@)
    &&& (post.game_ticker == pre.game_ticker)
    &&& (post.stage_ticker == pre.stage_ticker)
    &&& (ctx.netplay is Offline ==> command is None && if any_gives(inputs, MenuButton::BPress) {
        post.state is GameSelect
    } else {
        post.state == pre.state
    })
    &&& (ctx.netplay is Running ==> post.state == MenuState::character_select() && command is None)
    &&& (ctx.netplay is Disconnected ==> if any_gives(inputs, MenuButton::AOrB) {
        post.state is GameSelect && command matches Some(MenuCommand::SetOffline)
    } else {
        post.state == pre.state && command is None
    })
    &&& (waiting_message(ctx.netplay, pre.current_frame as nat) is Some ==> if any_gives(inputs, MenuButton::BPress) {
        post.state is GameSelect && command matches Some(MenuCommand::SetOffline)
    } else {
        &&& post.state is NetplayWait
        &&& Some(post.state->message@) == waiting_message(ctx.netplay, pre.current_frame as nat)
        &&& command is None
    })
}

} // verus!

verus! {

/// A snapshot of history holds the menu's screen, previous screen, slots and stage ticker.
pub open spec fn snapshot_of(h: NetplayHistory, m: Menu) -> bool {
    &&& same_state(h.state, m.state)
    &&& same_opt_state(h.prev_state, m.prev_state)
    &&& h.fighter_selections@ == m.fighter_selections@
    &&& h.stage_ticker == m.stage_ticker
}

/// Rolling back restores what was recorded: a menu restored from a snapshot shows the same
/// screen, previous screen, slots and stage cursor as the menu the snapshot was recorded of.
pub proof fn lemma_rollback_restores_recorded(h: NetplayHistory, recorded: Menu, restored: Menu)
    requires
        snapshot_of(h, recorded),
        snapshot_of(h, restored),
    ensures
        same_state(recorded.state, restored.state),
        same_opt_state(recorded.prev_state, restored.prev_state),
        recorded.fighter_selections@ == restored.fighter_selections@,
        recorded.stage_ticker == restored.stage_ticker,
{
    lemma_same_state_through(h.state, recorded.state, restored.state);
    match (h.prev_state, recorded.prev_state, restored.prev_state) {
        (Some(x), Some(a), Some(b)) => lemma_same_state_through(x, a, b),
        _ => {},
    }
}

/// Two states the same as a third are the same.
proof fn lemma_same_state_through(x: MenuState, a: MenuState, b: MenuState)
    requires
        same_state(x, a),
        same_state(x, b),
    ensures
        same_state(a, b),
{
}

/// Copies an optional state.
fn snapshot_opt(state: &Option<MenuState>) -> (r: Option<MenuState>)
    ensures
        same_opt_state(r, *state),
{
    match state {
        Some(s) => Some(s.snapshot()),
        None => None,
    }
}

/// Copies the slots.
fn copy_selections(selections: &Vec<PlayerSelect>) -> (r: Vec<PlayerSelect>)
    ensures
        r@ == selections@,
{
    let r = selections.clone();
    assert(r@ =~= selections@);
    r
}

proof fn lemma_same_state_wf(a: MenuState, b: MenuState)
    requires
        same_state(a, b),
    ensures
        state_wf(a) == state_wf(b),
        a is GameResults <==> b is GameResults,
        a is StageSelect <==> b is StageSelect,
{
}

/// `new` is `old` at the start of a step that steps its last `frames_to_step` frames again:
/// the frame count moves on by one, the history is cut back to the frame before the first
/// stepped frame, and the menu is put back as that snapshot holds it (as it is, when the
/// stepping starts from the first frame).
pub open spec fn rolled_back(old: Menu, new: Menu, frames_to_step: usize) -> bool {
    let start = new.current_frame - frames_to_step;
    &&& new.current_frame == old.current_frame + 1
    &&& new.netplay_history@ == if start < old.netplay_history@.len() {
        old.netplay_history@.subrange(0, start)
    } else {
        old.netplay_history@
    }
    &&& start > 0 ==> snapshot_of(old.netplay_history@[start - 1], new)
    &&& start == 0 ==> new.state == old.state && new.prev_state == old.prev_state
        && new.fighter_selections@ == old.fighter_selections@ && new.stage_ticker == old.stage_ticker
    &&& new.game_ticker == old.game_ticker
    &&& new.back_counter_max == old.back_counter_max
    &&& new.game_results == old.game_results
}

impl Menu {
    /// Starts a menu step of `frames_to_step` frames: the frame counter moves on, history after
    /// the first frame to step is dropped, and the menu is rolled back to the snapshot taken
    /// just before that frame. Returns the frames to step, `start..end`.
    pub fn begin_frames(&mut self, frames_to_step: usize) -> (r: (usize, usize))
        requires
            old(self).current_frame < usize::MAX,
            frames_to_step <= old(self).current_frame + 1,
            old(self).current_frame + 1 - frames_to_step > 0 ==> old(self).current_frame + 1 - frames_to_step <= old(self).netplay_history@.len(),
        ensures
            r.1 == final(self).current_frame,
            r.0 == r.1 - frames_to_step,
            rolled_back(*old(self), *final(self), frames_to_step),
            forall|f: nat, c: nat, sc: nat| old(self).wf(f, c, sc) ==> #[trigger] final(self).wf(f, c, sc),
    {
        self.current_frame = self.current_frame + 1;
        let start = self.current_frame - frames_to_step;
        let end = self.current_frame;
        let ghost old_history = self.netplay_history@;
        self.netplay_history.truncate(start);
        if start > 0 {
            let history = &self.netplay_history[start - 1];
            assert(*history == old_history[start - 1]);
            let state = history.state.snapshot();
            let prev_state = snapshot_opt(&history.prev_state);
            let fighter_selections = copy_selections(&history.fighter_selections);
            let stage_ticker = history.stage_ticker;
            self.state = state;
            self.prev_state = prev_state;
            self.fighter_selections = fighter_selections;
            self.stage_ticker = stage_ticker;
        }
        proof {
            assert forall|f: nat, c: nat, sc: nat| old(self).wf(f, c, sc) implies #[trigger] self.wf(f, c, sc) by {
                assert forall|i: int| 0 <= i < self.netplay_history@.len() implies history_wf(#[trigger] self.netplay_history@[i], f, c, sc) by {
                    assert(self.netplay_history@[i] == old_history[i]);
                }
                if start > 0 {
                    let h = old_history[start - 1];
                    assert(history_wf(h, f, c, sc));
                    lemma_same_state_wf(h.state, self.state);
                    if let Some(p) = h.prev_state {
                        lemma_same_state_wf(p, self.prev_state.unwrap());
                    }
                    if self.game_results is None {
                        assert(!(h.state is GameResults));
                    }
                }
            }
            assert(self.current_frame - frames_to_step == start);
            if start < old_history.len() {
                assert(self.netplay_history@ == old_history.subrange(0, start as int));
            } else {
                assert(self.netplay_history@ == old_history);
            }
            if start > 0 {
                assert(snapshot_of(old_history[start - 1], *self));
            }
        }
        (start, end)
    }

    /// Records this frame's snapshot for rolling back.
    pub fn record_history(&mut self)
        ensures
            final(self).netplay_history@.len() == old(self).netplay_history@.len() + 1,
            final(self).netplay_history@.subrange(0, old(self).netplay_history@.len() as int) == old(self).netplay_history@,
            snapshot_of(final(self).netplay_history@.last(), *old(self)),
            final(self).state == old(self).state,
            final(self).prev_state == old(self).prev_state,
            final(self).fighter_selections == old(self).fighter_selections,
            final(self).stage_ticker == old(self).stage_ticker,
            final(self).game_ticker == old(self).game_ticker,
            final(self).current_frame == old(self).current_frame,
            final(self).back_counter_max == old(self).back_counter_max,
            final(self).game_results == old(self).game_results,
            forall|f: nat, c: nat, sc: nat| old(self).wf(f, c, sc) ==> #[trigger] final(self).wf(f, c, sc),
    {
        let snapshot = NetplayHistory {
            state: self.state.snapshot(),
            prev_state: snapshot_opt(&self.prev_state),
            fighter_selections: copy_selections(&self.fighter_selections),
            stage_ticker: self.stage_ticker,
        };
        let ghost old_history = self.netplay_history@;
        self.netplay_history.push(snapshot);
        assert(self.netplay_history@.subrange(0, old_history.len() as int) =~= old_history);
        proof {
            assert forall|f: nat, c: nat, sc: nat| old(self).wf(f, c, sc) implies #[trigger] self.wf(f, c, sc) by {
                lemma_same_state_wf(snapshot.state, self.state);
                if let Some(p) = snapshot.prev_state {
                    lemma_same_state_wf(p, self.prev_state.unwrap());
                }
                assert forall|i: int| 0 <= i < self.netplay_history@.len() implies history_wf(#[trigger] self.netplay_history@[i], f, c, sc) by {
                    if i < old_history.len() {
                        assert(self.netplay_history@[i] == old_history[i]);
                    }
                }
            }
        }
    }
}

} // verus!

verus! {

/// The menu a frame starts from: a netplay disconnect replaces the screen with the reason.
pub open spec fn frame_start(m: Menu, ctx: MenuContext) -> Menu {
    match ctx.netplay {
        NetplayStatus::Disconnected { reason } => Menu { state: MenuState::NetplayWait { message: reason }, ..m },
        _ => m,
    }
}

/// What the screen step for `pre.state` does.
pub open spec fn screen_post(pre: Menu, post: Menu, ctx: MenuContext, inputs: Seq<MenuInput>, command: Option<MenuCommand>) -> bool {
    &&& pre.keeps_history(post)
    &&& match pre.state {
        MenuState::GameSelect => game_select_post(pre, post, ctx, inputs, command),
        MenuState::ReplaySelect(_, _) => replay_select_post(pre, post, ctx, inputs, command),
        MenuState::CharacterSelect { .. } => fighter_select_post(pre, post, ctx, inputs, command),
        MenuState::StageSelect => stage_select_post(pre, post, ctx, inputs, command),
        MenuState::GameResults { .. } => results_post(pre, post, ctx, inputs, command),
        MenuState::NetplayWait { .. } => netplay_wait_post(pre, post, ctx, inputs, command),
    }
}

/// `post` is `pre` after one menu frame numbered `frame` with input `inputs`, which gave
/// `command`: a disconnect shows its reason; after the first two frames the current screen
/// takes the input; then the frame's snapshot is recorded.
pub open spec fn frame_stepped(pre: Menu, post: Menu, frame: usize, ctx: MenuContext, inputs: Seq<MenuInput>, command: Option<MenuCommand>) -> bool {
    let start = frame_start(pre, ctx);
    let screen = Menu { netplay_history: start.netplay_history, ..post };
    &&& frame <= 1 ==> screen == start && command is None
    &&& frame > 1 ==> screen_post(start, screen, ctx, inputs, command)
    &&& post.netplay_history@.len() == pre.netplay_history@.len() + 1
    &&& post.netplay_history@.subrange(0, pre.netplay_history@.len() as int) == pre.netplay_history@
    &&& snapshot_of(post.netplay_history@.last(), post)
}

impl Menu {
    /// One frame of a menu step: a disconnect shows its reason; after the first two frames the
    /// current screen takes the frame's input; then the frame's snapshot is recorded.
    pub fn step_frame(&mut self, frame: usize, ctx: &MenuContext, player_inputs: &Vec<MenuInput>) -> (command: Option<MenuCommand>)
        requires
            old(self).wf_for(*ctx),
            context_wf(*ctx),
        ensures
            final(self).wf_for(*ctx),
            frame_stepped(*old(self), *final(self), frame, *ctx, player_inputs@, command),
    {
        if let NetplayStatus::Disconnected { reason } = &ctx.netplay {
            self.state = MenuState::NetplayWait { message: reason.clone() };
        }
        let ghost pre = *self;
        let command = if frame > 1 {
            match self.state {
                MenuState::GameSelect => self.step_game_select(ctx, player_inputs),
                MenuState::ReplaySelect(_, _) => self.step_replay_select(ctx, player_inputs),
                MenuState::CharacterSelect { .. } => self.step_fighter_select(ctx, player_inputs),
                MenuState::StageSelect => self.step_stage_select(ctx, player_inputs),
                MenuState::GameResults { .. } => self.step_results(ctx, player_inputs),
                MenuState::NetplayWait { .. } => self.step_netplay_wait(ctx, player_inputs),
            }
        } else {
            None
        };
        let ghost mid = *self;
        self.record_history();
        command
    }
}

} // verus!

verus! {

/// `post` is `pre` after a netplay step through the states `states`: rolled back for
/// `frames_to_step` frames into `states[0]`, then each stepped frame `j` takes `states[j]` to
/// `states[j + 1]` with input `inputs[j]` and gives command `commands[j]`.
pub open spec fn steps_through_with(
    pre: Menu,
    post: Menu,
    frames_to_step: usize,
    ctx: MenuContext,
    inputs: Seq<Vec<MenuInput>>,
    commands: Seq<Option<MenuCommand>>,
    states: Seq<Menu>,
) -> bool {
    let start = pre.current_frame + 1 - frames_to_step;
    &&& states.len() == frames_to_step + 1
    &&& commands.len() == frames_to_step
    &&& rolled_back(pre, states[0], frames_to_step)
    &&& states.last() == post
    &&& forall|j: int|
        0 <= j < frames_to_step ==> frame_stepped(
            states[j],
            states[j + 1],
            (start + j) as usize,
            ctx,
            inputs[j]@,
            #[trigger] commands[j],
        )
}

/// `post` is `pre` after a netplay step of `frames_to_step` frames that gave `commands`.
pub open spec fn steps_through(
    pre: Menu,
    post: Menu,
    frames_to_step: usize,
    ctx: MenuContext,
    inputs: Seq<Vec<MenuInput>>,
    commands: Seq<Option<MenuCommand>>,
) -> bool {
    exists|states: Seq<Menu>| steps_through_with(pre, post, frames_to_step, ctx, inputs, commands, states)
}

impl Menu {
    /// One step of the menus, as netplay drives it: the frame count moves on by one, and the
    /// last `frames_to_step` frames are stepped again from the snapshot before them (rolling
    /// back what the other peers corrected), with `inputs[j]` the input of the `j`-th of them.
    /// Keeps one snapshot per menu frame. Returns each stepped frame's command.
    pub fn step_frames(&mut self, frames_to_step: usize, ctx: &MenuContext, inputs: &Vec<Vec<MenuInput>>) -> (r: Vec<Option<MenuCommand>>)
        requires
            old(self).wf_for(*ctx),
            context_wf(*ctx),
            old(self).current_frame < usize::MAX,
            old(self).netplay_history@.len() == old(self).current_frame,
            1 <= frames_to_step <= old(self).current_frame + 1,
            inputs@.len() == frames_to_step,
        ensures
            final(self).current_frame == old(self).current_frame + 1,
            final(self).netplay_history@.len() == final(self).current_frame,
            final(self).netplay_history@.subrange(0, old(self).current_frame + 1 - frames_to_step)
                == old(self).netplay_history@.subrange(0, old(self).current_frame + 1 - frames_to_step),
            final(self).wf_for(*ctx),
            r@.len() == frames_to_step,
            steps_through(*old(self), *final(self), frames_to_step, *ctx, inputs@, r@),
    {
        let ghost initial = *self;
        let (start, end) = self.begin_frames(frames_to_step);
        let ghost kept = self.netplay_history@;
        let ghost mut states: Seq<Menu> = seq![*self];
        let mut commands: Vec<Option<MenuCommand>> = Vec::new();
        let mut frame: usize = start;
        while frame < end
            invariant
                start <= frame <= end,
                end == self.current_frame,
                end - start == frames_to_step,
                inputs@.len() == frames_to_step,
                self.wf_for(*ctx),
                context_wf(*ctx),
                self.netplay_history@.len() == frame,
                self.netplay_history@.subrange(0, start as int) == kept,
                kept.len() == start,
                commands@.len() == frame - start,
                states.len() == frame - start + 1,
                rolled_back(initial, states[0], frames_to_step),
                states.last() == *self,
                forall|j: int|
                    0 <= j < frame - start ==> frame_stepped(
                        states[j],
                        states[j + 1],
                        (start + j) as usize,
                        *ctx,
                        inputs@[j]@,
                        #[trigger] commands@[j],
                    ),
            decreases end - frame,
        {
            let ghost before = self.netplay_history@;
            let ghost pre = *self;
            let command = self.step_frame(frame, ctx, &inputs[frame - start]);
            assert(self.netplay_history@.subrange(0, start as int) =~= before.subrange(0, start as int));
            proof {
                states = states.push(*self);
            }
            commands.push(command);
            assert(frame_stepped(states[frame - start], states[frame - start + 1], frame, *ctx, inputs@[frame - start]@, commands@[frame - start]));
            frame = frame + 1;
        }
        assert(steps_through_with(initial, *self, frames_to_step, *ctx, inputs@, commands@, states));
        commands
    }
}

} // verus!

verus! {

/// What the menu asks to be drawn.
pub enum RenderMenuState {
    GameSelect(usize),
    ReplaySelect(Vec<String>, usize),
    CharacterSelect(Vec<PlayerSelect>, usize, usize),
    StageSelect(usize),
    GameResults { results: Vec<PlayerResult>, replay_saved: bool },
    GenericText(String),
}

/// A frame of the menu to draw.
pub struct RenderMenu {
    pub state: RenderMenuState,
}

impl Menu {
    /// What the current screen shows.
    pub fn render(&self) -> (r: RenderMenu)
        requires
            self.state is GameResults ==> self.game_results is Some,
            self.state is StageSelect ==> self.stage_ticker is Some,
        ensures
            match self.state {
                MenuState::GameResults { replay_saved } => r.state matches RenderMenuState::GameResults { results, replay_saved: saved }
                    && saved == replay_saved && results@.len() == self.game_results.unwrap().player_results@.len()
                    && forall|i: int| 0 <= i < results@.len() ==> same_player_result(#[trigger] results@[i], self.game_results.unwrap().player_results@[i]),
                MenuState::CharacterSelect { back_counter } => r.state matches RenderMenuState::CharacterSelect(s, b, m)
                    && s@ == self.fighter_selections@ && b == back_counter && m == self.back_counter_max,
                MenuState::ReplaySelect(replays, ticker) => r.state matches RenderMenuState::ReplaySelect(v, c)
                    && v@ == replays@ && c == ticker.cursor,
                MenuState::NetplayWait { message } => r.state == RenderMenuState::GenericText(message),
                MenuState::GameSelect => r.state == RenderMenuState::GameSelect(self.game_ticker.cursor),
                MenuState::StageSelect => r.state == RenderMenuState::StageSelect(self.stage_ticker.unwrap().cursor),
            },
    {
        let state = match &self.state {
            MenuState::GameResults { replay_saved } => {
                let results = match &self.game_results {
                    Some(game_results) => duplicate_results(&game_results.player_results),
                    None => unreached(),
                };
                RenderMenuState::GameResults { results, replay_saved: *replay_saved }
            },
            MenuState::CharacterSelect { back_counter } => RenderMenuState::CharacterSelect(
                copy_selections(&self.fighter_selections),
                *back_counter,
                self.back_counter_max,
            ),
            MenuState::ReplaySelect(replays, ticker) => {
                let copied = replays.clone();
                assert(copied@ =~= replays@);
                RenderMenuState::ReplaySelect(copied, ticker.cursor)
            },
            MenuState::NetplayWait { message } => RenderMenuState::GenericText(message.clone()),
            MenuState::GameSelect => RenderMenuState::GameSelect(self.game_ticker.cursor),
            MenuState::StageSelect => match self.stage_ticker {
                Some(ticker) => RenderMenuState::StageSelect(ticker.cursor),
                None => unreached(),
            },
        };
        RenderMenu { state }
    }
}

} // verus!
