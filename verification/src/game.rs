use vstd::prelude::*;

use crate::player::PlayerAction;

use crate::entity::DebugEntity;
use crate::menu::ResumeMenu;
use crate::order::{sorted_distinct, strictly_increasing};
use crate::rules::{spec_time_limit_frames, Rules, FRAMES_PER_SECOND};
use crate::timeline::Timeline;

verus! {

/// What the game loop is doing this frame.
#[derive(Clone, Debug)]
pub enum GameState {
    Local,
    ReplayForwardsFromHistory,
    ReplayForwardsFromInput,
    ReplayBackwards,
    Netplay,
    /// Only Local, ReplayForwardsFromHistory, ReplayForwardsFromInput and ReplayBackwards can be paused.
    Paused,
    /// Both Local and Netplay end at Quit.
    Quit(ResumeMenu),
    StepThenPause,
    StepForwardThenPause,
    StepBackwardThenPause,
}

impl GameState {
    /// The name shown for the state in the debug lines.
    pub open spec fn spec_name(self) -> Seq<char> {
        match self {
            GameState::Local => "Local"@,
            GameState::ReplayForwardsFromHistory => "ReplayForwardsFromHistory"@,
            GameState::ReplayForwardsFromInput => "ReplayForwardsFromInput"@,
            GameState::ReplayBackwards => "ReplayBackwards"@,
            GameState::Netplay => "Netplay"@,
            GameState::Paused => "Paused"@,
            GameState::Quit(_) => "Quit"@,
            GameState::StepThenPause => "StepThenPause"@,
            GameState::StepForwardThenPause => "StepForwardThenPause"@,
            GameState::StepBackwardThenPause => "StepBackwardThenPause)"@,
        }
    }

    /// The name shown for the state in the debug lines, as the game has always written it
    /// (the stepping-backward state with a closing bracket).
    pub fn name(&self) -> (r: &'static str)
        ensures
            r@ == self.spec_name(),
    {
        match self {
            GameState::Local => "Local",
            GameState::ReplayForwardsFromHistory => "ReplayForwardsFromHistory",
            GameState::ReplayForwardsFromInput => "ReplayForwardsFromInput",
            GameState::ReplayBackwards => "ReplayBackwards",
            GameState::Netplay => "Netplay",
            GameState::Paused => "Paused",
            GameState::Quit(_) => "Quit",
            GameState::StepThenPause => "StepThenPause",
            GameState::StepForwardThenPause => "StepForwardThenPause",
            GameState::StepBackwardThenPause => "StepBackwardThenPause)",
        }
    }
}

impl Default for GameState {
    fn default() -> (r: GameState)
        ensures
            r is Paused,
    {
        GameState::Paused
    }
}

/// The renderer the program runs with: a window drawn on the GPU, or none.
#[derive(Clone, Copy, Debug, PartialEq, Eq, Structural)]
pub enum ActualBackend {
    Wgpu,
    Headless,
}

/// What the editor edits: one entity (by its key) or the stage.
#[derive(Clone, Copy, Debug, PartialEq, Eq, Structural)]
pub enum Edit {
    Entity(u64),
    Stage,
}

impl Default for Edit {
    fn default() -> (r: Edit)
        ensures
            r == Edit::Stage,
    {
        Edit::Stage
    }
}

/// A player joining a match: the fighter they play and their team.
#[derive(Clone, Debug)]
pub struct PlayerSetup {
    pub fighter: String,
    pub team: usize,
}

/// How a match starts.
#[derive(Clone, Debug)]
pub struct GameSetup {
    pub init_seed: u64,
    pub controllers: Vec<usize>,
    pub players: Vec<PlayerSetup>,
    pub ais: Vec<usize>,
    pub stage: String,
    pub state: GameState,
    pub rules: Rules,
    pub debug: bool,
    pub max_history_frames: Option<usize>,
    pub deleted_history_frames: usize,
    pub current_frame: usize,
    pub edit: Edit,
}

} // verus!

verus! {

/// One end of a surface of the stage, picked in the editor: the first or second point of
/// the surface with that index.
#[derive(Clone, Copy, Debug, PartialEq, Eq, Structural)]
pub enum SurfaceSelection {
    P1(usize),
    P2(usize),
}

impl SurfaceSelection {
    /// The index of the surface.
    pub open spec fn spec_index(self) -> usize {
        match self {
            SurfaceSelection::P1(i) => i,
            SurfaceSelection::P2(i) => i,
        }
    }

    /// The index of the surface.
    pub fn index(&self) -> (r: usize)
        ensures
            r == self.spec_index(),
    {
        match self {
            SurfaceSelection::P1(index) => *index,
            SurfaceSelection::P2(index) => *index,
        }
    }
}

impl Default for SurfaceSelection {
    fn default() -> (r: SurfaceSelection)
        ensures
            r == SurfaceSelection::P1(0),
    {
        SurfaceSelection::P1(0)
    }
}

/// The surfaces that have an end selected, each once, in increasing order.
pub fn selected_surfaces(selections: &Vec<SurfaceSelection>) -> (r: Vec<usize>)
    ensures
        strictly_increasing(r@),
        forall|x: usize|
            r@.contains(x) <==> exists|k: int|
                0 <= k < selections@.len() && (#[trigger] selections@[k]).spec_index() == x,
{
    let mut indices: Vec<usize> = Vec::new();
    let mut k: usize = 0;
    while k < selections.len()
        invariant
            k <= selections@.len(),
            indices@.len() == k,
            forall|j: int| 0 <= j < k ==> indices@[j] == (#[trigger] selections@[j]).spec_index(),
        decreases selections@.len() - k,
    {
        indices.push(selections[k].index());
        k = k + 1;
    }
    let r = sorted_distinct(&indices);
    assert forall|x: usize|
        r@.contains(x) <==> exists|k: int|
            0 <= k < selections@.len() && (#[trigger] selections@[k]).spec_index() == x by {
        if indices@.contains(x) {
            let j = choose|j: int| 0 <= j < indices@.len() && indices@[j] == x;
            assert(selections@[j].spec_index() == x);
        }
        if exists|k: int| 0 <= k < selections@.len() && (#[trigger] selections@[k]).spec_index() == x {
            let j = choose|j: int| 0 <= j < selections@.len() && (#[trigger] selections@[j]).spec_index() == x;
            assert(indices@[j] == x);
        }
    }
    r
}

/// Keys of the keyboard that steer a paused or replaying match: each pressed this frame,
/// and whether shift is held.
#[derive(Clone, Copy, Debug, PartialEq, Eq, Structural)]
pub struct ReplayKeys {
    pub shift_held: bool,
    pub space: bool,
    pub enter: bool,
    pub h: bool,
    pub j: bool,
    pub k: bool,
    pub l: bool,
    pub u: bool,
    pub i: bool,
}

/// What the keyboard asks of a paused match.
#[derive(Clone, Copy, Debug, PartialEq, Eq, Structural)]
pub enum PauseCommand {
    /// Show the previous frame.
    StepBackward,
    /// Compute the next frame from the recorded input.
    StepForwardFromInput,
    /// Show the next recorded frame.
    StepForwardFromHistory,
    /// Replay backwards frame by frame.
    ReplayBackwards,
    /// Replay forwards, computing frames from the recorded input.
    ReplayForwardsFromInput,
    /// Replay forwards through the recorded frames.
    ReplayForwardsFromHistory,
    /// Play one frame.
    StepLocal,
    /// Remember the current frame.
    SaveFrame,
    /// Go back to the remembered frame.
    JumpToSavedFrame,
    /// Play on.
    Resume,
    Nothing,
}

/// The command of the keys pressed on a paused match: the first that applies of J, shift+K,
/// K, H, shift+L, L, space, U, I and enter.
pub open spec fn spec_pause_command(keys: ReplayKeys) -> PauseCommand {
    if keys.j {
        PauseCommand::StepBackward
    } else if keys.shift_held && keys.k {
        PauseCommand::StepForwardFromInput
    } else if keys.k {
        PauseCommand::StepForwardFromHistory
    } else if keys.h {
        PauseCommand::ReplayBackwards
    } else if keys.shift_held && keys.l {
        PauseCommand::ReplayForwardsFromInput
    } else if keys.l {
        PauseCommand::ReplayForwardsFromHistory
    } else if keys.space {
        PauseCommand::StepLocal
    } else if keys.u {
        PauseCommand::SaveFrame
    } else if keys.i {
        PauseCommand::JumpToSavedFrame
    } else if keys.enter {
        PauseCommand::Resume
    } else {
        PauseCommand::Nothing
    }
}

/// The command of the keys pressed on a paused match.
pub fn pause_command(keys: ReplayKeys) -> (r: PauseCommand)
    ensures
        r == spec_pause_command(keys),
{
    if keys.j {
        PauseCommand::StepBackward
    } else if keys.shift_held && keys.k {
        PauseCommand::StepForwardFromInput
    } else if keys.k {
        PauseCommand::StepForwardFromHistory
    } else if keys.h {
        PauseCommand::ReplayBackwards
    } else if keys.shift_held && keys.l {
        PauseCommand::ReplayForwardsFromInput
    } else if keys.l {
        PauseCommand::ReplayForwardsFromHistory
    } else if keys.space {
        PauseCommand::StepLocal
    } else if keys.u {
        PauseCommand::SaveFrame
    } else if keys.i {
        PauseCommand::JumpToSavedFrame
    } else if keys.enter {
        PauseCommand::Resume
    } else {
        PauseCommand::Nothing
    }
}

/// The state a paused match moves to by the controllers: holding the quit buttons quits
/// back to the menu as it was, start plays on; otherwise it stays paused.
pub fn step_pause(game_quit_held: bool, start_pressed: bool) -> (r: Option<GameState>)
    ensures
        game_quit_held ==> (r matches Some(GameState::Quit(ResumeMenu::Unchanged))),
        !game_quit_held && start_pressed ==> (r matches Some(GameState::Local)),
        !game_quit_held && !start_pressed ==> r is None,
{
    if game_quit_held {
        Some(GameState::Quit(ResumeMenu::Unchanged))
    } else if start_pressed {
        Some(GameState::Local)
    } else {
        None
    }
}

/// A running local match pauses on space or enter.
pub fn local_pause_pressed(keys: ReplayKeys) -> (r: bool)
    ensures
        r == (keys.space || keys.enter),
{
    keys.space || keys.enter
}

/// The state a forward replay moves to by the keyboard: H replays backwards, shift+L and L
/// replay forwards from the input or the history; space or enter pause, over all of these.
pub fn replay_forwards_keys(keys: ReplayKeys) -> (r: Option<GameState>)
    ensures
        keys.space || keys.enter ==> (r matches Some(GameState::Paused)),
        !(keys.space || keys.enter) && keys.h ==> (r matches Some(GameState::ReplayBackwards)),
        !(keys.space || keys.enter) && !keys.h && keys.shift_held && keys.l ==> (r matches Some(
            GameState::ReplayForwardsFromInput,
        )),
        !(keys.space || keys.enter) && !keys.h && !keys.shift_held && keys.l ==> (r matches Some(
            GameState::ReplayForwardsFromHistory,
        )),
        !(keys.space || keys.enter) && !keys.h && !keys.l ==> r is None,
{
    if keys.space || keys.enter {
        Some(GameState::Paused)
    } else if keys.h {
        Some(GameState::ReplayBackwards)
    } else if keys.shift_held && keys.l {
        Some(GameState::ReplayForwardsFromInput)
    } else if keys.l {
        Some(GameState::ReplayForwardsFromHistory)
    } else {
        None
    }
}

/// The state a backward replay moves to by the keyboard: shift+L and L replay forwards from
/// the input or the history, else space or enter pause.
pub fn replay_backwards_keys(keys: ReplayKeys) -> (r: Option<GameState>)
    ensures
        keys.shift_held && keys.l ==> (r matches Some(GameState::ReplayForwardsFromInput)),
        !keys.shift_held && keys.l ==> (r matches Some(GameState::ReplayForwardsFromHistory)),
        !keys.l && (keys.space || keys.enter) ==> (r matches Some(GameState::Paused)),
        !keys.l && !(keys.space || keys.enter) ==> r is None,
{
    if keys.shift_held && keys.l {
        Some(GameState::ReplayForwardsFromInput)
    } else if keys.l {
        Some(GameState::ReplayForwardsFromHistory)
    } else if keys.space || keys.enter {
        Some(GameState::Paused)
    } else {
        None
    }
}

/// One frame of replaying backwards: goes to the previous frame if it is kept. Returns
/// whether it went there and whether the replay pauses: at frame 0, or when start is pressed.
pub fn step_replay_backwards<S>(timeline: &mut Timeline<S>, start_pressed: bool) -> (r: (bool, bool))
    ensures
        old(timeline).current_frame > 0 ==> r.0 == old(timeline).holds(old(timeline).current_frame - 1),
        old(timeline).current_frame == 0 ==> !r.0,
        r.0 ==> final(timeline).current_frame == old(timeline).current_frame - 1,
        !r.0 ==> final(timeline).current_frame == old(timeline).current_frame,
        r.1 == (old(timeline).current_frame == 0 || start_pressed),
        final(timeline).history@ == old(timeline).history@,
        final(timeline).deleted_history_frames == old(timeline).deleted_history_frames,
        final(timeline).saved_frame == old(timeline).saved_frame,
        final(timeline).max_history_frames == old(timeline).max_history_frames,
{
    let mut pause = start_pressed;
    let mut jumped = false;
    if timeline.current_frame > 0 {
        let to = timeline.current_frame - 1;
        jumped = timeline.jump_frame(to);
    } else {
        pause = true;
    }
    (jumped, pause)
}

/// One frame of replaying forwards through the history: goes to the next frame when the
/// current one is kept and the next one too. Returns whether it went there and whether the
/// replay pauses: when the current frame is the newest one kept, or when start is pressed.
pub fn step_replay_forwards_from_history<S>(timeline: &mut Timeline<S>, start_pressed: bool) -> (r: (bool, bool))
    requires
        old(timeline).wf(),
        old(timeline).current_frame < usize::MAX,
    ensures
        ({
            let more = old(timeline).index() < old(timeline).history@.len();
            &&& r.0 == (more && old(timeline).holds(old(timeline).current_frame + 1))
            &&& r.1 == (!more || start_pressed)
        }),
        r.0 ==> final(timeline).current_frame == old(timeline).current_frame + 1,
        !r.0 ==> final(timeline).current_frame == old(timeline).current_frame,
        final(timeline).history@ == old(timeline).history@,
        final(timeline).deleted_history_frames == old(timeline).deleted_history_frames,
        final(timeline).saved_frame == old(timeline).saved_frame,
        final(timeline).max_history_frames == old(timeline).max_history_frames,
{
    let mut pause = start_pressed;
    let mut jumped = false;
    if timeline.current_history_index() < timeline.history.len() {
        let to = timeline.current_frame + 1;
        jumped = timeline.jump_frame(to);
    } else {
        pause = true;
    }
    (jumped, pause)
}

/// One frame of replaying forwards from the recorded input: while input up to and including
/// the current frame is recorded, the frame count moves on and the caller computes that
/// frame. Returns whether it did.
pub fn advance_from_input<S>(timeline: &mut Timeline<S>, last_input_frame: usize) -> (r: bool)
    requires
        last_input_frame < usize::MAX,
    ensures
        r == (old(timeline).current_frame <= last_input_frame),
        r ==> final(timeline).current_frame == old(timeline).current_frame + 1,
        !r ==> final(timeline).current_frame == old(timeline).current_frame,
        final(timeline).history@ == old(timeline).history@,
        final(timeline).deleted_history_frames == old(timeline).deleted_history_frames,
        final(timeline).saved_frame == old(timeline).saved_frame,
        final(timeline).max_history_frames == old(timeline).max_history_frames,
{
    if timeline.current_frame <= last_input_frame {
        timeline.current_frame = timeline.current_frame + 1;
        true
    } else {
        false
    }
}

/// Whether the match ran out of time: its frame is past the time limit, if it has one.
pub fn time_out(current_frame: usize, rules: &Rules) -> (r: bool)
    requires
        rules.time_limit_seconds matches Some(s) ==> s * FRAMES_PER_SECOND <= u64::MAX,
    ensures
        r == (match spec_time_limit_frames(*rules) {
            Some(limit) => current_frame > limit,
            None => false,
        }),
{
    match rules.time_limit_frames() {
        Some(limit) => (current_frame as u64) > limit,
        None => false,
    }
}

/// How many frames of the match's time limit are left to show on its timer, if it has one:
/// none once the limit is reached.
pub fn frames_remaining(current_frame: usize, rules: &Rules) -> (r: Option<u64>)
    requires
        rules.time_limit_seconds matches Some(s) ==> s * FRAMES_PER_SECOND <= u64::MAX,
    ensures
        r == (match spec_time_limit_frames(*rules) {
            Some(limit) => Some(if limit > current_frame { (limit - current_frame) as u64 } else { 0 }),
            None => None,
        }),
{
    match rules.time_limit_frames() {
        Some(limit) => {
            let frame = current_frame as u64;
            Some(if limit > frame { limit - frame } else { 0 })
        },
        None => None,
    }
}

/// Which of this frame's `input_count` controller inputs an entity reads: the one of the
/// controller its player plays on. Entities without a player, and players without a
/// controller or whose controller sent no input, read an empty input (`None`).
pub fn input_for(player_id: Option<usize>, controllers: &Vec<usize>, input_count: usize) -> (r: Option<usize>)
    ensures
        r == (match player_id {
            Some(p) => if p < controllers@.len() && controllers@[p as int] < input_count {
                Some(controllers@[p as int])
            } else {
                None
            },
            None => None,
        }),
{
    match player_id {
        Some(p) => if p < controllers.len() && controllers[p] < input_count {
            Some(controllers[p])
        } else {
            None
        },
        None => None,
    }
}

/// How many of the fighters, by their actions, are still in the match.
pub open spec fn count_still_in(actions: Seq<PlayerAction>) -> nat
    decreases actions.len(),
{
    if actions.len() == 0 {
        0
    } else {
        count_still_in(actions.drop_last()) + if actions.last() == PlayerAction::Eliminated { 0nat } else { 1nat }
    }
}

/// How many of the fighters, by their actions, are still in the match.
pub fn fighters_still_in(actions: &Vec<PlayerAction>) -> (r: usize)
    ensures
        r == count_still_in(actions@),
{
    let mut n: usize = 0;
    let mut k: usize = 0;
    while k < actions.len()
        invariant
            k <= actions@.len(),
            n == count_still_in(actions@.take(k as int)),
            n <= k,
        decreases actions@.len() - k,
    {
        assert(actions@.take(k + 1).drop_last() =~= actions@.take(k as int));
        if actions[k] != PlayerAction::Eliminated {
            n = n + 1;
        }
        k = k + 1;
    }
    assert(actions@.take(actions@.len() as int) =~= actions@);
    n
}

/// Whether the match is over after a frame: time ran out, or, with a single entity left, no
/// fighter is still in, or, with more entities, exactly one fighter is still in.
pub fn game_over(timed_out: bool, entity_count: usize, fighters_not_eliminated: usize) -> (r: bool)
    ensures
        r == (timed_out || (entity_count == 1 && fighters_not_eliminated == 0) || (entity_count > 1
            && fighters_not_eliminated == 1)),
{
    timed_out || (entity_count == 1 && fighters_not_eliminated == 0) || (entity_count > 1
        && fighters_not_eliminated == 1)
}

} // verus!

verus! {

/// Which step of the game a frame runs.
#[derive(Clone, Copy, Debug, PartialEq, Eq, Structural)]
pub enum StepKind {
    Local,
    Netplay,
    ReplayForwardsFromHistory,
    ReplayForwardsFromInput,
    ReplayBackwards,
    Pause,
}

/// Which keyboard handling follows the step.
#[derive(Clone, Copy, Debug, PartialEq, Eq, Structural)]
pub enum OsInputKind {
    Local,
    ReplayForwards,
    ReplayBackwards,
    Pause,
    Nothing,
}

/// What a frame of the game does in a state: its step, then whether the match pauses after
/// it, then its keyboard handling.
#[derive(Clone, Copy, Debug, PartialEq, Eq, Structural)]
pub struct StepPlan {
    pub step: StepKind,
    pub pause_after: bool,
    pub os_input: OsInputKind,
}

/// The plan of a frame in `state`. The three stepping states run one step of the local game
/// or of a replay and then pause; the keyboard is not read in them nor in netplay.
pub fn step_plan(state: &GameState) -> (r: StepPlan)
    requires
        !(*state is Quit),
    ensures
        match *state {
            GameState::Local => r == StepPlan { step: StepKind::Local, pause_after: false, os_input: OsInputKind::Local },
            GameState::Netplay => r == StepPlan { step: StepKind::Netplay, pause_after: false, os_input: OsInputKind::Nothing },
            GameState::ReplayForwardsFromHistory => r == StepPlan {
                step: StepKind::ReplayForwardsFromHistory,
                pause_after: false,
                os_input: OsInputKind::ReplayForwards,
            },
            GameState::ReplayForwardsFromInput => r == StepPlan {
                step: StepKind::ReplayForwardsFromInput,
                pause_after: false,
                os_input: OsInputKind::ReplayForwards,
            },
            GameState::ReplayBackwards => r == StepPlan {
                step: StepKind::ReplayBackwards,
                pause_after: false,
                os_input: OsInputKind::ReplayBackwards,
            },
            GameState::StepThenPause => r == StepPlan { step: StepKind::Local, pause_after: true, os_input: OsInputKind::Nothing },
            GameState::StepForwardThenPause => r == StepPlan {
                step: StepKind::ReplayForwardsFromHistory,
                pause_after: true,
                os_input: OsInputKind::Nothing,
            },
            GameState::StepBackwardThenPause => r == StepPlan {
                step: StepKind::ReplayBackwards,
                pause_after: true,
                os_input: OsInputKind::Nothing,
            },
            GameState::Paused => r == StepPlan { step: StepKind::Pause, pause_after: false, os_input: OsInputKind::Pause },
            GameState::Quit(_) => false,
        },
{
    match state {
        GameState::Local => StepPlan { step: StepKind::Local, pause_after: false, os_input: OsInputKind::Local },
        GameState::Netplay => StepPlan { step: StepKind::Netplay, pause_after: false, os_input: OsInputKind::Nothing },
        GameState::ReplayForwardsFromHistory => StepPlan {
            step: StepKind::ReplayForwardsFromHistory,
            pause_after: false,
            os_input: OsInputKind::ReplayForwards,
        },
        GameState::ReplayForwardsFromInput => StepPlan {
            step: StepKind::ReplayForwardsFromInput,
            pause_after: false,
            os_input: OsInputKind::ReplayForwards,
        },
        GameState::ReplayBackwards => StepPlan {
            step: StepKind::ReplayBackwards,
            pause_after: false,
            os_input: OsInputKind::ReplayBackwards,
        },
        GameState::StepThenPause => StepPlan { step: StepKind::Local, pause_after: true, os_input: OsInputKind::Nothing },
        GameState::StepForwardThenPause => StepPlan {
            step: StepKind::ReplayForwardsFromHistory,
            pause_after: true,
            os_input: OsInputKind::Nothing,
        },
        GameState::StepBackwardThenPause => StepPlan {
            step: StepKind::ReplayBackwards,
            pause_after: true,
            os_input: OsInputKind::Nothing,
        },
        GameState::Paused => StepPlan { step: StepKind::Pause, pause_after: false, os_input: OsInputKind::Pause },
        GameState::Quit(_) => unreached(),
    }
}

/// The debug information of a new match's entities (by key): everything shown for each
/// when the match starts in debug mode, else the entries kept from before.
pub fn initial_debug_entities(keys: &Vec<u64>, debug: bool, kept: Vec<(u64, DebugEntity)>) -> (r: Vec<(u64, DebugEntity)>)
    ensures
        !debug ==> r@ == kept@,
        debug ==> r@.len() == kept@.len() + keys@.len() && r@.subrange(0, kept@.len() as int) == kept@
            && forall|i: int| 0 <= i < keys@.len() ==> #[trigger] r@[kept@.len() + i] == (keys@[i], DebugEntity::spec_all()),
{
    let mut r = kept;
    if debug {
        let ghost start = r@;
        let mut i: usize = 0;
        while i < keys.len()
            invariant
                i <= keys@.len(),
                r@.len() == start.len() + i,
                r@.subrange(0, start.len() as int) == start,
                forall|j: int| 0 <= j < i ==> #[trigger] r@[start.len() + j] == (keys@[j], DebugEntity::spec_all()),
            decreases keys@.len() - i,
        {
            let ghost before = r@;
            r.push((keys[i], DebugEntity::all()));
            assert(r@.subrange(0, start.len() as int) =~= before.subrange(0, start.len() as int));
            i = i + 1;
        }
    }
    r
}

} // verus!
