use vstd::prelude::*;

use crate::game::{Edit, GameSetup, GameState, PlayerSetup};
use crate::rules::Rules;

verus! {

/// Why a match cannot start as the command line asked.
#[derive(Clone, Debug)]
pub enum LaunchError {
    NoEntities,
    NoStages,
    /// The package has no fighter of this name.
    UnknownFighter(String),
    /// The package has no stage of this name.
    UnknownStage(String),
}

/// What the command line asks of a match started without the menus.
#[derive(Clone, Debug)]
pub struct LaunchOptions {
    /// The fighters to play, cycled through the players; the package's first when empty.
    pub fighter_names: Vec<String>,
    /// The stage; the package's first when none.
    pub stage_name: Option<String>,
    /// At most this many human players.
    pub max_human_players: Option<usize>,
    /// This many CPU players join after the humans.
    pub total_cpu_players: Option<usize>,
    pub debug: bool,
    pub max_history_frames: Option<usize>,
}

/// `names` holds a string equal to `name`.
pub open spec fn names_contain(names: Seq<String>, name: String) -> bool {
    exists|i: int| 0 <= i < names.len() && names[i]@ == name@
}

fn contains_name(names: &Vec<String>, name: &String) -> (r: bool)
    ensures
        r == names_contain(names@, *name),
{
    let mut i: usize = 0;
    while i < names.len()
        invariant
            i <= names@.len(),
            forall|k: int| 0 <= k < i ==> names@[k]@ != name@,
        decreases names@.len() - i,
    {
        if names[i] == *name {
            return true;
        }
        i = i + 1;
    }
    false
}

/// The first of `names` the command line names that is not in the package.
pub open spec fn first_unknown(names: Seq<String>, package: Seq<String>) -> Option<int> {
    if exists|i: int| 0 <= i < names.len() && !names_contain(package, #[trigger] names[i]) {
        Some(choose|i: int|
            0 <= i < names.len() && !names_contain(package, #[trigger] names[i]) && forall|k: int|
                0 <= k < i ==> names_contain(package, #[trigger] names[k]))
    } else {
        None
    }
}

/// How many human players join: one per controller, at most the maximum.
pub open spec fn human_count(input_len: usize, max_human_players: Option<usize>) -> nat {
    match max_human_players {
        Some(m) => if input_len > m { m as nat } else { input_len as nat },
        None => input_len as nat,
    }
}

/// Player `i` of a match started from the command line, with `k` fighter names: fighters are
/// dealt out in turn, each player on its own team.
pub open spec fn launch_player_ok(p: PlayerSetup, fighters: Seq<String>, i: int) -> bool {
    &&& p.fighter == fighters[i % (fighters.len() as int)]
    &&& p.team == i
}

/// The setup of a match started from the command line, with `input_len` controllers plugged
/// in and the package holding `package_fighters` and `package_stages`. Each controller brings
/// a human player (up to the maximum), then the CPU players join, each on a controller after
/// the plugged-in ones and with the first AI. The match runs locally without a time limit,
/// from the seed `init_seed`.
pub fn launch_setup(
    options: LaunchOptions,
    package_fighters: &Vec<String>,
    package_stages: &Vec<String>,
    input_len: usize,
    init_seed: u64,
) -> (r: Result<GameSetup, LaunchError>)
    requires
        input_len as int + options.total_cpu_players.unwrap_or(0) as int <= usize::MAX,
    ensures
        package_fighters@.len() == 0 ==> (r matches Err(LaunchError::NoEntities)),
        package_fighters@.len() > 0 && package_stages@.len() == 0 ==> (r matches Err(
            LaunchError::NoStages,
        )),
        package_fighters@.len() > 0 && package_stages@.len() > 0 ==> match first_unknown(
            options.fighter_names@,
            package_fighters@,
        ) {
            Some(i) => r matches Err(LaunchError::UnknownFighter(n)) && n@
                == options.fighter_names@[i]@,
            None => match options.stage_name {
                Some(s) => if names_contain(package_stages@, s) {
                    r is Ok
                } else {
                    r matches Err(LaunchError::UnknownStage(n)) && n@ == s@
                },
                None => r is Ok,
            },
        },
        r matches Ok(setup) ==> {
            let fighters = if options.fighter_names@.len() == 0 {
                seq![package_fighters@[0]]
            } else {
                options.fighter_names@
            };
            let h = human_count(input_len, options.max_human_players);
            let c = options.total_cpu_players.unwrap_or(0) as nat;
            &&& setup.players@.len() == h + c
            &&& setup.controllers@.len() == h + c
            &&& setup.ais@.len() == c
            &&& forall|i: int| 0 <= i < h + c ==> launch_player_ok(#[trigger] setup.players@[i], fighters, i)
            &&& forall|i: int| 0 <= i < h ==> #[trigger] setup.controllers@[i] == i
            &&& forall|i: int| h <= i < h + c ==> #[trigger] setup.controllers@[i] == input_len + (i - h)
            &&& forall|i: int| 0 <= i < c ==> #[trigger] setup.ais@[i] == 0
            &&& setup.stage == (match options.stage_name {
                Some(s) => s,
                None => package_stages@[0],
            })
            &&& setup.state is Local
            &&& setup.rules == Rules { time_limit_seconds: None, ..Rules::spec_default() }
            &&& setup.debug == options.debug
            &&& setup.max_history_frames == options.max_history_frames
            &&& setup.current_frame == 0
            &&& setup.init_seed == init_seed
            &&& setup.deleted_history_frames == 0
            &&& setup.edit == Edit::Stage
        },
{
    if package_fighters.len() == 0 {
        return Err(LaunchError::NoEntities);
    }
    if package_stages.len() == 0 {
        return Err(LaunchError::NoStages);
    }
    let mut i: usize = 0;
    while i < options.fighter_names.len()
        invariant
            package_fighters@.len() > 0,
            package_stages@.len() > 0,
            i <= options.fighter_names@.len(),
            forall|k: int| 0 <= k < i ==> names_contain(package_fighters@, #[trigger] options.fighter_names@[k]),
        decreases options.fighter_names@.len() - i,
    {
        if !contains_name(package_fighters, &options.fighter_names[i]) {
            proof {
                let names = options.fighter_names@;
                assert(exists|j: int| 0 <= j < names.len() && !names_contain(package_fighters@, #[trigger] names[j]));
                let f = first_unknown(names, package_fighters@)->0;
                assert(0 <= f < names.len() && !names_contain(package_fighters@, names[f]));
                if f < i {
                    assert(names_contain(package_fighters@, names[f]));
                } else if f > i {
                    assert(names_contain(package_fighters@, names[i as int]));
                }
            }
            return Err(LaunchError::UnknownFighter(options.fighter_names[i].clone()));
        }
        i = i + 1;
    }
    assert(first_unknown(options.fighter_names@, package_fighters@) is None);
    let stage = match &options.stage_name {
        Some(s) => {
            if !contains_name(package_stages, s) {
                return Err(LaunchError::UnknownStage(s.clone()));
            }
            s.clone()
        },
        None => package_stages[0].clone(),
    };
    let fighters: Vec<String> = if options.fighter_names.len() == 0 {
        let mut v: Vec<String> = Vec::new();
        v.push(package_fighters[0].clone());
        v
    } else {
        options.fighter_names.clone()
    };
    let ghost spec_fighters = if options.fighter_names@.len() == 0 {
        seq![package_fighters@[0]]
    } else {
        options.fighter_names@
    };
    assert(fighters@ =~= spec_fighters);
    let k = fighters.len();
    let humans: usize = match options.max_human_players {
        Some(m) => if input_len > m { m } else { input_len },
        None => input_len,
    };
    let cpus: usize = match options.total_cpu_players {
        Some(c) => c,
        None => 0,
    };
    let mut players: Vec<PlayerSetup> = Vec::new();
    let mut controllers: Vec<usize> = Vec::new();
    let mut ais: Vec<usize> = Vec::new();
    let mut p: usize = 0;
    while p < humans
        invariant
            k == fighters@.len(),
            k > 0,
            fighters@ == spec_fighters,
            humans <= input_len,
            p <= humans,
            players@.len() == p,
            controllers@.len() == p,
            forall|j: int| 0 <= j < p ==> launch_player_ok(#[trigger] players@[j], spec_fighters, j),
            forall|j: int| 0 <= j < p ==> #[trigger] controllers@[j] == j,
        decreases humans - p,
    {
        let fighter = fighters[p % k].clone();
        players.push(PlayerSetup { fighter, team: p });
        controllers.push(p);
        p = p + 1;
    }
    let mut c: usize = 0;
    while c < cpus
        invariant
            k == fighters@.len(),
            k > 0,
            fighters@ == spec_fighters,
            humans <= input_len,
            input_len as int + cpus as int <= usize::MAX,
            c <= cpus,
            players@.len() == humans + c,
            controllers@.len() == humans + c,
            ais@.len() == c,
            forall|j: int| 0 <= j < humans + c ==> launch_player_ok(#[trigger] players@[j], spec_fighters, j),
            forall|j: int| 0 <= j < humans ==> #[trigger] controllers@[j] == j,
            forall|j: int| humans <= j < humans + c ==> #[trigger] controllers@[j] == input_len + (j - humans),
            forall|j: int| 0 <= j < c ==> #[trigger] ais@[j] == 0,
        decreases cpus - c,
    {
        let fighter = fighters[(humans + c) % k].clone();
        players.push(PlayerSetup { fighter, team: humans + c });
        controllers.push(input_len + c);
        ais.push(0);
        c = c + 1;
    }
    let defaults = Rules::default();
    let rules = Rules { time_limit_seconds: None, ..defaults };
    Ok(
        GameSetup {
            init_seed,
            controllers,
            players,
            ais,
            stage,
            state: GameState::Local,
            rules,
            debug: options.debug,
            max_history_frames: options.max_history_frames,
            deleted_history_frames: 0,
            current_frame: 0,
            edit: Edit::Stage,
        },
    )
}

} // verus!
