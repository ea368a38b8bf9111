use vstd::prelude::*;

use crate::order::{is_stable_key_order, key_before, lemma_stable_key_order_unique, stable_key_order, stable_order};
use crate::rules::Goal;

verus! {

/// One loss of a stock: who caused it, if anybody, and on which frame.
#[derive(Clone, Copy, Debug, PartialEq, Eq, Structural)]
pub struct DeathRecord {
    pub player: Option<usize>,
    pub frame: usize,
}

/// What a player did during a match, as collected while it ran.
/// The final damage is kept as its rank among the players' final damages
/// (lower rank, less damage; equal damage, equal rank).
#[derive(Clone, Debug)]
pub struct RawPlayerResult {
    pub team: usize,
    pub lcancel_attempts: u64,
    pub lcancel_success: u64,
    pub deaths: Vec<DeathRecord>,
    pub final_damage_rank: Option<u64>,
    pub ended_as_fighter: Option<String>,
}

/// The summary of one player shown on the results screen.
#[derive(Clone, Debug)]
pub struct PlayerResult {
    pub fighter: String,
    pub team: usize,
    pub controller: usize,
    pub place: usize,
    pub kills: Vec<usize>,
    pub deaths: Vec<DeathRecord>,
    pub lcancel_attempts: u64,
    pub lcancel_success: u64,
}

/// The results of a finished match.
#[derive(Clone, Debug)]
pub struct GameResults {
    pub player_results: Vec<PlayerResult>,
}

} // verus!

verus! {

/// Two player results hold the same data.
pub open spec fn same_player_result(a: PlayerResult, b: PlayerResult) -> bool {
    &&& a.fighter == b.fighter
    &&& a.team == b.team
    &&& a.controller == b.controller
    &&& a.place == b.place
    &&& a.kills@ == b.kills@
    &&& a.deaths@ == b.deaths@
    &&& a.lcancel_attempts == b.lcancel_attempts
    &&& a.lcancel_success == b.lcancel_success
}

impl PlayerResult {
    /// A copy of the result.
    pub fn duplicate(&self) -> (r: PlayerResult)
        ensures
            same_player_result(r, *self),
    {
        let kills = self.kills.clone();
        assert(kills@ =~= self.kills@);
        let deaths = self.deaths.clone();
        assert(deaths@ =~= self.deaths@);
        PlayerResult {
            fighter: self.fighter.clone(),
            team: self.team,
            controller: self.controller,
            place: self.place,
            kills,
            deaths,
            lcancel_attempts: self.lcancel_attempts,
            lcancel_success: self.lcancel_success,
        }
    }
}

/// A copy of a list of results.
pub fn duplicate_results(results: &Vec<PlayerResult>) -> (r: Vec<PlayerResult>)
    ensures
        r@.len() == results@.len(),
        forall|i: int| 0 <= i < r@.len() ==> same_player_result(#[trigger] r@[i], results@[i]),
{
    let mut r: Vec<PlayerResult> = Vec::new();
    let mut i: usize = 0;
    while i < results.len()
        invariant
            i <= results@.len(),
            r@.len() == i,
            forall|j: int| 0 <= j < i ==> same_player_result(#[trigger] r@[j], results@[j]),
        decreases results@.len() - i,
    {
        r.push(results[i].duplicate());
        i = i + 1;
    }
    r
}

} // verus!

verus! {

/// The frame of the last stock a player lost, if any.
pub open spec fn last_death_frame(r: RawPlayerResult) -> usize {
    if r.deaths@.len() == 0 {
        0
    } else {
        r.deaths@.last().frame
    }
}

/// The key by which a player's result is ranked, lower first. Last one standing ranks by
/// stocks lost (most stocks remaining wins); among players who lost none the lowest final
/// damage wins, and among players who lost some, the one who lost its last stock last wins.
/// Kills and deaths ranks by kills, which are not counted, then by fewest deaths.
pub open spec fn spec_result_key(goal: Goal, r: RawPlayerResult) -> (u64, u64) {
    match goal {
        Goal::LastManStanding => (
            r.deaths@.len() as u64,
            if r.deaths@.len() == 0 {
                r.final_damage_rank->0
            } else {
                (u64::MAX - last_death_frame(r)) as u64
            },
        ),
        Goal::KillDeathScore => (r.deaths@.len() as u64, 0),
    }
}

/// The ranking keys of all results.
pub open spec fn result_keys(goal: Goal, raw: Seq<RawPlayerResult>) -> Seq<(u64, u64)> {
    Seq::new(raw.len(), |i: int| spec_result_key(goal, raw[i]))
}

/// `r` is the summary of raw result `raw` of the player on `controller`, placed at `place`.
pub open spec fn summarizes(r: PlayerResult, raw: RawPlayerResult, controller: usize, place: usize) -> bool {
    &&& raw.ended_as_fighter matches Some(f) && r.fighter@ == f@
    &&& r.team == raw.team
    &&& r.controller == controller
    &&& r.place == place
    &&& r.kills@.len() == 0
    &&& r.deaths@ == raw.deaths@
    &&& r.lcancel_attempts == raw.lcancel_attempts
    &&& r.lcancel_success == raw.lcancel_success
}

/// The key a result is ranked by.
pub fn result_key(goal: Goal, r: &RawPlayerResult) -> (k: (u64, u64))
    requires
        goal == Goal::LastManStanding && r.deaths@.len() == 0 ==> r.final_damage_rank is Some,
    ensures
        k == spec_result_key(goal, *r),
{
    let deaths = r.deaths.len() as u64;
    match goal {
        Goal::LastManStanding => {
            if r.deaths.len() == 0 {
                match r.final_damage_rank {
                    Some(rank) => (deaths, rank),
                    None => (deaths, 0),
                }
            } else {
                let last = r.deaths[r.deaths.len() - 1].frame as u64;
                (deaths, u64::MAX - last)
            }
        },
        Goal::KillDeathScore => (deaths, 0),
    }
}

/// The results screen of a match. The players' results are ranked by `goal`, players with
/// equal keys keeping their order; the player ranked `m`-th gets place `m`, and the results
/// are listed by place. Player `i` played with controller `controllers[i]`.
pub fn generate_game_results(goal: Goal, raw: &Vec<RawPlayerResult>, controllers: &Vec<usize>) -> (r: GameResults)
    requires
        raw@.len() <= controllers@.len(),
        forall|i: int| 0 <= i < raw@.len() ==> (#[trigger] raw@[i]).ended_as_fighter is Some,
        goal == Goal::LastManStanding ==> forall|i: int|
            0 <= i < raw@.len() && raw@[i].deaths@.len() == 0 ==> (#[trigger] raw@[i]).final_damage_rank is Some,
    ensures
        r.player_results@.len() == raw@.len(),
        forall|m: int|
            #![trigger r.player_results@[m]]
            0 <= m < raw@.len() ==> {
                let player = stable_order(result_keys(goal, raw@))[m] as int;
                &&& 0 <= player < raw@.len()
                &&& summarizes(r.player_results@[m], raw@[player], controllers@[player], m as usize)
            },
{
    let n = raw.len();
    let mut keys: Vec<(u64, u64)> = Vec::new();
    let mut i: usize = 0;
    while i < n
        invariant
            n == raw@.len(),
            i <= n,
            keys@.len() == i,
            goal == Goal::LastManStanding ==> forall|j: int|
                0 <= j < raw@.len() && raw@[j].deaths@.len() == 0 ==> (#[trigger] raw@[j]).final_damage_rank is Some,
            forall|j: int| 0 <= j < i ==> keys@[j] == spec_result_key(goal, raw@[j]),
        decreases n - i,
    {
        keys.push(result_key(goal, &raw[i]));
        i = i + 1;
    }
    assert(keys@ =~= result_keys(goal, raw@));
    let order = stable_key_order(&keys);
    let mut results: Vec<PlayerResult> = Vec::new();
    let mut p: usize = 0;
    while p < n
        invariant
            n == raw@.len(),
            n == keys@.len(),
            raw@.len() <= controllers@.len(),
            forall|i: int| 0 <= i < raw@.len() ==> (#[trigger] raw@[i]).ended_as_fighter is Some,
            p <= n,
            results@.len() == p,
            is_stable_key_order(keys@, order@),
            forall|q: int|
                0 <= q < p ==> summarizes(
                    #[trigger] results@[q],
                    raw@[order@[q] as int],
                    controllers@[order@[q] as int],
                    q as usize,
                ),
        decreases n - p,
    {
        let src = order[p];
        let entry = &raw[src];
        let fighter = match &entry.ended_as_fighter {
            Some(f) => f.clone(),
            None => String::new(),
        };
        let deaths = entry.deaths.clone();
        assert(deaths@ =~= entry.deaths@);
        results.push(PlayerResult {
            fighter,
            team: entry.team,
            controller: controllers[src],
            place: p,
            kills: Vec::new(),
            deaths,
            lcancel_attempts: entry.lcancel_attempts,
            lcancel_success: entry.lcancel_success,
        });
        p = p + 1;
    }
    GameResults { player_results: results }
}

/// Of two players who lost as many stocks under last one standing, the first place goes, when
/// neither lost a stock, to the one with the lower final damage, and otherwise to the one who
/// lost its last stock later.
pub proof fn lemma_two_player_tie_break(raw: Seq<RawPlayerResult>)
    requires
        raw.len() == 2,
        raw[0].deaths@.len() == raw[1].deaths@.len(),
        raw[0].deaths@.len() == 0 ==> raw[0].final_damage_rank is Some && raw[1].final_damage_rank is Some,
    ensures
        ({
            let first = stable_order(result_keys(Goal::LastManStanding, raw))[0];
            let alive = raw[0].deaths@.len() == 0;
            &&& alive && raw[0].final_damage_rank->0 < raw[1].final_damage_rank->0 ==> first == 0
            &&& alive && raw[1].final_damage_rank->0 < raw[0].final_damage_rank->0 ==> first == 1
            &&& !alive && last_death_frame(raw[0]) > last_death_frame(raw[1]) ==> first == 0
            &&& !alive && last_death_frame(raw[1]) > last_death_frame(raw[0]) ==> first == 1
        }),
{
    let keys = result_keys(Goal::LastManStanding, raw);
    assert(keys[0] == spec_result_key(Goal::LastManStanding, raw[0]));
    assert(keys[1] == spec_result_key(Goal::LastManStanding, raw[1]));
    let order = if key_before(keys[0], 0, keys[1], 1) { seq![0usize, 1usize] } else { seq![1usize, 0usize] };
    assert(is_stable_key_order(keys, order));
    lemma_stable_key_order_unique(keys, order);
}

} // verus!
