use vstd::prelude::*;

verus! {

/// The number of game frames in one second.
pub const FRAMES_PER_SECOND: u64 = 60;

/// How a match is won.
#[derive(Clone, Copy, Debug, PartialEq, Eq, Structural)]
pub enum Goal {
    KillDeathScore,
    LastManStanding,
}

/// Whether players may pause a running match.
#[derive(Clone, Copy, Debug, PartialEq, Eq, Structural)]
pub enum Pause {
    On,
    Off,
    Hold,
}

/// Whether players are grouped into teams.
#[derive(Clone, Copy, Debug, PartialEq, Eq, Structural)]
pub enum Teams {
    On { friendly_fire: bool },
    Off,
}

/// The rules a match is played by.
#[derive(Clone, Copy, Debug, PartialEq, Eq, Structural)]
pub struct Rules {
    pub goal: Goal,
    pub stock_count: Option<u64>,
    pub time_limit_seconds: Option<u64>,
    pub best_of: u64,
    pub pause: Pause,
    pub teams: Teams,
    pub grab_clang: bool,
}

impl Default for Goal {
    fn default() -> (r: Self)
        ensures
            r == Goal::LastManStanding,
    {
        Goal::LastManStanding
    }
}

impl Default for Pause {
    fn default() -> (r: Self)
        ensures
            r == Pause::On,
    {
        Pause::On
    }
}

impl Default for Teams {
    fn default() -> (r: Self)
        ensures
            r == Teams::Off,
    {
        Teams::Off
    }
}

impl Rules {
    /// The default rules: last one standing with four stocks, eight minutes, best of one,
    /// pausing allowed, no teams and no grab clangs.
    pub open spec fn spec_default() -> Rules {
        Rules {
            goal: Goal::LastManStanding,
            stock_count: Some(4),
            time_limit_seconds: Some(480),
            best_of: 1,
            pause: Pause::On,
            teams: Teams::Off,
            grab_clang: false,
        }
    }
}

impl Default for Rules {
    fn default() -> (r: Self)
        ensures
            r == Rules::spec_default(),
    {
        Rules {
            goal: Goal::default(),
            stock_count: Some(4),
            time_limit_seconds: Some(480),
            best_of: 1,
            pause: Pause::default(),
            teams: Teams::default(),
            grab_clang: false,
        }
    }
}

/// The time limit of `rules` in frames, where it has one.
pub open spec fn spec_time_limit_frames(rules: Rules) -> Option<int> {
    match rules.time_limit_seconds {
        Some(seconds) => Some(seconds * FRAMES_PER_SECOND),
        None => None,
    }
}

impl Rules {
    /// The time limit converted from seconds to frames.
    pub fn time_limit_frames(&self) -> (r: Option<u64>)
        requires
            self.time_limit_seconds matches Some(s) ==> s * FRAMES_PER_SECOND <= u64::MAX,
        ensures
            r matches Some(f) ==> spec_time_limit_frames(*self) == Some(f as int),
            r is None <==> spec_time_limit_frames(*self) is None,
    {
        match self.time_limit_seconds {
            Some(seconds) => Some(seconds * FRAMES_PER_SECOND),
            None => None,
        }
    }
}

} // verus!
