//! Progression: the Puntos currency, rank points and tiers, win/loss
//! statistics and the rewards granted after a match.
use vstd::prelude::*;
use crate::games::{MatchFormat, TeamSide};

verus! {

/// In-game currency ("Puntos"), earned from match results and spent in
/// the Shop.
#[derive(Clone, Copy, Debug)]
pub struct Currency(pub u32);

impl Default for Currency {
    /// A fresh install starts with enough for one premium skin.
    fn default() -> (c: Currency)
        ensures
            c.0 == 250,
    {
        Currency(250)
    }
}

/// Accumulated rank points from match performance.
#[derive(Clone, Copy, Debug)]
pub struct RankPoints(pub u32);

impl Default for RankPoints {
    fn default() -> (r: RankPoints)
        ensures
            r.0 == 0,
    {
        RankPoints(0)
    }
}

/// Rank tiers, lowest first; tiers compare by their place in the ladder.
#[derive(Clone, Copy, Debug, PartialEq, Eq, Structural, PartialOrd, Ord)]
pub enum RankTier {
    Baguhan,
    Manlalaro,
    Mandirigma,
    Bayani,
    Datu,
}

/// The tier that accumulated rank points map to.
pub open spec fn tier_for_points(points: int) -> RankTier {
    if points < 100 {
        RankTier::Baguhan
    } else if points < 300 {
        RankTier::Manlalaro
    } else if points < 600 {
        RankTier::Mandirigma
    } else if points < 1000 {
        RankTier::Bayani
    } else {
        RankTier::Datu
    }
}

impl RankTier {
    /// Position of the tier in the ladder, lowest first.
    pub open spec fn level(self) -> nat {
        match self {
            RankTier::Baguhan => 0,
            RankTier::Manlalaro => 1,
            RankTier::Mandirigma => 2,
            RankTier::Bayani => 3,
            RankTier::Datu => 4,
        }
    }

    pub open spec fn spec_display_name(self) -> Seq<char> {
        match self {
            RankTier::Baguhan => "Baguhan"@,
            RankTier::Manlalaro => "Manlalaro"@,
            RankTier::Mandirigma => "Mandirigma"@,
            RankTier::Bayani => "Bayani"@,
            RankTier::Datu => "Datu"@,
        }
    }

    pub open spec fn spec_next_threshold(self) -> Option<u32> {
        match self {
            RankTier::Baguhan => Some(100),
            RankTier::Manlalaro => Some(300),
            RankTier::Mandirigma => Some(600),
            RankTier::Bayani => Some(1000),
            RankTier::Datu => None,
        }
    }

    /// Determines the tier from accumulated rank points.
    pub fn from_points(points: u32) -> (t: RankTier)
        ensures
            t == tier_for_points(points as int),
    {
        if points <= 99 {
            RankTier::Baguhan
        } else if points <= 299 {
            RankTier::Manlalaro
        } else if points <= 599 {
            RankTier::Mandirigma
        } else if points <= 999 {
            RankTier::Bayani
        } else {
            RankTier::Datu
        }
    }

    pub fn display_name(&self) -> (s: &'static str)
        ensures
            s@ == self.spec_display_name(),
    {
        match self {
            RankTier::Baguhan => "Baguhan",
            RankTier::Manlalaro => "Manlalaro",
            RankTier::Mandirigma => "Mandirigma",
            RankTier::Bayani => "Bayani",
            RankTier::Datu => "Datu",
        }
    }

    /// Points needed to reach the next tier, or `None` at the top tier.
    pub fn next_threshold(&self) -> (r: Option<u32>)
        ensures
            r == self.spec_next_threshold(),
    {
        match self {
            RankTier::Baguhan => Some(100),
            RankTier::Manlalaro => Some(300),
            RankTier::Mandirigma => Some(600),
            RankTier::Bayani => Some(1000),
            RankTier::Datu => None,
        }
    }
}

/// More rank points never give a lower tier.
pub proof fn lemma_tier_monotone(p: int, q: int)
    requires
        p <= q,
    ensures
        tier_for_points(p).level() <= tier_for_points(q).level(),
{
}

/// The threshold a tier shows is exactly where the next tier begins:
/// every point total of the tier lies below it, and reaching it moves
/// the player up by one tier. Only the top tier has no threshold.
pub proof fn lemma_next_threshold_is_next_tier_start(points: int)
    requires
        points >= 0,
    ensures
        tier_for_points(points).spec_next_threshold() is None <==> tier_for_points(points)
            == RankTier::Datu,
        tier_for_points(points).spec_next_threshold() matches Some(n) ==> {
            &&& points < n
            &&& tier_for_points(n as int).level() == tier_for_points(points).level() + 1
            &&& tier_for_points(n - 1).level() == tier_for_points(points).level()
        },
{
}

/// Running win/loss statistics.
#[derive(Clone, Copy, Debug)]
pub struct PlayerStats {
    pub wins: u32,
    pub losses: u32,
}

impl Default for PlayerStats {
    fn default() -> (s: PlayerStats)
        ensures
            s.wins == 0,
            s.losses == 0,
    {
        PlayerStats { wins: 0, losses: 0 }
    }
}

/// The outcome alternates: the player wins whenever the number of games
/// played so far is even.
pub open spec fn spec_you_won(stats: PlayerStats) -> bool {
    (stats.wins + stats.losses) % 2 == 0
}

/// Puntos granted for a match: 60 for a win, 20 for a loss.
pub open spec fn spec_reward_puntos(you_won: bool) -> u32 {
    if you_won { 60 } else { 20 }
}

/// Rank points granted for a match: 25 for a win, 10 for a loss.
pub open spec fn spec_reward_rank(you_won: bool) -> u32 {
    if you_won { 25 } else { 10 }
}

/// The totals after a reward all fit in their counters.
pub open spec fn rewards_fit(currency: Currency, rank: RankPoints, stats: PlayerStats) -> bool {
    let won = spec_you_won(stats);
    &&& stats.wins + stats.losses <= u32::MAX
    &&& currency.0 + spec_reward_puntos(won) <= u32::MAX
    &&& rank.0 + spec_reward_rank(won) <= u32::MAX
    &&& won ==> stats.wins + 1 <= u32::MAX
    &&& !won ==> stats.losses + 1 <= u32::MAX
}

/// Whether the next match's rewards fit in the counters, so that
/// `apply_rewards` may be called.
pub fn can_apply_rewards(currency: &Currency, rank: &RankPoints, stats: &PlayerStats) -> (b: bool)
    ensures
        b == rewards_fit(*currency, *rank, *stats),
{
    let played = stats.wins.checked_add(stats.losses);
    match played {
        None => false,
        Some(played) => {
            let won = played % 2 == 0;
            let (puntos, points) = match_rewards(won);
            let counter = if won { stats.wins } else { stats.losses };
            currency.0.checked_add(puntos).is_some() && rank.0.checked_add(points).is_some()
                && counter.checked_add(1).is_some()
        }
    }
}

/// The (Puntos, rank points) reward for a match outcome.
pub fn match_rewards(you_won: bool) -> (r: (u32, u32))
    ensures
        r == (spec_reward_puntos(you_won), spec_reward_rank(you_won)),
{
    if you_won {
        (60, 25)
    } else {
        (20, 10)
    }
}

/// The winning side when the player, on Team A, won or lost.
pub fn winner_side(you_won: bool) -> (s: TeamSide)
    ensures
        s == (if you_won { TeamSide::A } else { TeamSide::A.spec_other() }),
{
    let your_side = TeamSide::A;
    if you_won {
        your_side
    } else {
        your_side.other()
    }
}

/// Decides the match outcome and grants Puntos, rank points and a win
/// or a loss; returns whether the player won.
pub fn apply_rewards(currency: &mut Currency, rank: &mut RankPoints, stats: &mut PlayerStats) -> (you_won: bool)
    requires
        rewards_fit(*old(currency), *old(rank), *old(stats)),
    ensures
        you_won == spec_you_won(*old(stats)),
        final(currency).0 == old(currency).0 + spec_reward_puntos(you_won),
        final(rank).0 == old(rank).0 + spec_reward_rank(you_won),
        final(stats).wins == old(stats).wins + (if you_won { 1int } else { 0 }),
        final(stats).losses == old(stats).losses + (if you_won { 0int } else { 1 }),
{
    let games_played = stats.wins + stats.losses;
    let you_won = games_played % 2 == 0;
    if you_won {
        currency.0 = currency.0 + 60;
        rank.0 = rank.0 + 25;
        stats.wins = stats.wins + 1;
    } else {
        currency.0 = currency.0 + 20;
        rank.0 = rank.0 + 10;
        stats.losses = stats.losses + 1;
    }
    you_won
}

/// Each match adds exactly one game played, and the outcome of the next
/// match is the opposite of this one: wins and losses alternate.
pub proof fn lemma_outcomes_alternate(before: PlayerStats, after: PlayerStats, you_won: bool)
    requires
        you_won == spec_you_won(before),
        after.wins == before.wins + (if you_won { 1int } else { 0 }),
        after.losses == before.losses + (if you_won { 0int } else { 1 }),
    ensures
        after.wins + after.losses == before.wins + before.losses + 1,
        spec_you_won(after) == !you_won,
{
}

/// A match never costs anything: Puntos and rank points only grow.
pub proof fn lemma_rewards_positive(you_won: bool)
    ensures
        spec_reward_puntos(you_won) > 0,
        spec_reward_rank(you_won) > 0,
        spec_reward_puntos(true) > spec_reward_puntos(false),
        spec_reward_rank(true) > spec_reward_rank(false),
{
}

/// The names listed on the results screen: Team A is the player and AI
/// teammates, Team B is AI opponents, one name per slot of the format.
pub fn result_rosters(format: MatchFormat) -> (r: (Vec<&'static str>, Vec<&'static str>))
    ensures
        r.0@.len() == format.spec_team_size(),
        r.1@.len() == format.spec_team_size(),
        r.0@[0]@ == "You"@,
        forall|i: int| 1 <= i < r.0@.len() ==> r.0@[i]@ == "AI Teammate"@,
        forall|i: int| 0 <= i < r.1@.len() ==> r.1@[i]@ == "AI Opponent"@,
{
    let team_size = format.team_size();
    let mut team_a: Vec<&'static str> = Vec::new();
    team_a.push("You");
    let mut i: usize = 1;
    while i < team_size
        invariant
            1 <= i <= team_size,
            team_size == format.spec_team_size(),
            team_a@.len() == i,
            team_a@[0]@ == "You"@,
            forall|j: int| 1 <= j < i ==> team_a@[j]@ == "AI Teammate"@,
        decreases team_size - i,
    {
        team_a.push("AI Teammate");
        i = i + 1;
    }
    let mut team_b: Vec<&'static str> = Vec::new();
    let mut k: usize = 0;
    while k < team_size
        invariant
            k <= team_size,
            team_size == format.spec_team_size(),
            team_b@.len() == k,
            forall|j: int| 0 <= j < k ==> team_b@[j]@ == "AI Opponent"@,
        decreases team_size - k,
    {
        team_b.push("AI Opponent");
        k = k + 1;
    }
    (team_a, team_b)
}

} // verus!
