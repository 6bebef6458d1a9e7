//! A rotation problem, its schedules, and what the problem says of each player.
use crate::number::Real64;
use vstd::prelude::*;

verus! {

/// Whether a player can be fielded.
#[derive(Clone, Copy, Debug, PartialEq, Eq, Structural)]
pub enum PlayerStatus {
    Available,
    /// Not present, never fielded.
    Awol,
    /// Stays off the pitch all match.
    Injured,
    /// A temporary addition to the roster, free to play.
    Guest,
}

impl Default for PlayerStatus {
    fn default() -> (r: Self)
        ensures
            r == PlayerStatus::Available,
    {
        PlayerStatus::Available
    }
}

/// The player at the position scores `score_with` in a period in which the partner holds the
/// partner's position, else `score_without`.
#[derive(Clone, Copy, Debug)]
pub struct PositionSynergyRule {
    pub player: usize,
    pub position: usize,
    pub partner_player: usize,
    pub partner_position: usize,
    pub score_with: Real64,
    pub score_without: Real64,
}

/// A rotation problem over several periods.
#[derive(Debug)]
pub struct SoccerProblem {
    pub num_players: usize,
    pub num_positions: usize,
    pub num_periods: usize,
    pub bench_size: usize,
    /// The longest run of periods that any player may stay on the field.
    pub max_consecutive_on_field: Option<usize>,
    /// The shortest run of periods on the field, player by player.
    pub min_contiguous_on_field: Option<Vec<usize>>,
    /// The longest run of periods on the field, player by player. A player listed here does not
    /// fall under `max_consecutive_on_field`.
    pub max_contiguous_on_field: Option<Vec<usize>>,
    /// The longest run of periods on the bench, player by player.
    pub max_contiguous_bench: Option<Vec<usize>>,
    /// No player sits on the bench in two periods in a row.
    pub enforce_no_consecutive_bench: bool,
    pub max_subs_per_game: Option<usize>,
    pub min_subs_per_game: Option<usize>,
    /// `affinity[p][pos][t]`: how well player `p` plays position `pos` in period `t`.
    pub affinity: Vec<Vec<Vec<Real64>>>,
    pub player_names: Option<Vec<String>>,
    pub position_names: Option<Vec<String>>,
    pub player_status: Option<Vec<PlayerStatus>>,
    /// The position to which a player is locked, if any.
    pub fixed_position: Option<Vec<Option<usize>>>,
    /// `banned_positions[p][pos]`: player `p` never plays position `pos`.
    pub banned_positions: Option<Vec<Vec<bool>>>,
    pub synergy_rules: Option<Vec<PositionSynergyRule>>,
}

/// A rotation schedule.
#[derive(Debug)]
pub struct Schedule {
    /// `assignment[t][pos]`: the player at position `pos` in period `t`, -1 where nobody is.
    pub assignment: Vec<Vec<i64>>,
    /// `bench[t]`: the players on the bench in period `t`.
    pub bench: Vec<Vec<usize>>,
}

impl SoccerProblem {
    /// There is an affinity for every player, position and period.
    pub open spec fn has_affinities(self) -> bool {
        &&& self.affinity@.len() == self.num_players
        &&& forall|p: int|
            0 <= p < self.num_players ==> (#[trigger] self.affinity@[p])@.len()
                == self.num_positions
        &&& forall|p: int, pos: int|
            0 <= p < self.num_players && 0 <= pos < self.num_positions
                ==> (#[trigger] self.affinity@[p]@[pos])@.len() == self.num_periods
    }
}

/// The entry of an optional table of counts for a player.
pub open spec fn entry(table: Option<Vec<usize>>, p: int) -> Option<usize> {
    if table is Some && p < table->0@.len() {
        Some(table->0@[p])
    } else {
        None
    }
}

fn entry_of(table: &Option<Vec<usize>>, p: usize) -> (r: Option<usize>)
    ensures
        r == entry(*table, p as int),
{
    match table {
        Some(v) => if p < v.len() {
            Some(v[p])
        } else {
            None
        },
        None => None,
    }
}

/// The player may appear on the field.
pub open spec fn fieldable(problem: SoccerProblem, p: int) -> bool {
    !(problem.player_status is Some && p < problem.player_status->0@.len() && (
    problem.player_status->0@[p] == PlayerStatus::Awol || problem.player_status->0@[p]
        == PlayerStatus::Injured))
}

/// The position a player is locked to.
pub open spec fn fixed_at(problem: SoccerProblem, p: int) -> Option<usize> {
    if problem.fixed_position is Some && p < problem.fixed_position->0@.len() {
        problem.fixed_position->0@[p]
    } else {
        None
    }
}

/// The player never plays the position.
pub open spec fn banned_from(problem: SoccerProblem, p: int, pos: int) -> bool {
    problem.banned_positions is Some && p < problem.banned_positions->0@.len() && pos
        < problem.banned_positions->0@[p]@.len() && problem.banned_positions->0@[p]@[pos]
}

/// The player can play the position.
pub open spec fn can_play(problem: SoccerProblem, p: int, pos: int) -> bool {
    &&& fieldable(problem, p)
    &&& fixed_at(problem, p) is Some ==> fixed_at(problem, p)->0 == pos
    &&& !banned_from(problem, p, pos)
}

/// The shortest stint of a player, where it says more than one period.
pub open spec fn min_stint(problem: SoccerProblem, p: int) -> Option<usize> {
    match entry(problem.min_contiguous_on_field, p) {
        Some(limit) => if limit > 1 {
            Some(limit)
        } else {
            None
        },
        None => None,
    }
}

/// The longest stint of a player: their own entry, else the common one; zero is no limit.
pub open spec fn max_stint(problem: SoccerProblem, p: int) -> Option<usize> {
    let own = entry(problem.max_contiguous_on_field, p);
    let limit = if own is Some {
        own
    } else {
        problem.max_consecutive_on_field
    };
    if limit is Some && limit->0 >= 1 {
        limit
    } else {
        None
    }
}

/// The longest run of a player on the bench; zero is no limit.
pub open spec fn max_bench(problem: SoccerProblem, p: int) -> Option<usize> {
    let own = entry(problem.max_contiguous_bench, p);
    if own is Some && own->0 >= 1 {
        own
    } else {
        None
    }
}

pub fn player_is_fieldable(problem: &SoccerProblem, p: usize) -> (b: bool)
    ensures
        b == fieldable(*problem, p as int),
{
    match &problem.player_status {
        Some(statuses) => if p < statuses.len() {
            statuses[p] != PlayerStatus::Awol && statuses[p] != PlayerStatus::Injured
        } else {
            true
        },
        None => true,
    }
}

pub fn player_fixed_position(problem: &SoccerProblem, p: usize) -> (r: Option<usize>)
    ensures
        r == fixed_at(*problem, p as int),
{
    match &problem.fixed_position {
        Some(fixed) => if p < fixed.len() {
            fixed[p]
        } else {
            None
        },
        None => None,
    }
}

pub fn player_banned_from_position(problem: &SoccerProblem, p: usize, pos: usize) -> (b: bool)
    ensures
        b == banned_from(*problem, p as int, pos as int),
{
    match &problem.banned_positions {
        Some(banned) => p < banned.len() && pos < banned[p].len() && banned[p][pos],
        None => false,
    }
}

pub fn player_can_play_position(problem: &SoccerProblem, p: usize, pos: usize) -> (b: bool)
    ensures
        b == can_play(*problem, p as int, pos as int),
{
    let at_home: bool = match player_fixed_position(problem, p) {
        Some(fixed) => fixed == pos,
        None => true,
    };
    player_is_fieldable(problem, p) && at_home && !player_banned_from_position(problem, p, pos)
}

pub fn player_min_contiguous_on_field(problem: &SoccerProblem, p: usize) -> (r: Option<usize>)
    ensures
        r == min_stint(*problem, p as int),
{
    match entry_of(&problem.min_contiguous_on_field, p) {
        Some(limit) => if limit > 1 {
            Some(limit)
        } else {
            None
        },
        None => None,
    }
}

pub fn player_max_contiguous_on_field(problem: &SoccerProblem, p: usize) -> (r: Option<usize>)
    ensures
        r == max_stint(*problem, p as int),
{
    let own: Option<usize> = entry_of(&problem.max_contiguous_on_field, p);
    let limit: Option<usize> = if own.is_some() { own } else { problem.max_consecutive_on_field };
    match limit {
        Some(n) => if n >= 1 {
            Some(n)
        } else {
            None
        },
        None => None,
    }
}

pub fn player_max_contiguous_bench(problem: &SoccerProblem, p: usize) -> (r: Option<usize>)
    ensures
        r == max_bench(*problem, p as int),
{
    match entry_of(&problem.max_contiguous_bench, p) {
        Some(n) => if n >= 1 {
            Some(n)
        } else {
            None
        },
        None => None,
    }
}

/// Some flag of a list is set.
pub open spec fn some_flag(flags: Seq<bool>) -> bool {
    exists|i: int| 0 <= i < flags.len() && #[trigger] flags[i]
}

/// Some count of an optional table is at least `floor`.
pub open spec fn some_entry(table: Option<Vec<usize>>, floor: usize) -> bool {
    table is Some && exists|i: int| 0 <= i < table->0@.len() && #[trigger] table->0@[i] >= floor
}

fn some_entry_of(table: &Option<Vec<usize>>, floor: usize) -> (b: bool)
    ensures
        b == some_entry(*table, floor),
{
    match table {
        Some(v) => {
            let mut i: usize = 0;
            while i < v.len()
                invariant
                    i <= v@.len(),
                    *table == Some(*v),
                    forall|j: int| 0 <= j < i ==> #[trigger] v@[j] < floor,
                decreases v@.len() - i,
            {
                if v[i] >= floor {
                    assert(table->0@[i as int] >= floor);
                    return true;
                }
                i += 1;
            }
            false
        },
        None => false,
    }
}

/// Some player is not fieldable.
pub open spec fn some_unavailable(problem: SoccerProblem) -> bool {
    problem.player_status is Some && exists|i: int|
        0 <= i < problem.player_status->0@.len() && (#[trigger] problem.player_status->0@[i]
            == PlayerStatus::Awol || problem.player_status->0@[i] == PlayerStatus::Injured)
}

/// Some player is locked to a position.
pub open spec fn some_fixed(problem: SoccerProblem) -> bool {
    problem.fixed_position is Some && exists|i: int|
        0 <= i < problem.fixed_position->0@.len() && #[trigger] problem.fixed_position->0@[i] is Some
}

/// Some player is banned from a position.
pub open spec fn some_banned(problem: SoccerProblem) -> bool {
    problem.banned_positions is Some && exists|i: int|
        0 <= i < problem.banned_positions->0@.len() && some_flag(
            #[trigger] problem.banned_positions->0@[i]@,
        )
}

/// A rule is in force that the period-by-period decision process cannot express.
pub open spec fn planner_only(problem: SoccerProblem) -> bool {
    ||| problem.max_consecutive_on_field is Some
    ||| some_entry(problem.min_contiguous_on_field, 2)
    ||| some_entry(problem.max_contiguous_on_field, 1)
    ||| some_entry(problem.max_contiguous_bench, 1)
    ||| problem.max_subs_per_game is Some
    ||| problem.min_subs_per_game is Some
    ||| some_unavailable(problem)
    ||| some_fixed(problem)
    ||| some_banned(problem)
    ||| problem.synergy_rules is Some && problem.synergy_rules->0@.len() > 0
}

fn has_unavailable(problem: &SoccerProblem) -> (b: bool)
    ensures
        b == some_unavailable(*problem),
{
    match &problem.player_status {
        Some(statuses) => {
            let mut i: usize = 0;
            while i < statuses.len()
                invariant
                    i <= statuses@.len(),
                    problem.player_status == Some(*statuses),
                    forall|j: int|
                        0 <= j < i ==> #[trigger] statuses@[j] != PlayerStatus::Awol && statuses@[j]
                            != PlayerStatus::Injured,
                decreases statuses@.len() - i,
            {
                if statuses[i] == PlayerStatus::Awol || statuses[i] == PlayerStatus::Injured {
                    assert(problem.player_status->0@[i as int] == statuses@[i as int]);
                    return true;
                }
                i += 1;
            }
            false
        },
        None => false,
    }
}

fn has_fixed(problem: &SoccerProblem) -> (b: bool)
    ensures
        b == some_fixed(*problem),
{
    match &problem.fixed_position {
        Some(fixed) => {
            let mut i: usize = 0;
            while i < fixed.len()
                invariant
                    i <= fixed@.len(),
                    problem.fixed_position == Some(*fixed),
                    forall|j: int| 0 <= j < i ==> #[trigger] fixed@[j] is None,
                decreases fixed@.len() - i,
            {
                if fixed[i].is_some() {
                    assert(problem.fixed_position->0@[i as int] is Some);
                    return true;
                }
                i += 1;
            }
            false
        },
        None => false,
    }
}

fn has_flag(flags: &Vec<bool>) -> (b: bool)
    ensures
        b == some_flag(flags@),
{
    let mut i: usize = 0;
    while i < flags.len()
        invariant
            i <= flags@.len(),
            forall|j: int| 0 <= j < i ==> !#[trigger] flags@[j],
        decreases flags@.len() - i,
    {
        if flags[i] {
            return true;
        }
        i += 1;
    }
    false
}

fn has_banned(problem: &SoccerProblem) -> (b: bool)
    ensures
        b == some_banned(*problem),
{
    match &problem.banned_positions {
        Some(rows) => {
            let mut i: usize = 0;
            while i < rows.len()
                invariant
                    i <= rows@.len(),
                    problem.banned_positions == Some(*rows),
                    forall|j: int| 0 <= j < i ==> !some_flag(#[trigger] rows@[j]@),
                decreases rows@.len() - i,
            {
                if has_flag(&rows[i]) {
                    assert(some_flag(problem.banned_positions->0@[i as int]@));
                    return true;
                }
                i += 1;
            }
            false
        },
        None => false,
    }
}

/// Whether a rule is in force that the period-by-period decision process cannot express.
pub fn has_planner_only_constraints(problem: &SoccerProblem) -> (b: bool)
    ensures
        b == planner_only(*problem),
{
    let has_synergy: bool = match &problem.synergy_rules {
        Some(rules) => rules.len() > 0,
        None => false,
    };
    problem.max_consecutive_on_field.is_some() || some_entry_of(
        &problem.min_contiguous_on_field,
        2,
    ) || some_entry_of(&problem.max_contiguous_on_field, 1) || some_entry_of(
        &problem.max_contiguous_bench,
        1,
    ) || problem.max_subs_per_game.is_some() || problem.min_subs_per_game.is_some()
        || has_unavailable(problem) || has_fixed(problem) || has_banned(problem) || has_synergy
}

/// The score of a cell after the first `n` rules: the last rule for the cell decides by its
/// partner, without a rule the affinity stands.
pub open spec fn cell_score(
    problem: SoccerProblem,
    assignment: Seq<i64>,
    player: int,
    position: int,
    period: int,
    n: int,
) -> Real64
    decreases n,
{
    if n <= 0 {
        problem.affinity@[player]@[position]@[period]
    } else {
        let rule = problem.synergy_rules->0@[n - 1];
        if rule.player == player && rule.position == position {
            if rule.partner_position < assignment.len() && assignment[rule.partner_position as int]
                == rule.partner_player {
                rule.score_with
            } else {
                rule.score_without
            }
        } else {
            cell_score(problem, assignment, player, position, period, n - 1)
        }
    }
}

/// How many synergy rules a problem has.
pub open spec fn rule_count(problem: SoccerProblem) -> int {
    if problem.synergy_rules is Some {
        problem.synergy_rules->0@.len() as int
    } else {
        0
    }
}

/// The score of a player at a position in a period, given the whole line-up of the period.
pub fn effective_cell_affinity(
    problem: &SoccerProblem,
    assignment: &Vec<i64>,
    player: usize,
    position: usize,
    period: usize,
) -> (r: Real64)
    requires
        problem.has_affinities(),
        player < problem.num_players,
        position < problem.num_positions,
        period < problem.num_periods,
    ensures
        r == cell_score(
            *problem,
            assignment@,
            player as int,
            position as int,
            period as int,
            rule_count(*problem),
        ),
{
    let mut score: Real64 = problem.affinity[player][position][period];
    if let Some(rules) = &problem.synergy_rules {
        let mut i: usize = 0;
        while i < rules.len()
            invariant
                i <= rules@.len(),
                problem.synergy_rules is Some,
                *rules == problem.synergy_rules->0,
                score == cell_score(
                    *problem,
                    assignment@,
                    player as int,
                    position as int,
                    period as int,
                    i as int,
                ),
            decreases rules@.len() - i,
        {
            let rule: PositionSynergyRule = rules[i];
            if rule.player == player && rule.position == position {
                let partner_on: bool = rule.partner_position < assignment.len()
                    && assignment[rule.partner_position] >= 0 && assignment[rule.partner_position] as u64
                    == rule.partner_player as u64;
                score = if partner_on { rule.score_with } else { rule.score_without };
            }
            i += 1;
        }
    }
    score
}

} // verus!
