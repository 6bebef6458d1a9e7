//! The rows and columns of the rotation programs.
use crate::rotation::problem::{
    banned_from, fieldable, fixed_at, max_bench, max_stint, min_stint,
    player_banned_from_position, player_fixed_position, player_is_fieldable,
    player_max_contiguous_bench, player_max_contiguous_on_field, player_min_contiguous_on_field,
    rule_count, PositionSynergyRule, SoccerProblem,
};
use vstd::prelude::*;

verus! {

/// Which program is built: the linear relaxation, whose position rows are equations and stand
/// apart, or the exact 0/1 program.
#[derive(Clone, Copy, Debug, PartialEq, Eq, Structural)]
pub enum Program {
    Relaxation,
    Exact,
}

/// What a row of a program says.
#[derive(Clone, Copy, Debug, PartialEq, Eq, Structural)]
pub enum RowKind {
    /// The player holds at most one position in the period.
    PlayerOnce { player: usize, period: usize },
    /// The position has at most, or at least, one player in the period.
    PositionFilled { position: usize, period: usize, at_least: bool },
    /// The player plays in the period or in the next.
    NoConsecutiveBench { player: usize, period: usize },
    /// The player rests once in the window after `start`.
    MaxStint { player: usize, start: usize },
    /// The player plays once in the window after `start`.
    MaxBench { player: usize, start: usize },
    /// The player starts no stint so late that it would be too short.
    NoLateStart { player: usize, start: usize },
    /// A stint that starts at `start` still lasts in the period.
    MinStint { player: usize, start: usize, period: usize },
    /// The player does not play in the period.
    Unavailable { player: usize, period: usize },
    /// The player holds their fixed position at most once in the period.
    Fixed { player: usize, period: usize },
    /// The player holds their fixed position at least once in the period.
    FixedPlays { player: usize, period: usize },
    /// The player with a fixed position does not hold this other one in the period.
    FixedBan { player: usize, period: usize, position: usize },
    /// The player does not hold the position in the period.
    Banned { player: usize, position: usize, period: usize },
    /// A rule pays only with its subject (part 0) and its partner (part 1), and then it does
    /// (part 2).
    Synergy { rule: usize, period: usize, part: usize },
    /// Who holds a position in the period is on the field.
    OnLink { player: usize, period: usize },
    /// Who is on the field in the period holds a position.
    OnHolds { player: usize, period: usize },
    /// A player taken off before the period was on (part 0) and is off (part 1), and a player who
    /// was on and is off was taken off (part 2).
    SubOff { player: usize, period: usize, part: usize },
    /// At most so many players are taken off.
    MaxSubs,
    /// At least so many players are taken off.
    MinSubs,
}

/// A column of a program.
#[derive(Clone, Copy, Debug, PartialEq, Eq, Structural)]
pub enum Column {
    /// The player holds the position in the period.
    Field { player: usize, position: usize, period: usize },
    /// The rule pays in the period.
    Together { rule: usize, period: usize },
    /// The player is on the field in the period.
    On { player: usize, period: usize },
    /// The player was taken off before the period.
    Off { player: usize, period: usize },
}

/// The program counts substitutions.
pub open spec fn counts_subs(problem: SoccerProblem) -> bool {
    (problem.max_subs_per_game is Some || problem.min_subs_per_game is Some)
        && problem.num_periods > 1
}

/// The row belongs to the program.
pub open spec fn applies(problem: SoccerProblem, program: Program, kind: RowKind) -> bool {
    let players = problem.num_players;
    let positions = problem.num_positions;
    let periods = problem.num_periods;
    match kind {
        RowKind::PlayerOnce { player, period } => player < players && period < periods,
        RowKind::PositionFilled { position, period, at_least } => program == Program::Exact
            && position < positions && period < periods,
        RowKind::NoConsecutiveBench { player, period } => problem.enforce_no_consecutive_bench
            && player < players && fieldable(problem, player as int) && period + 1 < periods,
        RowKind::MaxStint { player, start } => player < players && max_stint(
            problem,
            player as int,
        ) is Some && start + max_stint(problem, player as int)->0 + 1 <= periods,
        RowKind::MaxBench { player, start } => player < players && fieldable(
            problem,
            player as int,
        ) && max_bench(problem, player as int) is Some && start + max_bench(
            problem,
            player as int,
        )->0 + 1 <= periods,
        RowKind::NoLateStart { player, start } => player < players && min_stint(
            problem,
            player as int,
        ) is Some && start < periods && start + min_stint(problem, player as int)->0 > periods,
        RowKind::MinStint { player, start, period } => player < players && min_stint(
            problem,
            player as int,
        ) is Some && start + min_stint(problem, player as int)->0 <= periods && start < period
            < start + min_stint(problem, player as int)->0,
        RowKind::Unavailable { player, period } => program == Program::Exact && player < players
            && !fieldable(problem, player as int) && period < periods,
        RowKind::Fixed { player, period } => program == Program::Exact && player < players
            && fixed_at(problem, player as int) is Some && fixed_at(problem, player as int)->0
            < positions && period < periods,
        RowKind::FixedPlays { player, period } => program == Program::Exact && player < players
            && fixed_at(problem, player as int) is Some && fixed_at(problem, player as int)->0
            < positions && period < periods,
        RowKind::FixedBan { player, period, position } => program == Program::Exact && player
            < players && fixed_at(problem, player as int) is Some && fixed_at(
            problem,
            player as int,
        )->0 < positions && period < periods && position < positions && position != fixed_at(
            problem,
            player as int,
        )->0,
        RowKind::Banned { player, position, period } => program == Program::Exact && player
            < players && position < positions && banned_from(
            problem,
            player as int,
            position as int,
        ) && period < periods,
        RowKind::Synergy { rule, period, part } => program == Program::Exact && rule < rule_count(
            problem,
        ) && period < periods && part < 3,
        RowKind::OnLink { player, period } => program == Program::Exact && counts_subs(problem)
            && player < players && period < periods,
        RowKind::OnHolds { player, period } => program == Program::Exact && counts_subs(problem)
            && player < players && period < periods,
        RowKind::SubOff { player, period, part } => program == Program::Exact && counts_subs(
            problem,
        ) && player < players && 1 <= period < periods && part < 3,
        RowKind::MaxSubs => program == Program::Exact && counts_subs(problem)
            && problem.max_subs_per_game is Some,
        RowKind::MinSubs => program == Program::Exact && counts_subs(problem)
            && problem.min_subs_per_game is Some,
    }
}

/// Where a row stands: by what it says, then by the numbers it speaks of.
pub open spec fn place(kind: RowKind) -> (int, int, int, int) {
    match kind {
        RowKind::PlayerOnce { player, period } => (0, player as int, period as int, 0),
        RowKind::PositionFilled { position, period, at_least } => (
            1,
            position as int,
            period as int,
            if at_least {
                1
            } else {
                0
            },
        ),
        RowKind::NoConsecutiveBench { player, period } => (2, player as int, period as int, 0),
        RowKind::MaxStint { player, start } => (3, player as int, start as int, 0),
        RowKind::MaxBench { player, start } => (4, player as int, start as int, 0),
        RowKind::NoLateStart { player, start } => (5, player as int, start as int, 0),
        RowKind::MinStint { player, start, period } => (
            5,
            player as int,
            start as int,
            period as int,
        ),
        RowKind::Unavailable { player, period } => (6, player as int, period as int, 0),
        RowKind::Fixed { player, period } => (7, player as int, period as int, 0),
        RowKind::FixedPlays { player, period } => (7, player as int, period as int, 1),
        RowKind::FixedBan { player, period, position } => (
            7,
            player as int,
            period as int,
            position + 2,
        ),
        RowKind::Banned { player, position, period } => (
            8,
            player as int,
            position as int,
            period as int,
        ),
        RowKind::Synergy { rule, period, part } => (9, rule as int, period as int, part as int),
        RowKind::OnLink { player, period } => (10, player as int, period as int, 0),
        RowKind::OnHolds { player, period } => (10, player as int, period as int, 1),
        RowKind::SubOff { player, period, part } => (
            11,
            player as int,
            period as int,
            part as int,
        ),
        RowKind::MaxSubs => (12, 0, 0, 0),
        RowKind::MinSubs => (13, 0, 0, 0),
    }
}

/// One place comes before another.
pub open spec fn comes_before(x: (int, int, int, int), y: (int, int, int, int)) -> bool {
    ||| x.0 < y.0
    ||| x.0 == y.0 && x.1 < y.1
    ||| x.0 == y.0 && x.1 == y.1 && x.2 < y.2
    ||| x.0 == y.0 && x.1 == y.1 && x.2 == y.2 && x.3 < y.3
}

/// `kinds` lists, in their order, the rows of the program that stand before `end`.
pub open spec fn lists_rows_before(
    problem: SoccerProblem,
    program: Program,
    kinds: Seq<RowKind>,
    end: (int, int, int, int),
) -> bool {
    &&& forall|i: int|
        0 <= i < kinds.len() ==> applies(problem, program, #[trigger] kinds[i]) && comes_before(
            place(kinds[i]),
            end,
        )
    &&& forall|i: int, j: int|
        0 <= i < j < kinds.len() ==> comes_before(
            place(#[trigger] kinds[i]),
            place(#[trigger] kinds[j]),
        )
    &&& forall|kind: RowKind|
        #![trigger applies(problem, program, kind)]
        applies(problem, program, kind) && comes_before(place(kind), end) ==> kinds.contains(kind)
}

/// `kinds` lists the rows of the program, each once and in their order.
pub open spec fn lists_rows(problem: SoccerProblem, program: Program, kinds: Seq<RowKind>) -> bool {
    &&& forall|i: int| 0 <= i < kinds.len() ==> applies(problem, program, #[trigger] kinds[i])
    &&& forall|i: int, j: int|
        0 <= i < j < kinds.len() ==> comes_before(
            place(#[trigger] kinds[i]),
            place(#[trigger] kinds[j]),
        )
    &&& forall|kind: RowKind| #[trigger]
        applies(problem, program, kind) ==> kinds.contains(kind)
}

fn wants_subs(problem: &SoccerProblem) -> (b: bool)
    ensures
        b == counts_subs(*problem),
{
    (problem.max_subs_per_game.is_some() || problem.min_subs_per_game.is_some())
        && problem.num_periods > 1
}

pub fn rules_len(problem: &SoccerProblem) -> (n: usize)
    ensures
        n == rule_count(*problem),
{
    match &problem.synergy_rules {
        Some(rules) => rules.len(),
        None => 0,
    }
}

/// Whether the row belongs to the program.
pub fn row_applies(problem: &SoccerProblem, program: Program, kind: RowKind) -> (b: bool)
    ensures
        b == applies(*problem, program, kind),
{
    let players: usize = problem.num_players;
    let positions: usize = problem.num_positions;
    let periods: usize = problem.num_periods;
    let exact: bool = program == Program::Exact;
    match kind {
        RowKind::PlayerOnce { player, period } => player < players && period < periods,
        RowKind::PositionFilled { position, period, .. } => exact && position < positions && period
            < periods,
        RowKind::NoConsecutiveBench { player, period } => problem.enforce_no_consecutive_bench
            && player < players && player_is_fieldable(problem, player) && period < periods
            && period + 1 < periods,
        RowKind::MaxStint { player, start } => player < players
            && match player_max_contiguous_on_field(problem, player) {
            Some(m) => m < periods && start < periods - m,
            None => false,
        },
        RowKind::MaxBench { player, start } => player < players && player_is_fieldable(
            problem,
            player,
        ) && match player_max_contiguous_bench(problem, player) {
            Some(m) => m < periods && start < periods - m,
            None => false,
        },
        RowKind::NoLateStart { player, start } => player < players
            && match player_min_contiguous_on_field(problem, player) {
            Some(m) => start < periods && (m > periods || start > periods - m),
            None => false,
        },
        RowKind::MinStint { player, start, period } => player < players
            && match player_min_contiguous_on_field(problem, player) {
            Some(m) => m <= periods && start <= periods - m && start < period && period - start
                < m,
            None => false,
        },
        RowKind::Unavailable { player, period } => exact && player < players
            && !player_is_fieldable(problem, player) && period < periods,
        RowKind::Fixed { player, period } => exact && player < players
            && match player_fixed_position(problem, player) {
            Some(fixed) => fixed < positions && period < periods,
            None => false,
        },
        RowKind::FixedPlays { player, period } => exact && player < players
            && match player_fixed_position(problem, player) {
            Some(fixed) => fixed < positions && period < periods,
            None => false,
        },
        RowKind::FixedBan { player, period, position } => exact && player < players
            && match player_fixed_position(problem, player) {
            Some(fixed) => fixed < positions && period < periods && position < positions && position
                != fixed,
            None => false,
        },
        RowKind::Banned { player, position, period } => exact && player < players && position
            < positions && player_banned_from_position(problem, player, position) && period
            < periods,
        RowKind::Synergy { rule, period, part } => exact && rule < rules_len(problem) && period
            < periods && part < 3,
        RowKind::OnLink { player, period } => exact && wants_subs(problem) && player < players
            && period < periods,
        RowKind::OnHolds { player, period } => exact && wants_subs(problem) && player < players
            && period < periods,
        RowKind::SubOff { player, period, part } => exact && wants_subs(problem) && player
            < players && 1 <= period && period < periods && part < 3,
        RowKind::MaxSubs => exact && wants_subs(problem) && problem.max_subs_per_game.is_some(),
        RowKind::MinSubs => exact && wants_subs(problem) && problem.min_subs_per_game.is_some(),
    }
}

/// How far the numbers of the rows of a kind go.
pub open spec fn extents(problem: SoccerProblem, f: int) -> (int, int, int) {
    let players = problem.num_players as int;
    let positions = problem.num_positions as int;
    let periods = problem.num_periods as int;
    if f == 1 {
        (positions, periods, 2)
    } else if f == 5 {
        (players, periods, periods)
    } else if f == 7 {
        (players, periods, positions + 2)
    } else if f == 8 {
        (players, positions, periods)
    } else if f == 9 {
        (rule_count(problem), periods, 3)
    } else if f == 10 {
        (players, periods, 2)
    } else if f == 11 {
        (players, periods, 3)
    } else if f >= 12 {
        (1, 1, 1)
    } else {
        (players, periods, 1)
    }
}

fn extents_of(problem: &SoccerProblem, f: usize) -> (r: (usize, usize, usize))
    requires
        problem.num_positions < usize::MAX - 1,
    ensures
        (r.0 as int, r.1 as int, r.2 as int) == extents(*problem, f as int),
{
    let players: usize = problem.num_players;
    let positions: usize = problem.num_positions;
    let periods: usize = problem.num_periods;
    if f == 1 {
        (positions, periods, 2)
    } else if f == 5 {
        (players, periods, periods)
    } else if f == 7 {
        (players, periods, positions + 2)
    } else if f == 8 {
        (players, positions, periods)
    } else if f == 9 {
        (rules_len(problem), periods, 3)
    } else if f == 10 {
        (players, periods, 2)
    } else if f == 11 {
        (players, periods, 3)
    } else if f >= 12 {
        (1, 1, 1)
    } else {
        (players, periods, 1)
    }
}

/// The row that stands at a place.
fn row_at(f: usize, a: usize, b: usize, c: usize) -> (kind: RowKind)
    requires
        f < 14,
        f == 1 ==> c < 2,
        f == 10 ==> c < 2,
        f == 0 || f == 2 || f == 3 || f == 4 || f == 6 ==> c == 0,
        f >= 12 ==> a == 0 && b == 0 && c == 0,
    ensures
        place(kind) == (f as int, a as int, b as int, c as int),
        kind is MinStint ==> kind->MinStint_period > 0,
{
    if f == 0 {
        RowKind::PlayerOnce { player: a, period: b }
    } else if f == 1 {
        RowKind::PositionFilled { position: a, period: b, at_least: c == 1 }
    } else if f == 2 {
        RowKind::NoConsecutiveBench { player: a, period: b }
    } else if f == 3 {
        RowKind::MaxStint { player: a, start: b }
    } else if f == 4 {
        RowKind::MaxBench { player: a, start: b }
    } else if f == 5 {
        if c == 0 {
            RowKind::NoLateStart { player: a, start: b }
        } else {
            RowKind::MinStint { player: a, start: b, period: c }
        }
    } else if f == 6 {
        RowKind::Unavailable { player: a, period: b }
    } else if f == 7 {
        if c == 0 {
            RowKind::Fixed { player: a, period: b }
        } else if c == 1 {
            RowKind::FixedPlays { player: a, period: b }
        } else {
            RowKind::FixedBan { player: a, period: b, position: c - 2 }
        }
    } else if f == 8 {
        RowKind::Banned { player: a, position: b, period: c }
    } else if f == 9 {
        RowKind::Synergy { rule: a, period: b, part: c }
    } else if f == 10 {
        if c == 0 {
            RowKind::OnLink { player: a, period: b }
        } else {
            RowKind::OnHolds { player: a, period: b }
        }
    } else if f == 11 {
        RowKind::SubOff { player: a, period: b, part: c }
    } else if f == 12 {
        RowKind::MaxSubs
    } else {
        RowKind::MinSubs
    }
}

proof fn rows_stay_in_extents(problem: SoccerProblem, program: Program, kind: RowKind)
    requires
        applies(problem, program, kind),
    ensures
        ({
            let (f, a, b, c) = place(kind);
            let (x, y, z) = extents(problem, f);
            0 <= f < 14 && 0 <= a < x && 0 <= b < y && 0 <= c < z
        }),
{
}

/// Two rows of a program at one place are one row.
proof fn places_tell_rows_apart(
    problem: SoccerProblem,
    program: Program,
    k: RowKind,
    l: RowKind,
)
    requires
        applies(problem, program, k),
        place(k) == place(l),
        l is MinStint ==> l->MinStint_period > 0,
    ensures
        k == l,
{
}

/// Nothing of the program stands between two places.
proof fn skip_gap(
    problem: SoccerProblem,
    program: Program,
    kinds: Seq<RowKind>,
    from: (int, int, int, int),
    to: (int, int, int, int),
)
    requires
        lists_rows_before(problem, program, kinds, from),
        forall|x: (int, int, int, int)|
            #![trigger comes_before(x, to)]
            comes_before(x, from) ==> comes_before(x, to),
        forall|kind: RowKind|
            #![trigger applies(problem, program, kind)]
            applies(problem, program, kind) && comes_before(place(kind), to) ==> comes_before(
                place(kind),
                from,
            ),
    ensures
        lists_rows_before(problem, program, kinds, to),
{
}

/// Lists the rows of a program.
#[verifier::rlimit(40)]
pub fn list_rows(problem: &SoccerProblem, program: Program) -> (kinds: Vec<RowKind>)
    requires
        problem.num_positions < usize::MAX - 1,
    ensures
        lists_rows(*problem, program, kinds@),
{
    let mut kinds: Vec<RowKind> = Vec::new();
    let mut f: usize = 0;
    while f < 14
        invariant
            f <= 14,
            problem.num_positions < usize::MAX - 1,
            lists_rows_before(*problem, program, kinds@, (f as int, 0, 0, 0)),
        decreases 14 - f,
    {
        let (x, y, z): (usize, usize, usize) = extents_of(problem, f);
        let mut a: usize = 0;
        while a < x
            invariant
                f < 14,
                a <= x,
                (x as int, y as int, z as int) == extents(*problem, f as int),
                lists_rows_before(*problem, program, kinds@, (f as int, a as int, 0, 0)),
            decreases x - a,
        {
            let mut b: usize = 0;
            while b < y
                invariant
                    f < 14,
                    a < x,
                    b <= y,
                    (x as int, y as int, z as int) == extents(*problem, f as int),
                    lists_rows_before(*problem, program, kinds@, (f as int, a as int, b as int, 0)),
                decreases y - b,
            {
                let mut c: usize = 0;
                while c < z
                    invariant
                        f < 14,
                        a < x,
                        b < y,
                        c <= z,
                        (x as int, y as int, z as int) == extents(*problem, f as int),
                        lists_rows_before(
                            *problem,
                            program,
                            kinds@,
                            (f as int, a as int, b as int, c as int),
                        ),
                    decreases z - c,
                {
                    let kind: RowKind = row_at(f, a, b, c);
                    let ghost before = kinds@;
                    let here: bool = row_applies(problem, program, kind);
                    if here {
                        kinds.push(kind);
                    }
                    proof {
                        let now = (f as int, a as int, b as int, c as int);
                        let next = (f as int, a as int, b as int, c + 1);
                        assert forall|k: RowKind|
                            #![trigger applies(*problem, program, k)]
                            applies(*problem, program, k) && comes_before(
                                place(k),
                                next,
                            ) implies kinds@.contains(k) by {
                            if comes_before(place(k), now) {
                                assert(before.contains(k));
                                let i = choose|i: int| 0 <= i < before.len() && before[i] == k;
                                assert(kinds@[i] == k);
                            } else {
                                assert(place(k) == place(kind));
                                places_tell_rows_apart(*problem, program, k, kind);
                                assert(here);
                                assert(kinds@[before.len() as int] == k);
                            }
                        }
                    }
                    c += 1;
                }
                proof {
                    let from = (f as int, a as int, b as int, z as int);
                    let to = (f as int, a as int, b + 1, 0);
                    assert forall|k: RowKind|
                        #![trigger applies(*problem, program, k)]
                        applies(*problem, program, k) && comes_before(
                            place(k),
                            to,
                        ) implies comes_before(place(k), from) by {
                        rows_stay_in_extents(*problem, program, k);
                    }
                    skip_gap(*problem, program, kinds@, from, to);
                }
                b += 1;
            }
            proof {
                let from = (f as int, a as int, y as int, 0);
                let to = (f as int, a + 1, 0, 0);
                assert forall|k: RowKind|
                    #![trigger applies(*problem, program, k)]
                    applies(*problem, program, k) && comes_before(place(k), to) implies comes_before(
                    place(k),
                    from,
                ) by {
                    rows_stay_in_extents(*problem, program, k);
                }
                skip_gap(*problem, program, kinds@, from, to);
            }
            a += 1;
        }
        proof {
            let from = (f as int, x as int, 0, 0);
            let to = (f + 1, 0, 0, 0);
            assert forall|k: RowKind|
                #![trigger applies(*problem, program, k)]
                applies(*problem, program, k) && comes_before(place(k), to) implies comes_before(
                place(k),
                from,
            ) by {
                rows_stay_in_extents(*problem, program, k);
            }
            skip_gap(*problem, program, kinds@, from, to);
        }
        f += 1;
    }
    proof {
        assert forall|kind: RowKind| #[trigger] applies(*problem, program, kind) implies kinds@.contains(
            kind,
        ) by {
            rows_stay_in_extents(*problem, program, kind);
        }
    }
    kinds
}

/// The coefficient of a column in a row.
pub open spec fn weight(problem: SoccerProblem, kind: RowKind, column: Column) -> int {
    match (kind, column) {
        (
            RowKind::PlayerOnce { player, period },
            Column::Field { player: p, position: q, period: t },
        ) => if p == player && t == period {
            1
        } else {
            0
        },
        (
            RowKind::PositionFilled { position, period, at_least },
            Column::Field { player: p, position: q, period: t },
        ) => if q == position && t == period {
            if at_least {
                -1
            } else {
                1
            }
        } else {
            0
        },
        (
            RowKind::NoConsecutiveBench { player, period },
            Column::Field { player: p, position: q, period: t },
        ) => if p == player && (t == period || t == period + 1) {
            -1
        } else {
            0
        },
        (
            RowKind::MaxStint { player, start },
            Column::Field { player: p, position: q, period: t },
        ) => if p == player && start <= t <= start + max_stint(problem, player as int)->0 {
            1
        } else {
            0
        },
        (
            RowKind::MaxBench { player, start },
            Column::Field { player: p, position: q, period: t },
        ) => if p == player && start <= t <= start + max_bench(problem, player as int)->0 {
            -1
        } else {
            0
        },
        (
            RowKind::NoLateStart { player, start },
            Column::Field { player: p, position: q, period: t },
        ) => if p == player && t == start {
            1
        } else if p == player && t + 1 == start {
            -1
        } else {
            0
        },
        (
            RowKind::MinStint { player, start, period },
            Column::Field { player: p, position: q, period: t },
        ) => if p == player && t == start {
            1
        } else if p == player && (t + 1 == start || t == period) {
            -1
        } else {
            0
        },
        (
            RowKind::Unavailable { player, period },
            Column::Field { player: p, position: q, period: t },
        ) => if p == player && t == period {
            1
        } else {
            0
        },
        (
            RowKind::Fixed { player, period },
            Column::Field { player: p, position: q, period: t },
        ) => if p == player && t == period && Some(q) == fixed_at(problem, player as int) {
            1
        } else {
            0
        },
        (
            RowKind::FixedPlays { player, period },
            Column::Field { player: p, position: q, period: t },
        ) => if p == player && t == period && Some(q) == fixed_at(problem, player as int) {
            -1
        } else {
            0
        },
        (
            RowKind::FixedBan { player, period, position },
            Column::Field { player: p, position: q, period: t },
        ) => if p == player && t == period && q == position {
            1
        } else {
            0
        },
        (
            RowKind::Banned { player, position, period },
            Column::Field { player: p, position: q, period: t },
        ) => if p == player && t == period && q == position {
            1
        } else {
            0
        },
        (
            RowKind::Synergy { rule, period, part },
            Column::Field { player: p, position: q, period: t },
        ) => {
            let r = problem.synergy_rules->0@[rule as int];
            let subject = p == r.player && q == r.position && t == period;
            let partner = p == r.partner_player && q == r.partner_position && t == period;
            if part == 0 {
                if subject {
                    -1
                } else {
                    0
                }
            } else if part == 1 {
                if partner {
                    -1
                } else {
                    0
                }
            } else if subject || partner {
                1
            } else {
                0
            }
        },
        (RowKind::Synergy { rule, period, part }, Column::Together { rule: r, period: t }) => if r
            == rule && t == period {
            if part == 2 {
                -1
            } else {
                1
            }
        } else {
            0
        },
        (
            RowKind::OnLink { player, period },
            Column::Field { player: p, position: q, period: t },
        ) => if p == player && t == period {
            1
        } else {
            0
        },
        (RowKind::OnLink { player, period }, Column::On { player: p, period: t }) => if p == player
            && t == period {
            -1
        } else {
            0
        },
        (
            RowKind::OnHolds { player, period },
            Column::Field { player: p, position: q, period: t },
        ) => if p == player && t == period {
            -1
        } else {
            0
        },
        (RowKind::OnHolds { player, period }, Column::On { player: p, period: t }) => if p == player
            && t == period {
            1
        } else {
            0
        },
        (RowKind::SubOff { player, period, part }, Column::Off { player: p, period: t }) => if p
            == player && t == period {
            if part == 2 {
                -1
            } else {
                1
            }
        } else {
            0
        },
        (RowKind::SubOff { player, period, part }, Column::On { player: p, period: t }) => if p
            == player && t + 1 == period && part != 1 {
            if part == 2 {
                1
            } else {
                -1
            }
        } else if p == player && t == period && part != 0 {
            if part == 2 {
                -1
            } else {
                1
            }
        } else {
            0
        },
        (RowKind::MaxSubs, Column::Off { player: p, period: t }) => 1,
        (RowKind::MinSubs, Column::Off { player: p, period: t }) => -1,
        _ => 0,
    }
}

/// The bound of a row.
pub open spec fn bound(problem: SoccerProblem, kind: RowKind) -> int {
    match kind {
        RowKind::PlayerOnce { player, period } => 1,
        RowKind::PositionFilled { position, period, at_least } => if at_least {
            -1
        } else {
            1
        },
        RowKind::NoConsecutiveBench { player, period } => -1,
        RowKind::MaxStint { player, start } => max_stint(problem, player as int)->0 as int,
        RowKind::MaxBench { player, start } => -1,
        RowKind::Fixed { player, period } => 1,
        RowKind::FixedPlays { player, period } => -1,
        RowKind::Synergy { rule, period, part } => if part == 2 {
            1
        } else {
            0
        },
        RowKind::SubOff { player, period, part } => if part == 1 {
            1
        } else {
            0
        },
        RowKind::MaxSubs => problem.max_subs_per_game->0 as int,
        RowKind::MinSubs => -(problem.min_subs_per_game->0 as int),
        _ => 0,
    }
}

fn flag(b: bool, n: i8) -> (r: i8)
    ensures
        r == if b {
            n as int
        } else {
            0
        },
{
    if b {
        n
    } else {
        0
    }
}

/// The coefficient of a column in a row of a program.
pub(crate) fn weight_of(
    problem: &SoccerProblem,
    Ghost(program): Ghost<Program>,
    kind: RowKind,
    column: Column,
) -> (w: i8)
    requires
        applies(*problem, program, kind),
    ensures
        w == weight(*problem, kind, column),
{
    match (kind, column) {
        (RowKind::PlayerOnce { player, period }, Column::Field { player: p, period: t, .. }) => flag(
            p == player && t == period,
            1,
        ),
        (
            RowKind::PositionFilled { position, period, at_least },
            Column::Field { position: q, period: t, .. },
        ) => flag(q == position && t == period, if at_least { -1 } else { 1 }),
        (
            RowKind::NoConsecutiveBench { player, period },
            Column::Field { player: p, period: t, .. },
        ) => flag(p == player && (t == period || t == period + 1), -1),
        (RowKind::MaxStint { player, start }, Column::Field { player: p, period: t, .. }) => {
            let m: usize = player_max_contiguous_on_field(problem, player).unwrap();
            flag(p == player && start <= t && t <= start + m, 1)
        },
        (RowKind::MaxBench { player, start }, Column::Field { player: p, period: t, .. }) => {
            let m: usize = player_max_contiguous_bench(problem, player).unwrap();
            flag(p == player && start <= t && t <= start + m, -1)
        },
        (RowKind::NoLateStart { player, start }, Column::Field { player: p, period: t, .. }) => {
            if p == player && t == start {
                1
            } else {
                flag(p == player && start > 0 && t == start - 1, -1)
            }
        },
        (
            RowKind::MinStint { player, start, period },
            Column::Field { player: p, period: t, .. },
        ) => {
            if p == player && t == start {
                1
            } else {
                flag(p == player && ((start > 0 && t == start - 1) || t == period), -1)
            }
        },
        (RowKind::Unavailable { player, period }, Column::Field { player: p, period: t, .. }) => {
            flag(p == player && t == period, 1)
        },
        (
            RowKind::Fixed { player, period },
            Column::Field { player: p, position: q, period: t },
        ) => {
            let fixed: usize = player_fixed_position(problem, player).unwrap();
            flag(p == player && t == period && q == fixed, 1)
        },
        (
            RowKind::FixedPlays { player, period },
            Column::Field { player: p, position: q, period: t },
        ) => {
            let fixed: usize = player_fixed_position(problem, player).unwrap();
            flag(p == player && t == period && q == fixed, -1)
        },
        (
            RowKind::FixedBan { player, period, position },
            Column::Field { player: p, position: q, period: t },
        ) => flag(p == player && t == period && q == position, 1),
        (
            RowKind::Banned { player, position, period },
            Column::Field { player: p, position: q, period: t },
        ) => flag(p == player && t == period && q == position, 1),
        (
            RowKind::Synergy { rule, period, part },
            Column::Field { player: p, position: q, period: t },
        ) => {
            let rules: &Vec<PositionSynergyRule> = problem.synergy_rules.as_ref().unwrap();
            let r: PositionSynergyRule = rules[rule];
            let subject: bool = p == r.player && q == r.position && t == period;
            let partner: bool = p == r.partner_player && q == r.partner_position && t == period;
            if part == 0 {
                flag(subject, -1)
            } else if part == 1 {
                flag(partner, -1)
            } else {
                flag(subject || partner, 1)
            }
        },
        (RowKind::Synergy { rule, period, part }, Column::Together { rule: r, period: t }) => flag(
            r == rule && t == period,
            if part == 2 { -1 } else { 1 },
        ),
        (RowKind::OnLink { player, period }, Column::Field { player: p, period: t, .. }) => flag(
            p == player && t == period,
            1,
        ),
        (RowKind::OnLink { player, period }, Column::On { player: p, period: t }) => flag(
            p == player && t == period,
            -1,
        ),
        (RowKind::OnHolds { player, period }, Column::Field { player: p, period: t, .. }) => flag(
            p == player && t == period,
            -1,
        ),
        (RowKind::OnHolds { player, period }, Column::On { player: p, period: t }) => flag(
            p == player && t == period,
            1,
        ),
        (RowKind::SubOff { player, period, part }, Column::Off { player: p, period: t }) => flag(
            p == player && t == period,
            if part == 2 { -1 } else { 1 },
        ),
        (RowKind::SubOff { player, period, part }, Column::On { player: p, period: t }) => {
            if p == player && t == period - 1 && part != 1 {
                if part == 2 {
                    1
                } else {
                    -1
                }
            } else {
                flag(
                    p == player && t == period && part != 0,
                    if part == 2 { -1 } else { 1 },
                )
            }
        },
        (RowKind::MaxSubs, Column::Off { .. }) => 1,
        (RowKind::MinSubs, Column::Off { .. }) => -1,
        _ => 0,
    }
}

/// The bound of a row of a program.
pub(crate) fn bound_of(problem: &SoccerProblem, Ghost(program): Ghost<Program>, kind: RowKind) -> (b: i128)
    requires
        applies(*problem, program, kind),
    ensures
        b == bound(*problem, kind),
{
    match kind {
        RowKind::PlayerOnce { .. } => 1,
        RowKind::PositionFilled { at_least, .. } => if at_least {
            -1
        } else {
            1
        },
        RowKind::NoConsecutiveBench { .. } => -1,
        RowKind::MaxStint { player, .. } => player_max_contiguous_on_field(
            problem,
            player,
        ).unwrap() as i128,
        RowKind::MaxBench { .. } => -1,
        RowKind::Fixed { .. } => 1,
        RowKind::FixedPlays { .. } => -1,
        RowKind::Synergy { part, .. } => if part == 2 {
            1
        } else {
            0
        },
        RowKind::SubOff { part, .. } => if part == 1 {
            1
        } else {
            0
        },
        RowKind::MaxSubs => problem.max_subs_per_game.unwrap() as i128,
        RowKind::MinSubs => -(problem.min_subs_per_game.unwrap() as i128),
        _ => 0,
    }
}

/// How many columns hold a position.
pub open spec fn field_columns(problem: SoccerProblem) -> int {
    problem.num_players * problem.num_positions * problem.num_periods
}

/// How many columns pay for a rule.
pub open spec fn rule_columns(problem: SoccerProblem) -> int {
    rule_count(problem) * problem.num_periods
}

/// How many columns tell who is on the field.
pub open spec fn on_columns(problem: SoccerProblem) -> int {
    if counts_subs(problem) {
        problem.num_players * problem.num_periods
    } else {
        0
    }
}

/// How many columns tell who was taken off.
pub open spec fn off_columns(problem: SoccerProblem) -> int {
    if counts_subs(problem) {
        problem.num_players * (problem.num_periods - 1)
    } else {
        0
    }
}

/// How many columns a program has.
pub open spec fn columns(problem: SoccerProblem, program: Program) -> int {
    if program == Program::Relaxation {
        field_columns(problem)
    } else {
        field_columns(problem) + rule_columns(problem) + on_columns(problem) + off_columns(problem)
    }
}

/// The programs of the problem are no larger than can be counted.
pub open spec fn countable(problem: SoccerProblem) -> bool {
    &&& problem.num_positions < usize::MAX - 1
    &&& problem.num_players * problem.num_positions <= usize::MAX
    &&& problem.num_players * problem.num_periods <= usize::MAX
    &&& field_columns(problem) <= usize::MAX
    &&& rule_columns(problem) <= usize::MAX
    &&& columns(problem, Program::Exact) <= usize::MAX
}

/// The column with a number.
pub open spec fn column_at(problem: SoccerProblem, v: int) -> Column {
    let positions = problem.num_positions as int;
    let periods = problem.num_periods as int;
    let a = v - field_columns(problem);
    let b = a - rule_columns(problem);
    let c = b - on_columns(problem);
    if v < field_columns(problem) {
        Column::Field {
            player: (v / periods / positions) as usize,
            position: (v / periods % positions) as usize,
            period: (v % periods) as usize,
        }
    } else if a < rule_columns(problem) {
        Column::Together { rule: (a / periods) as usize, period: (a % periods) as usize }
    } else if b < on_columns(problem) {
        Column::On { player: (b / periods) as usize, period: (b % periods) as usize }
    } else {
        Column::Off {
            player: (c / (periods - 1)) as usize,
            period: (c % (periods - 1) + 1) as usize,
        }
    }
}

pub(crate) proof fn columns_are_countable(problem: SoccerProblem)
    requires
        countable(problem),
    ensures
        0 <= field_columns(problem),
        0 <= rule_columns(problem),
        0 <= on_columns(problem),
        0 <= off_columns(problem),
        field_columns(problem) > 0 ==> problem.num_periods > 0 && problem.num_positions > 0,
        rule_columns(problem) > 0 ==> problem.num_periods > 0,
        on_columns(problem) > 0 ==> problem.num_periods > 0,
        off_columns(problem) > 0 ==> problem.num_periods > 1,
        off_columns(problem) <= on_columns(problem),
{
    let p = problem.num_players as int;
    let k = problem.num_positions as int;
    let t = problem.num_periods as int;
    let r = rule_count(problem);
    assert(p * k >= 0) by (nonlinear_arith)
        requires
            p >= 0,
            k >= 0,
    ;
    assert(p * k * t >= 0) by (nonlinear_arith)
        requires
            p * k >= 0,
            t >= 0,
    ;
    assert(r * t >= 0) by (nonlinear_arith)
        requires
            r >= 0,
            t >= 0,
    ;
    assert(p * t >= 0) by (nonlinear_arith)
        requires
            p >= 0,
            t >= 0,
    ;
    if t > 0 {
        assert(0 <= p * (t - 1) <= p * t) by (nonlinear_arith)
            requires
                p >= 0,
                t > 0,
        ;
    }
    assert(p * k * 0 == 0);
    assert(r * 0 == 0);
    assert(p * 0 * t == 0) by (nonlinear_arith);
}

/// Counts the columns of a program.
pub fn column_count(problem: &SoccerProblem, program: Program) -> (n: usize)
    requires
        countable(*problem),
    ensures
        n == columns(*problem, program),
{
    proof {
        columns_are_countable(*problem);
    }
    let field: usize = problem.num_players * problem.num_positions * problem.num_periods;
    if program == Program::Relaxation {
        return field;
    }
    let rules: usize = rules_len(problem) * problem.num_periods;
    let mut n: usize = field + rules;
    if wants_subs(problem) {
        let on: usize = problem.num_players * problem.num_periods;
        proof {
            let p = problem.num_players as int;
            let t = problem.num_periods as int;
            assert(p * (t - 1) <= p * t) by (nonlinear_arith)
                requires
                    p >= 0,
                    t > 0,
            ;
        }
        let off: usize = problem.num_players * (problem.num_periods - 1);
        n = n + on + off;
    }
    n
}

/// Finds the column with a number.
pub fn column_of(problem: &SoccerProblem, program: Program, v: usize) -> (column: Column)
    requires
        countable(*problem),
        v < columns(*problem, program),
    ensures
        column == column_at(*problem, v as int),
{
    proof {
        columns_are_countable(*problem);
    }
    let periods: usize = problem.num_periods;
    let positions: usize = problem.num_positions;
    let field: usize = problem.num_players * positions * periods;
    if v < field {
        return Column::Field {
            player: v / periods / positions,
            position: v / periods % positions,
            period: v % periods,
        };
    }
    let a: usize = v - field;
    let rules: usize = rules_len(problem) * periods;
    if a < rules {
        return Column::Together { rule: a / periods, period: a % periods };
    }
    let b: usize = a - rules;
    let on: usize = problem.num_players * periods;
    if b < on {
        Column::On { player: b / periods, period: b % periods }
    } else {
        let c: usize = b - on;
        proof {
            let n = (periods - 1) as int;
            assert((c as int) % n < n) by (nonlinear_arith)
                requires
                    n > 0,
                    c >= 0,
            ;
        }
        Column::Off { player: c / (periods - 1), period: c % (periods - 1) + 1 }
    }
}

} // verus!
