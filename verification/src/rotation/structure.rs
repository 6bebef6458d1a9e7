//! Whether a schedule is well formed, and what the first thing wrong with it is.
use crate::rotation::problem::{
    banned_from, can_play, fieldable, fixed_at, player_banned_from_position,
    player_fixed_position, player_is_fieldable, Schedule, SoccerProblem,
};
use crate::text::{decimal, decimal_text, signed_decimal, signed_text};
use vstd::prelude::*;
use vstd::string::*;

verus! {

/// The first thing wrong with a schedule.
#[derive(Clone, Copy, Debug, PartialEq, Eq, Structural)]
pub enum StructureFault {
    AssignmentPeriods { expected: usize },
    BenchPeriods { expected: usize },
    FieldSize { period: usize, expected: usize },
    BenchSize { period: usize, expected: usize },
    UnknownOnField { period: usize, signed_player: i64 },
    TwiceOnField { period: usize, signed_player: i64 },
    UnknownOnBench { period: usize, player: usize },
    FieldAndBench { period: usize, player: usize },
    Total { period: usize, expected: usize },
    Unavailable { period: usize, player: usize },
    NotAtFixed { period: usize, player: usize, fixed: usize, position: usize },
    Banned { period: usize, player: usize, position: usize },
}

impl StructureFault {
    /// The text of the fault.
    pub open spec fn text(self) -> Seq<char> {
        match self {
            StructureFault::AssignmentPeriods { expected } => "assignment.length != "@ + decimal(
                expected as nat,
            ),
            StructureFault::BenchPeriods { expected } => "bench.length != "@ + decimal(
                expected as nat,
            ),
            StructureFault::FieldSize { period, expected } => "assignment["@ + decimal(
                period as nat,
            ) + "].length != "@ + decimal(expected as nat),
            StructureFault::BenchSize { period, expected } => "bench["@ + decimal(period as nat)
                + "].length != "@ + decimal(expected as nat),
            StructureFault::UnknownOnField { period, signed_player } => "assignment["@ + decimal(
                period as nat,
            ) + "] has invalid player "@ + signed_decimal(signed_player as int),
            StructureFault::TwiceOnField { period, signed_player } => "player "@ + signed_decimal(
                signed_player as int,
            ) + " appears twice on field in period "@ + decimal(period as nat),
            StructureFault::UnknownOnBench { period, player } => "bench["@ + decimal(period as nat)
                + "] has invalid player "@ + decimal(player as nat),
            StructureFault::FieldAndBench { period, player } => "player "@ + decimal(player as nat)
                + " both on field and bench in period "@ + decimal(period as nat),
            StructureFault::Total { period, expected } => "period "@ + decimal(period as nat)
                + ": total players != "@ + decimal(expected as nat),
            StructureFault::Unavailable { period, player } => "player "@ + decimal(player as nat)
                + " (AWOL/injured) on field in period "@ + decimal(period as nat),
            StructureFault::NotAtFixed { period, player, fixed, position } => "player "@ + decimal(
                player as nat,
            ) + " fixed at position "@ + decimal(fixed as nat) + " but assigned "@ + decimal(
                position as nat,
            ) + " in period "@ + decimal(period as nat),
            StructureFault::Banned { period, player, position } => "player "@ + decimal(
                player as nat,
            ) + " banned from position "@ + decimal(position as nat)
                + " but assigned in period "@ + decimal(period as nat),
        }
    }

    /// Writes the fault out.
    pub fn message(&self) -> (r: String)
        ensures
            r@ == self.text(),
    {
        match *self {
            StructureFault::AssignmentPeriods { expected } => {
                let mut s: String = "assignment.length != ".to_owned();
                s.append(decimal_text(expected).as_str());
                s
            },
            StructureFault::BenchPeriods { expected } => {
                let mut s: String = "bench.length != ".to_owned();
                s.append(decimal_text(expected).as_str());
                s
            },
            StructureFault::FieldSize { period, expected } => {
                let mut s: String = "assignment[".to_owned();
                s.append(decimal_text(period).as_str());
                s.append("].length != ");
                s.append(decimal_text(expected).as_str());
                s
            },
            StructureFault::BenchSize { period, expected } => {
                let mut s: String = "bench[".to_owned();
                s.append(decimal_text(period).as_str());
                s.append("].length != ");
                s.append(decimal_text(expected).as_str());
                s
            },
            StructureFault::UnknownOnField { period, signed_player } => {
                let mut s: String = "assignment[".to_owned();
                s.append(decimal_text(period).as_str());
                s.append("] has invalid player ");
                s.append(signed_text(signed_player).as_str());
                s
            },
            StructureFault::TwiceOnField { period, signed_player } => {
                let mut s: String = "player ".to_owned();
                s.append(signed_text(signed_player).as_str());
                s.append(" appears twice on field in period ");
                s.append(decimal_text(period).as_str());
                s
            },
            StructureFault::UnknownOnBench { period, player } => {
                let mut s: String = "bench[".to_owned();
                s.append(decimal_text(period).as_str());
                s.append("] has invalid player ");
                s.append(decimal_text(player).as_str());
                s
            },
            StructureFault::FieldAndBench { period, player } => {
                let mut s: String = "player ".to_owned();
                s.append(decimal_text(player).as_str());
                s.append(" both on field and bench in period ");
                s.append(decimal_text(period).as_str());
                s
            },
            StructureFault::Total { period, expected } => {
                let mut s: String = "period ".to_owned();
                s.append(decimal_text(period).as_str());
                s.append(": total players != ");
                s.append(decimal_text(expected).as_str());
                s
            },
            StructureFault::Unavailable { period, player } => {
                let mut s: String = "player ".to_owned();
                s.append(decimal_text(player).as_str());
                s.append(" (AWOL/injured) on field in period ");
                s.append(decimal_text(period).as_str());
                s
            },
            StructureFault::NotAtFixed { period, player, fixed, position } => {
                let mut s: String = "player ".to_owned();
                s.append(decimal_text(player).as_str());
                s.append(" fixed at position ");
                s.append(decimal_text(fixed).as_str());
                s.append(" but assigned ");
                s.append(decimal_text(position).as_str());
                s.append(" in period ");
                s.append(decimal_text(period).as_str());
                s
            },
            StructureFault::Banned { period, player, position } => {
                let mut s: String = "player ".to_owned();
                s.append(decimal_text(player).as_str());
                s.append(" banned from position ");
                s.append(decimal_text(position).as_str());
                s.append(" but assigned in period ");
                s.append(decimal_text(period).as_str());
                s
            },
        }
    }
}

/// The first fault of a line-up from position `i` on: a player there is not, or one named twice.
pub open spec fn field_fault(problem: SoccerProblem, row: Seq<i64>, t: int, i: int) -> Option<
    StructureFault,
>
    decreases row.len() - i,
{
    if i >= row.len() {
        None
    } else if !(0 <= row[i] < problem.num_players) {
        Some(StructureFault::UnknownOnField { period: t as usize, signed_player: row[i] })
    } else if row.take(i).contains(row[i]) {
        Some(StructureFault::TwiceOnField { period: t as usize, signed_player: row[i] })
    } else {
        field_fault(problem, row, t, i + 1)
    }
}

/// The line-up names the player.
pub open spec fn fields(row: Seq<i64>, p: int) -> bool {
    exists|j: int| 0 <= j < row.len() && #[trigger] row[j] == p
}

/// The first fault of a bench from entry `i` on: a player there is not, or one named before.
pub open spec fn bench_fault(
    problem: SoccerProblem,
    row: Seq<i64>,
    bench: Seq<usize>,
    t: int,
    i: int,
) -> Option<StructureFault>
    decreases bench.len() - i,
{
    if i >= bench.len() {
        None
    } else if bench[i] >= problem.num_players {
        Some(StructureFault::UnknownOnBench { period: t as usize, player: bench[i] })
    } else if fields(row, bench[i] as int) || bench.take(i).contains(bench[i]) {
        Some(StructureFault::FieldAndBench { period: t as usize, player: bench[i] })
    } else {
        bench_fault(problem, row, bench, t, i + 1)
    }
}

/// The first fault of the placement from position `pos` on: a player who cannot play there.
pub open spec fn place_fault(problem: SoccerProblem, row: Seq<i64>, t: int, pos: int) -> Option<
    StructureFault,
>
    decreases row.len() - pos,
{
    if pos >= row.len() {
        None
    } else {
        let p = row[pos] as int;
        if !fieldable(problem, p) {
            Some(StructureFault::Unavailable { period: t as usize, player: p as usize })
        } else if fixed_at(problem, p) is Some && fixed_at(problem, p)->0 != pos {
            Some(
                StructureFault::NotAtFixed {
                    period: t as usize,
                    player: p as usize,
                    fixed: fixed_at(problem, p)->0,
                    position: pos as usize,
                },
            )
        } else if banned_from(problem, p, pos) {
            Some(
                StructureFault::Banned {
                    period: t as usize,
                    player: p as usize,
                    position: pos as usize,
                },
            )
        } else {
            place_fault(problem, row, t, pos + 1)
        }
    }
}

/// The first fault of a period.
pub open spec fn period_fault(
    problem: SoccerProblem,
    row: Seq<i64>,
    bench: Seq<usize>,
    t: int,
) -> Option<StructureFault> {
    if row.len() != problem.num_positions {
        Some(StructureFault::FieldSize { period: t as usize, expected: problem.num_positions })
    } else if bench.len() != problem.bench_size {
        Some(StructureFault::BenchSize { period: t as usize, expected: problem.bench_size })
    } else if field_fault(problem, row, t, 0) is Some {
        field_fault(problem, row, t, 0)
    } else if bench_fault(problem, row, bench, t, 0) is Some {
        bench_fault(problem, row, bench, t, 0)
    } else if problem.num_positions + problem.bench_size != problem.num_players {
        Some(StructureFault::Total { period: t as usize, expected: problem.num_players })
    } else {
        place_fault(problem, row, t, 0)
    }
}

/// The first fault from period `t` on.
pub open spec fn periods_fault(problem: SoccerProblem, schedule: Schedule, t: int) -> Option<
    StructureFault,
>
    decreases problem.num_periods - t,
{
    if t >= problem.num_periods {
        None
    } else {
        let fault = period_fault(problem, schedule.assignment@[t]@, schedule.bench@[t]@, t);
        if fault is Some {
            fault
        } else {
            periods_fault(problem, schedule, t + 1)
        }
    }
}

/// The first fault of a schedule.
pub open spec fn schedule_fault(problem: SoccerProblem, schedule: Schedule) -> Option<
    StructureFault,
> {
    if schedule.assignment@.len() != problem.num_periods {
        Some(StructureFault::AssignmentPeriods { expected: problem.num_periods })
    } else if schedule.bench@.len() != problem.num_periods {
        Some(StructureFault::BenchPeriods { expected: problem.num_periods })
    } else {
        periods_fault(problem, schedule, 0)
    }
}

fn find_field_fault(problem: &SoccerProblem, row: &Vec<i64>, t: usize) -> (r: Option<
    StructureFault,
>)
    ensures
        r == field_fault(*problem, row@, t as int, 0),
{
    let mut i: usize = 0;
    while i < row.len()
        invariant
            i <= row@.len(),
            field_fault(*problem, row@, t as int, 0) == field_fault(
                *problem,
                row@,
                t as int,
                i as int,
            ),
        decreases row@.len() - i,
    {
        let p: i64 = row[i];
        if p < 0 || p as u64 >= problem.num_players as u64 {
            return Some(StructureFault::UnknownOnField { period: t, signed_player: p });
        }
        let mut j: usize = 0;
        while j < i
            invariant
                j <= i,
                i < row@.len(),
                p == row@[i as int],
                0 <= p < problem.num_players,
                forall|k: int| 0 <= k < j ==> row@[k] != p,
                field_fault(*problem, row@, t as int, 0) == field_fault(
                    *problem,
                    row@,
                    t as int,
                    i as int,
                ),
            decreases i - j,
        {
            if row[j] == p {
                assert(row@.take(i as int)[j as int] == p);
                return Some(StructureFault::TwiceOnField { period: t, signed_player: p });
            }
            j += 1;
        }
        i += 1;
    }
    None
}

fn find_bench_fault(
    problem: &SoccerProblem,
    row: &Vec<i64>,
    bench: &Vec<usize>,
    t: usize,
) -> (r: Option<StructureFault>)
    ensures
        r == bench_fault(*problem, row@, bench@, t as int, 0),
{
    let mut i: usize = 0;
    while i < bench.len()
        invariant
            i <= bench@.len(),
            bench_fault(*problem, row@, bench@, t as int, 0) == bench_fault(
                *problem,
                row@,
                bench@,
                t as int,
                i as int,
            ),
        decreases bench@.len() - i,
    {
        let p: usize = bench[i];
        if p >= problem.num_players {
            return Some(StructureFault::UnknownOnBench { period: t, player: p });
        }
        let mut seen: bool = false;
        let mut j: usize = 0;
        while j < row.len()
            invariant
                j <= row@.len(),
                seen == exists|k: int| 0 <= k < j && #[trigger] row@[k] == p,
            decreases row@.len() - j,
        {
            assert(row@[j as int] == row@[j as int]);
            if row[j] >= 0 && row[j] as u64 == p as u64 {
                seen = true;
            }
            j += 1;
        }
        let mut k: usize = 0;
        while k < i
            invariant
                k <= i,
                i < bench@.len(),
                p == bench@[i as int],
                seen == (fields(row@, p as int) || exists|l: int|
                    0 <= l < k && #[trigger] bench@[l] == p),
            decreases i - k,
        {
            assert(bench@[k as int] == bench@[k as int]);
            if bench[k] == p {
                seen = true;
            }
            k += 1;
        }
        proof {
            if bench@.take(i as int).contains(p) {
                let l = choose|l: int| 0 <= l < i && bench@.take(i as int)[l] == p;
                assert(bench@[l] == p);
            }
            if exists|l: int| 0 <= l < i && #[trigger] bench@[l] == p {
                let l = choose|l: int| 0 <= l < i && #[trigger] bench@[l] == p;
                assert(bench@.take(i as int)[l] == p);
            }
        }
        if seen {
            return Some(StructureFault::FieldAndBench { period: t, player: p });
        }
        i += 1;
    }
    None
}

fn find_place_fault(problem: &SoccerProblem, row: &Vec<i64>, t: usize) -> (r: Option<
    StructureFault,
>)
    requires
        forall|i: int| 0 <= i < row@.len() ==> 0 <= #[trigger] row@[i] < problem.num_players,
    ensures
        r == place_fault(*problem, row@, t as int, 0),
{
    let mut pos: usize = 0;
    while pos < row.len()
        invariant
            pos <= row@.len(),
            forall|i: int| 0 <= i < row@.len() ==> 0 <= #[trigger] row@[i] < problem.num_players,
            place_fault(*problem, row@, t as int, 0) == place_fault(
                *problem,
                row@,
                t as int,
                pos as int,
            ),
        decreases row@.len() - pos,
    {
        let p: usize = row[pos] as usize;
        if !player_is_fieldable(problem, p) {
            return Some(StructureFault::Unavailable { period: t, player: p });
        }
        if let Some(fixed) = player_fixed_position(problem, p) {
            if fixed != pos {
                return Some(
                    StructureFault::NotAtFixed { period: t, player: p, fixed, position: pos },
                );
            }
        }
        if player_banned_from_position(problem, p, pos) {
            return Some(StructureFault::Banned { period: t, player: p, position: pos });
        }
        pos += 1;
    }
    None
}

proof fn no_field_fault(problem: SoccerProblem, row: Seq<i64>, t: int, i: int)
    requires
        0 <= i <= row.len(),
    ensures
        field_fault(problem, row, t, i) is None <==> (forall|j: int|
            i <= j < row.len() ==> 0 <= #[trigger] row[j] < problem.num_players && !row.take(
                j,
            ).contains(row[j])),
    decreases row.len() - i,
{
    if i < row.len() {
        no_field_fault(problem, row, t, i + 1);
    }
}

proof fn no_bench_fault(problem: SoccerProblem, row: Seq<i64>, bench: Seq<usize>, t: int, i: int)
    requires
        0 <= i <= bench.len(),
    ensures
        bench_fault(problem, row, bench, t, i) is None <==> (forall|j: int|
            i <= j < bench.len() ==> #[trigger] bench[j] < problem.num_players && !fields(
                row,
                bench[j] as int,
            ) && !bench.take(j).contains(bench[j])),
    decreases bench.len() - i,
{
    if i < bench.len() {
        no_bench_fault(problem, row, bench, t, i + 1);
    }
}

proof fn no_place_fault(problem: SoccerProblem, row: Seq<i64>, t: int, pos: int)
    requires
        0 <= pos <= row.len(),
    ensures
        place_fault(problem, row, t, pos) is None <==> (forall|j: int|
            pos <= j < row.len() ==> can_play(problem, #[trigger] row[j] as int, j)),
    decreases row.len() - pos,
{
    if pos < row.len() {
        no_place_fault(problem, row, t, pos + 1);
    }
}

fn find_period_fault(
    problem: &SoccerProblem,
    row: &Vec<i64>,
    bench: &Vec<usize>,
    t: usize,
) -> (r: Option<StructureFault>)
    ensures
        r == period_fault(*problem, row@, bench@, t as int),
{
    if row.len() != problem.num_positions {
        return Some(StructureFault::FieldSize { period: t, expected: problem.num_positions });
    }
    if bench.len() != problem.bench_size {
        return Some(StructureFault::BenchSize { period: t, expected: problem.bench_size });
    }
    let on_field: Option<StructureFault> = find_field_fault(problem, row, t);
    if on_field.is_some() {
        return on_field;
    }
    let on_bench: Option<StructureFault> = find_bench_fault(problem, row, bench, t);
    if on_bench.is_some() {
        return on_bench;
    }
    if problem.num_players < problem.num_positions || problem.num_players - problem.num_positions
        != problem.bench_size {
        return Some(StructureFault::Total { period: t, expected: problem.num_players });
    }
    proof {
        no_field_fault(*problem, row@, t as int, 0);
    }
    find_place_fault(problem, row, t)
}

/// Finds the first fault of a schedule.
pub fn find_schedule_fault(problem: &SoccerProblem, schedule: &Schedule) -> (r: Option<
    StructureFault,
>)
    ensures
        r == schedule_fault(*problem, *schedule),
{
    if schedule.assignment.len() != problem.num_periods {
        return Some(StructureFault::AssignmentPeriods { expected: problem.num_periods });
    }
    if schedule.bench.len() != problem.num_periods {
        return Some(StructureFault::BenchPeriods { expected: problem.num_periods });
    }
    let mut t: usize = 0;
    while t < problem.num_periods
        invariant
            t <= problem.num_periods,
            schedule.assignment@.len() == problem.num_periods,
            schedule.bench@.len() == problem.num_periods,
            periods_fault(*problem, *schedule, 0) == periods_fault(*problem, *schedule, t as int),
        decreases problem.num_periods - t,
    {
        let fault: Option<StructureFault> = find_period_fault(
            problem,
            &schedule.assignment[t],
            &schedule.bench[t],
            t,
        );
        if fault.is_some() {
            return fault;
        }
        t += 1;
    }
    None
}

/// Checks that a schedule is well formed; says what is wrong first where it is not.
pub fn validate_schedule_structure(problem: &SoccerProblem, schedule: &Schedule) -> (r: Option<
    String,
>)
    ensures
        r is Some <==> schedule_fault(*problem, *schedule) is Some,
        r is Some ==> r->0@ == schedule_fault(*problem, *schedule)->0.text(),
{
    match find_schedule_fault(problem, schedule) {
        Some(fault) => Some(fault.message()),
        None => None,
    }
}

/// The line-up and the bench of a period are well formed: together they name every player
/// once, and every fielded player can play where they stand.
pub open spec fn period_ok(problem: SoccerProblem, row: Seq<i64>, bench: Seq<usize>) -> bool {
    &&& row.len() == problem.num_positions
    &&& bench.len() == problem.bench_size
    &&& problem.num_positions + problem.bench_size == problem.num_players
    &&& forall|i: int| 0 <= i < row.len() ==> 0 <= #[trigger] row[i] < problem.num_players
    &&& row.no_duplicates()
    &&& forall|i: int| 0 <= i < bench.len() ==> #[trigger] bench[i] < problem.num_players
    &&& bench.no_duplicates()
    &&& forall|i: int| 0 <= i < bench.len() ==> !fields(row, #[trigger] bench[i] as int)
    &&& forall|i: int| 0 <= i < row.len() ==> can_play(problem, #[trigger] row[i] as int, i)
}

/// The schedule is well formed.
pub open spec fn schedule_ok(problem: SoccerProblem, schedule: Schedule) -> bool {
    &&& schedule.assignment@.len() == problem.num_periods
    &&& schedule.bench@.len() == problem.num_periods
    &&& forall|t: int|
        0 <= t < problem.num_periods ==> period_ok(
            problem,
            #[trigger] schedule.assignment@[t]@,
            schedule.bench@[t]@,
        )
}

proof fn no_period_fault(problem: SoccerProblem, row: Seq<i64>, bench: Seq<usize>, t: int)
    ensures
        period_fault(problem, row, bench, t) is None <==> period_ok(problem, row, bench),
{
    no_field_fault(problem, row, t, 0);
    no_bench_fault(problem, row, bench, t, 0);
    no_place_fault(problem, row, t, 0);
    if period_ok(problem, row, bench) {
        assert forall|j: int| 0 <= j < row.len() implies !row.take(j).contains(
            #[trigger] row[j],
        ) by {
            if row.take(j).contains(row[j]) {
                let k = choose|k: int| 0 <= k < j && row.take(j)[k] == row[j];
                assert(row[k] == row[j]);
            }
        }
        assert forall|j: int| 0 <= j < bench.len() implies !bench.take(j).contains(
            #[trigger] bench[j],
        ) by {
            if bench.take(j).contains(bench[j]) {
                let k = choose|k: int| 0 <= k < j && bench.take(j)[k] == bench[j];
                assert(bench[k] == bench[j]);
            }
        }
    }
    if period_fault(problem, row, bench, t) is None {
        assert forall|i: int, j: int|
            0 <= i < row.len() && 0 <= j < row.len() && i != j implies row[i] != row[j] by {
            if i < j {
                assert(row.take(j)[i] == row[i]);
            } else {
                assert(row.take(i)[j] == row[j]);
            }
        }
        assert forall|i: int, j: int|
            0 <= i < bench.len() && 0 <= j < bench.len() && i != j implies bench[i] != bench[j] by {
            if i < j {
                assert(bench.take(j)[i] == bench[i]);
            } else {
                assert(bench.take(i)[j] == bench[j]);
            }
        }
    }
}

proof fn no_periods_fault(problem: SoccerProblem, schedule: Schedule, t: int)
    requires
        0 <= t <= problem.num_periods,
    ensures
        periods_fault(problem, schedule, t) is None <==> (forall|u: int|
            t <= u < problem.num_periods ==> period_ok(
                problem,
                #[trigger] schedule.assignment@[u]@,
                schedule.bench@[u]@,
            )),
    decreases problem.num_periods - t,
{
    if t < problem.num_periods {
        no_period_fault(problem, schedule.assignment@[t]@, schedule.bench@[t]@, t);
        no_periods_fault(problem, schedule, t + 1);
    }
}

/// A schedule has no fault exactly where it is well formed.
pub proof fn faultless_is_well_formed(problem: SoccerProblem, schedule: Schedule)
    ensures
        schedule_fault(problem, schedule) is None <==> schedule_ok(problem, schedule),
{
    no_periods_fault(problem, schedule, 0);
}

} // verus!
