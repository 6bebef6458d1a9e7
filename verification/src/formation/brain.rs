//! The formation program of one team from tick to tick.
use crate::decimals::{D0, D2, DM2};
use crate::formation::guidance::{
    capture_status, captured_status, guidance_covers, guidance_means, guide_slots,
    has_complete_finite_solution, means_of, solve_time, solver_elapsed_ms, GuidanceMeans,
    GuidanceMotion, LPSolution, LPStatus, MpcRefinement, SlotHead,
    SoccerFormationLpObjectiveWeights, SoccerFormationLpPlayerGuidance,
    SoccerFormationLpTeamSnapshot,
};
use crate::formation::layout::{
    all_pairs, band, coefficient, con_name, constraint_name, first_lower, first_upper,
    initial_lower, initial_upper, pairs_laid_out, rows_laid_out, rows_of_pair, slot_rows, slot_vars,
    state_coefficient, state_row, upper_row, var_name, variable_name, zero, Band,
    SoccerFormationLpPairRows, SoccerFormationLpPairVars, SoccerFormationLpPlayerRows,
    SoccerFormationLpPlayerVars, SoccerFormationLpStateVars, BALL_START, CONSTRAINTS, CONTEXT_START,
    PAIR_COUNT, PAIR_ROW_START, PAIR_VAR_START, SOCCER_FORMATION_LP_PLAYER_CAPACITY, STATE_COUNT,
    STATE_START, UPPER_ROWS, VARIABLES,
};
use crate::formation::motion::{
    find_lined_motions, find_motions, heads_of, lined_motions, motion_of, take_heads,
    LineTolerances,
};
use crate::formation::tick::{
    find_tick, is_tick, LineWeights, SoccerFormationLpSlotInput, TickFrame,
};
use crate::geometry::{is_distance, is_heading, is_limit};
use crate::number::{is_conversion, is_operation, Real64};
use crate::pitch::{Team, Vec2};
use crate::tunables::{fit_number, fitted};
use vstd::prelude::*;
use vstd::string::*;

verus! {

/// The program: maximise `c` over the variables, under the upper-bound rows, the rows that fix
/// the state, and the bounds.
#[derive(Debug)]
pub struct FormationProblem {
    pub c: Vec<Real64>,
    pub a_ub: Vec<Vec<Real64>>,
    pub b_ub: Vec<Real64>,
    pub a_eq: Vec<Vec<Real64>>,
    pub b_eq: Vec<Real64>,
    pub lb: Vec<Option<Real64>>,
    pub ub: Vec<Option<Real64>>,
    pub var_names: Vec<String>,
    pub con_names: Vec<String>,
}

impl FormationProblem {
    /// The program has its shape: every variable, row and name stands in its place.
    pub open spec fn laid_out(
        self,
        team: Team,
        pairs: Seq<SoccerFormationLpPairVars>,
        dt: Option<Real64>,
    ) -> bool {
        &&& self.c@.len() == VARIABLES
        &&& self.lb@.len() == VARIABLES
        &&& self.ub@.len() == VARIABLES
        &&& rows_laid_out(self.a_ub@, pairs, dt)
        &&& self.b_ub@.len() == UPPER_ROWS
        &&& state_rows_laid_out(self.a_eq@)
        &&& self.b_eq@.len() == STATE_COUNT
        &&& self.var_names@.len() == VARIABLES
        &&& forall|v: int|
            0 <= v < VARIABLES ==> (#[trigger] self.var_names@[v])@ == var_name(team, pairs, v)
        &&& self.con_names@.len() == CONSTRAINTS
        &&& forall|r: int|
            0 <= r < CONSTRAINTS ==> (#[trigger] self.con_names@[r])@ == con_name(team, pairs, r)
    }
}

/// One row for each state variable, which fixes it.
pub open spec fn state_rows_laid_out(rows: Seq<Vec<Real64>>) -> bool {
    &&& rows.len() == STATE_COUNT
    &&& forall|i: int| 0 <= i < rows.len() ==> (#[trigger] rows[i])@.len() == VARIABLES
    &&& forall|i: int, v: int|
        0 <= i < rows.len() && 0 <= v < VARIABLES ==> #[trigger] rows[i]@[v] == state_coefficient(
            i,
            v,
        )
}

/// The time budget of exact solves.
#[derive(Clone, Copy, Debug)]
pub struct SolveBudget {
    /// What one solve may take, in microseconds.
    pub micros: u128,
    /// The iteration cap never falls below this.
    pub min_iter: usize,
    /// The iteration cap starts here and never rises above.
    pub max_iter: usize,
    /// How much the cap recovers after a fast solve.
    pub recover_step: usize,
    /// After this many slow solves in a row exact solves stop for good.
    pub circuit_limit: u32,
}

/// What is remembered of past solves.
#[derive(Clone, Copy, Debug)]
pub struct SolveTelemetry {
    pub adaptive_max_iter: usize,
    pub last_solve_micros: u128,
    pub solve_count: u64,
    pub solve_timeout_count: u64,
    pub suboptimal_count: u64,
    pub consecutive_timeouts: u32,
    pub simplex_circuit_open: bool,
    /// The last exact solve was optimal, so its basis can start the next one.
    pub basis_kept: bool,
}

pub open spec fn saturated_u64(n: u64) -> u64 {
    if n == u64::MAX {
        n
    } else {
        (n + 1) as u64
    }
}

pub open spec fn saturated_u32(n: u32) -> u32 {
    if n == u32::MAX {
        n
    } else {
        (n + 1) as u32
    }
}

impl SolveTelemetry {
    /// Before the first solve.
    pub open spec fn fresh(max_iter: usize) -> Self {
        SolveTelemetry {
            adaptive_max_iter: max_iter,
            last_solve_micros: 0,
            solve_count: 0,
            solve_timeout_count: 0,
            suboptimal_count: 0,
            consecutive_timeouts: 0,
            simplex_circuit_open: false,
            basis_kept: false,
        }
    }

    /// The iteration cap lies where the budget lets it lie.
    pub open spec fn within_budget(self, budget: SolveBudget) -> bool {
        &&& self.adaptive_max_iter <= budget.max_iter
        &&& self.consecutive_timeouts >= budget.circuit_limit ==> self.simplex_circuit_open
    }

    /// After a solve. A stand-in solve is only counted. An exact solve over budget halves the
    /// iteration cap and, often enough in a row, opens the circuit breaker; one that took less
    /// than a third of the budget ends the row and lets the cap recover. An exact solve keeps
    /// its basis where it is optimal and else counts as suboptimal.
    pub open spec fn after_solve(
        self,
        exact: bool,
        elapsed_micros: u128,
        optimal: bool,
        budget: SolveBudget,
    ) -> Self {
        let counted = SolveTelemetry {
            solve_count: saturated_u64(self.solve_count),
            last_solve_micros: elapsed_micros,
            ..self
        };
        if !exact {
            counted
        } else {
            let timed = if elapsed_micros > budget.micros {
                SolveTelemetry {
                    solve_timeout_count: saturated_u64(self.solve_timeout_count),
                    consecutive_timeouts: saturated_u32(self.consecutive_timeouts),
                    adaptive_max_iter: if self.adaptive_max_iter / 2 < budget.min_iter {
                        budget.min_iter
                    } else {
                        self.adaptive_max_iter / 2
                    },
                    simplex_circuit_open: self.simplex_circuit_open || saturated_u32(
                        self.consecutive_timeouts,
                    ) >= budget.circuit_limit,
                    ..counted
                }
            } else if elapsed_micros * 3 < budget.micros {
                SolveTelemetry {
                    consecutive_timeouts: 0,
                    adaptive_max_iter: if self.adaptive_max_iter + budget.recover_step
                        > budget.max_iter {
                        budget.max_iter
                    } else {
                        (self.adaptive_max_iter + budget.recover_step) as usize
                    },
                    ..counted
                }
            } else {
                counted
            };
            if optimal {
                SolveTelemetry { basis_kept: true, ..timed }
            } else {
                SolveTelemetry {
                    basis_kept: false,
                    suboptimal_count: saturated_u64(self.suboptimal_count),
                    ..timed
                }
            }
        }
    }

    /// Takes a solve into account.
    pub fn record_solve(
        &mut self,
        exact: bool,
        elapsed_micros: u128,
        optimal: bool,
        budget: &SolveBudget,
    )
        requires
            old(self).adaptive_max_iter + budget.recover_step <= usize::MAX,
        ensures
            *final(self) == old(self).after_solve(exact, elapsed_micros, optimal, *budget),
    {
        self.solve_count = self.solve_count.saturating_add(1);
        self.last_solve_micros = elapsed_micros;
        if exact {
            let third: u128 = budget.micros / 3;
            let spare: u128 = budget.micros % 3;
            if elapsed_micros > budget.micros {
                self.solve_timeout_count = self.solve_timeout_count.saturating_add(1);
                self.consecutive_timeouts = self.consecutive_timeouts.saturating_add(1);
                let half: usize = self.adaptive_max_iter / 2;
                self.adaptive_max_iter = if half < budget.min_iter {
                    budget.min_iter
                } else {
                    half
                };
                if self.consecutive_timeouts >= budget.circuit_limit {
                    self.simplex_circuit_open = true;
                }
            } else if elapsed_micros < third || elapsed_micros == third && spare > 0 {
                self.consecutive_timeouts = 0;
                let recovered: usize = self.adaptive_max_iter + budget.recover_step;
                self.adaptive_max_iter = if recovered > budget.max_iter {
                    budget.max_iter
                } else {
                    recovered
                };
            }
            if optimal {
                self.basis_kept = true;
            } else {
                self.basis_kept = false;
                self.suboptimal_count = self.suboptimal_count.saturating_add(1);
            }
        }
    }

    /// Whether the next tick is solved exactly.
    pub fn solves_exactly(&self, enabled: bool) -> (b: bool)
        ensures
            b == (enabled && !self.simplex_circuit_open),
    {
        enabled && !self.simplex_circuit_open
    }
}

/// An open circuit breaker stays open, whatever is solved.
pub proof fn open_circuit_stays_open(
    t: SolveTelemetry,
    exact: bool,
    elapsed_micros: u128,
    optimal: bool,
    budget: SolveBudget,
)
    requires
        t.simplex_circuit_open,
    ensures
        t.after_solve(exact, elapsed_micros, optimal, budget).simplex_circuit_open,
{
}

/// The iteration cap stays under the maximum, and the breaker is open as soon as the limit of
/// slow solves in a row is reached.
pub proof fn solves_keep_the_budget(
    t: SolveTelemetry,
    exact: bool,
    elapsed_micros: u128,
    optimal: bool,
    budget: SolveBudget,
)
    requires
        t.within_budget(budget),
        budget.min_iter <= budget.max_iter,
        0 < budget.circuit_limit,
    ensures
        t.after_solve(exact, elapsed_micros, optimal, budget).within_budget(budget),
        SolveTelemetry::fresh(budget.max_iter).within_budget(budget),
{
}

/// The telemetry after `n` exact solves, each over budget.
pub open spec fn after_slow_solves(
    t: SolveTelemetry,
    n: nat,
    micros: u128,
    budget: SolveBudget,
) -> SolveTelemetry
    decreases n,
{
    if n == 0 {
        t
    } else {
        after_slow_solves(t, (n - 1) as nat, micros, budget).after_solve(
            true,
            micros,
            false,
            budget,
        )
    }
}

/// From a fresh start the breaker opens with the last of `circuit_limit` slow solves in a row,
/// and not before.
pub proof fn breaker_opens_at_the_limit(n: nat, max_iter: usize, micros: u128, budget: SolveBudget)
    requires
        micros > budget.micros,
        0 < budget.circuit_limit,
        n <= budget.circuit_limit,
    ensures
        after_slow_solves(SolveTelemetry::fresh(max_iter), n, micros, budget).consecutive_timeouts
            == n,
        after_slow_solves(SolveTelemetry::fresh(max_iter), n, micros, budget).simplex_circuit_open
            <==> n == budget.circuit_limit,
    decreases n,
{
    if n > 0 {
        breaker_opens_at_the_limit((n - 1) as nat, max_iter, micros, budget);
    }
}

/// What a tick says of one slot. The objective entries are the signed coefficients as they
/// enter the objective.
#[derive(Clone, Copy, Debug)]
pub struct SlotTick {
    pub active: bool,
    pub max_speed: Real64,
    pub max_acceleration: Real64,
    pub anchor: Vec2,
    pub current: Vec2,
    /// How far the slot can get: the greatest coordinates.
    pub reach_upper: Vec2,
    /// The negated least coordinates.
    pub reach_lower: Vec2,
    pub pressure: Vec2,
    pub speed_match_y: Real64,
    pub velocity: Vec2,
    pub anchor_entry: Real64,
    pub movement_entry: Real64,
    pub pressure_entry: Real64,
    pub speed_entry: Real64,
    pub acceleration_entry: Real64,
    pub dynamics_entry: Real64,
    pub forward_entry: Real64,
}

/// What a tick says of one pair of slots.
#[derive(Clone, Copy, Debug)]
pub struct PairTick {
    pub separation: Vec2,
    pub entry: Vec2,
}

/// What a tick says of the whole program.
#[derive(Debug)]
pub struct TickInputs {
    pub width: Real64,
    pub length: Real64,
    pub dt: Real64,
    pub slots: Vec<SlotTick>,
    pub pairs: Vec<PairTick>,
    pub state_values: Vec<Real64>,
}

impl TickInputs {
    pub open spec fn well_formed(self) -> bool {
        &&& self.slots@.len() == SOCCER_FORMATION_LP_PLAYER_CAPACITY
        &&& self.pairs@.len() == PAIR_COUNT
        &&& self.state_values@.len() == STATE_COUNT
    }
}

/// The value around which band `b` of a slot holds its target.
pub open spec fn band_value(s: SlotTick, b: int) -> Real64 {
    if b == 0 {
        s.anchor.x
    } else if b == 1 {
        s.anchor.y
    } else if b == 2 || b == 9 {
        s.current.x
    } else if b == 3 || b == 10 {
        s.current.y
    } else if b == 6 {
        s.pressure.x
    } else if b == 7 {
        s.pressure.y
    } else if b == 8 {
        s.speed_match_y
    } else if b == 11 {
        s.velocity.x
    } else {
        s.velocity.y
    }
}

/// The right-hand side of row `k` of a slot.
pub open spec fn slot_rhs(s: SlotTick, k: int) -> Real64 {
    if k == 8 {
        s.reach_upper.x
    } else if k == 9 {
        s.reach_lower.x
    } else if k == 10 {
        s.reach_upper.y
    } else if k == 11 {
        s.reach_lower.y
    } else if k >= 26 {
        zero()
    } else if k % 2 == 0 {
        band_value(s, k / 2)
    } else {
        band_value(s, k / 2).negated()
    }
}

/// The right-hand side of row `q` of a pair.
pub open spec fn pair_rhs(p: PairTick, q: int) -> Real64 {
    if q == 0 {
        p.separation.x
    } else if q == 1 {
        p.separation.x.negated()
    } else if q == 2 {
        p.separation.y
    } else {
        p.separation.y.negated()
    }
}

/// The right-hand side of upper-bound row `r`.
pub open spec fn tick_rhs(tick: TickInputs, r: int) -> Real64 {
    if r < PAIR_ROW_START {
        slot_rhs(tick.slots@[r / 30], r % 30)
    } else {
        pair_rhs(tick.pairs@[(r - PAIR_ROW_START) / 4], (r - PAIR_ROW_START) % 4)
    }
}

/// The objective entry of variable `j` of a slot: slacks are charged and the forward pull acts
/// on the target; an empty slot has no entries.
pub open spec fn slot_objective(s: SlotTick, j: int) -> Real64 {
    if !s.active {
        zero()
    } else if j == 1 {
        s.forward_entry
    } else if 6 <= j < 10 {
        s.dynamics_entry
    } else if 10 <= j < 12 {
        s.anchor_entry
    } else if 12 <= j < 14 {
        s.movement_entry
    } else if 14 <= j < 16 {
        s.pressure_entry
    } else if j == 16 {
        s.speed_entry
    } else if 17 <= j < 19 {
        s.acceleration_entry
    } else {
        zero()
    }
}

/// The objective entry of variable `v`: a pair is charged only where both slots are occupied.
pub open spec fn tick_objective(
    tick: TickInputs,
    pairs: Seq<SoccerFormationLpPairVars>,
    v: int,
) -> Real64 {
    if v < PAIR_VAR_START {
        slot_objective(tick.slots@[v / 19], v % 19)
    } else if v < STATE_START {
        let p = (v - PAIR_VAR_START) / 2;
        if tick.slots@[pairs[p].a as int].active && tick.slots@[pairs[p].b as int].active {
            if (v - PAIR_VAR_START) % 2 == 0 {
                tick.pairs@[p].entry.x
            } else {
                tick.pairs@[p].entry.y
            }
        } else {
            zero()
        }
    } else {
        zero()
    }
}

/// The greatest speed or acceleration of a slot; an empty slot does not move.
pub open spec fn motion_limit(s: SlotTick, j: int) -> Real64 {
    if !s.active {
        zero()
    } else if j < 4 {
        s.max_speed
    } else {
        s.max_acceleration
    }
}

/// The bound of a variable from below after a tick, given its bound before.
pub open spec fn tick_lower(tick: TickInputs, before: Option<Real64>, v: int) -> Option<Real64> {
    if v < PAIR_VAR_START && 2 <= v % 19 < 6 {
        Some(motion_limit(tick.slots@[v / 19], v % 19).negated())
    } else {
        before
    }
}

/// The bound of a variable from above after a tick, given its bound before.
pub open spec fn tick_upper(tick: TickInputs, before: Option<Real64>, v: int) -> Option<Real64> {
    if v < PAIR_VAR_START && v % 19 == 0 {
        Some(tick.width)
    } else if v < PAIR_VAR_START && v % 19 == 1 {
        Some(tick.length)
    } else if v < PAIR_VAR_START && 2 <= v % 19 < 6 {
        Some(motion_limit(tick.slots@[v / 19], v % 19))
    } else {
        before
    }
}

/// Every band but the reach is two-sided around one value: the right-hand side of its lower
/// row mirrors that of its upper row.
pub proof fn band_values_are_mirrored(tick: TickInputs, slot: int, b: int)
    requires
        tick.well_formed(),
        0 <= slot < SOCCER_FORMATION_LP_PLAYER_CAPACITY,
        0 <= b < 15,
        b != 4,
        b != 5,
    ensures
        tick_rhs(tick, 30 * slot + 2 * b + 1).key() == -tick_rhs(tick, 30 * slot + 2 * b).key(),
{
}

/// A solver value put between two bounds; the fallback where it is not finite.
pub fn soccer_lp_clamped(value: Real64, min: u64, max: u64, fallback: u64) -> (r: Real64)
    requires
        (Real64 { bits: min }).finite(),
        (Real64 { bits: max }).finite(),
        (Real64 { bits: min }).key() <= (Real64 { bits: max }).key(),
        (Real64 { bits: fallback }).finite(),
        (Real64 { bits: min }).key() <= (Real64 { bits: fallback }).key() <= (Real64 {
            bits: max,
        }).key(),
    ensures
        r == fitted(value, fallback, min, max),
{
    fit_number(value, fallback, min, max)
}

fn band_value_of(s: &SlotTick, b: usize) -> (r: Real64)
    requires
        b < 13,
        b != 4,
        b != 5,
    ensures
        r == band_value(*s, b as int),
{
    if b == 0 {
        s.anchor.x
    } else if b == 1 {
        s.anchor.y
    } else if b == 2 || b == 9 {
        s.current.x
    } else if b == 3 || b == 10 {
        s.current.y
    } else if b == 6 {
        s.pressure.x
    } else if b == 7 {
        s.pressure.y
    } else if b == 8 {
        s.speed_match_y
    } else if b == 11 {
        s.velocity.x
    } else {
        s.velocity.y
    }
}

fn rhs_of(tick: &TickInputs, r: usize) -> (x: Real64)
    requires
        tick.well_formed(),
        r < UPPER_ROWS,
    ensures
        x == tick_rhs(*tick, r as int),
{
    if r < PAIR_ROW_START {
        let s: SlotTick = tick.slots[r / 30];
        let k: usize = r % 30;
        if k == 8 {
            s.reach_upper.x
        } else if k == 9 {
            s.reach_lower.x
        } else if k == 10 {
            s.reach_upper.y
        } else if k == 11 {
            s.reach_lower.y
        } else if k >= 26 {
            Real64 { bits: 0 }
        } else if k % 2 == 0 {
            band_value_of(&s, k / 2)
        } else {
            band_value_of(&s, k / 2).negate()
        }
    } else {
        let p: PairTick = tick.pairs[(r - PAIR_ROW_START) / 4];
        let q: usize = (r - PAIR_ROW_START) % 4;
        if q == 0 {
            p.separation.x
        } else if q == 1 {
            p.separation.x.negate()
        } else if q == 2 {
            p.separation.y
        } else {
            p.separation.y.negate()
        }
    }
}

fn objective_of(
    tick: &TickInputs,
    pairs: &Vec<SoccerFormationLpPairVars>,
    v: usize,
) -> (x: Real64)
    requires
        tick.well_formed(),
        pairs_laid_out(pairs@),
        v < VARIABLES,
    ensures
        x == tick_objective(*tick, pairs@, v as int),
{
    let nothing: Real64 = Real64 { bits: 0 };
    if v < PAIR_VAR_START {
        let s: SlotTick = tick.slots[v / 19];
        let j: usize = v % 19;
        if !s.active {
            nothing
        } else if j == 1 {
            s.forward_entry
        } else if j < 6 {
            nothing
        } else if j < 10 {
            s.dynamics_entry
        } else if j < 12 {
            s.anchor_entry
        } else if j < 14 {
            s.movement_entry
        } else if j < 16 {
            s.pressure_entry
        } else if j == 16 {
            s.speed_entry
        } else {
            s.acceleration_entry
        }
    } else if v < STATE_START {
        let p: usize = (v - PAIR_VAR_START) / 2;
        let pair: SoccerFormationLpPairVars = pairs[p];
        if tick.slots[pair.a].active && tick.slots[pair.b].active {
            if (v - PAIR_VAR_START) % 2 == 0 {
                tick.pairs[p].entry.x
            } else {
                tick.pairs[p].entry.y
            }
        } else {
            nothing
        }
    } else {
        nothing
    }
}

fn limit_of(s: &SlotTick, j: usize) -> (x: Real64)
    ensures
        x == motion_limit(*s, j as int),
{
    if !s.active {
        Real64 { bits: 0 }
    } else if j < 4 {
        s.max_speed
    } else {
        s.max_acceleration
    }
}

/// Writes the tick length into the dynamics rows.
fn write_tick_seconds(
    a_ub: &mut Vec<Vec<Real64>>,
    pairs: &Vec<SoccerFormationLpPairVars>,
    before: Option<Real64>,
    dt: Real64,
)
    requires
        pairs_laid_out(pairs@),
        rows_laid_out(old(a_ub)@, pairs@, before),
    ensures
        rows_laid_out(final(a_ub)@, pairs@, Some(dt)),
{
    let mut r: usize = 0;
    while r < PAIR_ROW_START
        invariant
            r <= PAIR_ROW_START,
            pairs_laid_out(pairs@),
            a_ub@.len() == UPPER_ROWS,
            forall|i: int| 0 <= i < UPPER_ROWS ==> (#[trigger] a_ub@[i])@.len() == VARIABLES,
            forall|i: int, v: int|
                0 <= i < r && 0 <= v < VARIABLES ==> #[trigger] a_ub@[i]@[v] == coefficient(
                    pairs@,
                    Some(dt),
                    i,
                    v,
                ),
            forall|i: int, v: int|
                r <= i < UPPER_ROWS && 0 <= v < VARIABLES ==> #[trigger] a_ub@[i]@[v]
                    == coefficient(pairs@, before, i, v),
        decreases PAIR_ROW_START - r,
    {
        let shape: Band = band(r % 30 / 2);
        if let Some(j) = shape.drift {
            let column: usize = 19 * (r / 30) + j;
            let entry: Real64 = if r % 2 == 0 { dt.negate() } else { dt };
            let row: &mut Vec<Real64> = &mut a_ub[r];
            row.set(column, entry);
        }
        r += 1;
    }
}

/// The formation program of one team with its memory.
#[derive(Debug)]
pub struct SoccerFormationLpBrain {
    pub team: Team,
    pub problem: FormationProblem,
    pub player_vars: Vec<SoccerFormationLpPlayerVars>,
    pub player_rows: Vec<SoccerFormationLpPlayerRows>,
    pub pair_vars: Vec<SoccerFormationLpPairVars>,
    pub pair_rows: Vec<SoccerFormationLpPairRows>,
    pub state_vars: SoccerFormationLpStateVars,
    /// The tick length that stands in the dynamics rows.
    pub tick_seconds: Option<Real64>,
    pub last_guidance: Vec<SoccerFormationLpPlayerGuidance>,
    pub last_snapshot: SoccerFormationLpTeamSnapshot,
    pub telemetry: SolveTelemetry,
    pub last_solve_status: String,
}

fn slot_vars_of(slot: usize) -> (r: SoccerFormationLpPlayerVars)
    requires
        slot < 11,
    ensures
        r == slot_vars(slot as int),
{
    let b: usize = 19 * slot;
    SoccerFormationLpPlayerVars {
        target_x: b,
        target_y: b + 1,
        target_vx: b + 2,
        target_vy: b + 3,
        target_ax: b + 4,
        target_ay: b + 5,
        dynamics_slack_x: b + 6,
        dynamics_slack_y: b + 7,
        dynamics_slack_vx: b + 8,
        dynamics_slack_vy: b + 9,
        anchor_slack_x: b + 10,
        anchor_slack_y: b + 11,
        movement_slack_x: b + 12,
        movement_slack_y: b + 13,
        pressure_slack_x: b + 14,
        pressure_slack_y: b + 15,
        speed_match_slack_y: b + 16,
        acceleration_slack_x: b + 17,
        acceleration_slack_y: b + 18,
    }
}

fn slot_rows_of(slot: usize) -> (r: SoccerFormationLpPlayerRows)
    requires
        slot < 11,
    ensures
        r == slot_rows(slot as int),
{
    let b: usize = 30 * slot;
    SoccerFormationLpPlayerRows {
        anchor_x_upper: b,
        anchor_x_lower: b + 1,
        anchor_y_upper: b + 2,
        anchor_y_lower: b + 3,
        movement_x_upper: b + 4,
        movement_x_lower: b + 5,
        movement_y_upper: b + 6,
        movement_y_lower: b + 7,
        reach_x_upper: b + 8,
        reach_x_lower: b + 9,
        reach_y_upper: b + 10,
        reach_y_lower: b + 11,
        pressure_x_upper: b + 12,
        pressure_x_lower: b + 13,
        pressure_y_upper: b + 14,
        pressure_y_lower: b + 15,
        speed_y_upper: b + 16,
        speed_y_lower: b + 17,
        dynamics_x_upper: b + 18,
        dynamics_x_lower: b + 19,
        dynamics_y_upper: b + 20,
        dynamics_y_lower: b + 21,
        dynamics_vx_upper: b + 22,
        dynamics_vx_lower: b + 23,
        dynamics_vy_upper: b + 24,
        dynamics_vy_lower: b + 25,
        acceleration_x_upper: b + 26,
        acceleration_x_lower: b + 27,
        acceleration_y_upper: b + 28,
        acceleration_y_lower: b + 29,
    }
}

fn zeros(n: usize) -> (r: Vec<Real64>)
    ensures
        r@.len() == n,
        forall|i: int| 0 <= i < n ==> #[trigger] r@[i] == zero(),
{
    let mut r: Vec<Real64> = Vec::new();
    let mut i: usize = 0;
    while i < n
        invariant
            i <= n,
            r@.len() == i,
            forall|j: int| 0 <= j < i ==> #[trigger] r@[j] == zero(),
        decreases n - i,
    {
        r.push(Real64 { bits: 0 });
        i += 1;
    }
    r
}

fn build_problem(
    team: Team,
    pairs: &Vec<SoccerFormationLpPairVars>,
    width: Real64,
    length: Real64,
) -> (p: FormationProblem)
    requires
        pairs_laid_out(pairs@),
    ensures
        p.laid_out(team, pairs@, None),
        forall|v: int| 0 <= v < VARIABLES ==> #[trigger] p.c@[v] == zero(),
        forall|r: int| 0 <= r < UPPER_ROWS ==> #[trigger] p.b_ub@[r] == zero(),
        forall|i: int| 0 <= i < STATE_COUNT ==> #[trigger] p.b_eq@[i] == zero(),
        forall|v: int| 0 <= v < VARIABLES ==> #[trigger] p.lb@[v] == first_lower(v),
        forall|v: int| 0 <= v < VARIABLES ==> #[trigger] p.ub@[v] == first_upper(width, length, v),
{
    let mut lb: Vec<Option<Real64>> = Vec::new();
    let mut ub: Vec<Option<Real64>> = Vec::new();
    let mut var_names: Vec<String> = Vec::new();
    let mut v: usize = 0;
    while v < VARIABLES
        invariant
            v <= VARIABLES,
            pairs_laid_out(pairs@),
            lb@.len() == v,
            ub@.len() == v,
            var_names@.len() == v,
            forall|w: int| 0 <= w < v ==> #[trigger] lb@[w] == first_lower(w),
            forall|w: int| 0 <= w < v ==> #[trigger] ub@[w] == first_upper(width, length, w),
            forall|w: int|
                0 <= w < v ==> (#[trigger] var_names@[w])@ == var_name(team, pairs@, w),
        decreases VARIABLES - v,
    {
        lb.push(initial_lower(v));
        ub.push(initial_upper(width, length, v));
        var_names.push(variable_name(team, pairs, v));
        v += 1;
    }
    let mut con_names: Vec<String> = Vec::new();
    let mut r: usize = 0;
    while r < CONSTRAINTS
        invariant
            r <= CONSTRAINTS,
            pairs_laid_out(pairs@),
            con_names@.len() == r,
            forall|w: int|
                0 <= w < r ==> (#[trigger] con_names@[w])@ == con_name(team, pairs@, w),
        decreases CONSTRAINTS - r,
    {
        con_names.push(constraint_name(team, pairs, r));
        r += 1;
    }
    let mut a_ub: Vec<Vec<Real64>> = Vec::new();
    let mut r: usize = 0;
    while r < UPPER_ROWS
        invariant
            r <= UPPER_ROWS,
            pairs_laid_out(pairs@),
            a_ub@.len() == r,
            forall|i: int| 0 <= i < r ==> (#[trigger] a_ub@[i])@.len() == VARIABLES,
            forall|i: int, w: int|
                0 <= i < r && 0 <= w < VARIABLES ==> #[trigger] a_ub@[i]@[w] == coefficient(
                    pairs@,
                    None,
                    i,
                    w,
                ),
        decreases UPPER_ROWS - r,
    {
        a_ub.push(upper_row(pairs, None, r));
        r += 1;
    }
    let mut a_eq: Vec<Vec<Real64>> = Vec::new();
    let mut i: usize = 0;
    while i < STATE_COUNT
        invariant
            i <= STATE_COUNT,
            a_eq@.len() == i,
            forall|k: int| 0 <= k < i ==> (#[trigger] a_eq@[k])@.len() == VARIABLES,
            forall|k: int, w: int|
                0 <= k < i && 0 <= w < VARIABLES ==> #[trigger] a_eq@[k]@[w] == state_coefficient(
                    k,
                    w,
                ),
        decreases STATE_COUNT - i,
    {
        a_eq.push(state_row(i));
        i += 1;
    }
    FormationProblem {
        c: zeros(VARIABLES),
        a_ub,
        b_ub: zeros(UPPER_ROWS),
        a_eq,
        b_eq: zeros(STATE_COUNT),
        lb,
        ub,
        var_names,
        con_names,
    }
}

impl SoccerFormationLpBrain {
    /// The program and its index tables have their shape.
    pub open spec fn well_formed(self) -> bool {
        &&& pairs_laid_out(self.pair_vars@)
        &&& self.problem.laid_out(self.team, self.pair_vars@, self.tick_seconds)
        &&& self.player_vars@.len() == SOCCER_FORMATION_LP_PLAYER_CAPACITY
        &&& forall|s: int|
            0 <= s < SOCCER_FORMATION_LP_PLAYER_CAPACITY ==> #[trigger] self.player_vars@[s]
                == slot_vars(s)
        &&& self.player_rows@.len() == SOCCER_FORMATION_LP_PLAYER_CAPACITY
        &&& forall|s: int|
            0 <= s < SOCCER_FORMATION_LP_PLAYER_CAPACITY ==> #[trigger] self.player_rows@[s]
                == slot_rows(s)
        &&& self.pair_rows@.len() == PAIR_COUNT
        &&& forall|p: int|
            0 <= p < PAIR_COUNT ==> #[trigger] self.pair_rows@[p] == rows_of_pair(p)
        &&& self.state_vars.players_start == STATE_START
        &&& self.state_vars.ball_start == BALL_START
        &&& self.state_vars.context_start == CONTEXT_START
        &&& self.state_vars.count == STATE_COUNT
    }

    /// The program of a team on a pitch, before the first tick.
    pub fn new(
        team: Team,
        field_width: Real64,
        field_length: Real64,
        max_iter: usize,
    ) -> (r: SoccerFormationLpBrain)
        ensures
            r.well_formed(),
            r.team == team,
            r.tick_seconds is None,
            forall|v: int| 0 <= v < VARIABLES ==> #[trigger] r.problem.c@[v] == zero(),
            forall|k: int| 0 <= k < UPPER_ROWS ==> #[trigger] r.problem.b_ub@[k] == zero(),
            forall|i: int| 0 <= i < STATE_COUNT ==> #[trigger] r.problem.b_eq@[i] == zero(),
            forall|v: int| 0 <= v < VARIABLES ==> #[trigger] r.problem.lb@[v] == first_lower(v),
            forall|v: int|
                0 <= v < VARIABLES ==> #[trigger] r.problem.ub@[v] == first_upper(
                    field_width,
                    field_length,
                    v,
                ),
            r.last_guidance@.len() == 0,
            r.last_snapshot.is_unsolved(team, VARIABLES, CONSTRAINTS),
            r.telemetry == SolveTelemetry::fresh(max_iter),
            r.last_solve_status@ == "not-solved"@,
    {
        let pair_vars: Vec<SoccerFormationLpPairVars> = all_pairs();
        let problem: FormationProblem = build_problem(team, &pair_vars, field_width, field_length);
        let mut player_vars: Vec<SoccerFormationLpPlayerVars> = Vec::new();
        let mut player_rows: Vec<SoccerFormationLpPlayerRows> = Vec::new();
        let mut s: usize = 0;
        while s < 11
            invariant
                s <= 11,
                player_vars@.len() == s,
                player_rows@.len() == s,
                forall|t: int| 0 <= t < s ==> #[trigger] player_vars@[t] == slot_vars(t),
                forall|t: int| 0 <= t < s ==> #[trigger] player_rows@[t] == slot_rows(t),
            decreases 11 - s,
        {
            player_vars.push(slot_vars_of(s));
            player_rows.push(slot_rows_of(s));
            s += 1;
        }
        let mut pair_rows: Vec<SoccerFormationLpPairRows> = Vec::new();
        let mut p: usize = 0;
        while p < PAIR_COUNT
            invariant
                p <= PAIR_COUNT,
                pair_rows@.len() == p,
                forall|t: int| 0 <= t < p ==> #[trigger] pair_rows@[t] == rows_of_pair(t),
            decreases PAIR_COUNT - p,
        {
            let b: usize = PAIR_ROW_START + 4 * p;
            pair_rows.push(
                SoccerFormationLpPairRows {
                    separation_x_upper: b,
                    separation_x_lower: b + 1,
                    separation_y_upper: b + 2,
                    separation_y_lower: b + 3,
                },
            );
            p += 1;
        }
        SoccerFormationLpBrain {
            team,
            problem,
            player_vars,
            player_rows,
            pair_vars,
            pair_rows,
            state_vars: SoccerFormationLpStateVars {
                players_start: STATE_START,
                ball_start: BALL_START,
                context_start: CONTEXT_START,
                count: STATE_COUNT,
            },
            tick_seconds: None,
            last_guidance: Vec::new(),
            last_snapshot: SoccerFormationLpTeamSnapshot::unsolved(team, VARIABLES, CONSTRAINTS),
            telemetry: SolveTelemetry {
                adaptive_max_iter: max_iter,
                last_solve_micros: 0,
                solve_count: 0,
                solve_timeout_count: 0,
                suboptimal_count: 0,
                consecutive_timeouts: 0,
                simplex_circuit_open: false,
                basis_kept: false,
            },
            last_solve_status: "not-solved".to_owned(),
        }
    }

    /// The program holds a tick: bounds, dynamics coefficients, objective, right-hand sides and
    /// state; nothing else has changed.
    pub open spec fn holds_tick(self, before: Self, tick: TickInputs) -> bool {
        &&& self.well_formed()
        &&& self.tick_seconds == Some(tick.dt)
        &&& forall|v: int|
            0 <= v < VARIABLES ==> #[trigger] self.problem.c@[v] == tick_objective(
                tick,
                before.pair_vars@,
                v,
            )
        &&& forall|r: int|
            0 <= r < UPPER_ROWS ==> #[trigger] self.problem.b_ub@[r] == tick_rhs(tick, r)
        &&& forall|i: int|
            0 <= i < STATE_COUNT ==> #[trigger] self.problem.b_eq@[i] == fitted(
                tick.state_values@[i],
                D0,
                DM2,
                D2,
            )
        &&& forall|v: int|
            0 <= v < VARIABLES ==> #[trigger] self.problem.lb@[v] == tick_lower(
                tick,
                before.problem.lb@[v],
                v,
            )
        &&& forall|v: int|
            0 <= v < VARIABLES ==> #[trigger] self.problem.ub@[v] == tick_upper(
                tick,
                before.problem.ub@[v],
                v,
            )
        &&& self == (SoccerFormationLpBrain {
            problem: self.problem,
            tick_seconds: Some(tick.dt),
            ..before
        })
    }

    /// Writes a tick into the program.
    pub fn write_tick(&mut self, tick: &TickInputs)
        requires
            old(self).well_formed(),
            tick.well_formed(),
        ensures
            final(self).holds_tick(*old(self), *tick),
    {
        let mut c: Vec<Real64> = Vec::new();
        let mut lb: Vec<Option<Real64>> = Vec::new();
        let mut ub: Vec<Option<Real64>> = Vec::new();
        let mut v: usize = 0;
        while v < VARIABLES
            invariant
                v <= VARIABLES,
                tick.well_formed(),
                self.well_formed(),
                c@.len() == v,
                lb@.len() == v,
                ub@.len() == v,
                forall|w: int|
                    0 <= w < v ==> #[trigger] c@[w] == tick_objective(*tick, self.pair_vars@, w),
                forall|w: int|
                    0 <= w < v ==> #[trigger] lb@[w] == tick_lower(*tick, self.problem.lb@[w], w),
                forall|w: int|
                    0 <= w < v ==> #[trigger] ub@[w] == tick_upper(*tick, self.problem.ub@[w], w),
            decreases VARIABLES - v,
        {
            c.push(objective_of(tick, &self.pair_vars, v));
            if v < PAIR_VAR_START && 2 <= v % 19 && v % 19 < 6 {
                let limit: Real64 = limit_of(&tick.slots[v / 19], v % 19);
                lb.push(Some(limit.negate()));
                ub.push(Some(limit));
            } else if v < PAIR_VAR_START && v % 19 == 0 {
                lb.push(self.problem.lb[v]);
                ub.push(Some(tick.width));
            } else if v < PAIR_VAR_START && v % 19 == 1 {
                lb.push(self.problem.lb[v]);
                ub.push(Some(tick.length));
            } else {
                lb.push(self.problem.lb[v]);
                ub.push(self.problem.ub[v]);
            }
            v += 1;
        }
        let mut b_ub: Vec<Real64> = Vec::new();
        let mut r: usize = 0;
        while r < UPPER_ROWS
            invariant
                r <= UPPER_ROWS,
                tick.well_formed(),
                b_ub@.len() == r,
                forall|w: int| 0 <= w < r ==> #[trigger] b_ub@[w] == tick_rhs(*tick, w),
            decreases UPPER_ROWS - r,
        {
            b_ub.push(rhs_of(tick, r));
            r += 1;
        }
        let mut b_eq: Vec<Real64> = Vec::new();
        let mut i: usize = 0;
        while i < STATE_COUNT
            invariant
                i <= STATE_COUNT,
                tick.well_formed(),
                b_eq@.len() == i,
                forall|w: int|
                    0 <= w < i ==> #[trigger] b_eq@[w] == fitted(
                        tick.state_values@[w],
                        D0,
                        DM2,
                        D2,
                    ),
            decreases STATE_COUNT - i,
        {
            b_eq.push(soccer_lp_clamped(tick.state_values[i], DM2, D2, D0));
            i += 1;
        }
        let before: Option<Real64> = self.tick_seconds;
        write_tick_seconds(&mut self.problem.a_ub, &self.pair_vars, before, tick.dt);
        self.tick_seconds = Some(tick.dt);
        self.problem.c = c;
        self.problem.lb = lb;
        self.problem.ub = ub;
        self.problem.b_ub = b_ub;
        self.problem.b_eq = b_eq;
    }

    /// Works a tick out from the slots' inputs and writes it into the program.
    pub fn update_problem_for_tick<
        P: Fn(Real64, Real64) -> Real64,
        M: Fn(Real64, Real64) -> Real64,
        D: Fn(Vec2, Vec2) -> Real64,
    >(
        &mut self,
        frame: &TickFrame,
        weights: &SoccerFormationLpObjectiveWeights,
        inputs: &Vec<SoccerFormationLpSlotInput>,
        reliefs: &Vec<Real64>,
        lines: &LineWeights,
        state_values: Vec<Real64>,
        plus: &P,
        times: &M,
        distance: &D,
    )
        requires
            old(self).well_formed(),
            is_operation(*plus),
            is_operation(*times),
            is_distance(*distance),
            inputs@.len() == SOCCER_FORMATION_LP_PLAYER_CAPACITY,
            reliefs@.len() == PAIR_COUNT,
            state_values@.len() == STATE_COUNT,
        ensures
            exists|tick: TickInputs| #[trigger]
                final(self).holds_tick(*old(self), tick) && tick.state_values@ == state_values@
                    && is_tick(
                    *plus,
                    *times,
                    *distance,
                    *frame,
                    *weights,
                    inputs@,
                    old(self).pair_vars@,
                    reliefs@,
                    *lines,
                    tick,
                ),
    {
        let tick: TickInputs = find_tick(
            frame,
            weights,
            inputs,
            &self.pair_vars,
            reliefs,
            lines,
            state_values,
            plus,
            times,
            distance,
        );
        self.write_tick(&tick);
    }

    /// What a captured solution leaves in the program.
    pub open spec fn holds_solution<
        P: Fn(Real64, Real64) -> Real64,
        M: Fn(Real64, Real64) -> Real64,
        Q: Fn(Real64, Real64) -> Real64,
        C: Fn(usize) -> Real64,
        D: Fn(Vec2, Vec2) -> Real64,
        U: Fn(Vec2) -> Vec2,
        L: Fn(Vec2, Real64) -> Vec2,
    >(
        self,
        plus: P,
        times: M,
        over: Q,
        count: C,
        distance: D,
        unit: U,
        limit: L,
        frame: TickFrame,
        weights: SoccerFormationLpObjectiveWeights,
        inputs: Seq<SoccerFormationLpSlotInput>,
        tolerances: LineTolerances,
        solution: LPSolution,
    ) -> bool {
        &&& guidance_covers(
            self.last_guidance@,
            self.team,
            heads_of(inputs),
            lined_motions(
                plus,
                over,
                count,
                heads_of(inputs),
                Seq::new(
                    SOCCER_FORMATION_LP_PLAYER_CAPACITY as nat,
                    |s: int|
                        motion_of(
                            plus,
                            times,
                            over,
                            count,
                            distance,
                            unit,
                            limit,
                            frame,
                            inputs,
                            self.pair_vars@,
                            solution,
                            s,
                        ),
                ),
                tolerances,
            ),
            solution,
            SOCCER_FORMATION_LP_PLAYER_CAPACITY as int,
        )
        &&& ({
            let shot = self.last_snapshot;
            let kept = means_of(plus, over, count, self.last_guidance@);
            &&& shot.team == self.team
            &&& shot.status@ == capture_status(solution)
            &&& shot.objective == solution.objective.finite_or_zero_value()
            &&& shot.variables == VARIABLES
            &&& shot.constraints == CONSTRAINTS
            &&& shot.guided_players == self.last_guidance@.len()
            &&& shot.iterations == solution.iters
            &&& shot.elapsed_ms == solve_time(solution)
            &&& shot.mean_pair_error_yards == kept.pair_error_yards
            &&& shot.mean_role_line_error_yards == kept.role_line_error_yards
            &&& shot.mean_pressure_error_yards == kept.pressure_error_yards
            &&& shot.objective_weights == weights
        })
    }

    /// Takes up a solution: the guidance of every occupied slot and the snapshot. Where the
    /// solution is not complete, the motions are those of the fallback.
    pub fn capture_solution<
        P: Fn(Real64, Real64) -> Real64,
        M: Fn(Real64, Real64) -> Real64,
        Q: Fn(Real64, Real64) -> Real64,
        C: Fn(usize) -> Real64,
        D: Fn(Vec2, Vec2) -> Real64,
        U: Fn(Vec2) -> Vec2,
        L: Fn(Vec2, Real64) -> Vec2,
    >(
        &mut self,
        frame: &TickFrame,
        weights: SoccerFormationLpObjectiveWeights,
        inputs: &Vec<SoccerFormationLpSlotInput>,
        tolerances: &LineTolerances,
        solution: &LPSolution,
        plus: &P,
        times: &M,
        over: &Q,
        count: &C,
        distance: &D,
        unit: &U,
        limit: &L,
    )
        requires
            old(self).well_formed(),
            is_operation(*plus),
            is_operation(*times),
            is_operation(*over),
            is_conversion(*count),
            is_distance(*distance),
            is_heading(*unit),
            is_limit(*limit),
            inputs@.len() == SOCCER_FORMATION_LP_PLAYER_CAPACITY,
        ensures
            final(self).well_formed(),
            final(self).holds_solution(
                *plus,
                *times,
                *over,
                *count,
                *distance,
                *unit,
                *limit,
                *frame,
                weights,
                inputs@,
                *tolerances,
                *solution,
            ),
            *final(self) == (SoccerFormationLpBrain {
                last_guidance: final(self).last_guidance,
                last_snapshot: final(self).last_snapshot,
                ..*old(self)
            }),
    {
        let complete: bool = has_complete_finite_solution(solution);
        let heads: Vec<SlotHead> = take_heads(inputs);
        let motions: Vec<GuidanceMotion> = find_motions(
            frame,
            inputs,
            &self.pair_vars,
            solution,
            plus,
            times,
            over,
            count,
            distance,
            unit,
            limit,
        );
        assert(motions@ =~= Seq::new(
            SOCCER_FORMATION_LP_PLAYER_CAPACITY as nat,
            |s: int|
                motion_of(
                    *plus,
                    *times,
                    *over,
                    *count,
                    *distance,
                    *unit,
                    *limit,
                    *frame,
                    inputs@,
                    self.pair_vars@,
                    *solution,
                    s,
                ),
        ));
        let lined: Vec<GuidanceMotion> = find_lined_motions(
            &heads,
            &motions,
            tolerances,
            plus,
            over,
            count,
        );
        let guidance: Vec<SoccerFormationLpPlayerGuidance> = guide_slots(
            self.team,
            &heads,
            &lined,
            solution,
        );
        let kept: GuidanceMeans = guidance_means(&guidance, plus, over, count);
        let snapshot: SoccerFormationLpTeamSnapshot = SoccerFormationLpTeamSnapshot {
            team: self.team,
            status: captured_status(solution, complete),
            objective: solution.objective.finite_or_zero(),
            variables: VARIABLES,
            constraints: CONSTRAINTS,
            guided_players: guidance.len(),
            iterations: solution.iters,
            elapsed_ms: solver_elapsed_ms(solution),
            mean_pair_error_yards: kept.pair_error_yards,
            mean_role_line_error_yards: kept.role_line_error_yards,
            mean_pressure_error_yards: kept.pressure_error_yards,
            objective_weights: weights,
        };
        self.last_guidance = guidance;
        self.last_snapshot = snapshot;
    }

    /// Takes up what came of a tick's solve: counts it, notes its status, and captures its
    /// solution. `exact` says that the solver was asked, `elapsed_micros` how long it took.
    pub fn finish_tick<
        P: Fn(Real64, Real64) -> Real64,
        M: Fn(Real64, Real64) -> Real64,
        Q: Fn(Real64, Real64) -> Real64,
        C: Fn(usize) -> Real64,
        D: Fn(Vec2, Vec2) -> Real64,
        U: Fn(Vec2) -> Vec2,
        L: Fn(Vec2, Real64) -> Vec2,
    >(
        &mut self,
        exact: bool,
        elapsed_micros: u128,
        budget: &SolveBudget,
        frame: &TickFrame,
        weights: SoccerFormationLpObjectiveWeights,
        inputs: &Vec<SoccerFormationLpSlotInput>,
        tolerances: &LineTolerances,
        solution: &LPSolution,
        plus: &P,
        times: &M,
        over: &Q,
        count: &C,
        distance: &D,
        unit: &U,
        limit: &L,
    )
        requires
            old(self).well_formed(),
            is_operation(*plus),
            is_operation(*times),
            is_operation(*over),
            is_conversion(*count),
            is_distance(*distance),
            is_heading(*unit),
            is_limit(*limit),
            inputs@.len() == SOCCER_FORMATION_LP_PLAYER_CAPACITY,
            old(self).telemetry.adaptive_max_iter + budget.recover_step <= usize::MAX,
        ensures
            final(self).well_formed(),
            final(self).holds_solution(
                *plus,
                *times,
                *over,
                *count,
                *distance,
                *unit,
                *limit,
                *frame,
                weights,
                inputs@,
                *tolerances,
                *solution,
            ),
            final(self).last_solve_status@ == solution.status_text@,
            *final(self) == (SoccerFormationLpBrain {
                last_guidance: final(self).last_guidance,
                last_snapshot: final(self).last_snapshot,
                last_solve_status: final(self).last_solve_status,
                telemetry: old(self).telemetry.after_solve(
                    exact,
                    elapsed_micros,
                    solution.status == LPStatus::Optimal,
                    *budget,
                ),
                ..*old(self)
            }),
    {
        self.telemetry.record_solve(
            exact,
            elapsed_micros,
            solution.status == LPStatus::Optimal,
            budget,
        );
        self.last_solve_status = solution.status_text.clone();
        self.capture_solution(
            frame,
            weights,
            inputs,
            tolerances,
            solution,
            plus,
            times,
            over,
            count,
            distance,
            unit,
            limit,
        );
    }

    /// After a tick on which the program is switched off.
    pub open spec fn disabled_from(self, before: Self) -> bool {
        &&& self.last_guidance@.len() == 0
        &&& self.last_snapshot.status@ == "disabled"@
        &&& self.last_snapshot == (SoccerFormationLpTeamSnapshot {
            status: self.last_snapshot.status,
            objective: zero(),
            guided_players: 0,
            iterations: None,
            elapsed_ms: zero(),
            mean_pair_error_yards: zero(),
            mean_role_line_error_yards: zero(),
            mean_pressure_error_yards: zero(),
            ..before.last_snapshot
        })
        &&& self == (SoccerFormationLpBrain {
            last_guidance: self.last_guidance,
            last_snapshot: self.last_snapshot,
            ..before
        })
    }

    /// A tick on which the program is switched off: no guidance, an empty snapshot.
    pub fn disable_tick(&mut self)
        ensures
            final(self).disabled_from(*old(self)),
    {
        let nothing: Real64 = Real64 { bits: 0 };
        self.last_guidance.clear();
        self.last_snapshot.status = "disabled".to_owned();
        self.last_snapshot.objective = nothing;
        self.last_snapshot.guided_players = 0;
        self.last_snapshot.iterations = None;
        self.last_snapshot.elapsed_ms = nothing;
        self.last_snapshot.mean_pair_error_yards = nothing;
        self.last_snapshot.mean_role_line_error_yards = nothing;
        self.last_snapshot.mean_pressure_error_yards = nothing;
    }

    /// Lays local refinements over the picked guidance and counts them.
    pub fn apply_local_mpc_tick(
        &mut self,
        picks: &Vec<usize>,
        refinements: &Vec<Option<MpcRefinement>>,
    ) -> (solved: usize)
        requires
            picks@.len() == refinements@.len(),
            picks@.no_duplicates(),
            forall|i: int|
                0 <= i < picks@.len() ==> (#[trigger] picks@[i]) < old(self).last_guidance@.len(),
        ensures
            solved == count_refinements(refinements@, refinements@.len() as int),
            final(self).last_guidance@.len() == old(self).last_guidance@.len(),
            forall|i: int|
                #![trigger picks@[i]]
                0 <= i < picks@.len() ==> final(self).last_guidance@[picks@[i] as int] == refined(
                    old(self).last_guidance@[picks@[i] as int],
                    refinements@[i],
                ),
            forall|g: int|
                #![trigger final(self).last_guidance@[g]]
                0 <= g < old(self).last_guidance@.len() && !picks@.contains(g as usize)
                    ==> final(self).last_guidance@[g] == old(self).last_guidance@[g],
            *final(self) == (SoccerFormationLpBrain {
                last_guidance: final(self).last_guidance,
                ..*old(self)
            }),
    {
        let mut solved: usize = 0;
        let mut i: usize = 0;
        while i < picks.len()
            invariant
                i <= picks@.len(),
                solved <= i,
                picks@.len() == refinements@.len(),
                picks@.no_duplicates(),
                forall|k: int|
                    0 <= k < picks@.len() ==> (#[trigger] picks@[k]) < self.last_guidance@.len(),
                solved == count_refinements(refinements@, i as int),
                self.last_guidance@.len() == old(self).last_guidance@.len(),
                forall|k: int|
                    #![trigger picks@[k]]
                    0 <= k < i ==> self.last_guidance@[picks@[k] as int] == refined(
                        old(self).last_guidance@[picks@[k] as int],
                        refinements@[k],
                    ),
                forall|k: int|
                    #![trigger picks@[k]]
                    i <= k < picks@.len() ==> self.last_guidance@[picks@[k] as int] == old(
                        self,
                    ).last_guidance@[picks@[k] as int],
                forall|g: int|
                    #![trigger self.last_guidance@[g]]
                    0 <= g < self.last_guidance@.len() && !picks@.contains(g as usize)
                        ==> self.last_guidance@[g] == old(self).last_guidance@[g],
                *self == (
                    SoccerFormationLpBrain { last_guidance: self.last_guidance, ..*old(self) }
                ),
            decreases picks@.len() - i,
        {
            let at: usize = picks[i];
            if let Some(refinement) = &refinements[i] {
                let motion: GuidanceMotion = self.last_guidance[at].motion.refine(refinement);
                let entry: &mut SoccerFormationLpPlayerGuidance = &mut self.last_guidance[at];
                entry.motion = motion;
                entry.local_mpc_guidance = true;
                solved += 1;
            }
            i += 1;
        }
        solved
    }
}

/// What a tick writes does not depend on earlier ticks: two programs of one team that are told the
/// same tick agree in objective, right-hand sides, state, rows and motion limits.
pub proof fn ticks_leave_no_trace(
    a: SoccerFormationLpBrain,
    b: SoccerFormationLpBrain,
    after_a: SoccerFormationLpBrain,
    after_b: SoccerFormationLpBrain,
    tick: TickInputs,
)
    requires
        a.well_formed(),
        b.well_formed(),
        a.team == b.team,
        after_a.holds_tick(a, tick),
        after_b.holds_tick(b, tick),
    ensures
        after_a.problem.c@ == after_b.problem.c@,
        after_a.problem.b_ub@ == after_b.problem.b_ub@,
        after_a.problem.b_eq@ == after_b.problem.b_eq@,
        forall|r: int, v: int|
            0 <= r < UPPER_ROWS && 0 <= v < VARIABLES ==> #[trigger] after_a.problem.a_ub@[r]@[v]
                == after_b.problem.a_ub@[r]@[v],
        forall|v: int|
            0 <= v < PAIR_VAR_START && 2 <= v % 19 < 6 ==> #[trigger] after_a.problem.lb@[v]
                == after_b.problem.lb@[v] && after_a.problem.ub@[v] == after_b.problem.ub@[v],
{
    assert(a.pair_vars@ =~= b.pair_vars@);
    assert forall|v: int| 0 <= v < VARIABLES implies #[trigger] after_a.problem.c@[v]
        == after_b.problem.c@[v] by {
        assert(after_a.problem.c@[v] == tick_objective(tick, a.pair_vars@, v));
        assert(after_b.problem.c@[v] == tick_objective(tick, b.pair_vars@, v));
    }
    assert(after_a.problem.c@ =~= after_b.problem.c@);
    assert forall|r: int| 0 <= r < UPPER_ROWS implies #[trigger] after_a.problem.b_ub@[r]
        == after_b.problem.b_ub@[r] by {
        assert(after_b.problem.b_ub@[r] == tick_rhs(tick, r));
    }
    assert(after_a.problem.b_ub@ =~= after_b.problem.b_ub@);
    assert(after_a.problem.b_eq@ =~= after_b.problem.b_eq@);
}

/// The guidance with a refinement, if there is one, laid over it.
pub open spec fn refined(
    g: SoccerFormationLpPlayerGuidance,
    refinement: Option<MpcRefinement>,
) -> SoccerFormationLpPlayerGuidance {
    match refinement {
        Some(r) => SoccerFormationLpPlayerGuidance {
            motion: g.motion.refined(r),
            local_mpc_guidance: true,
            ..g
        },
        None => g,
    }
}

/// How many of the first `n` refinements there are.
pub open spec fn count_refinements(refinements: Seq<Option<MpcRefinement>>, n: int) -> int
    decreases n,
{
    if n <= 0 {
        0
    } else {
        count_refinements(refinements, n - 1) + if refinements[n - 1] is Some {
            1int
        } else {
            0
        }
    }
}

} // verus!
