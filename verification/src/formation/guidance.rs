//! What a solved or failed formation program tells each player.
use crate::decimals::D1EM09;
use crate::formation::layout::{zero, CONSTRAINTS, SLOT_VARS, VARIABLES};
use crate::number::{
    add_up, apply, is_conversion, is_operation, larger, larger_of, number_of, outcome, sum_up,
    to_number, Real64, NAN_BITS,
};
use crate::pitch::{PlayerRole, Team, Vec2};
use vstd::prelude::*;
use vstd::string::*;

verus! {

/// How a solve ended.
#[derive(Clone, Copy, Debug, PartialEq, Eq, Structural)]
pub enum LPStatus {
    Optimal,
    IterLimit,
    /// Any other end.
    Unsolved,
}

/// What a solver hands back.
#[derive(Debug)]
pub struct LPSolution {
    pub status: LPStatus,
    /// The solver's own word for the status.
    pub status_text: String,
    pub x: Vec<Real64>,
    pub objective: Real64,
    pub reduced_costs: Option<Vec<Real64>>,
    pub iters: Option<usize>,
    pub solver: String,
    pub elapsed_ms: Real64,
    pub message: Option<String>,
}

/// A solution that stands in for a solve: no point, no objective, no iterations.
pub open spec fn is_stand_in(r: LPSolution, status_text: Seq<char>) -> bool {
    &&& r.status == LPStatus::IterLimit
    &&& r.status_text@ == status_text
    &&& r.x@ == Seq::<Real64>::empty()
    &&& r.objective.nan()
    &&& r.reduced_costs is None
    &&& r.iters == Some(0usize)
    &&& r.solver@ == "formation-lp-budgeted-fallback"@
    &&& r.elapsed_ms.bits == 0
    &&& r.message is Some
    &&& r.message->0@
        == "internal simplex disabled for realtime soccer tick; set SOCCER_FORMATION_LP_INTERNAL_SIMPLEX=1 for exact solve"@
}

/// The stand-in for a solve on a tick whose budget does not allow one. `status_text` is the
/// solver's word for its iteration limit.
pub fn soccer_formation_lp_budgeted_fallback_solution(status_text: String) -> (r: LPSolution)
    ensures
        is_stand_in(r, status_text@),
{
    LPSolution {
        status: LPStatus::IterLimit,
        status_text,
        x: Vec::new(),
        objective: Real64 { bits: NAN_BITS },
        reduced_costs: None,
        iters: Some(0),
        solver: "formation-lp-budgeted-fallback".to_owned(),
        elapsed_ms: Real64 { bits: 0 },
        message: Some(
            "internal simplex disabled for realtime soccer tick; set SOCCER_FORMATION_LP_INTERNAL_SIMPLEX=1 for exact solve".to_owned(),
        ),
    }
}

/// Who stands in a slot of the program.
#[derive(Clone, Copy, Debug, PartialEq, Eq, Structural)]
pub struct SlotHead {
    pub active: bool,
    pub player_id: usize,
    pub role: PlayerRole,
}

/// The motion recommended to a player and how far it is off its marks.
#[derive(Clone, Copy, Debug)]
pub struct GuidanceMotion {
    pub current: Vec2,
    pub target: Vec2,
    pub formation_anchor: Vec2,
    pub pressure_target: Option<Vec2>,
    pub recommended_move: Vec2,
    pub target_velocity: Vec2,
    pub target_acceleration: Vec2,
    pub recommended_move_yards: Real64,
    pub recommended_speed_yps: Real64,
    pub recommended_acceleration_yps2: Real64,
    pub formation_error_yards: Real64,
    pub movement_error_yards: Real64,
    pub pair_error_yards: Real64,
    pub role_line_error_yards: Real64,
    pub pressure_error_yards: Real64,
    pub fore_aft_speed_error_yps: Real64,
    pub pressure_weight: Real64,
    pub speed_match_weight: Real64,
    pub alignment_weight: Real64,
}

/// What a local refinement changes in a recommended motion.
#[derive(Clone, Copy, Debug)]
pub struct MpcRefinement {
    pub target: Vec2,
    pub recommended_move: Vec2,
    pub target_velocity: Vec2,
    pub target_acceleration: Vec2,
    pub recommended_move_yards: Real64,
    pub recommended_speed_yps: Real64,
    pub recommended_acceleration_yps2: Real64,
    pub formation_error_yards: Real64,
    pub movement_error_yards: Real64,
    pub pressure_error_yards: Real64,
    pub fore_aft_speed_error_yps: Real64,
}

impl GuidanceMotion {
    /// The motion with a refinement laid over it.
    pub open spec fn refined(self, r: MpcRefinement) -> GuidanceMotion {
        GuidanceMotion {
            target: r.target,
            recommended_move: r.recommended_move,
            target_velocity: r.target_velocity,
            target_acceleration: r.target_acceleration,
            recommended_move_yards: r.recommended_move_yards,
            recommended_speed_yps: r.recommended_speed_yps,
            recommended_acceleration_yps2: r.recommended_acceleration_yps2,
            formation_error_yards: r.formation_error_yards,
            movement_error_yards: r.movement_error_yards,
            pressure_error_yards: r.pressure_error_yards,
            fore_aft_speed_error_yps: r.fore_aft_speed_error_yps,
            ..self
        }
    }

    pub fn refine(self, r: &MpcRefinement) -> (m: GuidanceMotion)
        ensures
            m == self.refined(*r),
    {
        GuidanceMotion {
            target: r.target,
            recommended_move: r.recommended_move,
            target_velocity: r.target_velocity,
            target_acceleration: r.target_acceleration,
            recommended_move_yards: r.recommended_move_yards,
            recommended_speed_yps: r.recommended_speed_yps,
            recommended_acceleration_yps2: r.recommended_acceleration_yps2,
            formation_error_yards: r.formation_error_yards,
            movement_error_yards: r.movement_error_yards,
            pressure_error_yards: r.pressure_error_yards,
            fore_aft_speed_error_yps: r.fore_aft_speed_error_yps,
            ..self
        }
    }
}

/// What the program tells one player.
#[derive(Debug)]
pub struct SoccerFormationLpPlayerGuidance {
    pub team: Team,
    pub player_id: usize,
    pub slot: usize,
    pub motion: GuidanceMotion,
    pub local_mpc_guidance: bool,
    pub reduced_cost_target_x: Real64,
    pub reduced_cost_target_y: Real64,
    pub solver_status: String,
    pub solver_objective: Real64,
    pub solver_iterations: Option<usize>,
    pub solver_elapsed_ms: Real64,
    pub variable_count: usize,
    pub constraint_count: usize,
}

/// The weights of the program's objective.
#[derive(Clone, Copy, Debug)]
pub struct SoccerFormationLpObjectiveWeights {
    pub expected_goal: Real64,
    pub progression: Real64,
    pub retention: Real64,
    pub expected_goals_against: Real64,
    pub fatigue: Real64,
    pub passing_lane_quality: Real64,
    pub space_occupation: Real64,
    pub numerical_superiority: Real64,
    pub press_resistance: Real64,
    pub defensive_compactness: Real64,
    pub opponent_progression: Real64,
    pub transition_risk: Real64,
    pub adversarial_embedding_attack: Real64,
    pub adversarial_embedding_defense: Real64,
    pub neural_attack: Real64,
    pub neural_defense: Real64,
}

impl SoccerFormationLpObjectiveWeights {
    /// All weights zero.
    pub open spec fn zeros() -> Self {
        SoccerFormationLpObjectiveWeights {
            expected_goal: zero(),
            progression: zero(),
            retention: zero(),
            expected_goals_against: zero(),
            fatigue: zero(),
            passing_lane_quality: zero(),
            space_occupation: zero(),
            numerical_superiority: zero(),
            press_resistance: zero(),
            defensive_compactness: zero(),
            opponent_progression: zero(),
            transition_risk: zero(),
            adversarial_embedding_attack: zero(),
            adversarial_embedding_defense: zero(),
            neural_attack: zero(),
            neural_defense: zero(),
        }
    }
}

impl Default for SoccerFormationLpObjectiveWeights {
    fn default() -> (r: Self)
        ensures
            r == Self::zeros(),
    {
        let z: Real64 = Real64 { bits: 0 };
        SoccerFormationLpObjectiveWeights {
            expected_goal: z,
            progression: z,
            retention: z,
            expected_goals_against: z,
            fatigue: z,
            passing_lane_quality: z,
            space_occupation: z,
            numerical_superiority: z,
            press_resistance: z,
            defensive_compactness: z,
            opponent_progression: z,
            transition_risk: z,
            adversarial_embedding_attack: z,
            adversarial_embedding_defense: z,
            neural_attack: z,
            neural_defense: z,
        }
    }
}

/// Mean errors over the guided players.
#[derive(Clone, Copy, Debug)]
pub struct GuidanceMeans {
    pub pair_error_yards: Real64,
    pub role_line_error_yards: Real64,
    pub pressure_error_yards: Real64,
}

/// The last solve of a team in short.
#[derive(Debug)]
pub struct SoccerFormationLpTeamSnapshot {
    pub team: Team,
    pub status: String,
    pub objective: Real64,
    pub variables: usize,
    pub constraints: usize,
    pub guided_players: usize,
    pub iterations: Option<usize>,
    pub elapsed_ms: Real64,
    pub mean_pair_error_yards: Real64,
    pub mean_role_line_error_yards: Real64,
    pub mean_pressure_error_yards: Real64,
    pub objective_weights: SoccerFormationLpObjectiveWeights,
}

impl SoccerFormationLpTeamSnapshot {
    /// The snapshot of a team whose program was never solved.
    pub open spec fn is_unsolved(self, team: Team, variables: usize, constraints: usize) -> bool {
        &&& self.team == team
        &&& self.status@ == "not-solved"@
        &&& self.objective == zero()
        &&& self.variables == variables
        &&& self.constraints == constraints
        &&& self.guided_players == 0
        &&& self.iterations is None
        &&& self.elapsed_ms == zero()
        &&& self.mean_pair_error_yards == zero()
        &&& self.mean_role_line_error_yards == zero()
        &&& self.mean_pressure_error_yards == zero()
        &&& self.objective_weights == SoccerFormationLpObjectiveWeights::zeros()
    }

    pub fn unsolved(team: Team, variables: usize, constraints: usize) -> (r: Self)
        ensures
            r.is_unsolved(team, variables, constraints),
    {
        let z: Real64 = Real64 { bits: 0 };
        SoccerFormationLpTeamSnapshot {
            team,
            status: "not-solved".to_owned(),
            objective: z,
            variables,
            constraints,
            guided_players: 0,
            iterations: None,
            elapsed_ms: z,
            mean_pair_error_yards: z,
            mean_role_line_error_yards: z,
            mean_pressure_error_yards: z,
            objective_weights: SoccerFormationLpObjectiveWeights::default(),
        }
    }
}

impl Default for SoccerFormationLpTeamSnapshot {
    fn default() -> (r: Self)
        ensures
            r.is_unsolved(Team::Home, 0, 0),
    {
        SoccerFormationLpTeamSnapshot::unsolved(Team::Home, 0, 0)
    }
}

/// The solve was optimal and gives every variable a finite value.
pub open spec fn complete_solution(solution: LPSolution) -> bool {
    &&& solution.status == LPStatus::Optimal
    &&& solution.x@.len() >= VARIABLES
    &&& forall|v: int| 0 <= v < VARIABLES ==> (#[trigger] solution.x@[v]).finite()
}

pub fn has_complete_finite_solution(solution: &LPSolution) -> (b: bool)
    ensures
        b == complete_solution(*solution),
{
    if solution.status != LPStatus::Optimal || solution.x.len() < VARIABLES {
        return false;
    }
    let mut v: usize = 0;
    while v < VARIABLES
        invariant
            v <= VARIABLES,
            VARIABLES <= solution.x@.len(),
            forall|w: int| 0 <= w < v ==> (#[trigger] solution.x@[w]).finite(),
        decreases VARIABLES - v,
    {
        if !solution.x[v].is_finite() {
            return false;
        }
        v += 1;
    }
    true
}

/// The status under which a solution is taken up: the solver's own where the solution is
/// complete, else one that says what the fallback is for.
pub open spec fn capture_status(solution: LPSolution) -> Seq<char> {
    if complete_solution(solution) {
        solution.status_text@
    } else if solution.status == LPStatus::Optimal {
        "fallback-malformed-optimal"@
    } else {
        "fallback-"@ + solution.status_text@
    }
}

pub fn captured_status(solution: &LPSolution, complete: bool) -> (r: String)
    requires
        complete == complete_solution(*solution),
    ensures
        r@ == capture_status(*solution),
{
    if complete {
        solution.status_text.clone()
    } else if solution.status == LPStatus::Optimal {
        "fallback-malformed-optimal".to_owned()
    } else {
        let mut s: String = "fallback-".to_owned();
        s.append(solution.status_text.as_str());
        s
    }
}

/// The reduced cost of a variable, zero where none is known or it is not finite.
pub open spec fn reduced_cost(solution: LPSolution, v: int) -> Real64 {
    match solution.reduced_costs {
        Some(costs) => if v < costs@.len() {
            costs@[v].finite_or_zero_value()
        } else {
            zero()
        },
        None => zero(),
    }
}

pub fn reduced_cost_of(solution: &LPSolution, v: usize) -> (r: Real64)
    ensures
        r == reduced_cost(*solution, v as int),
{
    match &solution.reduced_costs {
        Some(costs) => if v < costs.len() {
            costs[v].finite_or_zero()
        } else {
            Real64 { bits: 0 }
        },
        None => Real64 { bits: 0 },
    }
}

/// The time the solver reports, zero where it is negative or not finite.
pub open spec fn solve_time(solution: LPSolution) -> Real64 {
    if solution.elapsed_ms.finite() && !solution.elapsed_ms.less(zero()) {
        solution.elapsed_ms
    } else {
        zero()
    }
}

pub fn solver_elapsed_ms(solution: &LPSolution) -> (r: Real64)
    ensures
        r == solve_time(*solution),
{
    if solution.elapsed_ms.is_finite() && !solution.elapsed_ms.is_below(Real64 { bits: 0 }) {
        solution.elapsed_ms
    } else {
        Real64 { bits: 0 }
    }
}

/// The occupied slots among the first `n`, in order.
pub open spec fn active_slots(slots: Seq<SlotHead>, n: int) -> Seq<int>
    decreases n,
{
    if n <= 0 {
        Seq::empty()
    } else if slots[n - 1].active {
        active_slots(slots, n - 1).push(n - 1)
    } else {
        active_slots(slots, n - 1)
    }
}

/// The guidance of the player in slot `s`: what the solution says of the slot where it is
/// complete, else the fallback motion with no pair error, no reduced costs and no objective.
pub open spec fn guidance_fits(
    g: SoccerFormationLpPlayerGuidance,
    team: Team,
    slots: Seq<SlotHead>,
    motions: Seq<GuidanceMotion>,
    solution: LPSolution,
    s: int,
) -> bool {
    let complete = complete_solution(solution);
    &&& g.team == team
    &&& g.player_id == slots[s].player_id
    &&& g.slot == s
    &&& g.motion == if complete {
        motions[s]
    } else {
        GuidanceMotion { pair_error_yards: zero(), ..motions[s] }
    }
    &&& !g.local_mpc_guidance
    &&& g.reduced_cost_target_x == if complete {
        reduced_cost(solution, SLOT_VARS * s)
    } else {
        zero()
    }
    &&& g.reduced_cost_target_y == if complete {
        reduced_cost(solution, SLOT_VARS * s + 1)
    } else {
        zero()
    }
    &&& g.solver_status@ == capture_status(solution)
    &&& g.solver_objective == if complete {
        solution.objective.finite_or_zero_value()
    } else {
        zero()
    }
    &&& g.solver_iterations == solution.iters
    &&& g.solver_elapsed_ms == solve_time(solution)
    &&& g.variable_count == VARIABLES
    &&& g.constraint_count == CONSTRAINTS
}

/// The guidance of every occupied slot, in slot order.
pub open spec fn guidance_covers(
    guidance: Seq<SoccerFormationLpPlayerGuidance>,
    team: Team,
    slots: Seq<SlotHead>,
    motions: Seq<GuidanceMotion>,
    solution: LPSolution,
    n: int,
) -> bool {
    &&& guidance.len() == active_slots(slots, n).len()
    &&& forall|i: int|
        0 <= i < guidance.len() ==> guidance_fits(
            #[trigger] guidance[i],
            team,
            slots,
            motions,
            solution,
            active_slots(slots, n)[i],
        )
}

/// Builds the guidance of every occupied slot.
pub fn guide_slots(
    team: Team,
    slots: &Vec<SlotHead>,
    motions: &Vec<GuidanceMotion>,
    solution: &LPSolution,
) -> (guidance: Vec<SoccerFormationLpPlayerGuidance>)
    requires
        slots@.len() == motions@.len(),
        slots@.len() <= 11,
    ensures
        guidance_covers(
            guidance@,
            team,
            slots@,
            motions@,
            *solution,
            slots@.len() as int,
        ),
{
    let complete: bool = has_complete_finite_solution(solution);
    let elapsed_ms: Real64 = solver_elapsed_ms(solution);
    let nothing: Real64 = Real64 { bits: 0 };
    let mut guidance: Vec<SoccerFormationLpPlayerGuidance> = Vec::new();
    let mut s: usize = 0;
    while s < slots.len()
        invariant
            s <= slots@.len(),
            slots@.len() == motions@.len(),
            slots@.len() <= 11,
            complete == complete_solution(*solution),
            elapsed_ms == solve_time(*solution),
            nothing == zero(),
            guidance_covers(guidance@, team, slots@, motions@, *solution, s as int),
        decreases slots@.len() - s,
    {
        let head: SlotHead = slots[s];
        let ghost before = guidance@;
        if head.active {
            let motion: GuidanceMotion = if complete {
                motions[s]
            } else {
                GuidanceMotion { pair_error_yards: nothing, ..motions[s] }
            };
            let status: String = captured_status(solution, complete);
            guidance.push(
                SoccerFormationLpPlayerGuidance {
                    team,
                    player_id: head.player_id,
                    slot: s,
                    motion,
                    local_mpc_guidance: false,
                    reduced_cost_target_x: if complete {
                        reduced_cost_of(solution, 19 * s)
                    } else {
                        nothing
                    },
                    reduced_cost_target_y: if complete {
                        reduced_cost_of(solution, 19 * s + 1)
                    } else {
                        nothing
                    },
                    solver_status: status,
                    solver_objective: if complete {
                        solution.objective.finite_or_zero()
                    } else {
                        nothing
                    },
                    solver_iterations: solution.iters,
                    solver_elapsed_ms: elapsed_ms,
                    variable_count: VARIABLES,
                    constraint_count: CONSTRAINTS,
                },
            );
            proof {
                assert forall|i: int| 0 <= i < guidance@.len() implies guidance_fits(
                    #[trigger] guidance@[i],
                    team,
                    slots@,
                    motions@,
                    *solution,
                    active_slots(slots@, s + 1)[i],
                ) by {
                    if i < before.len() {
                        assert(guidance@[i] == before[i]);
                    }
                }
            }
        }
        s += 1;
    }
    guidance
}

/// The mean of some numbers, zero for none.
pub open spec fn mean_or_zero<
    P: Fn(Real64, Real64) -> Real64,
    Q: Fn(Real64, Real64) -> Real64,
    C: Fn(usize) -> Real64,
>(plus: P, over: Q, count: C, s: Seq<Real64>) -> Real64 {
    if s.len() > 0 {
        outcome(over, sum_up(plus, s, s.len() as int), number_of(count, s.len() as usize))
    } else {
        zero()
    }
}

fn take_mean<
    P: Fn(Real64, Real64) -> Real64,
    Q: Fn(Real64, Real64) -> Real64,
    C: Fn(usize) -> Real64,
>(s: &Vec<Real64>, plus: &P, over: &Q, count: &C) -> (r: Real64)
    requires
        is_operation(*plus),
        is_operation(*over),
        is_conversion(*count),
    ensures
        r == mean_or_zero(*plus, *over, *count, s@),
{
    if s.len() > 0 {
        apply(over, add_up(s, plus), to_number(count, s.len()))
    } else {
        Real64 { bits: 0 }
    }
}

/// The pair errors of the first `n` guided players.
pub open spec fn pair_errors_of(
    guidance: Seq<SoccerFormationLpPlayerGuidance>,
    n: int,
) -> Seq<Real64> {
    Seq::new(n as nat, |i: int| guidance[i].motion.pair_error_yards)
}

/// The finite line errors of the first `n` guided players, none of them negative.
pub open spec fn line_errors_of(
    guidance: Seq<SoccerFormationLpPlayerGuidance>,
    n: int,
) -> Seq<Real64>
    decreases n,
{
    if n <= 0 {
        Seq::empty()
    } else {
        let before = line_errors_of(guidance, n - 1);
        let error = guidance[n - 1].motion.role_line_error_yards;
        if error.finite() {
            before.push(larger(error, zero()))
        } else {
            before
        }
    }
}

/// The pressure errors of those of the first `n` guided players who press.
pub open spec fn pressure_errors_of(
    guidance: Seq<SoccerFormationLpPlayerGuidance>,
    n: int,
) -> Seq<Real64>
    decreases n,
{
    if n <= 0 {
        Seq::empty()
    } else {
        let before = pressure_errors_of(guidance, n - 1);
        if (Real64 { bits: D1EM09 }).less(guidance[n - 1].motion.pressure_weight) {
            before.push(guidance[n - 1].motion.pressure_error_yards)
        } else {
            before
        }
    }
}

/// The mean errors of a guidance.
pub open spec fn means_of<
    P: Fn(Real64, Real64) -> Real64,
    Q: Fn(Real64, Real64) -> Real64,
    C: Fn(usize) -> Real64,
>(
    plus: P,
    over: Q,
    count: C,
    guidance: Seq<SoccerFormationLpPlayerGuidance>,
) -> GuidanceMeans {
    let n = guidance.len() as int;
    GuidanceMeans {
        pair_error_yards: mean_or_zero(plus, over, count, pair_errors_of(guidance, n)),
        role_line_error_yards: mean_or_zero(plus, over, count, line_errors_of(guidance, n)),
        pressure_error_yards: mean_or_zero(plus, over, count, pressure_errors_of(guidance, n)),
    }
}

/// Works out the mean errors of a guidance.
pub fn guidance_means<
    P: Fn(Real64, Real64) -> Real64,
    Q: Fn(Real64, Real64) -> Real64,
    C: Fn(usize) -> Real64,
>(
    guidance: &Vec<SoccerFormationLpPlayerGuidance>,
    plus: &P,
    over: &Q,
    count: &C,
) -> (r: GuidanceMeans)
    requires
        is_operation(*plus),
        is_operation(*over),
        is_conversion(*count),
    ensures
        r == means_of(*plus, *over, *count, guidance@),
{
    let nothing: Real64 = Real64 { bits: 0 };
    let edge: Real64 = Real64 { bits: D1EM09 };
    let mut pairs: Vec<Real64> = Vec::new();
    let mut lines: Vec<Real64> = Vec::new();
    let mut presses: Vec<Real64> = Vec::new();
    let mut i: usize = 0;
    while i < guidance.len()
        invariant
            i <= guidance@.len(),
            nothing == zero(),
            edge == (Real64 { bits: D1EM09 }),
            pairs@ == pair_errors_of(guidance@, i as int),
            lines@ == line_errors_of(guidance@, i as int),
            presses@ == pressure_errors_of(guidance@, i as int),
        decreases guidance@.len() - i,
    {
        let motion: GuidanceMotion = guidance[i].motion;
        pairs.push(motion.pair_error_yards);
        if motion.role_line_error_yards.is_finite() {
            lines.push(larger_of(motion.role_line_error_yards, nothing));
        }
        if edge.is_below(motion.pressure_weight) {
            presses.push(motion.pressure_error_yards);
        }
        i += 1;
        assert(pairs@ =~= pair_errors_of(guidance@, i as int));
    }
    GuidanceMeans {
        pair_error_yards: take_mean(&pairs, plus, over, count),
        role_line_error_yards: take_mean(&lines, plus, over, count),
        pressure_error_yards: take_mean(&presses, plus, over, count),
    }
}

} // verus!
