//! Policies that hand a program to a solver and make a schedule of what comes back.
//!
//! The solvers are handed in; every reply of theirs is looked at before it is used.
use crate::decimals::{D0, D0_5, D30000};
use crate::number::{apply, at_bits, is_conversion, is_operation, num, outcome, Real64};
use crate::rotation::decode::{
    is_decoded, lawful, lists_countable, schedule_from_soccer_ipmip_vector,
    soccer_lp_solution_is_roundable, undecodable,
};
use crate::rotation::feasible::{
    fieldable_players, is_built, is_stuck, policy_greedy_feasible_schedule, usual,
};
use crate::rotation::mdp::{is_exact_plan, policy_mdp_vi, MdpScheduleResult};
use crate::rotation::model::{
    build_soccer_ipmip, build_soccer_lp, models, relaxes, rules_in_range, LPProblem,
    SoccerIPMIPModel,
};
use crate::rotation::policy::{
    is_filled_schedule, is_solver, rates_all, round_relaxation, AssignmentResult,
};
use crate::rotation::problem::{has_planner_only_constraints, planner_only, Schedule, SoccerProblem};
use crate::rotation::rows::{countable, field_columns};
use crate::text::{characters, trim, trimmed};
use vstd::prelude::*;
use vstd::string::*;

verus! {

/// How far below the limit on nodes the limit on ticks never falls.
pub const LEAST_TICKS: usize = 100;

/// Ticks that a node may take.
pub const TICKS_PER_NODE: usize = 8;

/// A solver of relaxations.
#[derive(Clone, Copy, Debug, PartialEq, Eq, Structural)]
pub enum ConcreteLpRelaxationAlgorithm {
    InternalSimplex,
    ExternalHighs,
    ExternalHighsDs,
    ExternalHighsIpm,
}

/// How relaxations are solved: by a given solver, or by whichever the search prefers.
#[derive(Clone, Copy, Debug, PartialEq, Eq, Structural)]
pub enum LpRelaxationAlgorithm {
    Preferred,
    Concrete(ConcreteLpRelaxationAlgorithm),
}

/// The relaxations go to a solver outside the process.
pub open spec fn is_external(algorithm: LpRelaxationAlgorithm) -> bool {
    match algorithm {
        LpRelaxationAlgorithm::Preferred => false,
        LpRelaxationAlgorithm::Concrete(c) => c != ConcreteLpRelaxationAlgorithm::InternalSimplex,
    }
}

pub fn soccer_lp_algorithm_uses_external(algorithm: LpRelaxationAlgorithm) -> (r: bool)
    ensures
        r == is_external(algorithm),
{
    match algorithm {
        LpRelaxationAlgorithm::Concrete(ConcreteLpRelaxationAlgorithm::ExternalHighs) => true,
        LpRelaxationAlgorithm::Concrete(ConcreteLpRelaxationAlgorithm::ExternalHighsDs) => true,
        LpRelaxationAlgorithm::Concrete(ConcreteLpRelaxationAlgorithm::ExternalHighsIpm) => true,
        _ => false,
    }
}

/// Which open node the search takes up next.
#[derive(Clone, Copy, Debug, PartialEq, Eq, Structural)]
pub enum NodeSelection {
    BestBound,
    /// Another order that the search knows, by its number.
    Other(u8),
}

/// Which variable the search branches on.
#[derive(Clone, Copy, Debug, PartialEq, Eq, Structural)]
pub enum BranchRule {
    MostFractional,
    /// Another rule that the search knows, by its number.
    Other(u8),
}

/// What a caller asks of the exact policy.
#[derive(Clone, Copy, Debug, PartialEq, Eq, Structural)]
pub struct SoccerIPMIPPolicyOptions {
    pub time_limit_ms: Option<Real64>,
    pub max_nodes: Option<usize>,
    pub max_ticks: Option<usize>,
    pub lp_max_iters: Option<usize>,
    pub lp_algorithm: Option<LpRelaxationAlgorithm>,
    pub allow_external_solvers: Option<bool>,
    pub max_cut_rounds: Option<usize>,
    pub node_selection: Option<NodeSelection>,
    pub branch_rule: Option<BranchRule>,
    pub heuristic_passes: Option<usize>,
    /// Whether another policy steps in where the search finds nothing; by default one does.
    pub fallback_to_mdp: Option<bool>,
}

impl Default for SoccerIPMIPPolicyOptions {
    fn default() -> (r: Self)
        ensures
            r.time_limit_ms is None,
            r.max_nodes is None,
            r.max_ticks is None,
            r.lp_max_iters is None,
            r.lp_algorithm is None,
            r.allow_external_solvers is None,
            r.max_cut_rounds is None,
            r.node_selection is None,
            r.branch_rule is None,
            r.heuristic_passes is None,
            r.fallback_to_mdp is None,
    {
        SoccerIPMIPPolicyOptions {
            time_limit_ms: None,
            max_nodes: None,
            max_ticks: None,
            lp_max_iters: None,
            lp_algorithm: None,
            allow_external_solvers: None,
            max_cut_rounds: None,
            node_selection: None,
            branch_rule: None,
            heuristic_passes: None,
            fallback_to_mdp: None,
        }
    }
}

/// What the search is told.
#[derive(Clone, Copy, Debug, PartialEq, Eq, Structural)]
pub struct IPMIPSolveOptions {
    pub time_limit_ms: Real64,
    pub max_nodes: usize,
    pub max_ticks: usize,
    pub lp_max_iters: usize,
    pub lp_algorithm: LpRelaxationAlgorithm,
    pub allow_external_solvers: bool,
    pub max_cut_rounds: usize,
    pub node_selection: NodeSelection,
    pub branch_rule: BranchRule,
    pub heuristic_passes: usize,
}

pub open spec fn given_or<T>(value: Option<T>, default: T) -> T {
    match value {
        Some(v) => v,
        None => default,
    }
}

/// The ticks for so many nodes.
pub open spec fn ticks_for(nodes: int) -> int {
    if nodes * TICKS_PER_NODE > LEAST_TICKS {
        nodes * TICKS_PER_NODE
    } else {
        LEAST_TICKS as int
    }
}

/// What the search is told, with a default for everything that the caller leaves open.
pub open spec fn resolved(opts: SoccerIPMIPPolicyOptions) -> IPMIPSolveOptions {
    let nodes = given_or(opts.max_nodes, 5000);
    let algorithm = given_or(
        opts.lp_algorithm,
        LpRelaxationAlgorithm::Concrete(ConcreteLpRelaxationAlgorithm::InternalSimplex),
    );
    IPMIPSolveOptions {
        time_limit_ms: given_or(opts.time_limit_ms, num(D30000)),
        max_nodes: nodes,
        max_ticks: given_or(opts.max_ticks, ticks_for(nodes as int) as usize),
        lp_max_iters: given_or(opts.lp_max_iters, 6000),
        lp_algorithm: algorithm,
        allow_external_solvers: given_or(opts.allow_external_solvers, is_external(algorithm)),
        max_cut_rounds: given_or(opts.max_cut_rounds, 0),
        node_selection: given_or(opts.node_selection, NodeSelection::BestBound),
        branch_rule: given_or(opts.branch_rule, BranchRule::MostFractional),
        heuristic_passes: given_or(opts.heuristic_passes, 120),
    }
}

fn count_or(value: Option<usize>, default: usize) -> (r: usize)
    ensures
        r == given_or(value, default),
{
    match value {
        Some(v) => v,
        None => default,
    }
}

/// Fills in what the caller leaves open.
pub fn resolve_options(opts: &SoccerIPMIPPolicyOptions) -> (r: IPMIPSolveOptions)
    requires
        opts.max_ticks is None ==> given_or(opts.max_nodes, 5000) * TICKS_PER_NODE <= usize::MAX,
    ensures
        r == resolved(*opts),
{
    let nodes: usize = count_or(opts.max_nodes, 5000);
    let algorithm: LpRelaxationAlgorithm = match opts.lp_algorithm {
        Some(a) => a,
        None => LpRelaxationAlgorithm::Concrete(ConcreteLpRelaxationAlgorithm::InternalSimplex),
    };
    let max_ticks: usize = match opts.max_ticks {
        Some(t) => t,
        None => {
            let ticks: usize = nodes * TICKS_PER_NODE;
            if ticks > LEAST_TICKS {
                ticks
            } else {
                LEAST_TICKS
            }
        },
    };
    IPMIPSolveOptions {
        time_limit_ms: match opts.time_limit_ms {
            Some(limit) => limit,
            None => at_bits(D30000),
        },
        max_nodes: nodes,
        max_ticks,
        lp_max_iters: count_or(opts.lp_max_iters, 6000),
        lp_algorithm: algorithm,
        allow_external_solvers: match opts.allow_external_solvers {
            Some(allow) => allow,
            None => soccer_lp_algorithm_uses_external(algorithm),
        },
        max_cut_rounds: count_or(opts.max_cut_rounds, 0),
        node_selection: match opts.node_selection {
            Some(selection) => selection,
            None => NodeSelection::BestBound,
        },
        branch_rule: match opts.branch_rule {
            Some(rule) => rule,
            None => BranchRule::MostFractional,
        },
        heuristic_passes: count_or(opts.heuristic_passes, 120),
    }
}

/// What a search found.
#[derive(Debug)]
pub struct IPMIPSolution {
    /// The name of its status.
    pub status: String,
    /// It was called off by the user.
    pub cancelled: bool,
    pub x: Vec<Real64>,
}

/// A schedule with where it came from.
#[derive(Debug)]
pub struct SoccerIPMIPPolicyResult {
    pub schedule: Schedule,
    pub model: SoccerIPMIPModel,
    pub mip: IPMIPSolution,
    pub solver_options: IPMIPSolveOptions,
    pub used_fallback: bool,
    pub fallback_reason: Option<String>,
}

/// Why there is no schedule.
#[derive(Debug)]
pub enum PlanFailure {
    /// The user called the search off before it had a schedule.
    Cancelled,
    /// The search found none, and no other policy may step in.
    NothingFound { status: String },
    /// The search found none, and building one within all rules failed.
    NothingBuilt { status: String },
    /// The search found none, and benching nobody twice in a row is impossible.
    NothingFair { status: String },
}

/// Why a schedule was built.
pub open spec fn built_reason(status: Seq<char>) -> Seq<char> {
    "IP/MIP status="@ + status
        + " had no feasible incumbent; used constructive planner fallback because active constraints are not representable by the exact MDP fallback"@
}

/// Why the exact plan was used.
pub open spec fn exact_reason(status: Seq<char>) -> Seq<char> {
    "IP/MIP status="@ + status
        + " had no feasible incumbent; used exact MDP schedule for continuity"@
}

fn reason(status: &String, rest: &str) -> (r: String)
    ensures
        r@ == "IP/MIP status="@ + status@ + rest@,
{
    let mut s: String = "IP/MIP status=".to_owned();
    s.append(status.as_str());
    s.append(rest);
    s
}

/// The schedule has the rows of the plan.
pub open spec fn has_rows(schedule: Schedule, plan: MdpScheduleResult) -> bool {
    &&& schedule.assignment@.len() == plan.assignment@.len()
    &&& schedule.bench@.len() == plan.bench@.len()
    &&& forall|t: int|
        0 <= t < schedule.assignment@.len() ==> (#[trigger] schedule.assignment@[t])@
            == plan.assignment@[t]@
    &&& forall|t: int|
        0 <= t < schedule.bench@.len() ==> (#[trigger] schedule.bench@[t])@ == plan.bench@[t]@
}

/// No schedule can be built within all rules: too few players, or a period that cannot be filled,
/// or a result that breaks a rule.
pub open spec fn building_fails<F: Fn(&Vec<Vec<Real64>>) -> AssignmentResult>(
    problem: SoccerProblem,
    solve: F,
    rate: spec_fn(Real64, bool, usize) -> Real64,
) -> bool {
    ||| fieldable_players(problem, problem.num_players as int) < problem.num_positions
    ||| exists|s: Schedule, t: int| #[trigger]
        is_built(problem, solve, rate, s, t) && 0 <= t <= problem.num_periods && if t
            == problem.num_periods {
            !lawful(problem, s)
        } else {
            is_stuck(problem, solve, rate, s, t)
        }
}

/// The policy's result fits the search's reply: its schedule where it holds a lawful one; else a
/// built one where rules are active that the exact plan knows nothing of; else the exact plan.
pub open spec fn is_planned<
    F: Fn(&Vec<Vec<Real64>>) -> AssignmentResult,
    A: Fn(Real64, Real64) -> Real64,
>(
    problem: SoccerProblem,
    opts: SoccerIPMIPPolicyOptions,
    solve: F,
    rate: spec_fn(Real64, bool, usize) -> Real64,
    plus: A,
    r: SoccerIPMIPPolicyResult,
) -> bool {
    if !r.used_fallback {
        &&& r.fallback_reason is None
        &&& is_decoded(problem, r.model, r.mip.x@, num(D0_5), r.schedule)
        &&& lawful(problem, r.schedule)
    } else {
        &&& undecodable(problem, r.model, r.mip.x@, num(D0_5))
        &&& !r.mip.cancelled
        &&& opts.fallback_to_mdp != Some(false)
        &&& r.fallback_reason is Some
        &&& if planner_only(problem) {
            &&& r.fallback_reason->0@ == built_reason(r.mip.status@)
            &&& lawful(problem, r.schedule)
            &&& is_built(problem, solve, rate, r.schedule, problem.num_periods as int)
        } else {
            &&& r.fallback_reason->0@ == exact_reason(r.mip.status@)
            &&& exists|plan: MdpScheduleResult| #[trigger]
                is_exact_plan(problem, solve, plus, Some(plan)) && has_rows(r.schedule, plan)
        }
    }
}

/// The failure fits the search's reply.
pub open spec fn is_failed<
    F: Fn(&Vec<Vec<Real64>>) -> AssignmentResult,
    A: Fn(Real64, Real64) -> Real64,
>(
    problem: SoccerProblem,
    opts: SoccerIPMIPPolicyOptions,
    solve: F,
    rate: spec_fn(Real64, bool, usize) -> Real64,
    plus: A,
    model: SoccerIPMIPModel,
    mip: IPMIPSolution,
    failure: PlanFailure,
) -> bool {
    &&& undecodable(problem, model, mip.x@, num(D0_5))
    &&& match failure {
        PlanFailure::Cancelled => mip.cancelled,
        PlanFailure::NothingFound { status } => !mip.cancelled && opts.fallback_to_mdp == Some(
            false,
        ) && status == mip.status,
        PlanFailure::NothingBuilt { status } => !mip.cancelled && opts.fallback_to_mdp != Some(
            false,
        ) && planner_only(problem) && status == mip.status && building_fails(problem, solve, rate),
        PlanFailure::NothingFair { status } => !mip.cancelled && opts.fallback_to_mdp != Some(
            false,
        ) && !planner_only(problem) && status == mip.status && is_exact_plan(
            problem,
            solve,
            plus,
            None,
        ),
    }
}

/// Makes a schedule of what a search found.
pub fn plan_from_solution<
    F: Fn(&Vec<Vec<Real64>>) -> AssignmentResult,
    A: Fn(Real64, Real64) -> Real64,
    M: Fn(Real64, Real64) -> Real64,
    C: Fn(usize) -> Real64,
>(
    problem: &SoccerProblem,
    opts: &SoccerIPMIPPolicyOptions,
    model: SoccerIPMIPModel,
    solver_options: IPMIPSolveOptions,
    mip: IPMIPSolution,
    solve: F,
    plus: &A,
    times: &M,
    count: &C,
) -> (r: Result<SoccerIPMIPPolicyResult, PlanFailure>)
    requires
        problem.has_affinities(),
        lists_countable(*problem),
        model.num_positions == problem.num_positions,
        model.num_periods == problem.num_periods,
        problem.num_players * problem.num_positions <= usize::MAX,
        problem.num_players * problem.num_positions * problem.num_periods <= model.ip.c@.len(),
        problem.num_players <= i64::MAX,
        is_solver(solve),
        is_operation(*plus),
        is_operation(*times),
        is_conversion(*count),
    ensures
        r matches Ok(plan) ==> plan.model == model && plan.mip == mip && plan.solver_options
            == solver_options && is_planned(
                *problem,
                *opts,
                solve,
                usual(*plus, *times, *count),
                *plus,
                plan,
            ),
        r matches Err(failure) ==> is_failed(
            *problem,
            *opts,
            solve,
            usual(*plus, *times, *count),
            *plus,
            model,
            mip,
            failure,
        ),
{
    match schedule_from_soccer_ipmip_vector(problem, &model, &mip.x, at_bits(D0_5)) {
        Some(schedule) => {
            return Ok(
                SoccerIPMIPPolicyResult {
                    schedule,
                    model,
                    mip,
                    solver_options,
                    used_fallback: false,
                    fallback_reason: None,
                },
            );
        },
        None => {},
    }
    if mip.cancelled {
        return Err(PlanFailure::Cancelled);
    }
    if let Some(false) = opts.fallback_to_mdp {
        return Err(PlanFailure::NothingFound { status: mip.status });
    }
    if has_planner_only_constraints(problem) {
        match policy_greedy_feasible_schedule(problem, solve, plus, times, count) {
            Some(schedule) => {
                let why: String = reason(
                    &mip.status,
                    " had no feasible incumbent; used constructive planner fallback because active constraints are not representable by the exact MDP fallback",
                );
                Ok(
                    SoccerIPMIPPolicyResult {
                        schedule,
                        model,
                        mip,
                        solver_options,
                        used_fallback: true,
                        fallback_reason: Some(why),
                    },
                )
            },
            None => Err(PlanFailure::NothingBuilt { status: mip.status }),
        }
    } else {
        match policy_mdp_vi(problem, &solve, plus) {
            Some(plan) => {
                let schedule: Schedule = plan.to_schedule();
                assert(is_exact_plan(*problem, solve, *plus, Some(plan)));
                assert(has_rows(schedule, plan));
                let why: String = reason(
                    &mip.status,
                    " had no feasible incumbent; used exact MDP schedule for continuity",
                );
                Ok(
                    SoccerIPMIPPolicyResult {
                        schedule,
                        model,
                        mip,
                        solver_options,
                        used_fallback: true,
                        fallback_reason: Some(why),
                    },
                )
            },
            None => Err(PlanFailure::NothingFair { status: mip.status }),
        }
    }
}

/// The model was handed to the search with these options, and this came back.
pub open spec fn is_searched<
    S: Fn(&SoccerIPMIPModel, &IPMIPSolveOptions) -> IPMIPSolution,
    A: Fn(Real64, Real64) -> Real64,
>(
    problem: SoccerProblem,
    plus: A,
    opts: SoccerIPMIPPolicyOptions,
    search: S,
    model: SoccerIPMIPModel,
    mip: IPMIPSolution,
) -> bool {
    &&& models(problem, plus, model)
    &&& call_ensures(search, (&model, &resolved(opts)), mip)
}

/// Builds the exact program, has it searched, and makes a schedule of what comes back.
pub fn policy_ipmip_feasible<
    S: Fn(&SoccerIPMIPModel, &IPMIPSolveOptions) -> IPMIPSolution,
    F: Fn(&Vec<Vec<Real64>>) -> AssignmentResult,
    A: Fn(Real64, Real64) -> Real64,
    M: Fn(Real64, Real64) -> Real64,
    C: Fn(usize) -> Real64,
>(
    problem: &SoccerProblem,
    opts: &SoccerIPMIPPolicyOptions,
    search: S,
    solve: F,
    plus: &A,
    times: &M,
    count: &C,
) -> (r: Result<SoccerIPMIPPolicyResult, PlanFailure>)
    requires
        problem.has_affinities(),
        countable(*problem),
        lists_countable(*problem),
        rules_in_range(*problem),
        problem.num_players <= i64::MAX,
        opts.max_ticks is None ==> given_or(opts.max_nodes, 5000) * TICKS_PER_NODE <= usize::MAX,
        forall|m: &SoccerIPMIPModel, o: &IPMIPSolveOptions| #[trigger]
            call_requires(search, (m, o)),
        is_solver(solve),
        is_operation(*plus),
        is_operation(*times),
        is_conversion(*count),
    ensures
        r matches Ok(plan) ==> {
            &&& is_searched(*problem, *plus, *opts, search, plan.model, plan.mip)
            &&& plan.solver_options == resolved(*opts)
            &&& is_planned(
                *problem,
                *opts,
                solve,
                usual(*plus, *times, *count),
                *plus,
                plan,
            )
        },
        r matches Err(failure) ==> exists|model: SoccerIPMIPModel, mip: IPMIPSolution| #[trigger]
            is_searched(*problem, *plus, *opts, search, model, mip) && is_failed(
                *problem,
                *opts,
                solve,
                usual(*plus, *times, *count),
                *plus,
                model,
                mip,
                failure,
            ),
{
    let model: SoccerIPMIPModel = build_soccer_ipmip(problem, plus);
    let solver_options: IPMIPSolveOptions = resolve_options(opts);
    let mip: IPMIPSolution = search(&model, &solver_options);
    assert(is_searched(*problem, *plus, *opts, search, model, mip));
    plan_from_solution(
        problem,
        opts,
        model,
        solver_options,
        mip,
        solve,
        plus,
        times,
        count,
    )
}

/// What a solver of linear programs found.
#[derive(Debug)]
pub struct LPSolution {
    /// The name of its status.
    pub status: String,
    pub optimal: bool,
    pub x: Vec<Real64>,
    pub objective: Real64,
    pub message: Option<String>,
    pub solver: String,
    pub iters: Option<usize>,
}

/// The message of the second solver: its own, then why the first was not enough.
pub open spec fn fallback_note(
    own: Option<String>,
    solver: Seq<char>,
    first: Option<String>,
    first_status: Seq<char>,
) -> Seq<char> {
    let front = match own {
        Some(text) => text@ + "; "@,
        None => ""@,
    };
    let why = match first {
        Some(text) => text@,
        None => first_status,
    };
    front + "highs-ds fast path unavailable, fell back to "@ + solver + ": "@ + why
}

/// Whether the variable that names a solver is set to more than white space.
pub open spec fn names_solver(named: Option<&str>) -> bool {
    named matches Some(name) && trimmed(name@).len() > 0
}

/// The reply is the second solver's own, but for its message.
pub open spec fn is_second_reply(first: LPSolution, second: LPSolution, r: LPSolution) -> bool {
    &&& r.status == second.status
    &&& r.optimal == second.optimal
    &&& r.x == second.x
    &&& r.objective == second.objective
    &&& r.solver == second.solver
    &&& r.iters == second.iters
    &&& r.message is Some
    &&& r.message->0@ == fallback_note(second.message, second.solver@, first.message, first.status@)
}

/// The reply to a program: the named solver's where one is named; else the fast one's where it is
/// optimal; else the other one's with a note.
pub open spec fn is_reply<S: Fn(&LPProblem) -> LPSolution, Q: Fn(&LPProblem) -> LPSolution>(
    lp: LPProblem,
    named: Option<&str>,
    solve: S,
    fast: Q,
    r: LPSolution,
) -> bool {
    if names_solver(named) {
        call_ensures(solve, (&lp,), r)
    } else {
        ||| r.optimal && call_ensures(fast, (&lp,), r)
        ||| exists|first: LPSolution, second: LPSolution| #[trigger]
            is_second_reply(first, second, r) && !first.optimal && call_ensures(fast, (&lp,), first)
                && call_ensures(solve, (&lp,), second)
    }
}

/// Has a program solved.
pub fn solve_soccer_rotation_lp<
    S: Fn(&LPProblem) -> LPSolution,
    Q: Fn(&LPProblem) -> LPSolution,
>(lp: &LPProblem, named: Option<&str>, solve: &S, fast: &Q) -> (r: LPSolution)
    requires
        forall|p: &LPProblem| #[trigger] call_requires(*solve, (p,)),
        forall|p: &LPProblem| #[trigger] call_requires(*fast, (p,)),
    ensures
        is_reply(*lp, named, *solve, *fast, r),
{
    if let Some(name) = named {
        if trim(&characters(name)).len() > 0 {
            return solve(lp);
        }
    }
    let first: LPSolution = fast(lp);
    if first.optimal {
        return first;
    }
    let second: LPSolution = solve(lp);
    let mut note: String = "".to_owned();
    match &second.message {
        Some(text) => {
            note.append(text.as_str());
            note.append("; ");
            assert(note@ =~= text@ + "; "@) by {
                reveal_strlit("");
            }
        },
        None => {},
    }
    note.append("highs-ds fast path unavailable, fell back to ");
    note.append(second.solver.as_str());
    note.append(": ");
    match &first.message {
        Some(text) => {
            note.append(text.as_str());
        },
        None => {
            note.append(first.status.as_str());
        },
    }
    let r: LPSolution = LPSolution {
        status: second.status,
        optimal: second.optimal,
        x: second.x,
        objective: second.objective,
        message: Some(note),
        solver: second.solver,
        iters: second.iters,
    };
    assert(is_second_reply(first, second, r));
    r
}

/// A player's share of a period: the sum over the first `n` positions.
pub open spec fn share_of<A: Fn(Real64, Real64) -> Real64>(
    plus: A,
    problem: SoccerProblem,
    x: Seq<Real64>,
    player: int,
    period: int,
    n: int,
) -> Real64
    decreases n,
{
    if n <= 0 {
        num(D0)
    } else {
        outcome(
            plus,
            share_of(plus, problem, x, player, period, n - 1),
            x[(player * problem.num_positions + (n - 1)) * problem.num_periods + period],
        )
    }
}

/// The shares of all players in all periods.
pub open spec fn are_shares<A: Fn(Real64, Real64) -> Real64>(
    plus: A,
    problem: SoccerProblem,
    x: Seq<Real64>,
    shares: Seq<Vec<Real64>>,
) -> bool {
    &&& rates_all(problem, shares)
    &&& forall|t: int, p: int|
        0 <= t < problem.num_periods && 0 <= p < problem.num_players ==> #[trigger] shares[t]@[p]
            == share_of(plus, problem, x, p, t, problem.num_positions as int)
}

proof fn column_in_range(problem: SoccerProblem, p: int, pos: int, t: int)
    requires
        0 <= p < problem.num_players,
        0 <= pos < problem.num_positions,
        0 <= t < problem.num_periods,
    ensures
        0 <= p * problem.num_positions + pos < problem.num_players * problem.num_positions,
        0 <= (p * problem.num_positions + pos) * problem.num_periods + t < problem.num_players
            * problem.num_positions * problem.num_periods,
        0 <= (p * problem.num_positions + pos) * problem.num_periods,
        0 <= p * problem.num_positions,
{
    let n = problem.num_players as int;
    let k = problem.num_positions as int;
    let m = problem.num_periods as int;
    let q = p * k + pos;
    assert(0 <= p * k && 0 <= q < n * k) by (nonlinear_arith)
        requires
            0 <= p < n,
            0 <= pos < k,
            q == p * k + pos,
    ;
    assert(0 <= q * m && 0 <= q * m + t < n * k * m) by (nonlinear_arith)
        requires
            0 <= q < n * k,
            0 <= t < m,
    ;
}

/// Adds up the players' shares of the periods.
pub fn period_shares<A: Fn(Real64, Real64) -> Real64>(
    problem: &SoccerProblem,
    x: &Vec<Real64>,
    plus: &A,
) -> (shares: Vec<Vec<Real64>>)
    requires
        is_operation(*plus),
        problem.num_players * problem.num_positions <= usize::MAX,
        problem.num_players * problem.num_positions * problem.num_periods <= x@.len(),
    ensures
        are_shares(*plus, *problem, x@, shares@),
{
    let size: usize = x.len();
    let mut shares: Vec<Vec<Real64>> = Vec::new();
    let mut t: usize = 0;
    while t < problem.num_periods
        invariant
            t <= problem.num_periods,
            size == x@.len(),
            is_operation(*plus),
            problem.num_players * problem.num_positions <= usize::MAX,
            problem.num_players * problem.num_positions * problem.num_periods <= x@.len(),
            shares@.len() == t,
            forall|u: int| 0 <= u < t ==> (#[trigger] shares@[u])@.len() == problem.num_players,
            forall|u: int, p: int|
                0 <= u < t && 0 <= p < problem.num_players ==> #[trigger] shares@[u]@[p]
                    == share_of(*plus, *problem, x@, p, u, problem.num_positions as int),
        decreases problem.num_periods - t,
    {
        let mut row: Vec<Real64> = Vec::new();
        let mut p: usize = 0;
        while p < problem.num_players
            invariant
                t < problem.num_periods,
                p <= problem.num_players,
                size == x@.len(),
                is_operation(*plus),
                problem.num_players * problem.num_positions <= usize::MAX,
                problem.num_players * problem.num_positions * problem.num_periods <= x@.len(),
                row@.len() == p,
                forall|q: int|
                    0 <= q < p ==> #[trigger] row@[q] == share_of(
                        *plus,
                        *problem,
                        x@,
                        q,
                        t as int,
                        problem.num_positions as int,
                    ),
            decreases problem.num_players - p,
        {
            let mut s: Real64 = at_bits(D0);
            let mut pos: usize = 0;
            while pos < problem.num_positions
                invariant
                    t < problem.num_periods,
                    p < problem.num_players,
                    pos <= problem.num_positions,
                    size == x@.len(),
                    is_operation(*plus),
                    problem.num_players * problem.num_positions <= usize::MAX,
                    problem.num_players * problem.num_positions * problem.num_periods <= x@.len(),
                    s == share_of(*plus, *problem, x@, p as int, t as int, pos as int),
                decreases problem.num_positions - pos,
            {
                proof {
                    column_in_range(*problem, p as int, pos as int, t as int);
                }
                s = apply(plus, s, x[(p * problem.num_positions + pos) * problem.num_periods + t]);
                pos += 1;
            }
            row.push(s);
            p += 1;
        }
        shares.push(row);
        t += 1;
    }
    shares
}

/// A schedule rounded from a relaxation.
#[derive(Debug)]
pub struct LPRelaxedScheduleResult {
    pub schedule: Schedule,
    pub lp_value: Real64,
    /// No schedule is worth more.
    pub upper_bound_on_rotation: Real64,
    pub solver: String,
    pub iters: usize,
}

/// Why a relaxation gives no schedule.
#[derive(Debug)]
pub enum RelaxationFailure {
    /// The solver has no optimum.
    NotOptimal { status: String, message: Option<String> },
    /// The solver's optimum is too short or not finite.
    Malformed { length: usize, expected: usize, objective: Real64 },
}

/// The solver's reply can be rounded.
pub open spec fn is_roundable(x: Seq<Real64>, objective: Real64, expected: int) -> bool {
    &&& objective.finite()
    &&& x.len() >= expected
    &&& forall|v: int| 0 <= v < expected ==> (#[trigger] x[v]).finite()
}

/// The result fits the solver's reply.
pub open spec fn is_rounded<
    F: Fn(&Vec<Vec<Real64>>) -> AssignmentResult,
    A: Fn(Real64, Real64) -> Real64,
>(
    problem: SoccerProblem,
    assign: F,
    plus: A,
    reply: LPSolution,
    r: Result<LPRelaxedScheduleResult, RelaxationFailure>,
) -> bool {
    let expected = problem.num_players * problem.num_positions * problem.num_periods;
    match r {
        Ok(result) => {
            &&& reply.optimal
            &&& is_roundable(reply.x@, reply.objective, expected)
            &&& result.lp_value == reply.objective
            &&& result.upper_bound_on_rotation == reply.objective
            &&& result.solver == reply.solver
            &&& result.iters == given_or(reply.iters, 0)
            &&& exists|shares: Seq<Vec<Real64>>| #[trigger]
                are_shares(plus, problem, reply.x@, shares) && is_filled_schedule(
                    problem,
                    assign,
                    shares,
                    true,
                    result.schedule,
                    problem.num_periods as int,
                )
        },
        Err(RelaxationFailure::NotOptimal { status, message }) => !reply.optimal && status
            == reply.status && message == reply.message,
        Err(RelaxationFailure::Malformed { length, expected: wanted, objective }) => reply.optimal
            && !is_roundable(reply.x@, reply.objective, expected) && length == reply.x@.len()
            && wanted == expected && objective == reply.objective,
    }
}

/// Rounds the reply of a solver: every period goes to the players with the greatest shares of it,
/// after those who sat on the bench before.
pub fn round_solution<
    F: Fn(&Vec<Vec<Real64>>) -> AssignmentResult,
    A: Fn(Real64, Real64) -> Real64,
>(problem: &SoccerProblem, reply: LPSolution, assign: F, plus: &A) -> (r: Result<
    LPRelaxedScheduleResult,
    RelaxationFailure,
>)
    requires
        problem.has_affinities(),
        problem.num_players <= i64::MAX,
        problem.num_players * problem.num_positions <= usize::MAX,
        problem.num_players * problem.num_positions * problem.num_periods <= usize::MAX,
        is_solver(assign),
        is_operation(*plus),
    ensures
        is_rounded(*problem, assign, *plus, reply, r),
{
    if !reply.optimal {
        return Err(
            RelaxationFailure::NotOptimal { status: reply.status, message: reply.message },
        );
    }
    let expected: usize = problem.num_players * problem.num_positions * problem.num_periods;
    if !soccer_lp_solution_is_roundable(&reply.x, reply.objective, expected) {
        return Err(
            RelaxationFailure::Malformed {
                length: reply.x.len(),
                expected,
                objective: reply.objective,
            },
        );
    }
    let shares: Vec<Vec<Real64>> = period_shares(problem, &reply.x, plus);
    let schedule: Schedule = round_relaxation(problem, &shares, assign);
    assert(are_shares(*plus, *problem, reply.x@, shares@));
    Ok(
        LPRelaxedScheduleResult {
            schedule,
            lp_value: reply.objective,
            upper_bound_on_rotation: reply.objective,
            solver: reply.solver,
            iters: count_or(reply.iters, 0),
        },
    )
}

/// The relaxation was handed out, and this came back.
pub open spec fn is_asked<S: Fn(&LPProblem) -> LPSolution, Q: Fn(&LPProblem) -> LPSolution>(
    problem: SoccerProblem,
    named: Option<&str>,
    solve: S,
    fast: Q,
    reply: LPSolution,
) -> bool {
    exists|lp: LPProblem| #[trigger]
        relaxes(problem, lp) && is_reply(lp, named, solve, fast, reply)
}

/// Builds the relaxation, has it solved, and rounds what comes back.
pub fn policy_lp_relaxed<
    S: Fn(&LPProblem) -> LPSolution,
    Q: Fn(&LPProblem) -> LPSolution,
    F: Fn(&Vec<Vec<Real64>>) -> AssignmentResult,
    A: Fn(Real64, Real64) -> Real64,
>(
    problem: &SoccerProblem,
    named: Option<&str>,
    solve: &S,
    fast: &Q,
    assign: F,
    plus: &A,
) -> (r: Result<LPRelaxedScheduleResult, RelaxationFailure>)
    requires
        countable(*problem),
        problem.has_affinities(),
        problem.num_positions * problem.num_periods <= usize::MAX,
        problem.num_players <= i64::MAX,
        forall|p: &LPProblem| #[trigger] call_requires(*solve, (p,)),
        forall|p: &LPProblem| #[trigger] call_requires(*fast, (p,)),
        is_solver(assign),
        is_operation(*plus),
    ensures
        exists|reply: LPSolution| #[trigger]
            is_asked(*problem, named, *solve, *fast, reply) && is_rounded(
                *problem,
                assign,
                *plus,
                reply,
                r,
            ),
{
    let lp: LPProblem = build_soccer_lp(problem);
    let reply: LPSolution = solve_soccer_rotation_lp(&lp, named, solve, fast);
    proof {
        assert(relaxes(*problem, lp));
        assert(is_asked(*problem, named, *solve, *fast, reply));
        assert(field_columns(*problem) == problem.num_players * problem.num_positions
            * problem.num_periods);
    }
    round_solution(problem, reply, assign, plus)
}

} // verus!
