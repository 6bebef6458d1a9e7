//! The builders, analyses and policies as values that are applied to their input.
use crate::number::{
    is_conversion, is_counting, is_function, is_operation, is_signed_conversion, sum_up, Real64,
};
use crate::rotation::aggregate::{
    aggregates, are_simulated, run_many_matches, welch_statistic, welch_t, MatchAggregate,
};
use crate::rotation::belief::{
    evaluate_soccer_pomdp_features, follows, has_line_ups, SoccerPOMDPFeatureOptions,
    SoccerPOMDPFeatureSummary,
};
use crate::rotation::decode::{
    is_decoded, lawful, lists_countable, same_lists, schedule_from_soccer_ipmip_vector,
    undecodable,
};
use crate::rotation::feasible::usual;
use crate::rotation::mdp::{
    is_exact_plan, is_memoryless_plan, policy_mdp_vi, policy_mdp_vi_memoryless, MdpScheduleResult,
    MemorylessMDPResult,
};
use crate::rotation::model::{
    build_soccer_ipmip, build_soccer_lp, models, relaxes, rules_in_range, LPProblem,
    SoccerIPMIPModel,
};
use crate::rotation::policy::{
    is_fairness_aware, is_filled_schedule, is_solver, policy_greedy_hungarian, rated_by_affinity,
    AssignmentResult, PolicyGreedyHungarian,
};
use crate::rotation::problem::{Schedule, SoccerProblem};
use crate::rotation::rows::countable;
use crate::rotation::rules::{
    evaluable, evaluate_schedule, evaluates, period_sums, ScheduleEvaluation,
};
use crate::rotation::sample::{all_traits, build_sample_soccer_problem, holds_sample, most_draws};
use crate::rotation::simulate::{
    is_sample, is_simulated, match_seeds, sample_size, simulate_match_des,
    AffinityBuilderOptions, MatchResult, MatchSimOptions,
};
use crate::rotation::solve::{
    given_or, is_asked, is_failed, is_planned, is_rounded, is_searched, policy_ipmip_feasible,
    policy_lp_relaxed, resolved, IPMIPSolution, IPMIPSolveOptions, LPRelaxedScheduleResult,
    LPSolution, PlanFailure, RelaxationFailure, SoccerIPMIPPolicyOptions, SoccerIPMIPPolicyResult,
    TICKS_PER_NODE,
};
use crate::rotation::structure::{schedule_fault, validate_schedule_structure};
use vstd::prelude::*;

verus! {

/// A schedule with its problem.
#[derive(Clone, Copy, Debug)]
pub struct ProblemScheduleInput<'a> {
    pub problem: &'a SoccerProblem,
    pub schedule: &'a Schedule,
}

/// Builds the sample problem.
#[derive(Clone, Copy, Debug)]
pub struct BuildSampleSoccerProblem;

impl BuildSampleSoccerProblem {
    pub fn transform<
        P: Fn(Real64, Real64) -> Real64,
        M: Fn(Real64, Real64) -> Real64,
        Q: Fn(Real64, Real64) -> Real64,
        C: Fn(usize) -> Real64,
        G: Fn(usize) -> Real64,
        F: Fn(Real64) -> usize,
        H: Fn(Real64) -> Real64,
    >(
        &self,
        opts: AffinityBuilderOptions,
        plus: &P,
        times: &M,
        over: &Q,
        count: &C,
        draw: &G,
        floor: &F,
        cosine: &H,
    ) -> (r: SoccerProblem)
        requires
            sample_size(opts).0 > sample_size(opts).1,
            sample_size(opts).1 <= 14,
            most_draws(sample_size(opts).0, sample_size(opts).1, sample_size(opts).2) <= usize::MAX,
            is_operation(*plus),
            is_operation(*times),
            is_operation(*over),
            is_conversion(*count),
            is_conversion(*draw),
            is_counting(*floor),
            is_function(*cosine),
        ensures
            is_sample(opts, r.affinity, r),
            r.has_affinities(),
            holds_sample(
                *plus,
                *times,
                *over,
                *count,
                *draw,
                *cosine,
                all_traits(
                    *plus,
                    *times,
                    *count,
                    *draw,
                    *floor,
                    r.num_players,
                    r.num_positions,
                ),
                r.num_positions,
                r.num_periods,
                r.affinity@,
            ),
    {
        build_sample_soccer_problem(&opts, plus, times, over, count, draw, floor, cosine)
    }
}

/// Evaluates a schedule.
#[derive(Clone, Copy, Debug)]
pub struct EvaluateSchedule;

impl EvaluateSchedule {
    pub fn transform(&self, input: ProblemScheduleInput<'_>) -> (r: ScheduleEvaluation)
        requires
            evaluable(*input.problem, *input.schedule),
        ensures
            evaluates(*input.problem, *input.schedule, r),
    {
        evaluate_schedule(input.problem, input.schedule)
    }
}

/// Looks for what is wrong with the form of a schedule.
#[derive(Clone, Copy, Debug)]
pub struct ValidateScheduleStructure;

impl ValidateScheduleStructure {
    pub fn transform(&self, input: ProblemScheduleInput<'_>) -> (r: Option<String>)
        ensures
            r is Some <==> schedule_fault(*input.problem, *input.schedule) is Some,
            r is Some ==> r->0@ == schedule_fault(*input.problem, *input.schedule)->0.text(),
    {
        validate_schedule_structure(input.problem, input.schedule)
    }
}

impl PolicyGreedyHungarian {
    pub fn transform<F: Fn(&Vec<Vec<Real64>>) -> AssignmentResult>(
        &self,
        problem: &SoccerProblem,
        solve: F,
    ) -> (schedule: Schedule)
        requires
            problem.has_affinities(),
            problem.num_players <= i64::MAX,
            is_solver(solve),
        ensures
            exists|ratings: Seq<Vec<Real64>>| #[trigger]
                rated_by_affinity(*problem, ratings) && is_filled_schedule(
                    *problem,
                    solve,
                    ratings,
                    is_fairness_aware(*problem, self.opts),
                    schedule,
                    problem.num_periods as int,
                ),
    {
        policy_greedy_hungarian(problem, &self.opts, solve)
    }
}

/// Solves every period for itself.
#[derive(Clone, Copy, Debug)]
pub struct PolicyMDPVIMemoryless;

impl PolicyMDPVIMemoryless {
    pub fn transform<
        F: Fn(&Vec<Vec<Real64>>) -> AssignmentResult,
        A: Fn(Real64, Real64) -> Real64,
    >(&self, problem: &SoccerProblem, solve: &F, plus: &A) -> (r: MemorylessMDPResult)
        requires
            problem.has_affinities(),
            problem.num_players <= i64::MAX,
            is_solver(*solve),
            is_operation(*plus),
        ensures
            is_memoryless_plan(*problem, *solve, *plus, r),
    {
        policy_mdp_vi_memoryless(problem, solve, plus)
    }
}

/// Solves the rotation exactly.
#[derive(Clone, Copy, Debug)]
pub struct PolicyMDPVI;

impl PolicyMDPVI {
    pub fn transform<
        F: Fn(&Vec<Vec<Real64>>) -> AssignmentResult,
        A: Fn(Real64, Real64) -> Real64,
    >(&self, problem: &SoccerProblem, solve: &F, plus: &A) -> (r: Option<MdpScheduleResult>)
        requires
            problem.has_affinities(),
            problem.num_players <= i64::MAX,
            is_solver(*solve),
            is_operation(*plus),
        ensures
            is_exact_plan(*problem, *solve, *plus, r),
    {
        policy_mdp_vi(problem, solve, plus)
    }
}

/// Builds the relaxation.
#[derive(Clone, Copy, Debug)]
pub struct BuildSoccerLP;

impl BuildSoccerLP {
    pub fn transform(&self, problem: &SoccerProblem) -> (lp: LPProblem)
        requires
            countable(*problem),
            problem.has_affinities(),
            problem.num_positions * problem.num_periods <= usize::MAX,
        ensures
            relaxes(*problem, lp),
    {
        build_soccer_lp(problem)
    }
}

/// Rounds the solved relaxation.
#[derive(Clone, Copy, Debug)]
pub struct PolicyLPRelaxed;

impl PolicyLPRelaxed {
    pub fn transform<
        S: Fn(&LPProblem) -> LPSolution,
        Q: Fn(&LPProblem) -> LPSolution,
        F: Fn(&Vec<Vec<Real64>>) -> AssignmentResult,
        A: Fn(Real64, Real64) -> Real64,
    >(
        &self,
        problem: &SoccerProblem,
        named: Option<&str>,
        solve: &S,
        fast: &Q,
        assign: F,
        plus: &A,
    ) -> (r: Result<LPRelaxedScheduleResult, RelaxationFailure>)
        requires
            countable(*problem),
            problem.has_affinities(),
            problem.num_positions * problem.num_periods <= usize::MAX,
            problem.num_players <= i64::MAX,
            forall|p: &LPProblem| #[trigger] call_requires(*solve, (p,)),
            forall|p: &LPProblem| #[trigger] call_requires(*fast, (p,)),
            is_solver(assign),
            is_operation(*plus),
        ensures
            exists|reply: LPSolution| #[trigger]
                is_asked(*problem, named, *solve, *fast, reply) && is_rounded(
                    *problem,
                    assign,
                    *plus,
                    reply,
                    r,
                ),
    {
        policy_lp_relaxed(problem, named, solve, fast, assign, plus)
    }
}

/// Builds the exact program.
#[derive(Clone, Copy, Debug)]
pub struct BuildSoccerIPMIP;

impl BuildSoccerIPMIP {
    pub fn transform<P: Fn(Real64, Real64) -> Real64>(
        &self,
        problem: &SoccerProblem,
        plus: &P,
    ) -> (m: SoccerIPMIPModel)
        requires
            countable(*problem),
            problem.has_affinities(),
            rules_in_range(*problem),
            is_operation(*plus),
        ensures
            models(*problem, *plus, m),
    {
        build_soccer_ipmip(problem, plus)
    }
}

/// The vector of a solver with its model and problem.
#[derive(Clone, Copy, Debug)]
pub struct ScheduleFromSoccerIPMIPVectorInput<'a> {
    pub problem: &'a SoccerProblem,
    pub model: &'a SoccerIPMIPModel,
    pub x: &'a Vec<Real64>,
}

/// Decodes vectors, counting entries above a threshold.
#[derive(Clone, Copy, Debug)]
pub struct ScheduleFromSoccerIPMIPVector {
    pub threshold: Real64,
}

impl ScheduleFromSoccerIPMIPVector {
    pub fn new(threshold: Real64) -> (r: Self)
        ensures
            r.threshold == threshold,
    {
        ScheduleFromSoccerIPMIPVector { threshold }
    }

    pub fn transform(&self, input: ScheduleFromSoccerIPMIPVectorInput<'_>) -> (r: Option<Schedule>)
        requires
            input.problem.has_affinities(),
            lists_countable(*input.problem),
            input.model.num_positions == input.problem.num_positions,
            input.model.num_periods == input.problem.num_periods,
            input.problem.num_players * input.problem.num_positions <= usize::MAX,
            input.problem.num_players * input.problem.num_positions * input.problem.num_periods
                <= input.model.ip.c@.len(),
            input.problem.num_players <= i64::MAX,
        ensures
            r matches Some(schedule) ==> is_decoded(
                *input.problem,
                *input.model,
                input.x@,
                self.threshold,
                schedule,
            ) && lawful(*input.problem, schedule),
            r is None ==> undecodable(*input.problem, *input.model, input.x@, self.threshold),
    {
        schedule_from_soccer_ipmip_vector(input.problem, input.model, input.x, self.threshold)
    }
}

/// Plans by searching the exact program.
#[derive(Clone, Copy, Debug)]
pub struct PolicyIPMIPFeasible {
    pub opts: SoccerIPMIPPolicyOptions,
}

impl PolicyIPMIPFeasible {
    pub fn new(opts: SoccerIPMIPPolicyOptions) -> (r: Self)
        ensures
            r.opts == opts,
    {
        PolicyIPMIPFeasible { opts }
    }

    pub fn transform<
        S: Fn(&SoccerIPMIPModel, &IPMIPSolveOptions) -> IPMIPSolution,
        F: Fn(&Vec<Vec<Real64>>) -> AssignmentResult,
        A: Fn(Real64, Real64) -> Real64,
        M: Fn(Real64, Real64) -> Real64,
        C: Fn(usize) -> Real64,
    >(
        &self,
        problem: &SoccerProblem,
        search: S,
        solve: F,
        plus: &A,
        times: &M,
        count: &C,
    ) -> (r: Result<SoccerIPMIPPolicyResult, PlanFailure>)
        requires
            problem.has_affinities(),
            countable(*problem),
            lists_countable(*problem),
            rules_in_range(*problem),
            problem.num_players <= i64::MAX,
            self.opts.max_ticks is None ==> given_or(self.opts.max_nodes, 5000) * TICKS_PER_NODE
                <= usize::MAX,
            forall|m: &SoccerIPMIPModel, o: &IPMIPSolveOptions| #[trigger]
                call_requires(search, (m, o)),
            is_solver(solve),
            is_operation(*plus),
            is_operation(*times),
            is_conversion(*count),
        ensures
            r matches Ok(plan) ==> {
                &&& is_searched(*problem, *plus, self.opts, search, plan.model, plan.mip)
                &&& plan.solver_options == resolved(self.opts)
                &&& is_planned(
                    *problem,
                    self.opts,
                    solve,
                    usual(*plus, *times, *count),
                    *plus,
                    plan,
                )
            },
            r matches Err(failure) ==> exists|model: SoccerIPMIPModel, mip: IPMIPSolution|
                #[trigger]
                is_searched(*problem, *plus, self.opts, search, model, mip) && is_failed(
                    *problem,
                    self.opts,
                    solve,
                    usual(*plus, *times, *count),
                    *plus,
                    model,
                    mip,
                    failure,
                ),
    {
        policy_ipmip_feasible(problem, &self.opts, search, solve, plus, times, count)
    }
}

/// Follows how fresh the players are believed to be.
#[derive(Clone, Copy, Debug)]
pub struct EvaluateSoccerPOMDPFeatures {
    pub opts: SoccerPOMDPFeatureOptions,
}

impl EvaluateSoccerPOMDPFeatures {
    pub fn new(opts: SoccerPOMDPFeatureOptions) -> (r: Self)
        ensures
            r.opts == opts,
    {
        EvaluateSoccerPOMDPFeatures { opts }
    }

    pub fn transform<
        P: Fn(Real64, Real64) -> Real64,
        M: Fn(Real64, Real64) -> Real64,
        Q: Fn(Real64, Real64) -> Real64,
        C: Fn(usize) -> Real64,
        E: Fn(Real64) -> Real64,
    >(
        &self,
        input: ProblemScheduleInput<'_>,
        plus: &P,
        times: &M,
        over: &Q,
        count: &C,
        log: &E,
    ) -> (r: SoccerPOMDPFeatureSummary)
        requires
            input.problem.has_affinities(),
            has_line_ups(*input.problem, *input.schedule),
            is_operation(*plus),
            is_operation(*times),
            is_operation(*over),
            is_conversion(*count),
            is_function(*log),
        ensures
            follows(
                *plus,
                *times,
                *over,
                *count,
                *log,
                *input.problem,
                *input.schedule,
                self.opts,
                r,
            ),
    {
        evaluate_soccer_pomdp_features(
            input.problem,
            input.schedule,
            &self.opts,
            plus,
            times,
            over,
            count,
            log,
        )
    }
}

/// Simulates a match.
#[derive(Clone, Copy, Debug)]
pub struct SimulateMatchDES {
    pub opts: MatchSimOptions,
}

impl SimulateMatchDES {
    pub fn new(opts: MatchSimOptions) -> (r: Self)
        ensures
            r.opts == opts,
    {
        SimulateMatchDES { opts }
    }

    pub fn transform<
        P: Fn(Real64, Real64) -> Real64,
        M: Fn(Real64, Real64) -> Real64,
        Q: Fn(Real64, Real64) -> Real64,
        C: Fn(usize) -> Real64,
    >(
        &self,
        input: ProblemScheduleInput<'_>,
        draws: &Vec<(Real64, Real64)>,
        plus: &P,
        times: &M,
        over: &Q,
        count: &C,
    ) -> (r: MatchResult)
        requires
            input.problem.has_affinities(),
            has_line_ups(*input.problem, *input.schedule),
            self.opts.period_length() * input.problem.num_periods <= i64::MAX,
            draws@.len() == self.opts.period_length() * input.problem.num_periods,
            is_operation(*plus),
            is_operation(*times),
            is_operation(*over),
            is_conversion(*count),
        ensures
            is_simulated(
                *plus,
                *times,
                *over,
                *count,
                *input.problem,
                *input.schedule,
                self.opts,
                draws@,
                r,
            ),
    {
        simulate_match_des(
            input.problem,
            input.schedule,
            &self.opts,
            draws,
            plus,
            times,
            over,
            count,
        )
    }
}

/// Which matches are taken together, and under which name.
#[derive(Debug)]
pub struct RunManyMatchesConfig {
    pub policy_name: String,
    pub num_matches: usize,
    pub seed_base: u32,
    pub match_opts: Option<MatchSimOptions>,
}

impl RunManyMatchesConfig {
    /// The options of every match.
    pub open spec fn options(self) -> MatchSimOptions {
        match self.match_opts {
            Some(opts) => opts,
            None => MatchSimOptions::plain(),
        }
    }
}

/// Simulates many matches of one schedule.
#[derive(Debug)]
pub struct RunManyMatches {
    pub config: RunManyMatchesConfig,
}

impl RunManyMatches {
    pub fn new(config: RunManyMatchesConfig) -> (r: Self)
        ensures
            r.config == config,
    {
        RunManyMatches { config }
    }

    /// The seeds from which the draws of the matches come.
    pub fn seeds(&self) -> (seeds: Vec<u32>)
        requires
            self.config.seed_base + self.config.num_matches <= u32::MAX + 1,
        ensures
            seeds@.len() == self.config.num_matches,
            forall|n: int|
                0 <= n < seeds@.len() ==> #[trigger] seeds@[n] == self.config.seed_base + n,
    {
        match_seeds(self.config.seed_base, self.config.num_matches)
    }

    /// Takes the matches together, one for every list of draws.
    pub fn transform<
        P: Fn(Real64, Real64) -> Real64,
        M: Fn(Real64, Real64) -> Real64,
        Q: Fn(Real64, Real64) -> Real64,
        C: Fn(usize) -> Real64,
        R: Fn(Real64) -> Real64,
        W: Fn(i64) -> Real64,
    >(
        &self,
        input: ProblemScheduleInput<'_>,
        draws: &Vec<Vec<(Real64, Real64)>>,
        plus: &P,
        times: &M,
        over: &Q,
        count: &C,
        root: &R,
        signed: &W,
    ) -> (r: MatchAggregate)
        requires
            evaluable(*input.problem, *input.schedule),
            has_line_ups(*input.problem, *input.schedule),
            self.config.options().period_length() * input.problem.num_periods <= i64::MAX,
            draws@.len() == self.config.num_matches,
            forall|n: int|
                0 <= n < draws@.len() ==> (#[trigger] draws@[n])@.len()
                    == self.config.options().period_length() * input.problem.num_periods,
            is_operation(*plus),
            is_operation(*times),
            is_operation(*over),
            is_conversion(*count),
            is_function(*root),
            is_signed_conversion(*signed),
        ensures
            r.policy_name@ == self.config.policy_name@,
            same_lists(r.schedule, *input.schedule),
            exists|e: ScheduleEvaluation| #[trigger]
                evaluates(*input.problem, *input.schedule, e) && r.fairness_ok == e.fairness_ok
                    && r.bench_counts@ == e.bench_counts@ && r.affinity_sum_deterministic == sum_up(
                    *plus,
                    period_sums(*plus, e.cell_scores@),
                    e.cell_scores@.len() as int,
                ),
            exists|results: Seq<MatchResult>| #[trigger]
                are_simulated(
                    *plus,
                    *times,
                    *over,
                    *count,
                    *input.problem,
                    *input.schedule,
                    self.config.options(),
                    draws@,
                    results,
                ) && aggregates(*plus, *times, *over, *count, *root, *signed, results, r),
    {
        let opts: MatchSimOptions = match self.config.match_opts {
            Some(opts) => opts,
            None => MatchSimOptions::default(),
        };
        run_many_matches(
            input.problem,
            input.schedule,
            self.config.policy_name.clone(),
            &opts,
            draws,
            plus,
            times,
            over,
            count,
            root,
            signed,
        )
    }
}

/// Two samples to be compared.
#[derive(Debug)]
pub struct WelchTInput<'a> {
    pub a: &'a Vec<Real64>,
    pub b: &'a Vec<Real64>,
}

/// Compares the means of two samples.
#[derive(Clone, Copy, Debug)]
pub struct WelchT;

impl WelchT {
    pub fn transform<
        P: Fn(Real64, Real64) -> Real64,
        M: Fn(Real64, Real64) -> Real64,
        Q: Fn(Real64, Real64) -> Real64,
        C: Fn(usize) -> Real64,
        R: Fn(Real64) -> Real64,
    >(
        &self,
        input: WelchTInput<'_>,
        plus: &P,
        times: &M,
        over: &Q,
        count: &C,
        root: &R,
    ) -> (r: Real64)
        requires
            is_operation(*plus),
            is_operation(*times),
            is_operation(*over),
            is_conversion(*count),
            is_function(*root),
        ensures
            r == welch_statistic(*plus, *times, *over, *count, *root, input.a@, input.b@),
    {
        welch_t(input.a, input.b, plus, times, over, count, root)
    }
}

} // verus!
