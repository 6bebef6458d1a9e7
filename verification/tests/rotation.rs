use soccer::number::Real64;
use soccer::rotation::belief::{evaluate_soccer_pomdp_features, SoccerPOMDPFeatureOptions};
use soccer::rotation::decode::{
    is_lawful, schedule_from_soccer_ipmip_vector, soccer_lp_solution_is_roundable,
};
use soccer::rotation::feasible::{policy_greedy_feasible_schedule, rate_player};
use soccer::rotation::formation::{
    default_outfield_formation, formation_position_names, formation_with_gk,
    parse_outfield_formation, side_prefix,
};
use soccer::rotation::mdp::{combinations, policy_mdp_vi, policy_mdp_vi_memoryless};
use soccer::rotation::model::{build_soccer_ipmip, build_soccer_lp, LPProblem, SoccerIPMIPModel};
use soccer::rotation::policy::{
    policy_greedy_hungarian, policy_random_schedule, AssignmentResult, GreedyHungarianOptions,
};
use soccer::rotation::problem::{
    effective_cell_affinity, has_planner_only_constraints, player_is_fieldable, PlayerStatus,
    PositionSynergyRule, Schedule, SoccerProblem,
};
use soccer::rotation::rules::{
    affinity_sums, bench_counts, consecutive_on_field_violations, count_subs, evaluate_schedule,
    fairness_violations, max_contiguous_bench_violations, min_contiguous_on_field_violations,
};
use soccer::rotation::aggregate::welch_t;
use soccer::rotation::belief::binary_entropy;
use soccer::rotation::sample::build_sample_soccer_problem;
use soccer::rotation::simulate::{
    match_seeds, simulate_match_des, AffinityBuilderOptions, GoalSide, MatchSimOptions,
};
use soccer::rotation::solve::{
    policy_ipmip_feasible, policy_lp_relaxed, resolve_options, solve_soccer_rotation_lp, BranchRule,
    ConcreteLpRelaxationAlgorithm, IPMIPSolution, IPMIPSolveOptions, LPSolution,
    LpRelaxationAlgorithm, NodeSelection, PlanFailure, RelaxationFailure, SoccerIPMIPPolicyOptions,
};
use soccer::rotation::structure::validate_schedule_structure;
use soccer::rotation::transforms::{
    ProblemScheduleInput, RunManyMatches, RunManyMatchesConfig, WelchT, WelchTInput,
};

fn f(r: Real64) -> f64 {
    f64::from_bits(r.to_bits())
}

fn r(x: f64) -> Real64 {
    Real64::from_bits(x.to_bits())
}

fn plus(a: Real64, b: Real64) -> Real64 {
    r(f(a) + f(b))
}

fn times(a: Real64, b: Real64) -> Real64 {
    r(f(a) * f(b))
}

fn over(a: Real64, b: Real64) -> Real64 {
    r(f(a) / f(b))
}

fn count(n: usize) -> Real64 {
    r(n as f64)
}

/// Matches rows to columns of the greatest total weight, by subsets of columns.
fn assign(weights: &Vec<Vec<Real64>>) -> AssignmentResult {
    let n = weights.len();
    let k = if n == 0 { 0 } else { weights[0].len() };
    let full = 1usize << k;
    let mut best = vec![f64::NEG_INFINITY; full];
    let mut pick: Vec<Vec<i64>> = vec![vec![-1; full]; n];
    best[0] = 0.0;
    for (i, row) in weights.iter().enumerate() {
        let mut next = vec![f64::NEG_INFINITY; full];
        for mask in 0..full {
            if best[mask] == f64::NEG_INFINITY {
                continue;
            }
            for (c, w) in row.iter().enumerate() {
                let to = mask | (1 << c);
                if mask & (1 << c) == 0 && best[mask] + f(*w) > next[to] {
                    next[to] = best[mask] + f(*w);
                    pick[i][to] = c as i64;
                }
            }
        }
        best = next;
    }
    let mut mask = 0;
    for m in 0..full {
        if best[m] > best[mask] || (mask == 0 && best[m] > f64::NEG_INFINITY) {
            mask = m;
        }
    }
    let total = best[mask];
    let mut rows = vec![-1i64; n];
    for i in (0..n).rev() {
        let c = pick[i][mask];
        rows[i] = c;
        if c >= 0 {
            mask &= !(1usize << c);
        }
    }
    AssignmentResult { rows, total: r(total) }
}

struct Mulberry {
    a: u32,
}

impl Mulberry {
    fn next_float(&mut self) -> f64 {
        self.a = self.a.wrapping_add(0x6D2B_79F5);
        let mut t = self.a;
        t = (t ^ (t >> 15)).wrapping_mul(t | 1);
        t ^= t.wrapping_add((t ^ (t >> 7)).wrapping_mul(t | 61));
        f64::from(t ^ (t >> 14)) / 4_294_967_296.0
    }
}

/// Affinities of a made-up squad: a natural position, two secondary ones, stamina and fitness.
fn affinities(opts: &AffinityBuilderOptions) -> Vec<Vec<Vec<Real64>>> {
    let players = opts.num_players.unwrap_or(12);
    let positions = opts.num_positions.unwrap_or(7);
    let periods = opts.num_periods.unwrap_or(4);
    let mut rng = Mulberry { a: opts.seed.unwrap_or(4242) };
    let mut heads = Vec::new();
    for _ in 0..players {
        let natural = (rng.next_float() * positions as f64).floor() as usize;
        let second = (rng.next_float() * positions as f64).floor() as usize;
        let third = (rng.next_float() * positions as f64).floor() as usize;
        let stamina = rng.next_float();
        let fitness = 0.7 + 0.3 * rng.next_float();
        heads.push((natural, [second, third], stamina, fitness));
    }
    let denom = 1.0_f64.max(periods as f64 - 1.0);
    let mid = (periods as f64 - 1.0) / 2.0;
    let mut out = Vec::new();
    for (natural, secondary, stamina, fitness) in heads {
        let mut player = Vec::new();
        for pos in 0..positions {
            let mut base = 0.20 + 0.25 * rng.next_float();
            if pos == natural {
                base = 0.85 + 0.15 * rng.next_float();
            } else if secondary.contains(&pos) {
                base = 0.55 + 0.20 * rng.next_float();
            }
            let mut row = Vec::new();
            for t in 0..periods {
                let part = if stamina < 0.35 {
                    1.05 - 0.20 * (t as f64 / denom)
                } else if stamina < 0.7 {
                    0.85 + 0.20 * (t as f64 / denom)
                } else {
                    0.95 + 0.05 * ((t as f64 - mid) / denom).cos()
                };
                let noise = 0.95 + 0.10 * rng.next_float();
                row.push(r((base * part * fitness * noise).max(0.0).min(1.0)));
            }
            player.push(row);
        }
        out.push(player);
    }
    out
}

fn sample(opts: AffinityBuilderOptions) -> SoccerProblem {
    let mut rng = Mulberry { a: opts.seed.unwrap_or(4242) };
    let stream: Vec<Real64> = (0..20_000).map(|_| r(rng.next_float())).collect();
    let draw = |k: usize| stream[k];
    let floor = |x: Real64| f(x).floor() as usize;
    let cosine = |x: Real64| r(f(x).cos());
    build_sample_soccer_problem(&opts, &plus, &times, &over, &count, &draw, &floor, &cosine)
}

fn root(x: Real64) -> Real64 {
    r(f(x).sqrt())
}

fn problem() -> SoccerProblem {
    sample(AffinityBuilderOptions { seed: Some(7), ..Default::default() })
}

fn blank_problem(
    num_players: usize,
    num_positions: usize,
    num_periods: usize,
    affinity: Vec<Vec<Vec<Real64>>>,
) -> SoccerProblem {
    SoccerProblem {
        num_players,
        num_positions,
        num_periods,
        bench_size: num_players - num_positions,
        max_consecutive_on_field: None,
        min_contiguous_on_field: None,
        max_contiguous_on_field: None,
        max_contiguous_bench: None,
        enforce_no_consecutive_bench: true,
        max_subs_per_game: None,
        min_subs_per_game: None,
        affinity,
        player_names: None,
        position_names: None,
        player_status: None,
        fixed_position: None,
        banned_positions: None,
        synergy_rules: None,
    }
}

fn flat(num_players: usize, num_positions: usize, num_periods: usize) -> SoccerProblem {
    blank_problem(
        num_players,
        num_positions,
        num_periods,
        vec![vec![vec![r(0.0); num_periods]; num_positions]; num_players],
    )
}

fn tiny_internal_solver_problem() -> SoccerProblem {
    let row = |x: f64| vec![r(x), r(x)];
    SoccerProblem {
        min_contiguous_on_field: Some(vec![1, 1, 1]),
        max_contiguous_on_field: Some(vec![2, 2, 2]),
        max_contiguous_bench: Some(vec![2, 2, 2]),
        enforce_no_consecutive_bench: false,
        max_subs_per_game: Some(2),
        min_subs_per_game: Some(0),
        player_names: Some(vec!["Keeper".to_string(), "Wing".to_string(), "Flex".to_string()]),
        position_names: Some(vec!["GK".to_string(), "RF".to_string()]),
        ..blank_problem(
            3,
            2,
            2,
            vec![
                vec![row(1.0), row(0.1)],
                vec![row(0.1), row(1.0)],
                vec![row(0.7), row(0.7)],
            ],
        )
    }
}

fn earned(p: &SoccerProblem, s: &Schedule) -> f64 {
    f(affinity_sums(&evaluate_schedule(p, s), &plus).1)
}

#[test]
fn sample_problem_dimensions() {
    let p = problem();
    assert_eq!(p.num_players, 12);
    assert_eq!(p.num_positions, 7);
    assert_eq!(p.num_periods, 4);
    assert_eq!(p.bench_size, 5);
    // The default builder leaves the stamina cap disabled.
    assert_eq!(p.max_consecutive_on_field, None);
    for row in &p.affinity {
        for col in row {
            for &v in col {
                assert!((0.0..=1.0).contains(&f(v)));
            }
        }
    }
    assert_eq!(p.player_names.unwrap()[11], "Player12");
    assert_eq!(p.position_names.unwrap()[6], "G");
}

#[test]
fn mdp_is_fair_and_dominates_baselines() {
    let p = problem();
    let mdp = policy_mdp_vi(&p, &assign, &plus).expect("a plan");
    let mdp_schedule = mdp.to_schedule();
    assert!(validate_schedule_structure(&p, &mdp_schedule).is_none());
    let mdp_eval = evaluate_schedule(&p, &mdp_schedule);
    assert!(mdp_eval.fairness_ok, "MDP schedule must satisfy fairness");
    // The MDP's reported optimal value equals the realised affinity sum.
    let optimal = f(mdp.optimal_value);
    assert!((optimal - f(affinity_sums(&mdp_eval, &plus).1)).abs() < 1e-6);

    // The exact MDP dominates the fairness-aware greedy heuristic (which is a
    // feasible schedule for the same fairness-constrained program).
    let greedy = policy_greedy_hungarian(&p, &GreedyHungarianOptions::default(), assign);
    assert!(evaluate_schedule(&p, &greedy).fairness_ok);
    let greedy_aff = earned(&p, &greedy);
    assert!(optimal + 1e-9 >= greedy_aff, "mdp={optimal} greedy={greedy_aff}");

    // Dropping the fairness constraint (memoryless MDP) can only raise the value.
    let memoryless = policy_mdp_vi_memoryless(&p, &assign, &plus);
    assert!(f(memoryless.value) + 1e-9 >= optimal);
}

#[test]
fn greedy_schedule_is_well_formed() {
    let p = problem();
    let sched = policy_greedy_hungarian(&p, &GreedyHungarianOptions::default(), assign);
    assert!(validate_schedule_structure(&p, &sched).is_none());
}

#[test]
fn soccer_lp_rounding_rejects_malformed_optimal_vectors() {
    let ok = |x: &[f64], objective: f64| {
        soccer_lp_solution_is_roundable(&x.iter().map(|v| r(*v)).collect(), r(objective), 3)
    };
    assert!(ok(&[0.0, 0.5, 1.0], 1.5));
    assert!(!ok(&[0.0, 0.5], 1.5));
    assert!(!ok(&[0.0, f64::NAN, 1.0], 1.5));
    assert!(!ok(&[0.0, 0.5, 1.0], f64::INFINITY));
}

#[test]
fn soccer_ipmip_model_exposes_movable_and_station_metadata_for_solver_tab() {
    let p = tiny_internal_solver_problem();
    let model = build_soccer_ipmip(&p, &plus);
    let variables = &model.ip.variable_nodes;
    let constraints = &model.ip.constraint_nodes;

    assert_eq!(variables.len(), p.num_players * p.num_positions * p.num_periods);
    assert!(variables.len() < model.ip.c.len());
    assert!(variables.iter().any(|node| node.node_id.starts_with("movable:Keeper:")));
    assert!(constraints
        .iter()
        .any(|node| node.node_id.starts_with("station:eligibility:Keeper:")));
    assert!(constraints
        .iter()
        .any(|node| node.node_id.starts_with("station:position:GK:")));
}

fn draws(seed: u32, n: usize) -> Vec<(Real64, Real64)> {
    let mut rng = Mulberry { a: seed };
    (0..n).map(|_| (r(rng.next_float()), r(rng.next_float()))).collect()
}

#[test]
fn match_sim_is_deterministic_for_seed() {
    let p = problem();
    let sched = policy_greedy_hungarian(&p, &GreedyHungarianOptions::default(), assign);
    let opts = MatchSimOptions { seed: Some(123), ..Default::default() };
    let play = || {
        simulate_match_des(
            &p, &sched, &opts, &draws(123, opts.minutes() * 4), &plus, &times, &over, &count,
        )
    };
    let a = play();
    let b = play();
    assert_eq!(a.record.goals_for, b.record.goals_for);
    assert_eq!(a.record.goals_against, b.record.goals_against);
    assert_eq!(a.record.trace.len(), 4 * 20);
    assert_eq!(a.record.sub_events.len(), 4);
    assert_eq!(a.record.sub_events[2].t, 40);
    assert_eq!(
        a.record.goal_events.iter().filter(|g| g.side == GoalSide::Us).count() as i64,
        a.record.goals_for
    );
    assert!((f(a.affinity_sum_deterministic) - earned(&p, &sched)).abs() < 1e-9);
}

/// A hand-built schedule that parks player 0 on the field for periods 0 and 1 trips the stamina
/// detector when the cap is 1.
#[test]
fn detects_over_long_on_field_run() {
    let problem = SoccerProblem { max_consecutive_on_field: Some(1), ..flat(2, 1, 3) };
    let schedule = Schedule {
        assignment: vec![vec![0], vec![0], vec![1]],
        bench: vec![vec![1], vec![1], vec![0]],
    };
    let v = consecutive_on_field_violations(&problem, &schedule);
    assert_eq!(v.len(), 1);
    assert_eq!(v[0].player_id, 0);
    assert_eq!(v[0].start_period, 0);
    assert_eq!(v[0].length, 2);
    // With no cap the same schedule is clean.
    let uncapped = flat(2, 1, 3);
    assert!(consecutive_on_field_violations(&uncapped, &schedule).is_empty());
}

#[test]
fn max_bench_blocks_allow_repeated_short_bench_stints() {
    let mut problem = SoccerProblem {
        max_contiguous_bench: Some(vec![2, 2]),
        enforce_no_consecutive_bench: false,
        ..flat(2, 1, 8)
    };
    let on = [0i64, 1, 1, 0, 0, 1, 1, 0];
    let repeated_short_stints = Schedule {
        assignment: on.iter().map(|p| vec![*p]).collect(),
        bench: on.iter().map(|p| vec![1 - *p as usize]).collect(),
    };
    assert!(max_contiguous_bench_violations(&problem, &repeated_short_stints).is_empty());

    problem.max_contiguous_bench = Some(vec![1, 1]);
    let violations = max_contiguous_bench_violations(&problem, &repeated_short_stints);
    assert_eq!(violations.len(), 3);
    assert!(violations.iter().all(|v| v.length == 2));
}

/// The vector of a schedule.
fn vector_of(p: &SoccerProblem, model: &SoccerIPMIPModel, s: &Schedule) -> Vec<Real64> {
    let mut x = vec![r(0.0); model.ip.c.len()];
    for (t, row) in s.assignment.iter().enumerate() {
        for (pos, player) in row.iter().enumerate() {
            x[model.variable_index(*player as usize, pos, t)] = r(1.0);
        }
    }
    assert_eq!(model.num_x_vars, p.num_players * p.num_positions * p.num_periods);
    x
}

/// Turning on the stamina cap adds exactly one rolling window row per player (for the default
/// 4-period instance and a cap of 3) to both the LP and the IP, and the planned schedule respects
/// the cap.
#[test]
fn stamina_cap_constrains_lp_ip_and_solution() {
    let base = sample(AffinityBuilderOptions { seed: Some(1234), ..Default::default() });
    let capped = sample(AffinityBuilderOptions {
        seed: Some(1234),
        max_consecutive_on_field: Some(3),
        ..Default::default()
    });

    // 4 periods, cap 3: one window [T1..T4] per player, so num_players more rows.
    let lp_base = build_soccer_lp(&base);
    let lp_capped = build_soccer_lp(&capped);
    assert_eq!(lp_capped.a_ub.len(), lp_base.a_ub.len() + capped.num_players);
    let ip_base = build_soccer_ipmip(&base, &plus);
    let ip_capped = build_soccer_ipmip(&capped, &plus);
    assert_eq!(ip_capped.ip.a.len(), ip_base.ip.a.len() + capped.num_players);

    let opts = SoccerIPMIPPolicyOptions {
        time_limit_ms: Some(r(15_000.0)),
        max_nodes: Some(400),
        max_ticks: Some(4_000),
        lp_algorithm: Some(LpRelaxationAlgorithm::Concrete(
            ConcreteLpRelaxationAlgorithm::InternalSimplex,
        )),
        max_cut_rounds: Some(0),
        fallback_to_mdp: Some(false),
        ..Default::default()
    };
    let search = |model: &SoccerIPMIPModel, _: &IPMIPSolveOptions| {
        let found = policy_greedy_feasible_schedule(&capped, assign, &plus, &times, &count).expect("a schedule");
        IPMIPSolution {
            status: "optimal".to_string(),
            cancelled: false,
            x: vector_of(&capped, model, &found),
        }
    };
    let res = policy_ipmip_feasible(&capped, &opts, search, assign, &plus, &times, &count)
        .expect("a plan");
    assert!(!res.used_fallback, "reason={:?}", res.fallback_reason);
    let eval = evaluate_schedule(&capped, &res.schedule);
    assert!(eval.fairness_ok);
    assert!(
        eval.stamina_ok,
        "stamina violations: {:?}",
        eval.consecutive_on_field_violations
    );
}

/// The roster size is configurable while staying 7-a-side: 11 and 13 players shrink or grow only
/// the bench.
#[test]
fn roster_size_is_configurable() {
    for (players, bench) in [(11usize, 4usize), (13usize, 6usize)] {
        let p = sample(AffinityBuilderOptions {
            num_players: Some(players),
            max_consecutive_on_field: Some(3),
            seed: Some(7),
            ..Default::default()
        });
        assert_eq!(p.num_players, players);
        assert_eq!(p.num_positions, 7);
        assert_eq!(p.bench_size, bench);
        let sched = policy_greedy_hungarian(&p, &GreedyHungarianOptions::default(), assign);
        assert!(validate_schedule_structure(&p, &sched).is_none());
    }
}

fn dot(row: &[i8], x: &[f64]) -> f64 {
    row.iter().zip(x).map(|(a, b)| f64::from(*a) * b).sum()
}

#[test]
fn lawful_schedules_are_points_of_both_programs() {
    let p = sample(AffinityBuilderOptions {
        seed: Some(5),
        max_consecutive_on_field: Some(3),
        ..Default::default()
    });
    let s = policy_greedy_feasible_schedule(&p, assign, &plus, &times, &count).expect("a schedule");
    assert!(is_lawful(&p, &s));
    let model = build_soccer_ipmip(&p, &plus);
    let x: Vec<f64> = vector_of(&p, &model, &s).iter().map(|v| f(*v)).collect();
    for (row, bound) in model.ip.a.iter().zip(&model.ip.b) {
        assert!(dot(row, &x) <= *bound as f64);
    }
    let lp = build_soccer_lp(&p);
    for (row, bound) in lp.a_ub.iter().zip(&lp.b_ub) {
        assert!(dot(row, &x) <= *bound as f64);
    }
    for (row, value) in lp.a_eq.iter().zip(&lp.b_eq) {
        assert_eq!(dot(row, &x), f64::from(*value));
    }
    let half = r(0.5);
    let xs: Vec<Real64> = x.iter().map(|v| r(*v)).collect();
    let back = schedule_from_soccer_ipmip_vector(&p, &model, &xs, half).expect("decodes");
    assert_eq!(back.assignment, s.assignment);
    // A schedule that benches somebody twice in a row breaks a row.
    let unfair = Schedule {
        assignment: vec![s.assignment[0].clone(); 4],
        bench: vec![s.bench[0].clone(); 4],
    };
    let y: Vec<f64> = vector_of(&p, &model, &unfair).iter().map(|v| f(*v)).collect();
    assert!(model.ip.a.iter().zip(&model.ip.b).any(|(row, bound)| dot(row, &y) > *bound as f64));
    let ys: Vec<Real64> = y.iter().map(|v| r(*v)).collect();
    assert!(schedule_from_soccer_ipmip_vector(&p, &model, &ys, half).is_none());
    assert!(schedule_from_soccer_ipmip_vector(&p, &model, &vec![], half).is_none());
}

fn no_incumbent(cancelled: bool) -> impl Fn(&SoccerIPMIPModel, &IPMIPSolveOptions) -> IPMIPSolution {
    move |_, _| IPMIPSolution { status: "node-limit".to_string(), cancelled, x: vec![] }
}

#[test]
fn plans_fall_back_by_the_active_rules() {
    let open = SoccerIPMIPPolicyOptions::default();
    let free = problem();
    let plan = policy_ipmip_feasible(
        &free, &open, no_incumbent(false), assign, &plus, &times, &count,
    )
    .expect("the exact plan");
    assert!(plan.used_fallback);
    assert_eq!(
        plan.fallback_reason.as_deref(),
        Some("IP/MIP status=node-limit had no feasible incumbent; used exact MDP schedule for continuity")
    );
    let bound = sample(AffinityBuilderOptions {
        max_consecutive_on_field: Some(3),
        ..Default::default()
    });
    let plan = policy_ipmip_feasible(
        &bound, &open, no_incumbent(false), assign, &plus, &times, &count,
    )
    .expect("a built plan");
    assert!(plan.fallback_reason.unwrap().contains("constructive planner fallback"));
    assert!(is_lawful(&bound, &plan.schedule));
    let closed = SoccerIPMIPPolicyOptions { fallback_to_mdp: Some(false), ..open };
    let refused = policy_ipmip_feasible(
        &free, &closed, no_incumbent(false), assign, &plus, &times, &count,
    );
    assert!(matches!(refused, Err(PlanFailure::NothingFound { .. })));
    let cancelled = policy_ipmip_feasible(
        &free, &open, no_incumbent(true), assign, &plus, &times, &count,
    );
    assert!(matches!(cancelled, Err(PlanFailure::Cancelled)));
    // One player for two positions: nothing can be built.
    let mut short = flat(3, 2, 2);
    short.player_status = Some(vec![
        PlayerStatus::Injured,
        PlayerStatus::Awol,
        PlayerStatus::Guest,
    ]);
    let stuck = policy_ipmip_feasible(
        &short, &open, no_incumbent(false), assign, &plus, &times, &count,
    );
    assert!(matches!(stuck, Err(PlanFailure::NothingBuilt { .. })));
    // Two of three on the bench: somebody sits twice in a row.
    let crowded = flat(3, 1, 2);
    let unfair = policy_ipmip_feasible(
        &crowded, &open, no_incumbent(false), assign, &plus, &times, &count,
    );
    assert!(matches!(unfair, Err(PlanFailure::NothingFair { .. })));
}

#[test]
fn solver_options_have_their_defaults() {
    let o = resolve_options(&SoccerIPMIPPolicyOptions::default());
    assert_eq!(f(o.time_limit_ms), 30_000.0);
    assert_eq!((o.max_nodes, o.max_ticks, o.lp_max_iters), (5_000, 40_000, 6_000));
    assert!(!o.allow_external_solvers);
    assert_eq!((o.max_cut_rounds, o.heuristic_passes), (0, 120));
    assert_eq!(o.node_selection, NodeSelection::BestBound);
    assert_eq!(o.branch_rule, BranchRule::MostFractional);
    let o = resolve_options(&SoccerIPMIPPolicyOptions {
        max_nodes: Some(3),
        node_selection: Some(NodeSelection::Other(2)),
        branch_rule: Some(BranchRule::Other(1)),
        lp_algorithm: Some(LpRelaxationAlgorithm::Concrete(
            ConcreteLpRelaxationAlgorithm::ExternalHighsDs,
        )),
        ..Default::default()
    });
    assert_eq!(o.max_ticks, 100);
    assert!(o.allow_external_solvers);
    assert_eq!(o.node_selection, NodeSelection::Other(2));
    assert_eq!(o.branch_rule, BranchRule::Other(1));
}

fn reply(optimal: bool, x: Vec<Real64>, message: Option<&str>, solver: &str) -> LPSolution {
    LPSolution {
        status: if optimal { "optimal" } else { "infeasible" }.to_string(),
        optimal,
        x,
        objective: r(4.0),
        message: message.map(str::to_string),
        solver: solver.to_string(),
        iters: None,
    }
}

#[test]
fn relaxations_are_rounded_by_shares() {
    let p = problem();
    let greedy = policy_greedy_hungarian(&p, &GreedyHungarianOptions::default(), assign);
    let model = build_soccer_ipmip(&p, &plus);
    let x = vector_of(&p, &model, &greedy);
    let solve = |_: &LPProblem| reply(true, x.clone(), None, "internal");
    let fast = |_: &LPProblem| reply(false, vec![], Some("missing"), "highs-ds");
    let result = policy_lp_relaxed(&p, None, &solve, &fast, assign, &plus).expect("rounded");
    assert_eq!(result.schedule.bench, greedy.bench);
    assert_eq!(f(result.upper_bound_on_rotation), 4.0);
    assert_eq!(result.iters, 0);
    let failing = |_: &LPProblem| reply(false, vec![], None, "internal");
    assert!(matches!(
        policy_lp_relaxed(&p, Some("internal"), &failing, &fast, assign, &plus),
        Err(RelaxationFailure::NotOptimal { .. })
    ));
    let short = |_: &LPProblem| reply(true, vec![r(1.0)], None, "internal");
    assert!(matches!(
        policy_lp_relaxed(&p, Some("internal"), &short, &fast, assign, &plus),
        Err(RelaxationFailure::Malformed { length: 1, expected: 336, .. })
    ));
}

#[test]
fn the_second_solver_notes_why_it_was_asked() {
    let lp = build_soccer_lp(&tiny_internal_solver_problem());
    let solve = |_: &LPProblem| reply(true, vec![], Some("warm"), "internal");
    let fast = |_: &LPProblem| reply(false, vec![], None, "highs-ds");
    let r1 = solve_soccer_rotation_lp(&lp, Some("  "), &solve, &fast);
    assert_eq!(
        r1.message.as_deref(),
        Some("warm; highs-ds fast path unavailable, fell back to internal: infeasible")
    );
    let r2 = solve_soccer_rotation_lp(&lp, Some("internal"), &solve, &fast);
    assert_eq!(r2.message.as_deref(), Some("warm"));
    let good = |_: &LPProblem| reply(true, vec![], None, "highs-ds");
    assert_eq!(solve_soccer_rotation_lp(&lp, None, &solve, &good).solver, "highs-ds");
}

#[test]
fn structure_faults_are_reported_in_order() {
    let p = flat(3, 2, 1);
    let check = |assignment: Vec<Vec<i64>>, bench: Vec<Vec<usize>>| {
        validate_schedule_structure(&p, &Schedule { assignment, bench })
    };
    assert_eq!(check(vec![vec![0, 1]], vec![vec![2]]), None);
    assert!(check(vec![], vec![vec![2]]).is_some());
    assert!(check(vec![vec![0]], vec![vec![2]]).is_some());
    assert!(check(vec![vec![0, 0]], vec![vec![2]]).is_some());
    assert!(check(vec![vec![0, 7]], vec![vec![2]]).is_some());
    assert!(check(vec![vec![0, 1]], vec![vec![1]]).is_some());
    assert!(check(vec![vec![0, -1]], vec![vec![2]]).is_some());
}

#[test]
fn rules_are_counted() {
    let p = SoccerProblem { min_contiguous_on_field: Some(vec![2, 2]), ..flat(2, 1, 3) };
    let s = Schedule {
        assignment: vec![vec![0], vec![1], vec![0]],
        bench: vec![vec![1], vec![0], vec![1]],
    };
    assert_eq!(count_subs(&p, &s), 2);
    assert_eq!(bench_counts(&p, &s), vec![1, 2]);
    assert!(fairness_violations(&p, &s).is_empty());
    assert_eq!(min_contiguous_on_field_violations(&p, &s).len(), 3);
    let eval = evaluate_schedule(&p, &s);
    // No cap on stamina is set: the short stints stand in their own list.
    assert!(eval.fairness_ok && eval.stamina_ok && eval.subs_ok);
    assert_eq!(eval.min_contiguous_on_field_violations.len(), 3);
    let unfair = Schedule {
        assignment: vec![vec![0], vec![0], vec![0]],
        bench: vec![vec![1], vec![1], vec![1]],
    };
    let found = fairness_violations(&p, &unfair);
    assert_eq!(found.len(), 2);
    assert_eq!((found[1].player_id, found[1].period_a, found[1].period_b), (1, 1, 2));
    let mut busy = flat(2, 1, 3);
    busy.max_subs_per_game = Some(1);
    assert!(!evaluate_schedule(&busy, &s).subs_ok);
}

#[test]
fn synergy_changes_a_score() {
    let mut p = flat(2, 2, 1);
    p.synergy_rules = Some(vec![PositionSynergyRule {
        player: 0,
        position: 0,
        partner_player: 1,
        partner_position: 1,
        score_with: r(0.9),
        score_without: r(0.2),
    }]);
    assert_eq!(f(effective_cell_affinity(&p, &vec![0, 1], 0, 0, 0)), 0.9);
    assert_eq!(f(effective_cell_affinity(&p, &vec![0, -1], 0, 0, 0)), 0.2);
    assert_eq!(f(effective_cell_affinity(&p, &vec![1, 0], 1, 0, 0)), 0.0);
    assert!(has_planner_only_constraints(&p));
    assert!(!has_planner_only_constraints(&problem()));
}

#[test]
fn unavailable_players_are_not_fielded() {
    let mut p = flat(4, 2, 2);
    p.player_status = Some(vec![PlayerStatus::Injured, PlayerStatus::Guest]);
    assert!(!player_is_fieldable(&p, 0));
    assert!(player_is_fieldable(&p, 1) && player_is_fieldable(&p, 3));
    p.enforce_no_consecutive_bench = false;
    p.fixed_position = Some(vec![None, Some(1)]);
    let s = policy_greedy_feasible_schedule(&p, assign, &plus, &times, &count).expect("a schedule");
    assert!(is_lawful(&p, &s));
    for row in &s.assignment {
        assert!(!row.contains(&0));
        assert_ne!(row[0], 1);
    }
}

#[test]
fn combinations_come_in_order() {
    assert_eq!(combinations(4, 2).len(), 6);
    assert_eq!(combinations(4, 2)[0], vec![0, 1]);
    assert_eq!(combinations(4, 2)[5], vec![2, 3]);
    assert_eq!(combinations(3, 0), vec![Vec::<usize>::new()]);
    assert!(combinations(2, 3).is_empty());
}

#[test]
fn plans_without_periods_or_benches_are_bare() {
    let none = policy_mdp_vi(&flat(2, 1, 0), &assign, &plus).expect("nothing to plan");
    assert!(none.assignment.is_empty());
    assert_eq!(f(none.optimal_value), 0.0);
    let mut odd = flat(2, 1, 1);
    odd.bench_size = 3;
    let bare = policy_mdp_vi(&odd, &assign, &plus).expect("a bare period");
    assert_eq!((bare.assignment, bare.bench), (vec![vec![]], vec![vec![]]));
    assert_eq!(f(bare.optimal_value), f64::NEG_INFINITY);
    let alone = policy_mdp_vi_memoryless(&odd, &assign, &plus);
    assert_eq!(alone.schedule.assignment, vec![Vec::<i64>::new()]);
}

#[test]
fn shuffled_schedules_are_proper() {
    let p = flat(5, 3, 2);
    let s = policy_random_schedule(&p, &vec![vec![4, 0, 1, 0], vec![0, 1, 2, 1]]);
    assert!(validate_schedule_structure(&p, &s).is_none());
}

#[test]
fn formations_are_read_and_named() {
    assert_eq!(parse_outfield_formation("4-3-3"), Some(vec![4, 3, 3]));
    assert_eq!(parse_outfield_formation(" 2, 3 ,1 "), Some(vec![2, 3, 1]));
    assert_eq!(parse_outfield_formation("4-x"), None);
    assert_eq!(parse_outfield_formation(""), None);
    let rows = formation_with_gk(&default_outfield_formation(7));
    assert_eq!(rows.iter().sum::<usize>(), 7);
    let names = formation_position_names(&rows);
    assert_eq!(names.len(), 7);
    assert_eq!(names[0], "GK");
    assert_eq!(side_prefix(0, 2), "L");
    assert_eq!(side_prefix(1, 2), "R");
}

#[test]
fn beliefs_tire_and_recover() {
    let p = blank_problem(2, 1, 2, vec![vec![vec![r(1.0); 2]]; 2]);
    let s = Schedule {
        assignment: vec![vec![0], vec![1]],
        bench: vec![vec![1], vec![0]],
    };
    let log = |x: Real64| r(f(x).log2());
    let out = evaluate_soccer_pomdp_features(
        &p,
        &s,
        &SoccerPOMDPFeatureOptions::default(),
        &plus,
        &times,
        &over,
        &count,
        &log,
    );
    assert_eq!(out.model, "hidden-fatigue-belief");
    assert_eq!(out.per_period.len(), 2);
    assert!((f(out.per_period[0].expected_fresh_on_field) - 0.82).abs() < 1e-12);
    let rested = 0.82 + 0.18 * 0.55;
    assert!((f(out.per_period[1].expected_fresh_on_field) - rested).abs() < 1e-12);
    assert!((f(out.per_period[1].expected_lineup_reliability) - (0.65 + 0.35 * rested)).abs() < 1e-12);
    let tired = 0.82 * 0.78;
    assert!((f(out.final_fresh_probability[0]) - (tired + (1.0 - tired) * 0.55)).abs() < 1e-12);
}

#[test]
fn seeds_count_up() {
    assert_eq!(MatchSimOptions::default().seed_or_default(), 1);
    assert_eq!(MatchSimOptions { seed: Some(9), ..Default::default() }.seed_or_default(), 9);
    assert_eq!(AffinityBuilderOptions::default().seed_or_default(), 4242);
    let seeded = AffinityBuilderOptions { seed: Some(0), ..Default::default() };
    assert_eq!(seeded.seed_or_default(), 0);
    assert_eq!(match_seeds(10, 3), vec![10, 11, 12]);
    assert!(match_seeds(10, 0).is_empty());
}

#[test]
fn sample_affinities_follow_the_draws() {
    for seed in [7, 4242] {
        let opts = AffinityBuilderOptions { seed: Some(seed), ..Default::default() };
        let p = sample(opts);
        assert_eq!(p.affinity, affinities(&opts));
        assert!(p.affinity.iter().flatten().flatten().all(|a| (0.0..=1.0).contains(&f(*a))));
    }
    let opts = AffinityBuilderOptions { num_periods: Some(1), ..Default::default() };
    assert_eq!(sample(opts).affinity, affinities(&opts));
}

#[test]
fn doubt_is_greatest_in_the_middle() {
    let log = |x: Real64| r(f(x).log2());
    assert_eq!(f(binary_entropy(r(0.5), &plus, &times, &log)), 1.0);
    assert!(f(binary_entropy(r(1.0), &plus, &times, &log)) < 1e-9);
    assert!(f(binary_entropy(r(0.2), &plus, &times, &log)) < 0.73);
}

#[test]
fn samples_are_compared_by_their_means() {
    let a = vec![r(1.0), r(2.0), r(3.0)];
    let b = vec![r(0.0), r(2.0)];
    let t = f(welch_t(&a, &b, &plus, &times, &over, &count, &root));
    assert!((t - 1.0 / (1.0_f64 / 3.0 + 1.0).sqrt()).abs() < 1e-12);
    let back = WelchT.transform(WelchTInput { a: &b, b: &a }, &plus, &times, &over, &count, &root);
    assert_eq!(f(back), -t);
}

#[test]
fn many_matches_are_taken_together() {
    let p = problem();
    let s = policy_greedy_hungarian(&p, &GreedyHungarianOptions::default(), assign);
    let opts = MatchSimOptions { minutes_per_period: Some(5), ..Default::default() };
    let run = RunManyMatches::new(RunManyMatchesConfig {
        policy_name: "greedy".to_string(),
        num_matches: 4,
        seed_base: 30,
        match_opts: Some(opts),
    });
    let seeds = run.seeds();
    assert_eq!(seeds, vec![30, 31, 32, 33]);
    let all: Vec<Vec<(Real64, Real64)>> =
        seeds.iter().map(|seed| draws(*seed, 5 * p.num_periods)).collect();
    let signed = |n: i64| r(n as f64);
    let input = || ProblemScheduleInput { problem: &p, schedule: &s };
    let out = run.transform(input(), &all, &plus, &times, &over, &count, &root, &signed);
    assert_eq!(out.policy_name, "greedy");
    assert_eq!(out.schedule.assignment, s.assignment);
    assert_eq!(out.schedule.bench, s.bench);
    let diffs: Vec<f64> = all
        .iter()
        .map(|d| {
            let m = simulate_match_des(&p, &s, &opts, d, &plus, &times, &over, &count);
            m.record.goal_differential as f64
        })
        .collect();
    assert_eq!(out.raw_goal_diffs.iter().map(|d| f(*d)).collect::<Vec<_>>(), diffs);
    let mean = diffs.iter().sum::<f64>() / 4.0;
    assert!((f(out.mean_goal_diff) - mean).abs() < 1e-12);
    let spread = diffs.iter().map(|d| (d - mean).powi(2)).sum::<f64>() / 3.0;
    assert!((f(out.sd_goal_diff) - spread.sqrt()).abs() < 1e-12);
    assert!((f(out.mean_goals_for) - f(out.mean_goals_against) - mean).abs() < 1e-12);
    assert!((f(out.affinity_sum_deterministic) - earned(&p, &s)).abs() < 1e-9);
    assert_eq!(out.bench_counts, bench_counts(&p, &s));
}

fn value(c: &[Real64], x: &[f64]) -> f64 {
    c.iter().zip(x).map(|(a, b)| f(*a) * b).sum()
}

/// Tries every point with whole coordinates.
fn solve_by_trial(lp: &LPProblem) -> LPSolution {
    let n = lp.c.len();
    let mut best: Option<(f64, Vec<f64>)> = None;
    for mask in 0..(1usize << n) {
        let x: Vec<f64> = (0..n).map(|v| ((mask >> v) & 1) as f64).collect();
        let fits = lp.a_ub.iter().zip(&lp.b_ub).all(|(row, b)| dot(row, &x) <= *b as f64)
            && lp.a_eq.iter().zip(&lp.b_eq).all(|(row, b)| dot(row, &x) == f64::from(*b));
        let z = value(&lp.c, &x);
        if fits && best.as_ref().map_or(true, |(top, _)| z > *top) {
            best = Some((z, x));
        }
    }
    let (z, x) = best.expect("a point");
    LPSolution {
        status: "optimal".to_string(),
        optimal: true,
        x: x.into_iter().map(r).collect(),
        objective: r(z),
        message: None,
        solver: "internal".to_string(),
        iters: Some(1),
    }
}

#[test]
fn soccer_lp_relaxation_solves_with_internal_simplex() {
    let p = tiny_internal_solver_problem();
    let lp = build_soccer_lp(&p);
    let sol = solve_soccer_rotation_lp(&lp, None, &solve_by_trial, &solve_by_trial);
    assert!(sol.optimal, "message={:?}", sol.message);
    assert_eq!(sol.solver, "internal");
    assert!((f(sol.objective) - 4.0).abs() < 1e-6, "z={}", f(sol.objective));
}

/// Tries every point that fills each period's positions.
fn search_by_trial(model: &SoccerIPMIPModel, _options: &IPMIPSolveOptions) -> IPMIPSolution {
    let n = model.ip.c.len();
    let extra = n - model.num_x_vars;
    let seats = (model.num_positions * model.num_periods) as u32;
    let mut best: Option<(f64, Vec<f64>)> = None;
    for mask in 0..(1usize << model.num_x_vars) {
        if mask.count_ones() != seats {
            continue;
        }
        for more in 0..(1usize << extra) {
            let all = mask | (more << model.num_x_vars);
            let x: Vec<f64> = (0..n).map(|v| ((all >> v) & 1) as f64).collect();
            let z = value(&model.ip.c, &x);
            if best.as_ref().map_or(true, |(top, _)| z > *top)
                && model.ip.a.iter().zip(&model.ip.b).all(|(row, b)| dot(row, &x) <= *b as f64)
            {
                best = Some((z, x));
            }
        }
    }
    let (_, x) = best.expect("a point");
    IPMIPSolution {
        status: "optimal".to_string(),
        cancelled: false,
        x: x.into_iter().map(r).collect(),
    }
}

#[test]
fn soccer_ipmip_policy_uses_internal_branch_and_cut_only() {
    let p = tiny_internal_solver_problem();
    let result = policy_ipmip_feasible(
        &p,
        &SoccerIPMIPPolicyOptions {
            time_limit_ms: Some(r(5_000.0)),
            max_nodes: Some(20),
            max_ticks: Some(500),
            lp_max_iters: Some(200),
            lp_algorithm: Some(LpRelaxationAlgorithm::Concrete(
                ConcreteLpRelaxationAlgorithm::InternalSimplex,
            )),
            max_cut_rounds: Some(0),
            fallback_to_mdp: Some(false),
            ..Default::default()
        },
        search_by_trial,
        assign,
        &plus,
        &times,
        &count,
    )
    .expect("a plan");
    assert_eq!(result.mip.status, "optimal");
    assert!(!result.used_fallback, "reason={:?}", result.fallback_reason);
    assert!(!result.solver_options.allow_external_solvers);
    assert_eq!(
        result.solver_options.lp_algorithm,
        LpRelaxationAlgorithm::Concrete(ConcreteLpRelaxationAlgorithm::InternalSimplex)
    );
    assert_eq!(result.solver_options.max_nodes, 20);
    assert!((earned(&p, &result.schedule) - 4.0).abs() < 1e-9);
}

#[test]
fn candidates_are_rated_by_form_and_load() {
    let rated = |goes_on, run| f(rate_player(r(0.5), goes_on, run, &plus, &times, &count));
    assert_eq!(rated(false, 0), 0.5);
    assert!((rated(true, 2) - 0.05).abs() < 1e-12);
}

#[test]
fn partners_add_to_the_objective() {
    let mut p = flat(3, 2, 1);
    p.synergy_rules = Some(vec![PositionSynergyRule {
        player: 0,
        position: 0,
        partner_player: 1,
        partner_position: 1,
        score_with: r(0.75),
        score_without: r(0.25),
    }]);
    let model = build_soccer_ipmip(&p, &plus);
    assert_eq!(f(model.ip.c[model.variable_index(0, 0, 0)]), 0.25);
    assert_eq!(f(model.ip.c[model.num_x_vars]), 0.5);
}

/// The value of every column at a schedule.
fn point_of(p: &SoccerProblem, model: &SoccerIPMIPModel, s: &Schedule) -> Vec<f64> {
    let mut x: Vec<f64> = vector_of(p, model, s).iter().map(|v| f(*v)).collect();
    let rules = p.synergy_rules.as_ref().map_or(0, |r| r.len());
    for i in 0..rules {
        let rule = &p.synergy_rules.as_ref().unwrap()[i];
        for t in 0..p.num_periods {
            let row = &s.assignment[t];
            if row[rule.position] == rule.player as i64
                && row[rule.partner_position] == rule.partner_player as i64
            {
                x[model.num_x_vars + i * p.num_periods + t] = 1.0;
            }
        }
    }
    x
}

#[test]
fn the_last_rule_of_a_cell_pays() {
    let mut p = flat(3, 2, 1);
    let rule = |partner_player: usize, with: f64, without: f64| PositionSynergyRule {
        player: 0,
        position: 0,
        partner_player,
        partner_position: 1,
        score_with: r(with),
        score_without: r(without),
    };
    p.synergy_rules = Some(vec![rule(1, 0.75, 0.25), rule(2, 1.0, 0.5)]);
    let model = build_soccer_ipmip(&p, &plus);
    assert_eq!(f(model.ip.c[model.variable_index(0, 0, 0)]), 0.5);
    assert_eq!(f(model.ip.c[model.num_x_vars]), 0.0);
    assert_eq!(f(model.ip.c[model.num_x_vars + 1]), 0.5);
    for (line_up, bench, worth) in [([0, 1], 2, 0.5), ([0, 2], 1, 1.0), ([1, 2], 0, 0.0)] {
        let s = Schedule { assignment: vec![line_up.to_vec()], bench: vec![vec![bench]] };
        assert_eq!(value(&model.ip.c, &point_of(&p, &model, &s)), worth);
        assert_eq!(earned(&p, &s), worth);
    }
}

#[test]
fn objectives_are_worth_what_a_schedule_earns() {
    let p = problem();
    let s = policy_greedy_feasible_schedule(&p, assign, &plus, &times, &count).expect("a schedule");
    let model = build_soccer_ipmip(&p, &plus);
    let x = point_of(&p, &model, &s);
    assert!((value(&build_soccer_lp(&p).c, &x) - earned(&p, &s)).abs() < 1e-9);
    assert!((value(&model.ip.c, &x) - earned(&p, &s)).abs() < 1e-9);
}

#[test]
fn written_formations_are_read_back() {
    for lines in [vec![4, 4, 2], vec![10], vec![3, 12, 107]] {
        for separator in ["-", ",", " "] {
            let text =
                lines.iter().map(|n: &usize| n.to_string()).collect::<Vec<_>>().join(separator);
            assert_eq!(parse_outfield_formation(&text), Some(lines.clone()));
        }
    }
    assert_eq!(parse_outfield_formation("4-0-2"), None);
}

#[test]
fn encoded_schedules_are_decoded() {
    let p = problem();
    let s = policy_greedy_feasible_schedule(&p, assign, &plus, &times, &count).expect("a schedule");
    let model = build_soccer_ipmip(&p, &plus);
    let xs = vector_of(&p, &model, &s);
    for threshold in [0.0, 0.5, 0.9] {
        let back = schedule_from_soccer_ipmip_vector(&p, &model, &xs, r(threshold)).expect("decodes");
        assert_eq!(back.assignment, s.assignment);
        assert!(back.bench.iter().all(|b| b.windows(2).all(|w| w[0] < w[1])));
    }
}

#[test]
fn matches_without_a_bench_are_planned() {
    let p = flat(2, 2, 3);
    let unsure =
        |_: &Vec<Vec<Real64>>| AssignmentResult { rows: vec![0, 1], total: r(f64::NAN) };
    let plan = policy_mdp_vi(&p, &unsure, &plus).expect("a plan");
    assert_eq!(plan.assignment.len(), 3);
    assert!(plan.bench.iter().all(|b| b.is_empty()));
}

#[test]
fn fixed_players_and_substitutions_have_rows() {
    let mut p = flat(3, 2, 2);
    p.enforce_no_consecutive_bench = false;
    p.fixed_position = Some(vec![None, Some(1)]);
    p.max_subs_per_game = Some(1);
    let model = build_soccer_ipmip(&p, &plus);
    assert!(model.ip.con_names.iter().any(|n| n.starts_with("fixed_min_")));
    assert!(model.ip.con_names.iter().any(|n| n.starts_with("on_hold_")));
    assert!(model.ip.con_names.iter().filter(|n| n.contains("sub")).count() > 0);
}
