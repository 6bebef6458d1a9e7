use soccer::central::{
    CentralBrainTeamShapeTrace, CentralOperation, SoccerAdversarialEmbeddingSignal,
    SoccerAdversarialEmbeddingSignals, TeamTacticalDirective,
};
use soccer::commitment::{CommitmentConstants, PossessionReading};
use soccer::coordination::{
    AttackingOverloadProfile, CentralBrain, DefensiveCoverProfile, DirectiveQuestion, StepOpening,
};
use soccer::formation::anchor::{
    anchor_depth, ball_side_pull, relational_pull, soccer_formation_lp_offensive_overlap_relief,
    soccer_formation_lp_pair_shape_relief, soccer_formation_lp_reach_yards, DepthMeasures,
    OverlapLimits, OverlapMeasures, PullMeasures, ReachMeasures,
};
use soccer::formation::brain::{
    FormationProblem, SoccerFormationLpBrain, SolveBudget, SolveTelemetry,
};
use soccer::formation::guidance::{
    soccer_formation_lp_budgeted_fallback_solution, LPSolution, LPStatus, SlotHead,
    SoccerFormationLpObjectiveWeights,
};
use soccer::formation::inputs::{
    soccer_formation_lp_slot_inputs, PlayerReading, SlotSituation,
};
use soccer::formation::lines::{annotate_formation_lp_role_line_errors, GuidedTarget};
use soccer::formation::local::{
    soccer_local_mpc_planar_obstacles, soccer_local_mpc_whole_field_context, FieldBall,
    FieldPlayer, Intent, PlanarObstacle,
};
use soccer::formation::motion::LineTolerances;
use soccer::formation::objective::{
    soccer_formation_lp_objective_weights, strategy_profile, ObjectiveInputs,
};
use soccer::formation::plan::{soccer_local_mpc_refined_guidance, PlanarPlan};
use soccer::formation::reading::{
    find_objective_inputs, find_readings, find_reliefs, FieldReadings, SituationReadings,
};
use soccer::formation::refine::{
    refinement_effort, soccer_local_mpc_axis_bounds, soccer_local_mpc_candidate_priority,
    AxisMotion, UrgencyMeasures,
};
use soccer::formation::shape::{
    relational_shape_cohesion_target, relational_shape_error_yards,
    relational_shape_learning_reward, soccer_formation_lp_spread_line_x,
    soccer_formation_lp_stagger_role_layers, RosterEntry, ShapeRewardRates, ShapeSlot, ShapeStep,
    StaggerBands,
};
use soccer::formation::slots::{
    line_up, local_mpc_picks, presses_hard, pressure_ranks, role_line_peers, PlayerHead, PressHead,
};
use soccer::formation::solving::{FormationSituation, SolveSettings};
use soccer::formation::state::{
    soccer_formation_lp_average_fatigue, soccer_formation_lp_ball_holder_elapsed_seconds,
    soccer_formation_lp_rest_defense_score, soccer_lp_scaled, soccer_lp_unit, HolderSample, Mover,
    TeamMember,
};
use soccer::formation::tick::{LineWeights, SoccerFormationLpSlotInput, TickFrame};
use soccer::formation::zone::{
    soccer_formation_lp_anchor, AnchorRules, FieldSense, ShapePull, ZonePlayer, ZoneSituation,
};
use soccer::marking::cover::SeenOpponent;
use soccer::number::Real64;
use soccer::observe::{
    team_brain_shape_from_awareness, team_shape_observation_from_snapshot, BallRings, Observed,
    SeenPlayer,
};
use soccer::pitch::{PlayerRole, TacticalPhase, Team, Vec2};
use soccer::step::{BallRecord, FieldStep, TeamStep};
use soccer::strategy::{FlankAttackPolicy, TeamAttackStrategy, TeamDefenseStrategy};

fn f(r: Real64) -> f64 {
    f64::from_bits(r.to_bits())
}

fn r(x: f64) -> Real64 {
    Real64::from_bits(x.to_bits())
}

fn v(x: f64, y: f64) -> Vec2 {
    Vec2 { x: r(x), y: r(y) }
}

fn plus(a: Real64, b: Real64) -> Real64 {
    r(f(a) + f(b))
}

fn times(a: Real64, b: Real64) -> Real64 {
    r(f(a) * f(b))
}

fn over(a: Real64, b: Real64) -> Real64 {
    r(f(a) / f(b))
}

fn count(n: usize) -> Real64 {
    r(n as f64)
}

fn signed(n: i64) -> Real64 {
    r(n as f64)
}

fn distance(a: Vec2, b: Vec2) -> Real64 {
    r((f(a.x) - f(b.x)).hypot(f(a.y) - f(b.y)))
}

fn size(a: Vec2) -> f64 {
    f(a.x).hypot(f(a.y))
}

fn unit(a: Vec2) -> Vec2 {
    let n = size(a);
    if n > 1e-9 {
        v(f(a.x) / n, f(a.y) / n)
    } else {
        v(0.0, 0.0)
    }
}

fn limit(a: Vec2, most: Real64) -> Vec2 {
    let n = size(a);
    if n > f(most) && n > 0.0 {
        v(f(a.x) / n * f(most), f(a.y) / n * f(most))
    } else {
        a
    }
}

fn near(a: Real64, b: f64) {
    assert!((f(a) - b).abs() < 1e-9, "{} is not {b}", f(a));
}

fn frame() -> TickFrame {
    TickFrame { width: r(80.0), length: r(120.0), dt_seconds: r(0.1), attack_dir: r(1.0) }
}

fn directive() -> TeamTacticalDirective {
    TeamTacticalDirective::neutral(Team::Home, r(80.0), r(120.0), &times)
}

fn brain() -> SoccerFormationLpBrain {
    SoccerFormationLpBrain::new(Team::Home, r(80.0), r(120.0), 400)
}

#[test]
fn the_program_has_its_shape() {
    let b = brain();
    assert_eq!(b.problem.c.len(), 521);
    assert_eq!(b.problem.a_ub.len(), 550);
    assert_eq!(b.problem.a_eq.len(), 202);
    assert_eq!(b.problem.con_names.len(), 752);
    assert_eq!(b.pair_vars.len(), 55);
    assert_eq!((b.pair_vars[54].a, b.pair_vars[54].b), (9, 10));
    assert_eq!(b.state_vars.players_start, 319);
    assert_eq!(b.last_solve_status, "not-solved");
    let row = &b.problem.a_ub[b.player_rows[3].anchor_x_upper];
    let vars = b.player_vars[3];
    assert_eq!(f(row[vars.target_x]), 1.0);
    assert_eq!(f(row[vars.anchor_slack_x]), -1.0);
    assert_eq!(row.iter().filter(|x| f(**x) != 0.0).count(), 2);
    let distinct: std::collections::BTreeSet<&String> = b.problem.var_names.iter().collect();
    assert_eq!(distinct.len(), 521);
}

#[test]
fn slow_solves_open_the_breaker() {
    let budget =
        SolveBudget { micros: 1000, min_iter: 50, max_iter: 400, recover_step: 30, circuit_limit: 3 };
    let mut t = brain().telemetry;
    assert!(t.solves_exactly(true) && !t.solves_exactly(false));
    t.record_solve(true, 2000, true, &budget);
    assert_eq!((t.adaptive_max_iter, t.consecutive_timeouts, t.basis_kept), (200, 1, true));
    t.record_solve(true, 100, false, &budget);
    assert_eq!((t.adaptive_max_iter, t.consecutive_timeouts, t.suboptimal_count), (230, 0, 1));
    assert!(!t.basis_kept);
    for _ in 0..3 {
        assert!(t.solves_exactly(true));
        t.record_solve(true, 1001, false, &budget);
    }
    assert!(t.simplex_circuit_open && !t.solves_exactly(true));
    assert_eq!(t.adaptive_max_iter, 50);
    let before: SolveTelemetry = t;
    t.record_solve(false, 7, false, &budget);
    assert_eq!(t.solve_count, before.solve_count + 1);
    assert_eq!(t.suboptimal_count, before.suboptimal_count);
    assert!(t.simplex_circuit_open);
}

#[test]
fn players_take_their_slots() {
    let p = |id, team, role| PlayerHead { id, team, role };
    let players = vec![
        p(9, Team::Home, PlayerRole::Forward),
        p(2, Team::Away, PlayerRole::Goalkeeper),
        p(5, Team::Home, PlayerRole::Defender),
        p(1, Team::Home, PlayerRole::Goalkeeper),
        p(3, Team::Home, PlayerRole::Defender),
    ];
    assert_eq!(line_up(&players, Team::Home), vec![3, 4, 2, 0]);
    assert_eq!(line_up(&players, Team::Away), vec![1]);
    let head = |role, d: f64| PressHead { role, distance: r(d) };
    let ranks = pressure_ranks(&vec![
        head(PlayerRole::Goalkeeper, 0.0),
        head(PlayerRole::Forward, 8.0),
        head(PlayerRole::Defender, 3.0),
        head(PlayerRole::Midfielder, 8.0),
    ]);
    assert_eq!(ranks, vec![2, 1, 3]);
    assert!(presses_hard(0, 0) && !presses_hard(1, 0));
    assert!(presses_hard(3, 9) && !presses_hard(4, 9));
    assert_eq!(local_mpc_picks(&vec![Some(r(0.5)), None, Some(r(2.0)), Some(r(0.5))], 2), vec![2, 0]);
}

fn inputs_at(x: f64) -> ObjectiveInputs {
    let h = r(x);
    ObjectiveInputs {
        attacking_depth: h,
        own_goal_danger: h,
        holder_pressure: h,
        settled: h,
        overload: h,
        numbers: h,
        field_width_usage: h,
        pass_priority: h,
        carry_priority: h,
        press_intensity: h,
        embedding_attack: h,
        embedding_defense: h,
        neural_attack: h,
        neural_defense: h,
        central_pressure: h,
        rest_defense: h,
        fatigue: h,
        near_ball: h,
        opponents_near: h,
        spread_wide: h,
        spread_narrow: h,
    }
}

#[test]
fn weights_follow_the_situation_and_the_play() {
    let weigh = |possession| {
        soccer_formation_lp_objective_weights(
            &inputs_at(0.5),
            possession,
            Team::Home,
            TeamDefenseStrategy::MidBlockZonal,
            TeamAttackStrategy::PatientPossessionProbe,
            &plus,
            &times,
        )
    };
    let loose = weigh(None);
    near(loose.expected_goal, 0.0);
    near(loose.retention, 0.12);
    near(loose.transition_risk, 0.5);
    near(loose.numerical_superiority, 0.5);
    let shifts = strategy_profile(
        TeamDefenseStrategy::MidBlockZonal,
        TeamAttackStrategy::PatientPossessionProbe,
        true,
        false,
    );
    assert!(!shifts.is_empty());
    let with_ball = weigh(Some(Team::Home));
    assert!(f(with_ball.expected_goal) > 0.0);
    near(weigh(Some(Team::Away)).expected_goal, 0.0);
    assert!(strategy_profile(
        TeamDefenseStrategy::MidBlockZonal,
        TeamAttackStrategy::PatientPossessionProbe,
        false,
        false,
    )
    .is_empty());
}

fn readings() -> SituationReadings {
    let shape = CentralBrainTeamShapeTrace {
        spread_yards: r(14.0),
        players_near_ball: 2,
        ..Default::default()
    };
    SituationReadings {
        frame: frame(),
        ball: v(40.0, 90.0),
        opponent_goal_y: r(120.0),
        own_goal_y: r(0.0),
        shape,
        opponent_shape: CentralBrainTeamShapeTrace { players_near_ball: 9, ..shape },
        holder_pressure: r(0.2),
        central_pressure: r(0.3),
        possession_seconds: r(4.0),
        settled_seconds: r(8.0),
        holder_seconds: r(1.0),
        embedding_confidence: r(1.0),
        rest_defense: r(0.6),
        average_fatigue: r(0.1),
        clock_seconds: r(100.0),
        duration_seconds: r(5400.0),
        score_home: 1,
        score_away: 3,
    }
}

#[test]
fn measures_are_read_off_the_situation() {
    let d = TeamTacticalDirective {
        attacking_numbers_advantage: 1,
        pass_priority: r(f64::NAN),
        adversarial_embedding_attack_score: r(0.5),
        ..directive()
    };
    let i = find_objective_inputs(&readings(), &d, &plus, &times, &over, &count, &signed, &distance);
    near(i.attacking_depth, 0.75);
    near(i.own_goal_danger, 0.25);
    near(i.settled, 0.5);
    near(i.numbers, 0.75);
    near(i.field_width_usage, 0.62);
    near(i.pass_priority, 1.0);
    near(i.embedding_attack, 0.5);
    near(i.near_ball, 0.5);
    near(i.opponents_near, 1.0);
    near(i.spread_narrow, 14.0 / 24.0);
    near(i.spread_wide, 0.5);
    assert_eq!(f(soccer_lp_unit(r(f64::NAN))), 0.0);
    assert_eq!(f(soccer_lp_scaled(r(9.0), r(2.0), &over)), 2.0);
    assert_eq!(f(soccer_lp_scaled(r(9.0), r(0.0), &over)), 0.0);
}

#[test]
fn the_state_of_a_team_is_measured() {
    let s = |holder, t: f64| HolderSample { holder, clock_seconds: r(t) };
    let history = vec![s(Some(4), 1.0), s(Some(7), 2.0), s(Some(7), 3.0)];
    let held = |h| {
        f(soccer_formation_lp_ball_holder_elapsed_seconds(&history, h, r(5.0), &plus))
    };
    assert_eq!(held(Some(7)), 3.0);
    assert_eq!(held(Some(4)), 0.0);
    assert_eq!(held(None), 0.0);
    let m = |team, role, fatigue: f64, y: f64| TeamMember {
        team,
        role,
        fatigue: r(fatigue),
        position_y: r(y),
    };
    let team = vec![
        m(Team::Home, PlayerRole::Defender, 0.5, 30.0),
        m(Team::Home, PlayerRole::Forward, 2.0, 10.0),
        m(Team::Away, PlayerRole::Defender, 0.9, 0.0),
    ];
    let tired = |t| f(soccer_formation_lp_average_fatigue(&team, t, &plus, &over, &count));
    assert_eq!(tired(Team::Home), 0.75);
    assert_eq!(soccer_formation_lp_average_fatigue(&vec![], Team::Home, &plus, &over, &count), r(0.0));
    let cover = soccer_formation_lp_rest_defense_score(
        &team, Team::Home, r(60.0), r(1.0), &plus, &times, &over, &count,
    );
    assert!(f(cover) > 0.0 && f(cover) <= 1.0);
}

fn slot(role: PlayerRole, home_x: f64, x: f64, y: f64) -> ShapeSlot {
    ShapeSlot { active: true, role, home_x: r(home_x), anchor: v(x, y) }
}

#[test]
fn lines_are_spread_and_staggered() {
    let mut line = vec![
        slot(PlayerRole::Defender, 50.0, 42.0, 20.0),
        slot(PlayerRole::Defender, 20.0, 40.0, 20.0),
        slot(PlayerRole::Forward, 41.0, 41.0, 60.0),
    ];
    soccer_formation_lp_spread_line_x(
        &mut line, PlayerRole::Defender, r(10.0), r(0.5), &plus, &times,
    );
    near(line[1].anchor.x, 38.0);
    near(line[0].anchor.x, 44.0);
    near(line[2].anchor.x, 41.0);
    let bands = StaggerBands {
        mid_ahead: r(10.0),
        forward_ahead: r(10.0),
        backline_gap: r(1.0),
        midline_gap: r(1.0),
    };
    let mut lines = vec![
        slot(PlayerRole::Defender, 40.0, 40.0, 30.0),
        slot(PlayerRole::Midfielder, 40.0, 40.0, 35.0),
        slot(PlayerRole::Forward, 40.0, 130.0, 60.0),
    ];
    soccer_formation_lp_stagger_role_layers(
        &mut lines, r(1.0), &bands, r(80.0), r(120.0), &plus, &times, &over, &count,
    );
    near(lines[1].anchor.y, 38.0);
    near(lines[2].anchor.y, 60.0);
    near(lines[2].anchor.x, 80.0);
}

#[test]
fn players_keep_their_offsets() {
    let e = |id, home: Vec2, current: Vec2| RosterEntry {
        id,
        team: Team::Home,
        role: PlayerRole::Midfielder,
        current,
        home,
    };
    let roster = vec![
        e(1, v(40.0, 40.0), v(0.0, 0.0)),
        e(2, v(44.0, 40.0), v(50.0, 50.0)),
        e(3, v(36.0, 40.0), v(40.0, 48.0)),
        e(4, v(10.0, 10.0), v(90.0, 90.0)),
    ];
    let target = relational_shape_cohesion_target(
        &roster, 1, Team::Home, v(40.0, 40.0), 2, &plus, &over, &count, &distance,
    )
    .expect("neighbours");
    assert_eq!(target, v(45.0, 49.0));
    near(relational_shape_error_yards(Some(target), v(45.0, 40.0), r(2.0), &plus, &distance), 7.0);
    near(relational_shape_error_yards(None, v(45.0, 40.0), r(2.0), &plus, &distance), 0.0);
    let rates = ShapeRewardRates { neighbours: 2, tolerance: r(2.0), cap: r(6.0), per_yard: r(0.25) };
    let reward = |player_id, before: Vec2, after: Vec2| {
        let step = ShapeStep { player_id, team: Team::Home, before, after };
        relational_shape_learning_reward(
            &roster, &roster, &step, &rates, &plus, &times, &over, &count, &distance,
        )
    };
    // Two yards gained, three left; then two yards lost, five left.
    near(reward(1, v(45.0, 42.0), v(45.0, 44.0)), (2.0 - 0.1 * 3.0) * 0.25);
    near(reward(1, v(45.0, 44.0), v(45.0, 42.0)), (-2.0 - 0.1 * 5.0) * 0.25);
    // An error that is held costs.
    near(reward(1, v(45.0, 44.0), v(45.0, 44.0)), -0.1 * 3.0 * 0.25);
    near(reward(1, v(45.0, 20.0), v(45.0, 49.0)), 1.5);
    near(reward(77, v(45.0, 20.0), v(45.0, 49.0)), 0.0);
}

#[test]
fn anchors_follow_ball_and_directive() {
    let d = DepthMeasures {
        attack_dir: r(1.0),
        own_goal_y: r(0.0),
        defensive_line_y: r(48.0),
        support_depth_yards: r(10.0),
        press_intensity: r(0.5),
        ball_y: r(60.0),
        home_y: r(40.0),
    };
    let depth = |role, possession| {
        f(anchor_depth(&d, role, possession, Team::Home, &plus, &times))
    };
    assert_eq!(depth(PlayerRole::Goalkeeper, Some(Team::Home)), 7.0);
    assert_eq!(depth(PlayerRole::Defender, Some(Team::Home)), 46.0);
    assert_eq!(depth(PlayerRole::Midfielder, Some(Team::Away)), 52.0);
    assert_eq!(depth(PlayerRole::Forward, Some(Team::Away)), 56.0);
    assert!((depth(PlayerRole::Forward, None) - 49.0).abs() < 1e-9);
    let m = PullMeasures {
        lane_commitment: r(0.0),
        progression: r(0.5),
        defensive_compactness: r(0.5),
        home_lane: r(0.5),
        wingback_bonus: r(0.9),
        defender_bonus: r(0.1),
    };
    near(ball_side_pull(&m, PlayerRole::Forward, true, &plus, &times), 0.23);
    near(ball_side_pull(&m, PlayerRole::Defender, true, &plus, &times), 0.9);
    assert!(relational_pull(r(3.0), r(3.0), r(2.0), r(0.4), &plus, &times, &over).is_none());
    near(relational_pull(r(4.0), r(3.0), r(2.0), r(0.4), &plus, &times, &over).expect("out"), 0.2);
    let reach = ReachMeasures {
        top_speed: r(8.0),
        speed: r(2.0),
        max_acceleration: r(4.0),
        acceleration: r(0.0),
        fatigue: r(0.0),
        dt_seconds: r(0.5),
    };
    near(soccer_formation_lp_reach_yards(&reach, &plus, &times), 4.5);
    let slow = ReachMeasures { dt_seconds: r(0.1), ..reach };
    near(soccer_formation_lp_reach_yards(&slow, &plus, &times), 0.8 + 0.02 + 0.12);
}

type Sense = FieldSense<
    fn(PlayerRole, Real64, Real64, Real64, bool) -> Real64,
    fn(PlayerRole, bool) -> Real64,
    fn(Team, Vec2, Vec2, Real64) -> bool,
    fn(Vec2) -> Real64,
>;

/// Lanes bind nobody, no line is clear, and nobody is out on a flank.
fn sense() -> Sense {
    FieldSense {
        lane: |_, _, x, _, _| x,
        commitment: |_, _| Real64::from_bits(0),
        clear: |_, _, _, _| false,
        flank: |_| Real64::from_bits(0),
    }
}

fn anchor_rules() -> AnchorRules {
    AnchorRules {
        wingback_bonus: r(0.1),
        defender_bonus: r(0.05),
        shape: ShapePull {
            neighbours: 1,
            tolerance: r(1.0),
            deadzone: r(2.0),
            full_error: r(4.0),
            weight: r(0.5),
        },
        controlled: Some(Team::Away),
        policy: FlankAttackPolicy::NoFlank,
        press_midfielder: r(1.5),
    }
}

fn zone() -> ZoneSituation {
    ZoneSituation {
        team: Team::Home,
        frame: frame(),
        own_goal_y: r(0.0),
        ball: v(40.0, 60.0),
        possession: Some(Team::Home),
        holder: None,
        directive: TeamTacticalDirective { width_yards: r(40.0), ..directive() },
        weights: SoccerFormationLpObjectiveWeights::default(),
        rules: anchor_rules(),
    }
}

#[test]
fn formation_places_are_found() {
    let keeper = ZonePlayer {
        id: 1,
        role: PlayerRole::Goalkeeper,
        home_position: v(40.0, 5.0),
        current: v(40.0, 5.0),
    };
    let place = |s: &ZoneSituation, p: &ZonePlayer, team: &Vec<RosterEntry>, marks: &Vec<SeenOpponent>| {
        soccer_formation_lp_anchor(
            s, p, team, marks, &plus, &times, &over, &count, &distance, &unit, &sense(),
        )
    };
    let mate = RosterEntry {
        id: 9,
        team: Team::Home,
        role: PlayerRole::Forward,
        current: v(40.0, 30.0),
        home: v(60.0, 90.0),
    };
    // The keeper does not follow the shape.
    assert_eq!(place(&zone(), &keeper, &vec![mate], &vec![]), v(40.0, 7.0));
    let forward = ZonePlayer {
        id: 6,
        role: PlayerRole::Forward,
        home_position: v(60.0, 90.0),
        current: v(40.0, 60.0),
    };
    let there = place(&zone(), &forward, &vec![], &vec![]);
    // Half way out on the right, pulled back towards the ball by 0.18.
    near(there.x, 50.0 * 0.82 + 40.0 * 0.18);
    near(there.y, 60.0 + 11.0 * 0.72);
    // The neighbour has the same home, so the shape asks the player to the neighbour's place; out
    // of shape by more than the dead zone, the player is drawn back.
    let back = place(&zone(), &forward, &vec![mate], &vec![]);
    near(back.y, (60.0 + 11.0 * 0.72) * 0.5 + 30.0 * 0.5);
    // A lane that binds is followed by a part of the commitment.
    let strict = FieldSense {
        lane: |_: PlayerRole, home_x: Real64, _: Real64, _: Real64, _: bool| home_x,
        commitment: |_: PlayerRole, _: bool| r(1.0),
        clear: |_: Team, _: Vec2, _: Vec2, _: Real64| false,
        flank: |_: Vec2| r(0.0),
    };
    let bound = soccer_formation_lp_anchor(
        &zone(), &forward, &vec![], &vec![], &plus, &times, &over, &count, &distance, &unit, &strict,
    );
    let pull = 0.18 * 0.54;
    near(bound.x, (50.0 * (1.0 - pull) + 40.0 * pull) * 0.72 + 60.0 * 0.28);
    // Against the ball the player stands half way to the mark: 4.8 yards goal-side of a striker.
    let against = ZoneSituation { possession: Some(Team::Away), ..zone() };
    let free = place(&against, &forward, &vec![], &vec![]);
    let striker = SeenOpponent {
        id: 20,
        team: Team::Away,
        role: PlayerRole::Forward,
        seen: v(40.0, 50.0),
        position: v(40.0, 50.0),
        arrival: None,
    };
    let marking = place(&against, &forward, &vec![], &vec![striker]);
    near(marking.y, (f(free.y) + 45.2) * 0.5);
    near(marking.x, (f(free.x) + 40.0) * 0.5);
}

#[test]
fn overlaps_loosen_pairs() {
    let limits = OverlapLimits {
        teammate_radius: r(10.0),
        min_forward: r(1.0),
        occupied_radius: r(2.0),
    };
    let m = OverlapMeasures {
        runner_active: true,
        teammate_active: true,
        runner_role: PlayerRole::Defender,
        teammate_role: PlayerRole::Midfielder,
        distance: r(2.0),
        speed: r(9.0),
        forward_speed: r(9.0),
        current_lead: r(0.0),
        projected_lead: r(4.0),
    };
    let relief = |m: &OverlapMeasures| {
        f(soccer_formation_lp_offensive_overlap_relief(m, &limits, &plus, &times, &over))
    };
    assert!((relief(&m) - 0.55).abs() < 1e-9);
    assert_eq!(relief(&OverlapMeasures { distance: r(10.5), ..m }), 0.0);
    assert_eq!(relief(&OverlapMeasures { runner_role: PlayerRole::Goalkeeper, ..m }), 0.0);
    let pair = |possession| {
        f(soccer_formation_lp_pair_shape_relief(
            possession, Team::Home, r(1.0), r(1.0), r(0.3), r(0.4), &plus, &times,
        ))
    };
    assert_eq!(pair(Some(Team::Home)), 0.4);
    assert!((pair(Some(Team::Away)) - 0.58).abs() < 1e-9);
    assert_eq!(pair(None), 0.0);
}

fn reading(id: usize, team: Team, role: PlayerRole, x: f64, y: f64) -> PlayerReading {
    PlayerReading {
        id,
        team,
        role,
        seen: v(x, y),
        position: v(x, y),
        velocity: v(0.0, 1.0),
        acceleration: v(0.0, 0.0),
        home_position: v(x, y),
        top_speed: r(8.0),
        max_acceleration: r(4.0),
        fatigue: r(0.0),
        arrival: None,
    }
}

fn squad() -> Vec<PlayerReading> {
    let mut all = vec![
        reading(1, Team::Home, PlayerRole::Goalkeeper, 40.0, 5.0),
        reading(2, Team::Home, PlayerRole::Defender, 20.0, 30.0),
        reading(3, Team::Home, PlayerRole::Defender, 40.0, 30.0),
        reading(4, Team::Home, PlayerRole::Defender, 60.0, 30.0),
        reading(5, Team::Home, PlayerRole::Midfielder, 40.0, 50.0),
        reading(6, Team::Home, PlayerRole::Forward, 40.0, 70.0),
    ];
    all.push(reading(20, Team::Away, PlayerRole::Forward, 40.0, 40.0));
    all
}

fn slot_situation(holder_id: Option<usize>) -> SlotSituation {
    SlotSituation {
        team: Team::Home,
        holder_id,
        frame: frame(),
        weights: SoccerFormationLpObjectiveWeights::default(),
        directive: directive(),
        press_distance: r(1.5),
        own_goal_y: r(0.0),
        ball: v(40.0, 40.0),
        possession: Some(Team::Away),
        rules: anchor_rules(),
    }
}

fn slots_for(holder_id: Option<usize>) -> Vec<SoccerFormationLpSlotInput> {
    soccer_formation_lp_slot_inputs(
        &squad(),
        &slot_situation(holder_id),
        None,
        &plus,
        &times,
        &over,
        &count,
        &distance,
        &unit,
        &sense(),
    )
}

#[test]
fn the_nearest_press_the_holder() {
    let slots = slots_for(Some(20));
    assert_eq!(slots.len(), 11);
    assert_eq!(slots.iter().filter(|s| s.active).count(), 6);
    let of = |id: usize| *slots.iter().find(|s| s.player_id == id).expect("a slot");
    let (d, w) = (directive(), SoccerFormationLpObjectiveWeights::default());
    let need = 0.36
        + f(soccer_lp_unit(w.expected_goals_against)) * 0.34
        + f(soccer_lp_unit(w.opponent_progression)) * 0.22
        + f(d.press_intensity) * 0.24;
    // The two central players are equally near; the one lined up first ranks first.
    near(of(3).pressure_weight, need);
    near(of(5).pressure_weight, (1.0 - 1.0 / 3.0) * 0.9 * need);
    near(of(6).pressure_weight, 0.12 / 5.0 * 0.46 * need);
    assert!(of(1).pressure_target.is_none());
    near(of(1).pressure_weight, 0.0);
    let target = of(3).pressure_target.expect("a target");
    near(target.x, 40.0);
    near(target.y, 40.0 - 1.5 + 0.1 * 0.45);
    near(of(3).speed_match_velocity_yps, 1.0);
    assert!(!slots[10].active);
    assert_eq!(slots[10].anchor, v(40.0, 60.0));
    // The keeper is placed by the own goal, whatever the readings say of the others.
    assert_eq!(of(1).anchor, v(40.0, 6.0));
    // A directive that asks for a higher line moves the defenders.
    let higher = SlotSituation {
        directive: TeamTacticalDirective { defensive_line_y: r(60.0), ..directive() },
        ..slot_situation(Some(20))
    };
    let moved = soccer_formation_lp_slot_inputs(
        &squad(), &higher, None, &plus, &times, &over, &count, &distance, &unit, &sense(),
    );
    assert!(f(moved[1].anchor.y) > f(slots[1].anchor.y));
    // Without an opponent on the ball nobody presses.
    assert!(slots_for(Some(5)).iter().all(|s| s.pressure_target.is_none()));
    assert!(slots_for(None).iter().all(|s| f(s.pressure_weight) == 0.0));
}

fn tolerances() -> LineTolerances {
    LineTolerances { defender: r(1.0), midfielder: r(2.0) }
}

fn field_readings() -> FieldReadings {
    let s = readings();
    FieldReadings {
        frame: s.frame,
        ball: s.ball,
        opponent_goal_y: s.opponent_goal_y,
        own_goal_y: s.own_goal_y,
        rings: BallRings { near_ball: r(18.0), tight: r(1.0), close: r(3.0), near: r(5.0) },
        holder_pressure: s.holder_pressure,
        central_pressure: s.central_pressure,
        possession_seconds: s.possession_seconds,
        settled_seconds: s.settled_seconds,
        embedding_confidence: s.embedding_confidence,
        clock_seconds: s.clock_seconds,
        duration_seconds: s.duration_seconds,
        score_home: s.score_home,
        score_away: s.score_away,
    }
}

#[test]
fn a_situation_is_read_off_the_players() {
    let sample = |clock: f64, holder| HolderSample { clock_seconds: r(clock), holder };
    let history = vec![sample(90.0, Some(5)), sample(94.0, Some(20)), sample(97.0, Some(20))];
    let mut players = squad();
    players[1].fatigue = r(0.6);
    let read = |team| {
        find_readings(
            &field_readings(), team, Some(20), &history, &players, &plus, &times, &over, &count,
            &distance,
        )
    };
    let home = read(Team::Home);
    near(home.holder_seconds, 6.0);
    near(home.average_fatigue, 0.1);
    // Keeper, three defenders and a midfielder stand behind the ball; the forward does not count.
    near(home.rest_defense, 1.0);
    assert_eq!(home.shape.players_near_ball, 0);
    near(home.shape.forward_velocity_yps, 1.0);
    near(home.opponent_shape.forward_velocity_yps, -1.0);
    near(home.opponent_shape.centroid_to_ball_yards, 50.0);
    near(read(Team::Away).average_fatigue, 0.0);
}

fn situation(holder_id: Option<usize>) -> FormationSituation {
    FormationSituation {
        field: field_readings(),
        possession: Some(Team::Away),
        holder_id,
        directive: directive(),
        press_distance: r(1.5),
        bands: None,
        lookahead: r(0.8),
        limits: OverlapLimits {
            teammate_radius: r(10.0),
            min_forward: r(1.0),
            occupied_radius: r(2.0),
        },
        lines: LineWeights { defender: r(0.3), midfielder: r(0.2) },
        rules: anchor_rules(),
    }
}

fn movers() -> Vec<Mover> {
    squad()
        .iter()
        .map(|p| Mover {
            id: p.id,
            position: p.position,
            velocity: p.velocity,
            acceleration: p.acceleration,
        })
        .collect()
}

fn prepared() -> (
    SoccerFormationLpBrain,
    SoccerFormationLpObjectiveWeights,
    Vec<SoccerFormationLpSlotInput>,
) {
    let mut b = brain();
    let ball = Mover {
        id: 0,
        position: v(40.0, 90.0),
        velocity: v(0.0, 0.0),
        acceleration: v(0.0, 0.0),
    };
    let (weights, slots) = b.prepare_tick(
        &situation(Some(20)),
        &vec![],
        &squad(),
        &movers(),
        &ball,
        &plus,
        &times,
        &over,
        &count,
        &signed,
        &distance,
        &unit,
        &sense(),
    );
    (b, weights, slots)
}

#[test]
fn a_tick_is_written_into_the_program() {
    let (b, weights, slots) = prepared();
    let vars = b.player_vars[2];
    let rows = b.player_rows[2];
    assert_eq!(slots[2].player_id, 3);
    assert_eq!(slots.len(), 11);
    assert!(slots.iter().filter(|s| !s.active).all(|s| s.player_id > usize::MAX - 11));
    near(b.problem.b_ub[rows.anchor_y_upper], f(slots[2].anchor.y));
    near(b.problem.b_ub[rows.anchor_y_lower], -f(slots[2].anchor.y));
    near(b.problem.b_ub[rows.reach_x_upper], 40.0 + 0.8 + 0.02 + 0.12);
    near(b.problem.b_ub[rows.speed_y_upper], 30.1);
    near(b.problem.a_ub[rows.dynamics_x_upper][vars.target_vx], -0.1);
    assert_eq!(b.problem.ub[vars.target_vx], Some(r(8.0)));
    assert_eq!(b.problem.lb[vars.target_ax], Some(r(-4.0)));
    let unit_of = |x: Real64| f(soccer_lp_unit(x));
    let anchor_cost = 0.42
        + unit_of(weights.space_occupation) * 0.30
        + unit_of(weights.passing_lane_quality) * 0.18
        + unit_of(weights.defensive_compactness) * 0.26
        + unit_of(weights.progression) * 0.30 * 0.12;
    near(b.problem.c[vars.anchor_slack_x], -anchor_cost);
    near(b.problem.c[vars.pressure_slack_y], -f(slots[2].pressure_weight));
    let empty = b.player_vars[10];
    near(b.problem.c[empty.anchor_slack_x], 0.0);
    assert_eq!(f(b.problem.ub[empty.target_vx].expect("bounded")), 0.0);
    // Slots 1 and 2 hold two defenders of one line.
    let pair = b.pair_vars.iter().position(|p| p.a == 1 && p.b == 2).expect("a pair");
    near(
        b.problem.b_ub[b.pair_rows[pair].separation_x_upper],
        f(slots[1].anchor.x) - f(slots[2].anchor.x),
    );
    let base = (f(slots[1].pair_weight) + f(slots[2].pair_weight)) * 0.5;
    let relief = ((f(slots[1].pressure_weight) + f(slots[2].pressure_weight)) * 0.5 * 0.58).min(0.85);
    let kept = (1.0 - relief).clamp(0.15, 1.0);
    near(b.problem.c[b.pair_vars[pair].separation_slack_x], -(base + 0.18 * kept));
    near(b.problem.c[b.pair_vars[pair].separation_slack_y], -(base + 0.18 * kept + 0.3 * kept));
    // The ball stands at three quarters of the pitch.
    near(b.problem.b_eq[132 + 1], 0.5);
    assert_eq!(b.problem.b_eq.len(), 202);
    let reliefs = find_reliefs(
        Some(Team::Away),
        Team::Home,
        r(1.0),
        r(0.8),
        &situation(None).limits,
        &slots,
        &b.pair_vars,
        &plus,
        &times,
        &over,
        &distance,
    );
    assert_eq!(reliefs.len(), 55);
    near(reliefs[pair], relief);
}

fn budget() -> SolveBudget {
    SolveBudget { micros: 1000, min_iter: 50, max_iter: 400, recover_step: 30, circuit_limit: 3 }
}

fn finish(
    b: &mut SoccerFormationLpBrain,
    weights: SoccerFormationLpObjectiveWeights,
    slots: &Vec<SoccerFormationLpSlotInput>,
    solution: &LPSolution,
) {
    b.finish_tick(
        true,
        10,
        &budget(),
        &frame(),
        weights,
        slots,
        &tolerances(),
        solution,
        &plus,
        &times,
        &over,
        &count,
        &distance,
        &unit,
        &limit,
    );
}

#[test]
fn a_missing_solution_falls_back_to_the_anchors() {
    let (mut b, weights, slots) = prepared();
    let solution = soccer_formation_lp_budgeted_fallback_solution("iter-limit".to_string());
    finish(&mut b, weights, &slots, &solution);
    assert_eq!(b.last_snapshot.status, "fallback-iter-limit");
    assert_eq!(b.last_solve_status, "iter-limit");
    assert_eq!(b.last_guidance.len(), 6);
    assert_eq!(b.telemetry.suboptimal_count, 1);
    let keeper = &b.last_guidance[0];
    let reach = 0.8 + 0.02 + 0.12;
    near(keeper.motion.recommended_move_yards, reach);
    // The keeper belongs six yards off the goal line.
    near(keeper.motion.target.y, 5.0 + reach);
    near(keeper.motion.target_velocity.y, 8.0);
    near(keeper.motion.target_acceleration.y, 4.0);
    near(keeper.motion.formation_error_yards, 1.0 - reach);
    near(keeper.solver_objective, 0.0);
    // The three defenders hold one line, which no one leaves by more than a yard.
    assert!(f(b.last_snapshot.mean_role_line_error_yards) < 1e-9 + 1.0);
    assert!(f(b.last_snapshot.mean_pressure_error_yards) > 0.0);
}

#[test]
fn a_complete_solution_guides_the_players() {
    let (mut b, weights, slots) = prepared();
    let mut x = vec![r(0.0); 521];
    let vars = b.player_vars[2];
    x[vars.target_x] = r(41.0);
    x[vars.target_y] = r(34.0);
    x[vars.target_vy] = r(20.0);
    for (k, pair) in b.pair_vars.iter().enumerate() {
        if pair.a == 2 || pair.b == 2 {
            x[b.pair_vars[k].separation_slack_x] = r(-0.5);
        }
    }
    let solution = LPSolution {
        status: LPStatus::Optimal,
        status_text: "optimal".to_string(),
        x,
        objective: r(-3.5),
        reduced_costs: Some(vec![r(0.25); 521]),
        iters: Some(12),
        solver: "test".to_string(),
        elapsed_ms: r(-1.0),
        message: None,
    };
    finish(&mut b, weights, &slots, &solution);
    assert_eq!(b.last_snapshot.status, "optimal");
    assert!(b.telemetry.basis_kept);
    near(b.last_snapshot.elapsed_ms, 0.0);
    let g = &b.last_guidance[2];
    assert_eq!((g.player_id, g.slot), (3, 2));
    near(g.motion.target.x, 41.0);
    near(g.motion.recommended_move.y, 4.0);
    near(g.motion.target_velocity.y, 8.0);
    near(g.motion.pair_error_yards, 0.5);
    near(g.reduced_cost_target_y, 0.25);
    near(g.solver_objective, -3.5);
    near(b.last_snapshot.mean_pair_error_yards, (0.5 + 5.0 * 0.05) / 6.0);
    // The others are led to the goal line, this defender 34 yards ahead of them.
    near(g.motion.role_line_error_yards, 33.0);
    let mut broken = solution;
    broken.x[0] = r(f64::NAN);
    finish(&mut b, weights, &slots, &broken);
    assert_eq!(b.last_snapshot.status, "fallback-malformed-optimal");
    b.disable_tick();
    assert_eq!(b.last_snapshot.status, "disabled");
    assert!(b.last_guidance.is_empty());
}

#[test]
fn a_tick_overwrites_the_one_before() {
    let (fresh, _, _) = prepared();
    let (mut used, _, _) = prepared();
    let ball = Mover { id: 0, position: v(1.0, 1.0), velocity: v(9.0, 9.0), acceleration: v(0.0, 0.0) };
    let other = FormationSituation { possession: Some(Team::Home), ..situation(None) };
    used.prepare_tick(
        &other, &vec![], &vec![], &vec![], &ball, &plus, &times, &over, &count, &signed, &distance,
        &unit, &sense(),
    );
    assert_ne!(used.problem.c, fresh.problem.c);
    let ball = Mover { position: v(40.0, 90.0), velocity: v(0.0, 0.0), ..ball };
    used.prepare_tick(
        &situation(Some(20)), &vec![], &squad(), &movers(), &ball, &plus, &times, &over, &count,
        &signed, &distance, &unit, &sense(),
    );
    assert_eq!(used.problem.c, fresh.problem.c);
    assert_eq!(used.problem.b_ub, fresh.problem.b_ub);
    assert_eq!(used.problem.b_eq, fresh.problem.b_eq);
    assert_eq!(used.problem.a_ub, fresh.problem.a_ub);
    assert_eq!(used.problem.lb, fresh.problem.lb);
}

#[test]
fn guidance_leads_onto_the_pitch() {
    let (mut b, weights, slots) = prepared();
    let mut solution = soccer_formation_lp_budgeted_fallback_solution("iter-limit".to_string());
    finish(&mut b, weights, &slots, &solution);
    let on_pitch = |b: &SoccerFormationLpBrain| {
        b.last_guidance.iter().all(|g| {
            let (x, y) = (f(g.motion.target.x), f(g.motion.target.y));
            (0.0..=80.0).contains(&x) && (0.0..=120.0).contains(&y)
        })
    };
    assert!(on_pitch(&b));
    solution.status = LPStatus::Optimal;
    solution.x = vec![r(-1.0e9); 521];
    finish(&mut b, weights, &slots, &solution);
    assert_eq!(b.last_snapshot.status, "iter-limit");
    assert!(on_pitch(&b));
    let players: Vec<usize> = b.last_guidance.iter().map(|g| g.slot).collect();
    assert_eq!(players, vec![0, 1, 2, 3, 4, 5]);
}

#[test]
fn lines_are_held_together() {
    let head = |player_id, role| SlotHead { active: true, player_id, role };
    let slots = vec![
        head(1, PlayerRole::Defender),
        head(2, PlayerRole::Defender),
        head(3, PlayerRole::Defender),
        head(4, PlayerRole::Forward),
    ];
    let t = |player_id, y: f64| GuidedTarget { player_id, target_y: r(y) };
    let errors = annotate_formation_lp_role_line_errors(
        &vec![t(1, 20.0), t(2, 20.0), t(3, 26.0), t(4, 70.0)],
        &slots,
        r(1.0),
        r(2.0),
        &plus,
        &over,
        &count,
    );
    assert_eq!(errors.iter().map(|e| f(*e)).collect::<Vec<_>>(), vec![2.0, 2.0, 5.0, 0.0]);
    assert!(role_line_peers(&slots, &vec![1, 2, 4], 1).is_none());
    assert_eq!(
        role_line_peers(&slots, &vec![1, 2, 3], 1),
        Some((PlayerRole::Defender, vec![1, 2]))
    );
}

#[test]
fn accelerations_are_bounded() {
    let a = AxisMotion {
        position: r(40.0),
        velocity: r(2.0),
        dt: r(0.5),
        min_position: r(0.0),
        max_position: r(80.0),
        accel_cap: r(6.0),
        speed_cap: r(4.0),
    };
    let bounds = |a: &AxisMotion| soccer_local_mpc_axis_bounds(a, &plus, &times, &over);
    let (low, high) = bounds(&a).expect("room");
    assert_eq!((f(low), f(high)), (-6.0, 4.0));
    let edge = AxisMotion { position: r(79.5), ..a };
    let (_, high) = bounds(&edge).expect("room");
    near(high, -4.0);
    assert!(bounds(&AxisMotion { position: r(95.0), ..a }).is_none());
    assert!(bounds(&AxisMotion { velocity: r(f64::NAN), accel_cap: r(f64::NAN), ..a }).is_none());
    assert_eq!(refinement_effort(3), (8, 48));
    assert_eq!(refinement_effort(22), (22, 110));
    assert_eq!(refinement_effort(100), (45, 160));
    let m = UrgencyMeasures {
        recommended_move_yards: r(1.0),
        pressure_weight: r(1.0),
        speed_match_weight: r(0.0),
        pair_error_yards: r(0.0),
    };
    let urgent = |role, holds, ball| {
        soccer_local_mpc_candidate_priority(role, holds, ball, &m, &plus, &times)
    };
    near(urgent(Some(PlayerRole::Forward), false, true).expect("urgent"), 2.03);
    near(urgent(Some(PlayerRole::Forward), false, false).expect("urgent"), 2.88);
    assert!(urgent(Some(PlayerRole::Goalkeeper), false, true).is_none());
    assert!(urgent(Some(PlayerRole::Forward), true, true).is_none());
    assert!(urgent(None, false, true).is_none());
}

fn field_player(id: usize, team: Team, x: f64, y: f64) -> FieldPlayer {
    FieldPlayer {
        id,
        team,
        role: PlayerRole::Midfielder,
        position: v(x, y),
        velocity: v(0.0, 0.0),
        acceleration: v(0.0, 0.0),
        top_speed: r(8.0),
        max_acceleration: r(4.0),
    }
}

#[test]
fn surroundings_push_a_player_aside() {
    let me = field_player(5, Team::Home, 40.0, 50.0);
    let other = field_player(20, Team::Away, 42.1, 52.0);
    let far = FieldBall {
        position: v(0.0, 0.0),
        velocity: v(0.0, 0.0),
        acceleration: v(0.0, 0.0),
        holder: None,
    };
    let intent = Intent {
        current: v(40.0, 50.0),
        velocity: v(0.0, 0.0),
        target: v(40.0, 52.0),
        desired_velocity: v(0.0, 0.0),
    };
    let look = |players: &Vec<FieldPlayer>, ball: &FieldBall| {
        soccer_local_mpc_whole_field_context(
            &frame(), &me, &intent, ball, players, r(8.0), &plus, &times, &over, &distance, &unit,
            &limit,
        )
    };
    let alone = look(&vec![me], &far);
    assert_eq!(alone.target, intent.target);
    near(alone.position_weight_bonus, 0.0);
    let crowded = look(&vec![me, other], &far);
    // Half of the influence radius is left: the opponent pushes by that, away from himself.
    let pressure = 0.5 * 1.35;
    near(crowded.target.x, 40.0 - pressure * 2.4);
    near(crowded.desired_velocity.x, -pressure * 0.85);
    near(crowded.position_weight_bonus, pressure);
    let on_ball = look(&vec![me], &FieldBall { position: v(40.0, 53.7), ..far });
    near(on_ball.target.y, 52.0 - 0.5 * 1.8);
    let mine = look(&vec![me], &FieldBall { position: v(40.0, 53.7), holder: Some(5), ..far });
    assert_eq!(mine.target, intent.target);
    let obstacles = soccer_local_mpc_planar_obstacles(
        &frame(),
        &me,
        &FieldBall { holder: Some(20), ..far },
        &vec![me, other],
        &plus,
        &times,
        &over,
        &distance,
        &limit,
    );
    assert_eq!(obstacles.len(), 2);
    near(obstacles[0].radius, 1.75 + 0.55 + 0.05);
    near(obstacles[0].weight, 16.0);
    near(obstacles[1].radius, 0.85);
    near(obstacles[1].weight, 4.5);
}

#[test]
fn motions_are_refined_by_a_plan() {
    let (mut b, weights, slots) = prepared();
    let solution = soccer_formation_lp_budgeted_fallback_solution("iter-limit".to_string());
    finish(&mut b, weights, &slots, &solution);
    let players: Vec<FieldPlayer> = squad()
        .iter()
        .map(|p| FieldPlayer { role: p.role, ..field_player(p.id, p.team, f(p.position.x), f(p.position.y)) })
        .collect();
    let ball = FieldBall {
        position: v(10.0, 110.0),
        velocity: v(0.0, 0.0),
        acceleration: v(0.0, 0.0),
        holder: Some(20),
    };
    let whole = |x: Real64| f(x).round() as usize;
    let halving = |x: Real64| r(0.5_f64.powf(f(x)));
    let control = |plan: &PlanarPlan, obstacles: &Vec<PlanarObstacle>| {
        assert_eq!(plan.horizon, 23);
        assert_eq!(plan.iters, 115);
        assert_eq!(obstacles.len(), 7);
        Some(v(100.0, 1.0))
    };
    let g = b.last_guidance[5].motion;
    let refine = |id, team| {
        soccer_local_mpc_refined_guidance(
            &frame(), id, team, &g, &ball, &players, &plus, &times, &over, &distance, &unit, &limit,
            &whole, &halving, &control,
        )
    };
    let refined = refine(6, Team::Home).expect("refined");
    // The plan is cut back to the acceleration cap.
    assert!(size(refined.target_acceleration) <= 4.0 + 1e-9);
    near(refined.target.x, 40.0 + 0.5 * 0.01 * f(refined.target_acceleration.x));
    assert!(refine(6, Team::Away).is_none());
    assert!(refine(99, Team::Home).is_none());
    let before = b.last_guidance.len();
    let solved = b.run_local_mpc_tick(
        2, false, &frame(), &ball, &players, &plus, &times, &over, &distance, &unit, &limit, &whole,
        &halving, &control,
    );
    assert_eq!(solved, 2);
    assert_eq!(b.last_guidance.len(), before);
    assert_eq!(b.last_guidance.iter().filter(|g| g.local_mpc_guidance).count(), 2);
    assert!(!b.last_guidance[0].local_mpc_guidance);
    let never = |_: &PlanarPlan, _: &Vec<PlanarObstacle>| None;
    let solved = b.run_local_mpc_tick(
        11, false, &frame(), &ball, &players, &plus, &times, &over, &distance, &unit, &limit, &whole,
        &halving, &never,
    );
    assert_eq!(solved, 0);
}

#[test]
fn teams_are_observed_around_the_ball() {
    let p = |team, x: f64, y: f64| SeenPlayer {
        team,
        seen: v(x, y),
        home_position: v(40.0, 60.0),
        velocity: v(0.0, 2.0),
    };
    let players = vec![
        p(Team::Home, 40.0, 50.0),
        p(Team::Home, 44.0, 53.0),
        p(Team::Away, 40.0, 50.0),
        p(Team::Home, f64::NAN, 0.0),
    ];
    let rings = BallRings {
        near_ball: r(18.0),
        tight: r(1.0),
        close: r(3.0),
        near: r(5.0),
    };
    let see = |team| {
        team_shape_observation_from_snapshot(
            &players, team, v(40.0, 50.0), &frame(), &rings, &plus, &times, &over, &count, &distance,
        )
    };
    let home = see(Team::Home);
    assert_eq!(home.players_within_1yd, 1);
    assert_eq!(home.players_within_3yd, 1);
    assert_eq!(home.players_within_5yd, 2);
    assert_eq!(home.players_near_ball, 3);
    near(home.forward_velocity_yps, 2.0);
    let none = team_shape_observation_from_snapshot(
        &vec![], Team::Home, v(40.0, 50.0), &frame(), &rings, &plus, &times, &over, &count, &distance,
    );
    assert_eq!(none.players_near_ball, 0);
    let o = |x: f64, y: f64| Observed {
        team: Team::Away,
        position: v(x, y),
        velocity: v(1.0, 0.0),
    };
    let (centroid, drift, spread, close) = team_brain_shape_from_awareness(
        &vec![o(40.0, 40.0), o(40.0, 46.0)],
        Team::Away,
        v(40.0, 50.0),
        r(5.0),
        &plus,
        &over,
        &count,
        &distance,
    );
    assert_eq!(centroid, v(40.0, 43.0));
    assert_eq!(drift, v(1.0, 0.0));
    near(spread, 3.0);
    assert_eq!(close, 1);
}

fn solve_settings() -> SolveSettings {
    SolveSettings { exact_enabled: true, budget: budget(), tolerances: tolerances() }
}

fn solved_at_anchors(p: &FormationProblem) -> LPSolution {
    let mut solution = soccer_formation_lp_budgeted_fallback_solution("optimal".to_string());
    solution.status = LPStatus::Optimal;
    solution.x = vec![r(0.0); p.c.len()];
    solution.objective = r(1.5);
    solution
}

fn still_ball() -> Mover {
    Mover { id: 0, position: v(40.0, 90.0), velocity: v(0.0, 0.0), acceleration: v(0.0, 0.0) }
}

#[test]
fn a_tick_is_solved_until_the_breaker_opens() {
    let mut b = brain();
    let asked = std::cell::Cell::new(0);
    let solve = |p: &FormationProblem| {
        asked.set(asked.get() + 1);
        solved_at_anchors(p)
    };
    let now = std::cell::Cell::new(0u128);
    let slow = || {
        now.set(now.get() + 2000);
        now.get()
    };
    for _ in 0..4 {
        b.solve_tick(
            &situation(Some(20)), &vec![], &squad(), &movers(), &still_ball(), &solve_settings(),
            "iter-limit", &plus, &times, &over, &count, &signed, &distance, &unit, &sense(), &limit,
            &solve, &slow,
        );
    }
    // Three slow solves in a row open the breaker; the fourth tick has a stand-in.
    assert_eq!(asked.get(), 3);
    assert!(b.telemetry.simplex_circuit_open);
    assert_eq!((b.telemetry.solve_count, b.telemetry.solve_timeout_count), (4, 3));
    assert_eq!(b.telemetry.last_solve_micros, 2000);
    assert_eq!(b.telemetry.adaptive_max_iter, 50);
    assert_eq!(b.last_solve_status, "iter-limit");
    assert_eq!(b.last_snapshot.status, "fallback-iter-limit");
    assert_eq!(b.last_guidance.len(), 6);
}

fn team_step(team: Team, has_ball: bool) -> TeamStep {
    TeamStep {
        cover: DefensiveCoverProfile::default(),
        overload: AttackingOverloadProfile::default(),
        possession: PossessionReading {
            tick: 9,
            has_ball,
            ball: v(40.0, 90.0),
            field_width: r(80.0),
            field_length: r(120.0),
            opponent_goal_y: r(if team == Team::Home { 120.0 } else { 0.0 }),
            own_goal_y: r(if team == Team::Home { 0.0 } else { 120.0 }),
            opponent_press: r(0.0),
            proposed_hosts_pairs: false,
            held_hosts_pairs: false,
        },
        formation: FormationSituation {
            field: FieldReadings {
                frame: TickFrame {
                    attack_dir: r(if team == Team::Home { 1.0 } else { -1.0 }),
                    ..frame()
                },
                ..field_readings()
            },
            ..situation(Some(20))
        },
    }
}

fn field_step(formation_lp_enabled: bool, local_mpc_enabled: bool) -> FieldStep {
    FieldStep {
        opening: StepOpening {
            tick: 9,
            possession_team: Some(Team::Away),
            ball: v(40.0, 90.0),
            field_width: r(80.0),
            field_length: r(120.0),
            score_home: 2,
            score_away: 1,
        },
        ball: BallRecord {
            tick: 9,
            holder: Some(20),
            position: v(40.0, 90.0),
            velocity: v(0.0, 0.0),
            acceleration: v(0.0, 0.0),
            jerk: v(0.0, 0.0),
            altitude_yards: r(0.0),
            scheduled_index: None,
            tracked_officials: 0,
        },
        history: vec![],
        readings: squad(),
        movers: movers(),
        ball_mover: still_ball(),
        field_players: squad()
            .iter()
            .map(|p| FieldPlayer {
                role: p.role,
                ..field_player(p.id, p.team, f(p.position.x), f(p.position.y))
            })
            .collect(),
        field_ball: FieldBall {
            position: v(40.0, 90.0),
            velocity: v(0.0, 0.0),
            acceleration: v(0.0, 0.0),
            holder: Some(20),
        },
        controlled: vec![],
        formation_lp_enabled,
        local_mpc_enabled,
        local_mpc_max_players: 2,
    }
}

fn step(b: &mut CentralBrain, field: &FieldStep, signals: Option<&SoccerAdversarialEmbeddingSignals>) {
    let constants = CommitmentConstants {
        rule_prior: r(0.0),
        held_hysteresis: r(0.1),
        value_weight: r(1.0),
        ema_alpha: r(0.5),
        commit_ticks: 30,
        overlap_run_probability: r(0.6),
        give_and_go_pass_boost: r(2.0),
    };
    let whole = |x: Real64| f(x).round() as usize;
    let halving = |x: Real64| r(0.5_f64.powf(f(x)));
    let control = |_: &PlanarPlan, _: &Vec<PlanarObstacle>| Some(v(0.5, 0.5));
    let clock = || 7u128;
    let backwards =
        |ops: Vec<CentralOperation>| ops.iter().rev().map(|o| o.label).collect::<Vec<_>>();
    let label = |phase: TacticalPhase| match phase {
        TacticalPhase::AwayBuildUp => "away-build-up",
        _ => "another",
    };
    let propose = |q: DirectiveQuestion| {
        assert_eq!(q.phase, TacticalPhase::AwayBuildUp);
        assert_eq!(q.score_diff, if q.team == Team::Home { 1 } else { -1 });
        TeamTacticalDirective::neutral(q.team, q.field_width, q.field_length, &times)
    };
    let (home, away) = (team_step(Team::Home, false), team_step(Team::Away, true));
    let settings = solve_settings();
    match signals {
        Some(_) => b.run_time_step_with_adversarial_embeddings(
            &home, &away, field, &constants, &settings, "iter-limit", signals, &plus, &times, &over,
            &count, &signed, &distance, &unit, &sense(), &limit, &whole, &halving, &control,
            &solved_at_anchors, &clock, &backwards, &label, &propose,
            &|d: &TeamTacticalDirective, signal: SoccerAdversarialEmbeddingSignal| {
                TeamTacticalDirective { press_intensity: signal.defense_score, ..*d }
            },
        ),
        None => b.run_time_step(
            &home, &away, field, &constants, &settings, "iter-limit", &plus, &times, &over, &count,
            &signed, &distance, &unit, &sense(), &limit, &whole, &halving, &control, &solved_at_anchors,
            &clock, &backwards, &label, &propose,
        ),
    }
}

#[test]
fn a_tick_of_the_match_solves_refines_and_records() {
    let mut b = CentralBrain::kickoff(r(80.0), r(120.0), 400, &times);
    step(&mut b, &field_step(true, true), None);
    assert_eq!(b.phase, TacticalPhase::AwayBuildUp);
    assert_eq!(b.possession_team, Some(Team::Away));
    assert_eq!(b.home_formation_lp.telemetry.solve_count, 1);
    assert_eq!(b.away_formation_lp.telemetry.solve_count, 1);
    assert_eq!(b.home_formation_lp.last_snapshot.status, "optimal");
    assert_eq!(b.home_formation_lp.last_guidance.len(), 6);
    assert_eq!(b.away_formation_lp.last_guidance.len(), 1);
    assert_eq!(
        b.home_formation_lp.last_guidance.iter().filter(|g| g.local_mpc_guidance).count(),
        2
    );
    let d = b.last_decision.as_ref().expect("a record");
    assert_eq!(d.action, "directives-away-build-up");
    assert_eq!(d.phase, b.phase);
    assert_eq!(d.operation_order.len(), 7);
    assert_eq!(d.operation_order[0], "solve-local-mpc");
    assert_eq!(d.operation_order[6], "sense-possession");
    assert_eq!((d.tracked_players, d.ball_holder), (7, Some(20)));
    near(d.away_shape.centroid_to_ball_yards, 50.0);
    near(d.away_shape.forward_velocity_yps, -1.0);
    assert_eq!(b.pressure_line_home, b.home_directive.defensive_line_y);
    assert_eq!(b.pressure_line_away, b.away_directive.defensive_line_y);
}

#[test]
fn a_tick_without_the_programs_guides_nobody() {
    let mut b = CentralBrain::kickoff(r(80.0), r(120.0), 400, &times);
    step(&mut b, &field_step(true, false), None);
    assert!(!b.formation_lp_guidance().is_empty());
    assert_eq!(b.last_decision.as_ref().expect("a record").operation_order.len(), 6);
    step(&mut b, &field_step(false, true), None);
    assert!(b.formation_lp_guidance().is_empty());
    assert_eq!(b.home_formation_lp.telemetry.solve_count, 1);
    assert_eq!(b.home_formation_lp.last_snapshot.status, "disabled");
    assert_eq!(b.last_decision.as_ref().expect("a record").operation_order.len(), 6);
}

#[test]
fn signals_are_laid_over_the_directives() {
    let quiet = SoccerAdversarialEmbeddingSignal {
        attack_score: r(0.0),
        defense_score: r(0.0),
        hits: 0,
    };
    let mut signals = SoccerAdversarialEmbeddingSignals { home: quiet, away: quiet };
    signals.signal_for_mut(Team::Away).defense_score = r(0.25);
    signals.signal_for_mut(Team::Home).defense_score = r(0.75);
    assert_eq!(f(signals.signal_for(Team::Away).defense_score), 0.25);
    let mut b = CentralBrain::kickoff(r(80.0), r(120.0), 400, &times);
    step(&mut b, &field_step(false, false), Some(&signals));
    assert_eq!(f(b.home_directive.press_intensity), 0.75);
    assert_eq!(f(b.away_directive.press_intensity), 0.25);
}

#[test]
fn priming_solves_both_programs_once() {
    let mut b = CentralBrain::kickoff(r(80.0), r(120.0), 400, &times);
    let (home, away) = (team_step(Team::Home, false), team_step(Team::Away, true));
    // Without the programs, or without the solver, nothing happens.
    for (enabled, exact) in [(false, true), (true, false), (true, true)] {
        let settings = SolveSettings { exact_enabled: exact, ..solve_settings() };
        b.prime_formation_lp(
            &home, &away, &field_step(enabled, true), &settings, "iter-limit", &plus, &times, &over,
            &count, &signed, &distance, &unit, &sense(), &limit, &solved_at_anchors, &|| 7u128,
        );
        let solves = u64::from(enabled && exact);
        assert_eq!(b.home_formation_lp.telemetry.solve_count, solves);
        assert_eq!(b.away_formation_lp.telemetry.solve_count, solves);
    }
    assert!(b.home_formation_lp.telemetry.basis_kept);
    assert!(b.last_decision.is_none());
}
