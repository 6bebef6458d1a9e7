use soccer::central::{
    central_brain_team_advantage, central_operations, classify_phase, controller_assignments,
    default_team_brain_snapshot, merge_soccer_adversarial_embedding_signals, players_within,
    select_nested_sub_maneuver, strategy_context, CommitmentReview, ControlledPlayer,
    SoccerAdversarialEmbeddingSignal, SoccerAdversarialEmbeddingSignals,
    SoccerNeuralFormationIntent, TeamStrategyCommitment, TeamTacticalDirective,
};
use soccer::commitment::{
    apply_strategy_commitment, read_situation, CommitmentConstants, CommitmentSituation,
    PossessionReading, StrategyValues,
};
use soccer::formation::tick::TickFrame;
use soccer::marking::cover::{find_marked_place, MarkSituation, SeenOpponent};
use soccer::marking::{
    find_mark, looks_for_cross, soccer_defensive_cross_arrival_mark_target,
    soccer_defensive_mark_target, CrossArrival, CrossRunner, MarkCandidate, MarkDecision,
};
use soccer::number::{clamp_to, larger_of, smaller_of, Real64};
use soccer::order::ranking;
use soccer::pitch::{team_brain_mode_for, PlayerRole, TacticalPhase, Team, TeamBrainMode, Vec2};
use soccer::strategy::{FlankAttackPolicy, TeamAttackStrategy, TeamDefenseStrategy};
use soccer::text::{decimal_text, same_text, signed_text, text_precedes};

fn f(r: Real64) -> f64 {
    f64::from_bits(r.to_bits())
}

fn r(x: f64) -> Real64 {
    Real64::from_bits(x.to_bits())
}

fn v(x: f64, y: f64) -> Vec2 {
    Vec2 { x: r(x), y: r(y) }
}

fn plus(a: Real64, b: Real64) -> Real64 {
    r(f(a) + f(b))
}

fn times(a: Real64, b: Real64) -> Real64 {
    r(f(a) * f(b))
}

fn over(a: Real64, b: Real64) -> Real64 {
    r(f(a) / f(b))
}

#[test]
fn numbers_are_ordered_by_their_bits() {
    assert!(r(-1.0).is_below(r(-0.5)));
    assert!(!r(-0.0).is_below(r(0.0)));
    assert!(!r(f64::NAN).is_below(r(0.0)));
    assert!(r(f64::NEG_INFINITY).is_below(r(f64::MIN)));
    assert_eq!(f(r(2.5).negate()), -2.5);
    assert_eq!(f(r(-2.5).abs()), 2.5);
    assert_eq!(f(r(-0.0).signum()), -1.0);
    assert_eq!(f(r(0.0).signum()), 1.0);
    assert_eq!(f(clamp_to(r(7.0), r(0.0), r(1.0))), 1.0);
    assert!(f(clamp_to(r(f64::NAN), r(0.0), r(1.0))).is_nan());
    assert_eq!(f(larger_of(r(f64::NAN), r(1.0))), 1.0);
    assert_eq!(f(larger_of(r(2.0), r(f64::NAN))), 2.0);
    assert_eq!(f(smaller_of(r(2.0), r(1.0))), 1.0);
    assert!(!r(f64::INFINITY).is_finite());
}

#[test]
fn texts_are_written_and_ordered() {
    assert_eq!(decimal_text(1040), "1040");
    assert_eq!(signed_text(-7), "-7");
    assert_eq!(signed_text(i64::MIN), "-9223372036854775808");
    assert!(same_text("caf\u{e9}", "caf\u{e9}"));
    assert!(!same_text("a", "ab"));
    assert!(text_precedes("a", "ab"));
    assert!(text_precedes("Z", "a"));
    assert!(!text_precedes("b", "ab"));
    assert!(!text_precedes("", ""));
}

#[test]
fn rankings_are_stable() {
    assert_eq!(ranking(&vec![Some(3), None, Some(1), Some(3), Some(-2)]), vec![4, 2, 0, 3]);
}

#[test]
fn phases_follow_the_ball() {
    let phase = |p, y: f64, tick| classify_phase(p, r(y), r(80.0), r(40.0), tick);
    assert_eq!(phase(Some(Team::Home), 81.0, 9), TacticalPhase::HomeAttack);
    assert_eq!(phase(Some(Team::Home), 80.0, 9), TacticalPhase::HomeBuildUp);
    assert_eq!(phase(Some(Team::Away), 39.0, 9), TacticalPhase::AwayAttack);
    assert_eq!(phase(None, 60.0, 4), TacticalPhase::Kickoff);
    assert_eq!(phase(None, 60.0, 5), TacticalPhase::Transition);
    assert_eq!(
        team_brain_mode_for(Team::Home, TacticalPhase::HomeAttack, Some(Team::Home)),
        TeamBrainMode::Attack
    );
    assert_eq!(
        team_brain_mode_for(Team::Away, TacticalPhase::HomeAttack, Some(Team::Home)),
        TeamBrainMode::Defend
    );
}

#[test]
fn situations_have_their_buckets() {
    assert_eq!(strategy_context(true, r(0.2), r(0.7)), 0b1101);
    assert_eq!(strategy_context(false, r(0.5), r(0.6)), 0b0010);
    assert_eq!(strategy_context(false, r(0.9), r(0.9)), 0b0001);
}

fn directive() -> TeamTacticalDirective {
    TeamTacticalDirective::neutral(Team::Home, r(80.0), r(120.0), &times)
}

fn constants() -> CommitmentConstants {
    CommitmentConstants {
        rule_prior: r(0.0),
        held_hysteresis: r(0.1),
        value_weight: r(1.0),
        ema_alpha: r(0.5),
        commit_ticks: 30,
        overlap_run_probability: r(0.6),
        give_and_go_pass_boost: r(2.0),
    }
}

fn situation(tick: u64, advantage: f64) -> CommitmentSituation {
    CommitmentSituation {
        tick,
        has_ball: true,
        advantage: r(advantage),
        to_opponent_goal: r(0.2),
        opponent_press: r(0.1),
        ball_x: r(40.0),
        left_mark: r(20.0),
        right_mark: r(60.0),
        proposed_hosts_pairs: true,
        held_hosts_pairs: true,
    }
}

#[test]
fn commitments_are_held_credited_and_reviewed() {
    let mut commitment = TeamStrategyCommitment::default();
    let mut values = StrategyValues::new();
    let mut d = directive();
    d.attack_strategy = TeamAttackStrategy::QuickVerticalThroughBall;
    let step = |c: &mut TeamStrategyCommitment,
                d: &mut TeamTacticalDirective,
                v: &mut StrategyValues,
                s: CommitmentSituation| {
        apply_strategy_commitment(c, d, v, &s, &constants(), &plus, &times)
    };
    step(&mut commitment, &mut d, &mut values, situation(10, 0.25));
    assert!(commitment.set);
    assert_eq!(commitment.review_tick, 40);
    assert_eq!(commitment.sub, Some(TeamAttackStrategy::GiveAndGoCentral));
    assert_eq!(f(d.pass_priority), 2.0);
    // Within the window the held maneuver stands, whatever is proposed.
    let mut other = directive();
    other.attack_strategy = TeamAttackStrategy::PatientPossessionProbe;
    step(&mut commitment, &mut other, &mut values, situation(20, 0.9));
    assert_eq!(other.attack_strategy, TeamAttackStrategy::QuickVerticalThroughBall);
    // At its end it is credited with half the ground it gained, and beats the newcomer.
    let mut other = directive();
    other.attack_strategy = TeamAttackStrategy::PatientPossessionProbe;
    step(&mut commitment, &mut other, &mut values, situation(40, 0.75));
    let context = strategy_context(true, r(0.2), r(0.1));
    assert_eq!(f(values.value(context, TeamAttackStrategy::QuickVerticalThroughBall)), 0.25);
    assert_eq!(f(values.value(context, TeamAttackStrategy::PatientPossessionProbe)), 0.0);
    assert_eq!(other.attack_strategy, TeamAttackStrategy::QuickVerticalThroughBall);
    assert_eq!(f(commitment.advantage_at_commit), 0.75);
    // A loss of ground makes room for the newcomer.
    let mut other = directive();
    other.attack_strategy = TeamAttackStrategy::PatientPossessionProbe;
    step(&mut commitment, &mut other, &mut values, situation(70, -0.75));
    assert_eq!(other.attack_strategy, TeamAttackStrategy::PatientPossessionProbe);
}

#[test]
fn reviews_come_with_possession() {
    let mut c = TeamStrategyCommitment::default();
    let mut d = directive();
    let review = CommitmentReview {
        tick: 5,
        has_ball: true,
        advantage: r(0.1),
        context: 3,
        rule_score: r(0.0),
        held_score: r(0.0),
        rule_hosts_pairs: false,
        held_hosts_pairs: false,
        ball_x: r(40.0),
        left_mark: r(20.0),
        right_mark: r(60.0),
        commit_ticks: 100,
    };
    c.apply(&mut d, &review);
    assert_eq!(c.credit(6, true).map(|x| x.context), None);
    assert_eq!(c.credit(6, false).map(|x| x.context), Some(3));
    assert_eq!(c.credit(105, true).map(|x| x.attack), Some(c.attack));
}

#[test]
fn nested_maneuvers_go_by_the_side_of_the_ball() {
    let nested = |x: f64, ball| select_nested_sub_maneuver(true, r(x), r(20.0), r(60.0), ball);
    assert_eq!(nested(10.0, true), Some(TeamAttackStrategy::WingOverlapLeftCross));
    assert_eq!(nested(70.0, true), Some(TeamAttackStrategy::WingOverlapRightCross));
    assert_eq!(nested(40.0, true), Some(TeamAttackStrategy::GiveAndGoCentral));
    assert_eq!(nested(40.0, false), None);
}

#[test]
fn signals_are_merged_team_by_team() {
    let one = |a: f64, d: f64, hits| SoccerAdversarialEmbeddingSignal {
        attack_score: r(a),
        defense_score: r(d),
        hits,
    };
    let memory = SoccerAdversarialEmbeddingSignals { home: one(0.5, 0.25, 3), away: one(0.0, 0.0, 1) };
    let neural = SoccerAdversarialEmbeddingSignals {
        home: one(0.75, 0.25, usize::MAX),
        away: one(0.125, 0.0, 0),
    };
    let both = merge_soccer_adversarial_embedding_signals(Some(memory), Some(neural), &plus)
        .expect("signals");
    assert_eq!(f(both.home.attack_score), 1.0);
    assert_eq!(f(both.home.defense_score), 0.5);
    assert_eq!(both.home.hits, usize::MAX);
    assert_eq!(f(both.signal_for(Team::Away).attack_score), 0.125);
    let alone = merge_soccer_adversarial_embedding_signals(None, Some(neural), &plus);
    assert_eq!(alone.map(|s| s.away.hits), Some(0));
    assert!(merge_soccer_adversarial_embedding_signals(None, None, &plus).is_none());
    let quiet = SoccerNeuralFormationIntent {
        home_attack: r(1e-9),
        home_defense: r(0.0),
        away_attack: r(0.0),
        away_defense: r(f64::NAN),
    };
    assert!(!quiet.is_active());
    assert!(SoccerNeuralFormationIntent { away_attack: r(0.1), ..quiet }.is_active());
}

#[test]
fn assignments_go_by_controller() {
    let player = |id, slot| ControlledPlayer {
        id,
        name: format!("p{id}"),
        team: Team::Home,
        controller_slot: slot,
    };
    let r = controller_assignments(&vec![
        player(4, Some(2)),
        player(5, None),
        player(6, Some(0)),
    ]);
    assert_eq!(r.iter().map(|a| (a.controller_slot, a.player_id)).collect::<Vec<_>>(), vec![(0, 6), (2, 4)]);
    assert_eq!(r[0].player_name, "p6");
}

#[test]
fn operations_of_a_tick_are_named() {
    let labels = |f, m, n| {
        central_operations(true, f, m, n).iter().map(|o| o.label).collect::<Vec<_>>()
    };
    assert_eq!(labels(false, true, 0).len(), 6);
    let full = labels(true, true, 3);
    assert_eq!(full.len(), 7);
    assert!(full.contains(&"solve-formation-lp") && full.contains(&"solve-local-mpc"));
    assert_eq!(full[0], "sense-possession");
    assert_eq!(players_within(&vec![r(1.0), r(3.0), r(f64::NAN), r(5.1)], r(5.0)), 2);
}

#[test]
fn advantages_are_signed() {
    let a = |ball, y: f64| {
        f(central_brain_team_advantage(ball, r(y), r(120.0), r(0.0), r(120.0), &plus, &over))
    };
    assert_eq!(a(true, 90.0), 0.75);
    assert_eq!(a(false, 30.0), -0.75);
    let blank = default_team_brain_snapshot(directive());
    assert_eq!(blank.mode, TeamBrainMode::Transition);
    assert_eq!(f(blank.press_intensity), 0.48);
    assert_eq!(f(blank.directive.defensive_line_y), 48.0);
    assert!((f(blank.directive.width_yards) - 49.6).abs() < 1e-9);
    assert_eq!(blank.directive.defense_strategy, TeamDefenseStrategy::MidBlockZonal);
}

fn candidate(role: PlayerRole, zone: f64, goal: f64) -> MarkCandidate {
    MarkCandidate {
        team: Team::Away,
        role,
        position: v(zone, goal),
        holds_ball: false,
        lane_open: false,
        zone_distance: r(zone),
        goal_distance: r(goal),
    }
}

#[test]
fn the_most_dangerous_opponent_is_marked() {
    let near = candidate(PlayerRole::Defender, 4.0, 90.0);
    let striker = candidate(PlayerRole::Forward, 5.5, 90.0);
    let keeper = candidate(PlayerRole::Goalkeeper, 0.0, 90.0);
    let mate = MarkCandidate { team: Team::Home, ..candidate(PlayerRole::Forward, 0.0, 90.0) };
    let all = vec![near, keeper, striker, mate];
    let (best, score) = find_mark(&all, Team::Home, &plus, &times);
    assert_eq!(best, Some(2));
    assert!((f(score) - 3.1).abs() < 1e-12);
    let decide = |cross| {
        soccer_defensive_mark_target(
            &all, Team::Home, PlayerRole::Defender, cross, r(1.5), &plus, &times,
        )
    };
    assert_eq!(
        decide(None),
        MarkDecision::Mark { position: striker.position, standoff: r(2.4) }
    );
    assert_eq!(decide(Some((v(1.0, 2.0), r(6.0)))), MarkDecision::Cross(v(1.0, 2.0)));
    assert!(matches!(decide(Some((v(1.0, 2.0), r(6.2)))), MarkDecision::Mark { .. }));
    let nobody = soccer_defensive_mark_target(
        &vec![keeper], Team::Home, PlayerRole::Forward, None, r(1.5), &plus, &times,
    );
    assert_eq!(nobody, MarkDecision::Nobody);
    let holder = MarkCandidate { holds_ball: true, lane_open: true, ..near };
    let (best, _) = find_mark(&vec![striker, holder], Team::Home, &plus, &times);
    assert_eq!(best, Some(1));
}

#[test]
fn crosses_are_covered_where_they_arrive() {
    let high = FlankAttackPolicy::PlayDownFlankHighCross;
    assert!(looks_for_cross(PlayerRole::Defender, Some(Team::Away), Team::Home, high, r(0.42)));
    assert!(!looks_for_cross(PlayerRole::Forward, Some(Team::Away), Team::Home, high, r(0.9)));
    assert!(!looks_for_cross(PlayerRole::Defender, Some(Team::Home), Team::Home, high, r(0.9)));
    assert!(!looks_for_cross(PlayerRole::Defender, Some(Team::Away), Team::Home, high, r(0.41)));
    let arrival = |x: f64, goal: f64| CrossArrival {
        coverage: v(x, goal),
        arrival_x: r(x),
        coverage_distance: r(3.0),
        goal_distance: r(goal),
        runner_distance: r(6.0),
        lane_open: true,
    };
    let runner = |role, a| CrossRunner { team: Team::Away, role, arrival: a };
    let runners = vec![
        runner(PlayerRole::Forward, None),
        runner(PlayerRole::Forward, Some(arrival(40.0, 25.0))),
        runner(PlayerRole::Midfielder, Some(arrival(40.0, 8.0))),
        runner(PlayerRole::Forward, Some(arrival(44.0, 8.0))),
        runner(PlayerRole::Defender, Some(arrival(40.0, 1.0))),
    ];
    let found = soccer_defensive_cross_arrival_mark_target(
        &runners,
        Team::Home,
        PlayerRole::Defender,
        Some(Team::Away),
        high,
        r(0.9),
        r(40.0),
        &plus,
        &times,
        &over,
    );
    let (place, score) = found.expect("an arrival");
    assert_eq!(place, v(44.0, 8.0));
    let expected = 3.0 * 0.76 + 6.0 * 0.055 - 3.0 - 1.15 - 1.1 - 1.35 - 0.9 * 0.48
        - (16.0 / 24.0) * 1.25
        - (12.0 / 18.0) * 0.55;
    assert!((f(score) - expected).abs() < 1e-9);
    let none = soccer_defensive_cross_arrival_mark_target(
        &runners,
        Team::Home,
        PlayerRole::Defender,
        Some(Team::Away),
        FlankAttackPolicy::NoFlank,
        r(0.9),
        r(40.0),
        &plus,
        &times,
        &over,
    );
    assert!(none.is_none());
}

#[test]
fn situations_are_read_off_the_pitch() {
    let reading = PossessionReading {
        tick: 4,
        has_ball: true,
        ball: v(20.0, 90.0),
        field_width: r(80.0),
        field_length: r(120.0),
        opponent_goal_y: r(120.0),
        own_goal_y: r(0.0),
        opponent_press: r(0.1),
        proposed_hosts_pairs: true,
        held_hosts_pairs: false,
    };
    let s = read_situation(&reading, &plus, &times, &over);
    assert_eq!(f(s.advantage), 0.75);
    assert_eq!(f(s.to_opponent_goal), 0.25);
    assert!((f(s.left_mark) - 30.4).abs() < 1e-9 && (f(s.right_mark) - 49.6).abs() < 1e-9);
    let without = PossessionReading { has_ball: false, ..reading };
    assert_eq!(f(read_situation(&without, &plus, &times, &over).advantage), -0.25);
}

#[test]
fn markers_stand_on_the_goal_side() {
    let distance = |a: Vec2, b: Vec2| r((f(a.x) - f(b.x)).hypot(f(a.y) - f(b.y)));
    let unit = |a: Vec2| {
        let n = f(a.x).hypot(f(a.y));
        if n > 1e-9 {
            v(f(a.x) / n, f(a.y) / n)
        } else {
            v(0.0, 0.0)
        }
    };
    let blocked = |_: Team, _: Vec2, _: Vec2, _: Real64| false;
    let wide = |p: Vec2| r(if f(p.x) > 60.0 { 0.9 } else { 0.0 });
    let s = MarkSituation {
        team: Team::Home,
        frame: TickFrame {
            width: r(80.0),
            length: r(120.0),
            dt_seconds: r(0.1),
            attack_dir: r(1.0),
        },
        own_goal_y: r(0.0),
        holder: Some(21),
        ball: v(40.0, 60.0),
        controlled: Some(Team::Away),
        policy: FlankAttackPolicy::PlayDownFlankHighCross,
        press_midfielder: r(1.5),
    };
    let o = |id, role, x: f64, y: f64| SeenOpponent {
        id,
        team: Team::Away,
        role,
        seen: v(x, y),
        position: v(x, y),
        arrival: None,
    };
    let place = |s: &MarkSituation, players: &Vec<SeenOpponent>| {
        find_marked_place(
            s,
            PlayerRole::Defender,
            v(40.0, 30.0),
            players,
            &plus,
            &times,
            &over,
            &distance,
            &unit,
            &blocked,
            &wide,
        )
    };
    let striker = o(20, PlayerRole::Forward, 40.0, 32.0);
    let crosser = o(21, PlayerRole::Defender, 70.0, 60.0);
    // The striker near the zone is marked from 2.4 yards towards the goal.
    let found = place(&s, &vec![striker, crosser]).expect("a place");
    assert!((f(found.x) - 40.0).abs() < 1e-9 && (f(found.y) - 29.6).abs() < 1e-9);
    // A cross that would reach the striker in front of the goal comes first.
    let arriving = SeenOpponent { arrival: Some(v(40.0, 23.0)), ..striker };
    let found = place(&s, &vec![arriving, crosser]).expect("a place");
    assert!((f(found.y) - 21.2).abs() < 1e-9);
    // Without anybody on the flank the cross does not count.
    let central = MarkSituation { holder: None, ..s };
    let found = place(&central, &vec![arriving, crosser]).expect("a place");
    assert!((f(found.y) - 29.6).abs() < 1e-9);
    assert!(place(&s, &vec![]).is_none());
}
