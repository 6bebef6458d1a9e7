use soccer::central::{
    CentralBrainTeamShapeTrace, ControlledPlayer, SoccerNeuralFormationIntent,
    TeamTacticalDirective,
};
use soccer::commitment::{CommitmentConstants, CommitmentSituation};
use soccer::coordination::{
    AttackingOverloadProfile, CentralBrain, DefensiveCoverProfile, DirectiveQuestion,
    SnapshotReadings, StepClosing, StepOpening,
};
use soccer::number::Real64;
use soccer::pitch::{TacticalPhase, Team, Vec2};
use soccer::strategy::TeamAttackStrategy;

fn f(r: Real64) -> f64 {
    f64::from_bits(r.to_bits())
}

fn r(x: f64) -> Real64 {
    Real64::from_bits(x.to_bits())
}

fn plus(a: Real64, b: Real64) -> Real64 {
    r(f(a) + f(b))
}

fn times(a: Real64, b: Real64) -> Real64 {
    r(f(a) * f(b))
}

fn over(a: Real64, b: Real64) -> Real64 {
    r(f(a) / f(b))
}

fn count(n: usize) -> Real64 {
    r(n as f64)
}

fn brain() -> CentralBrain {
    CentralBrain::kickoff(r(80.0), r(120.0), 400, &times)
}

fn nowhere() -> Vec2 {
    Vec2 { x: r(0.0), y: r(0.0) }
}

fn opening(possession: Option<Team>, ball_y: f64, tick: u64) -> StepOpening {
    StepOpening {
        tick,
        possession_team: possession,
        ball: Vec2 { x: r(30.0), y: r(ball_y) },
        field_width: r(80.0),
        field_length: r(120.0),
        score_home: 1,
        score_away: 3,
    }
}

fn player(id: usize, slot: Option<usize>) -> ControlledPlayer {
    ControlledPlayer { id, name: format!("p{id}"), team: Team::Away, controller_slot: slot }
}

#[test]
fn the_kickoff_is_neutral() {
    let b = brain();
    assert_eq!(b.phase, TacticalPhase::Kickoff);
    assert!((f(b.pressure_line_home) - 66.0).abs() < 1e-9);
    assert!((f(b.pressure_line_away) - 54.0).abs() < 1e-9);
    assert_eq!(f(b.directive_for(Team::Away).defensive_line_y), 72.0);
    assert!(b.last_decision.is_none());
    assert!(!b.home_strategy_commitment.set);
    assert!(b.formation_lp_guidance().is_empty());
    let (home, away) = b.formation_lp_team_snapshots();
    assert_eq!((home.team, away.team), (Team::Home, Team::Away));
}

#[test]
fn a_tick_runs_from_opening_to_record() {
    let mut b = brain();
    let home = TeamTacticalDirective {
        defensive_line_y: r(50.0),
        attack_strategy: TeamAttackStrategy::QuickVerticalThroughBall,
        ..b.home_directive
    };
    let away = TeamTacticalDirective { press_intensity: r(0.9), ..b.away_directive };
    let cover = DefensiveCoverProfile::default();
    let overload = AttackingOverloadProfile { attackers: 3, ..Default::default() };
    let asked = std::cell::RefCell::new(Vec::new());
    let propose = |q: DirectiveQuestion| {
        asked.borrow_mut().push(q);
        if q.team == Team::Home { home } else { away }
    };
    b.open_time_step(
        &opening(Some(Team::Home), 82.0, 9),
        cover,
        overload,
        cover,
        AttackingOverloadProfile::default(),
        &times,
        &propose,
    );
    // The rule is asked in this tick's phase, each team with the score as it sees it.
    let asked = asked.into_inner();
    assert_eq!(asked.len(), 2);
    assert!(asked.iter().all(|q| q.phase == TacticalPhase::HomeAttack
        && q.possession_team == Some(Team::Home)
        && q.cover == cover
        && f(q.ball.y) == 82.0
        && (f(q.field_width), f(q.field_length)) == (80.0, 120.0)));
    assert_eq!((asked[0].team, asked[0].score_diff), (Team::Home, -2));
    assert_eq!((asked[1].team, asked[1].score_diff), (Team::Away, 2));
    assert_eq!((asked[0].overload.attackers, asked[1].overload.attackers), (3, 0));
    assert_eq!(b.phase, TacticalPhase::HomeAttack);
    let situation = CommitmentSituation {
        tick: 9,
        has_ball: true,
        advantage: r(0.5),
        to_opponent_goal: r(0.3),
        opponent_press: r(0.0),
        ball_x: r(10.0),
        left_mark: r(30.0),
        right_mark: r(50.0),
        proposed_hosts_pairs: true,
        held_hosts_pairs: false,
    };
    let constants = CommitmentConstants {
        rule_prior: r(0.0),
        held_hysteresis: r(0.1),
        value_weight: r(1.0),
        ema_alpha: r(0.5),
        commit_ticks: 30,
        overlap_run_probability: r(0.6),
        give_and_go_pass_boost: r(2.0),
    };
    b.apply_strategy_commitment(Team::Home, &situation, &constants, &plus, &times);
    assert!(b.home_strategy_commitment.set && !b.away_strategy_commitment.set);
    // The press is read off the other directive: ball, last third, pressed.
    assert_eq!(b.home_strategy_commitment.context, 0b1101);
    assert_eq!(b.home_strategy_commitment.sub, Some(TeamAttackStrategy::WingOverlapLeftCross));
    assert_eq!(f(b.home_directive.flank_overlap_run_probability), 0.6);
    b.apply_neural_intent();
    assert_eq!(f(b.home_directive.neural_formation_attack_score), 0.0);
    b.neural_formation_intent = SoccerNeuralFormationIntent {
        home_attack: r(0.25),
        home_defense: r(0.0),
        away_attack: r(0.0),
        away_defense: r(0.5),
    };
    b.apply_neural_intent();
    assert_eq!(f(b.home_directive.neural_formation_attack_score), 0.25);
    assert_eq!(f(b.away_directive.neural_formation_defense_score), 0.5);
    b.feed_back_formation(Team::Home, &plus, &times, &over, &count);
    assert_eq!(f(b.home_directive.press_intensity), 0.48);
    b.skip_formation();
    assert_eq!(b.formation_lp_team_snapshots().0.status, "disabled");
    let shape = CentralBrainTeamShapeTrace::default();
    let closing = StepClosing {
        tick: 9,
        ball_holder: Some(6),
        ball_position: nowhere(),
        ball_velocity: nowhere(),
        ball_acceleration: nowhere(),
        ball_jerk: nowhere(),
        ball_altitude_yards: r(0.0),
        ball_scheduled_index: None,
        home_shape: shape,
        away_shape: shape,
        tracked_players: 22,
        tracked_officials: 3,
    };
    let players = vec![player(8, Some(1)), player(9, None), player(7, Some(0))];
    b.close_time_step(&closing, "home_attack", &players, vec!["sense-possession"]);
    assert_eq!(f(b.pressure_line_home), 50.0);
    let d = b.last_decision.as_ref().expect("a record");
    assert_eq!(d.action, "directives-home_attack");
    assert_eq!(d.controlled_human_players, 2);
    assert_eq!(d.controller_assignments[0].player_id, 7);
    let readings = SnapshotReadings {
        scheduled_index: None,
        possession_team: Some(Team::Away),
        ball_position: nowhere(),
        ball_velocity: nowhere(),
        ball_acceleration: nowhere(),
        ball_jerk: nowhere(),
        ball_altitude_yards: r(0.0),
        ball_holder: None,
        ball_scheduled_index: None,
        ball_last_action: Some("roll".to_string()),
        player_centroid: nowhere(),
        live_play_centroid: nowhere(),
        center_of_play: nowhere(),
        tracked_players: vec![],
        tracked_officials: 3,
    };
    let s = b.to_snapshot(readings, &players);
    assert_eq!(s.possession_team, Some(Team::Home));
    assert_eq!(s.last_decision.expect("a record").tick, 9);
    assert_eq!(s.controlled_human_players, 2);
    assert_eq!(s.readings.ball_last_action.as_deref(), Some("roll"));
}
