use soccer::number::Real64;
use soccer::overlay::{
    copy_json, env_overlays, field_overlay, fold_fitting, merge_json, nest_dotted_path, parse_json,
    Entry, Json,
};
use soccer::tunables::killer_pass::KillerPassOverTopTunables;
use soccer::tunables::play::RewardTunables;
use soccer::tunables::{Fault, Notice, Tunables};

fn f(r: Real64) -> f64 {
    f64::from_bits(r.to_bits())
}

fn r(x: f64) -> Real64 {
    Real64::from_bits(x.to_bits())
}

fn plus(a: Real64, b: Real64) -> Real64 {
    r(f(a) + f(b))
}

fn times(a: Real64, b: Real64) -> Real64 {
    r(f(a) * f(b))
}

fn text(fault: &Fault) -> String {
    fault.message("v", "lo", "hi")
}

fn object(entries: Vec<(&str, Json)>) -> Json {
    Json::Object(
        entries
            .into_iter()
            .map(|(key, value)| Entry { key: key.to_string(), value })
            .collect(),
    )
}

fn number(text: &str) -> Json {
    Json::Number(text.to_string())
}

#[test]
fn reward_giveaway_penalty_defaults_match_historical_literals() {
            let r = RewardTunables::default();
    assert_eq!(f(r.giveaway_to_opponent_own_half_penalty), 3.5);
    assert_eq!(f(r.giveaway_to_opponent_opp_half_penalty), 2.2);
    assert_eq!(f(r.giveaway_to_loose_own_half_penalty), 0.85);
    assert_eq!(f(r.giveaway_to_loose_opp_half_penalty), 0.55);
    // The ordering the turnover model encodes: an own-half giveaway straight to
    // the opponent is the most expensive; a loose ball lost in the opponent's
    // half the least. Locking it in stops a future retune from inverting it.
    assert!(
        f(r.giveaway_to_opponent_own_half_penalty) > f(r.giveaway_to_opponent_opp_half_penalty)
    );
    assert!(
        f(r.giveaway_to_opponent_opp_half_penalty) > f(r.giveaway_to_loose_own_half_penalty)
    );
    assert!(f(r.giveaway_to_loose_own_half_penalty) > f(r.giveaway_to_loose_opp_half_penalty));
}

#[test]
fn reward_giveaway_penalties_are_sanitized_and_validated() {
    // Defaults pass through sanitize untouched and validate cleanly.
    let mut d = RewardTunables::default();
    let mut notices = Vec::new();
    d.sanitize(&mut notices);
    assert!(notices.is_empty(), "defaults are sane: {notices:?}");
    assert_eq!(f(d.giveaway_to_opponent_own_half_penalty), 3.5);
    assert_eq!(f(d.giveaway_to_loose_opp_half_penalty), 0.55);
    let mut errors = Vec::new();
    d.validate_strict("reward", &mut errors);
    assert!(errors.is_empty(), "default reward tunables must validate: {errors:?}");
    
    // A degenerate config can never inject a non-finite or wild penalty into a
    // gradient: non-finite is repaired to the default, out-of-range is clamped
    // to the hard bound.
    let mut bad = RewardTunables::default();
    bad.giveaway_to_opponent_own_half_penalty = r(f64::NAN);
    bad.giveaway_to_loose_opp_half_penalty = r(10_000.0);
    bad.sanitize(&mut notices);
    assert_eq!(notices.len(), 2);
    assert_eq!(f(bad.giveaway_to_opponent_own_half_penalty), 3.5, "NaN -> default");
    assert_eq!(f(bad.giveaway_to_loose_opp_half_penalty), 200.0, "out-of-range -> hard cap");
}

#[test]
fn defaults_match_historical_literals() {
    let t = Tunables::default();
    assert_eq!(f(t.tracking.moved_dt_multiplier), 1.2);
    assert_eq!(f(t.tracking.shot_lane_max_yards_to_goal), 25.0);
    assert_eq!(f(t.tracking.tackle_recover_max_distance_yards), 3.8);
    assert_eq!(f(t.tracking.defend_closing_margin_yards), 0.35);
    assert_eq!(f(t.tracking.space_improvement_threshold), 0.25);
    assert_eq!(f(t.decision_mpc.deviation_trace_threshold_yards), 0.75);
    assert_eq!(f(t.decision_mpc.blend_max_target_delta_yards), 6.0);
    assert_eq!(f(t.decision_mpc.reselect_max_target_delta_yards), 16.0);
    assert_eq!(f(t.decision_mpc.reselect_min_execution_confidence), 0.18);
    assert_eq!(f(t.decision_mpc.reselect_min_ball_execution_probability), 0.34);
    assert_eq!(f(t.shooting.shot_on_frame_min_probability), 0.60);
    assert_eq!(f(t.shooting.striker_shot_window_yards), 30.0);
    assert_eq!(f(t.shooting.shot_block_bailout_max_probability), 0.86);
    assert_eq!(f(t.shooting.goal_approach_carry_yards), 45.0);
    assert_eq!(f(t.shooting.striker_hold_up_min_goal_distance_yards), 45.0);
    assert_eq!(f(t.defensive_shape.defensive_line_max_into_opp_half_yards), 5.0);
    assert_eq!(f(t.defensive_shape.back_four_block_width_yards), 22.0);
    assert_eq!(f(t.defensive_shape.back_four_horizontal_min_gap_yards), 6.0);
    assert_eq!(f(t.defensive_shape.back_four_horizontal_max_gap_yards), 15.0);
    assert_eq!(f(t.defensive_shape.wingback_defensive_pinch_target_seconds), 3.0);
    assert_eq!(f(t.defensive_shape.wingback_defensive_pinch_opponent_half_margin_yards), 8.0);
    assert_eq!(f(t.defensive_shape.defensive_goal_side_min_yards), 1.5);
    assert!(t.carrier_keep_rolling.enabled);
    assert_eq!(f(t.carrier_keep_rolling.stop_target_yards), 2.75);
    assert_eq!(f(t.carrier_keep_rolling.min_opponent_distance_yards), 3.0);
    assert_eq!(f(t.carrier_keep_rolling.min_space_yards), 5.0);
    assert_eq!(f(t.carrier_keep_rolling.carry_target_yards), 4.2);
    assert_eq!(f(t.carrier_keep_rolling.carry_min_step_yards), 2.25);
    assert_eq!(f(t.carrier_keep_rolling.momentum_yps), 0.6);
    assert!(t.fresh_possession_escape.enabled);
    assert_eq!(f(t.fresh_possession_escape.fresh_seconds), 0.8);
    assert_eq!(f(t.fresh_possession_escape.min_pressure), 0.55);
    assert_eq!(f(t.fresh_possession_escape.crowded_radius_yards), 6.0);
    assert_eq!(t.fresh_possession_escape.crowded_min_opponents, 2);
    assert_eq!(f(t.fresh_possession_escape.min_forward_space_yards), 4.0);
    assert_eq!(f(t.fresh_possession_escape.target_yards), 4.8);
    assert_eq!(f(t.fresh_possession_escape.corridor_half_width_yards), 3.0);
    assert_eq!(f(t.fresh_possession_escape.min_cushion_gain_yards), 0.85);
    assert_eq!(f(t.fresh_possession_escape.min_landing_clearance_yards), 2.2);
    assert_eq!(f(t.fresh_possession_escape.initial_push_yps), 1.45);
    assert_eq!(f(t.fresh_possession_escape.decision_floor_max_probability), 0.56);
    assert_eq!(t.lane_affinity.forward_lane_radius, 3);
    assert_eq!(f(t.lane_affinity.defender_commitment_possession), 0.80);
    assert_eq!(f(t.lane_affinity.possession_factor), 0.80);
    assert_eq!(f(t.lane_affinity.row_match_span_rows), 8.0);
    assert_eq!(f(t.lane_affinity.home_lane_match_span_lanes), 3.0);
    assert_eq!(f(t.lane_affinity.forward_home_lane_weight), 0.16);
    assert_eq!(f(t.lane_affinity.role_home_lane_weight), 0.20);
    assert_eq!(f(t.lane_affinity.open_space_dynamic_lane_bonus_weight), 1.05);
    assert_eq!(f(t.lane_affinity.movement_shape_dynamic_lane_weight), 0.36);
    assert_eq!(f(t.policy_selection.top1_weight), 0.70);
    assert_eq!(f(t.policy_selection.top2_weight), 0.20);
    assert_eq!(f(t.policy_selection.top3_weight), 0.10);
    assert_eq!(t.policy_selection.rank_weights().map(f), [0.70, 0.20, 0.10]);
    assert_eq!(f(t.policy_selection.boltzmann_temperature), 0.0);
    assert_eq!(f(t.pomdp_perception.player_reaction_min_seconds), 0.10);
    assert_eq!(f(t.pomdp_perception.player_reaction_max_seconds), 0.25);
    assert_eq!(f(t.pomdp_perception.ball_holder_core_degrees), 100.0);
    assert_eq!(f(t.pomdp_perception.ball_holder_shoulder_degrees), 40.0);
    assert_eq!(f(t.pomdp_perception.ball_holder_core_confidence), 0.90);
    assert_eq!(f(t.pomdp_perception.ball_holder_shoulder_confidence), 0.70);
    assert_eq!(f(t.pomdp_perception.ball_holder_side_scan_confidence), 0.52);
    assert_eq!(f(t.pomdp_perception.ball_holder_rear_scan_confidence), 0.38);
    assert_eq!(f(t.pomdp_perception.ball_holder_head_scan_min_seconds), 0.75);
    assert_eq!(f(t.pomdp_perception.ball_holder_head_scan_max_seconds), 1.85);
    assert_eq!(f(t.pomdp_perception.ball_holder_head_scan_vision_relief_seconds), 0.35);
    assert_eq!(f(t.pomdp_perception.ball_holder_scan_confidence_vision_bonus), 0.08);
    assert_eq!(f(t.pomdp_perception.ball_holder_scan_confidence_cap), 0.62);
    assert_eq!(f(t.pomdp_perception.ball_holder_head_scan_drift_risk_base), 0.24);
    assert_eq!(f(t.pomdp_perception.ball_holder_head_scan_drift_risk_span), 0.42);
    assert_eq!(f(t.pomdp_perception.kalman_point_match_radius_yards), 0.35);
    assert_eq!(t.pomdp_perception.kalman_min_history_samples, 2);
    assert_eq!(f(t.pomdp_perception.kalman_current_sample_epsilon_yards), 0.15);
    assert_eq!(f(t.pomdp_perception.kalman_base_sigma_yards), 0.85);
    assert_eq!(f(t.pomdp_perception.kalman_speed_sigma_per_yps), 0.10);
    assert_eq!(f(t.pomdp_perception.kalman_velocity_disagreement_sigma_yards), 0.14);
    assert_eq!(f(t.pomdp_perception.kalman_visible_max_confidence), 0.96);
    assert_eq!(f(t.pomdp_perception.kalman_front_max_confidence), 0.88);
    assert_eq!(f(t.pomdp_perception.kalman_occluded_max_confidence), 0.68);
    assert_eq!(f(t.pomdp_perception.kalman_ball_holder_occluded_max_confidence), 0.58);
}

/// The leaf at a path; nothing where there is none, an error where a leaf stands in the way.
fn leaf<'a>(json: &'a Json, path: &str) -> Result<Option<&'a Json>, ()> {
    let mut here = json;
    for name in path.split('.') {
        match here {
            Json::Object(entries) => match entries.iter().find(|e| e.key == name) {
                Some(e) => here = &e.value,
                None => return Ok(None),
            },
            _ => return Err(()),
        }
    }
    Ok(Some(here))
}

/// Reads some of the knobs.
fn read(json: &Json) -> Option<Tunables> {
    let mut t = Tunables::default();
    let mut fits = true;
    let mut number_at = |path: &str, place: &mut Real64| match leaf(json, path) {
        Ok(Some(Json::Number(text))) => *place = r(text.parse().expect("a number")),
        Ok(None) => {}
        _ => fits = false,
    };
    number_at("tracking.moved_dt_multiplier", &mut t.tracking.moved_dt_multiplier);
    number_at("decision_mpc.reselect_min_ball_execution_probability", &mut t.decision_mpc.reselect_min_ball_execution_probability);
    number_at("defensive_shape.defensive_line_max_into_opp_half_yards", &mut t.defensive_shape.defensive_line_max_into_opp_half_yards);
    number_at("carrier_keep_rolling.stop_target_yards", &mut t.carrier_keep_rolling.stop_target_yards);
    number_at("fresh_possession_escape.min_pressure", &mut t.fresh_possession_escape.min_pressure);
    number_at("fresh_possession_escape.initial_push_yps", &mut t.fresh_possession_escape.initial_push_yps);
    number_at("fresh_possession_escape.min_forward_space_yards", &mut t.fresh_possession_escape.min_forward_space_yards);
    number_at("fresh_possession_escape.corridor_half_width_yards", &mut t.fresh_possession_escape.corridor_half_width_yards);
    number_at("lane_affinity.goalkeeper_home_lane_weight", &mut t.lane_affinity.goalkeeper_home_lane_weight);
    number_at("lane_affinity.possession_factor", &mut t.lane_affinity.possession_factor);
    number_at("lane_affinity.role_home_lane_weight", &mut t.lane_affinity.role_home_lane_weight);
    number_at("lane_affinity.open_space_dynamic_lane_bonus_weight", &mut t.lane_affinity.open_space_dynamic_lane_bonus_weight);
    number_at("pomdp_perception.player_reaction_max_seconds", &mut t.pomdp_perception.player_reaction_max_seconds);
    number_at("pomdp_perception.ball_holder_head_scan_max_seconds", &mut t.pomdp_perception.ball_holder_head_scan_max_seconds);
    number_at("pomdp_perception.ball_holder_side_scan_confidence", &mut t.pomdp_perception.ball_holder_side_scan_confidence);
    number_at("pomdp_perception.ball_holder_head_scan_drift_risk_span", &mut t.pomdp_perception.ball_holder_head_scan_drift_risk_span);
    number_at("tracking.tackle_recover_max_distance_yards", &mut t.tracking.tackle_recover_max_distance_yards);
    number_at("shooting.shot_block_bailout_max_probability", &mut t.shooting.shot_block_bailout_max_probability);
    number_at("carrier_keep_rolling.carry_target_yards", &mut t.carrier_keep_rolling.carry_target_yards);
    number_at("fresh_possession_escape.target_yards", &mut t.fresh_possession_escape.target_yards);
    number_at("lane_affinity.home_lane_match_span_lanes", &mut t.lane_affinity.home_lane_match_span_lanes);
    number_at("lane_affinity.forward_home_lane_weight", &mut t.lane_affinity.forward_home_lane_weight);
    number_at("lane_affinity.movement_shape_dynamic_lane_weight", &mut t.lane_affinity.movement_shape_dynamic_lane_weight);
    number_at("pomdp_perception.player_reaction_min_seconds", &mut t.pomdp_perception.player_reaction_min_seconds);
    number_at("pomdp_perception.ball_holder_rear_scan_confidence", &mut t.pomdp_perception.ball_holder_rear_scan_confidence);
    number_at("pomdp_perception.kalman_base_sigma_yards", &mut t.pomdp_perception.kalman_base_sigma_yards);
    match leaf(json, "pomdp_perception.kalman_min_history_samples") {
        Ok(Some(Json::Number(text))) => match text.parse() {
            Ok(n) => t.pomdp_perception.kalman_min_history_samples = n,
            Err(_) => fits = false,
        },
        Ok(None) => {}
        _ => fits = false,
    }
    match leaf(json, "carrier_keep_rolling.enabled") {
        Ok(Some(Json::Bool(b))) => t.carrier_keep_rolling.enabled = *b,
        Ok(None) => {}
        _ => fits = false,
    }
    if fits {
        Some(t)
    } else {
        None
    }
}

fn from_layers(base: Json, layers: Vec<Json>) -> (Tunables, Vec<bool>) {
    Tunables::from_overlays(base, layers, &read, &mut vec![], &plus)
}

#[test]
fn partial_overlay_only_touches_named_fields() {
    let d = Tunables::default();
    let defaults = object(vec![
        (
            "tracking",
            object(vec![
                ("moved_dt_multiplier", number(&f(d.tracking.moved_dt_multiplier).to_string())),
                ("tackle_recover_max_distance_yards", number(&f(d.tracking.tackle_recover_max_distance_yards).to_string())),
            ]),
        ),
        (
            "decision_mpc",
            object(vec![
                ("reselect_min_ball_execution_probability", number(&f(d.decision_mpc.reselect_min_ball_execution_probability).to_string())),
            ]),
        ),
        (
            "defensive_shape",
            object(vec![
                ("defensive_line_max_into_opp_half_yards", number(&f(d.defensive_shape.defensive_line_max_into_opp_half_yards).to_string())),
            ]),
        ),
        (
            "carrier_keep_rolling",
            object(vec![
                ("enabled", Json::Bool(d.carrier_keep_rolling.enabled)),
                ("stop_target_yards", number(&f(d.carrier_keep_rolling.stop_target_yards).to_string())),
                ("carry_target_yards", number(&f(d.carrier_keep_rolling.carry_target_yards).to_string())),
            ]),
        ),
        (
            "fresh_possession_escape",
            object(vec![
                ("min_pressure", number(&f(d.fresh_possession_escape.min_pressure).to_string())),
                ("initial_push_yps", number(&f(d.fresh_possession_escape.initial_push_yps).to_string())),
                ("min_forward_space_yards", number(&f(d.fresh_possession_escape.min_forward_space_yards).to_string())),
                ("corridor_half_width_yards", number(&f(d.fresh_possession_escape.corridor_half_width_yards).to_string())),
                ("target_yards", number(&f(d.fresh_possession_escape.target_yards).to_string())),
            ]),
        ),
        (
            "lane_affinity",
            object(vec![
                ("goalkeeper_home_lane_weight", number(&f(d.lane_affinity.goalkeeper_home_lane_weight).to_string())),
                ("possession_factor", number(&f(d.lane_affinity.possession_factor).to_string())),
                ("role_home_lane_weight", number(&f(d.lane_affinity.role_home_lane_weight).to_string())),
                ("open_space_dynamic_lane_bonus_weight", number(&f(d.lane_affinity.open_space_dynamic_lane_bonus_weight).to_string())),
                ("home_lane_match_span_lanes", number(&f(d.lane_affinity.home_lane_match_span_lanes).to_string())),
                ("forward_home_lane_weight", number(&f(d.lane_affinity.forward_home_lane_weight).to_string())),
                ("movement_shape_dynamic_lane_weight", number(&f(d.lane_affinity.movement_shape_dynamic_lane_weight).to_string())),
            ]),
        ),
        (
            "pomdp_perception",
            object(vec![
                ("player_reaction_max_seconds", number(&f(d.pomdp_perception.player_reaction_max_seconds).to_string())),
                ("ball_holder_head_scan_max_seconds", number(&f(d.pomdp_perception.ball_holder_head_scan_max_seconds).to_string())),
                ("ball_holder_side_scan_confidence", number(&f(d.pomdp_perception.ball_holder_side_scan_confidence).to_string())),
                ("ball_holder_head_scan_drift_risk_span", number(&f(d.pomdp_perception.ball_holder_head_scan_drift_risk_span).to_string())),
                ("kalman_min_history_samples", number(&d.pomdp_perception.kalman_min_history_samples.to_string())),
                ("player_reaction_min_seconds", number(&f(d.pomdp_perception.player_reaction_min_seconds).to_string())),
                ("ball_holder_rear_scan_confidence", number(&f(d.pomdp_perception.ball_holder_rear_scan_confidence).to_string())),
                ("kalman_base_sigma_yards", number(&f(d.pomdp_perception.kalman_base_sigma_yards).to_string())),
            ]),
        ),
        (
            "shooting",
            object(vec![
                ("shot_block_bailout_max_probability", number(&f(d.shooting.shot_block_bailout_max_probability).to_string())),
            ]),
        ),
    ]);
    let overlay = parse_json(
        r#"    {
            "tracking": { "moved_dt_multiplier": 1.5 },
            "decision_mpc": { "reselect_min_ball_execution_probability": 0.42 },
            "defensive_shape": { "defensive_line_max_into_opp_half_yards": 4.0 },
            "carrier_keep_rolling": {
                "enabled": false,
                "stop_target_yards": 1.4
            },
            "fresh_possession_escape": {
                "min_pressure": 0.48,
                "initial_push_yps": 1.8,
                "min_forward_space_yards": 3.5,
                "corridor_half_width_yards": 2.6
            },
            "lane_affinity": {
                "goalkeeper_home_lane_weight": 0.42,
                "possession_factor": 0.74,
                "role_home_lane_weight": 0.44,
                "open_space_dynamic_lane_bonus_weight": 1.3
            },
            "pomdp_perception": {
                "player_reaction_max_seconds": 0.30,
                "ball_holder_head_scan_max_seconds": 2.0,
                "ball_holder_side_scan_confidence": 0.55,
                "ball_holder_head_scan_drift_risk_span": 0.50,
                "kalman_min_history_samples": 3
            }
        }"#,
    )
    .expect("overlay parses");
    let (t, fit) = from_layers(defaults, vec![overlay]);
    assert_eq!(fit, vec![true]);
    assert_eq!(f(t.tracking.moved_dt_multiplier), 1.5);
    assert_eq!(f(t.decision_mpc.reselect_min_ball_execution_probability), 0.42);
    assert_eq!(f(t.defensive_shape.defensive_line_max_into_opp_half_yards), 4.0);
    assert!(!t.carrier_keep_rolling.enabled);
    assert_eq!(f(t.carrier_keep_rolling.stop_target_yards), 1.4);
    assert_eq!(f(t.fresh_possession_escape.min_pressure), 0.48);
    assert_eq!(f(t.fresh_possession_escape.initial_push_yps), 1.8);
    assert_eq!(f(t.fresh_possession_escape.min_forward_space_yards), 3.5);
    assert_eq!(f(t.fresh_possession_escape.corridor_half_width_yards), 2.6);
    assert_eq!(f(t.lane_affinity.goalkeeper_home_lane_weight), 0.42);
    assert_eq!(f(t.lane_affinity.possession_factor), 0.74);
    assert_eq!(f(t.lane_affinity.role_home_lane_weight), 0.44);
    assert_eq!(f(t.lane_affinity.open_space_dynamic_lane_bonus_weight), 1.3);
    assert_eq!(f(t.pomdp_perception.player_reaction_max_seconds), 0.30);
    assert_eq!(f(t.pomdp_perception.ball_holder_head_scan_max_seconds), 2.0);
    assert_eq!(f(t.pomdp_perception.ball_holder_side_scan_confidence), 0.55);
    assert_eq!(f(t.pomdp_perception.ball_holder_head_scan_drift_risk_span), 0.50);
    assert_eq!(t.pomdp_perception.kalman_min_history_samples, 3);
    // Untouched fields keep their defaults.
    assert_eq!(f(t.tracking.tackle_recover_max_distance_yards), 3.8);
    assert_eq!(f(t.shooting.shot_block_bailout_max_probability), 0.86);
    assert_eq!(f(t.carrier_keep_rolling.carry_target_yards), 4.2);
    assert_eq!(f(t.fresh_possession_escape.target_yards), 4.8);
    assert_eq!(f(t.lane_affinity.home_lane_match_span_lanes), 3.0);
    assert_eq!(f(t.lane_affinity.forward_home_lane_weight), 0.16);
    assert_eq!(f(t.lane_affinity.movement_shape_dynamic_lane_weight), 0.36);
    assert_eq!(f(t.pomdp_perception.player_reaction_min_seconds), 0.10);
    assert_eq!(f(t.pomdp_perception.ball_holder_rear_scan_confidence), 0.38);
    assert_eq!(f(t.pomdp_perception.kalman_base_sigma_yards), 0.85);
}

#[test]
fn later_overlay_wins() {
    let layer = |text: &str| parse_json(text).expect("layer parses");
    let base = object(vec![(
        "tracking",
        object(vec![(
            "moved_dt_multiplier",
            number(&f(Tunables::default().tracking.moved_dt_multiplier).to_string()),
        )]),
    )]);
    let (t, _) = from_layers(
        base,
        vec![
            layer(r#"{ "tracking": { "moved_dt_multiplier": 1.5 } }"#),
            layer(r#"{ "tracking": { "moved_dt_multiplier": 2.0 } }"#),
        ],
    );
    assert_eq!(f(t.tracking.moved_dt_multiplier), 2.0);
}

#[test]
fn misfits_are_skipped_and_the_rest_counts() {
    let layer = |text: &str| parse_json(text).expect("layer parses");
    let (t, fit) = from_layers(
        object(vec![]),
        vec![
            layer(r#"{ "tracking": { "moved_dt_multiplier": 1.5 } }"#),
            layer(r#"{ "tracking": { "moved_dt_multiplier": "fast" }, "shooting": {} }"#),
            layer(r#"{ "pomdp_perception": { "kalman_min_history_samples": 3 } }"#),
            layer(r#"{ "tracking": 7 }"#),
        ],
    );
    assert_eq!(fit, vec![true, false, true, false]);
    assert_eq!(f(t.tracking.moved_dt_multiplier), 1.5);
    assert_eq!(t.pomdp_perception.kalman_min_history_samples, 3);
    // Nothing fits: the defaults stay.
    let (t, fit) = from_layers(object(vec![]), vec![layer(r#"{ "tracking": [] }"#)]);
    assert_eq!(fit, vec![false]);
    assert_eq!(f(t.tracking.moved_dt_multiplier), 1.2);
    let (t, fit) = from_layers(object(vec![]), vec![]);
    assert!(fit.is_empty());
    assert_eq!(f(t.tracking.moved_dt_multiplier), 1.2);
    // What fits is sanitized, and that is noted.
    let mut notices = vec![];
    let wild = layer(r#"{ "tracking": { "moved_dt_multiplier": 1e9 } }"#);
    let (t, _) = Tunables::from_overlays(object(vec![]), vec![wild], &read, &mut notices, &plus);
    assert!(f(t.tracking.moved_dt_multiplier) < 1e9);
    assert_eq!(notices.len(), 1);
}

#[test]
fn the_environment_is_read_in_order() {
    let vars = vec![
        ("DD_SOCCER_TUNABLE__tracking.moved_dt_multiplier".to_string(), "2".to_string()),
        ("DD_SOCCER_TUNABLE__shooting".to_string(), "nonsense".to_string()),
    ];
    let blob = r#"{ "tracking": { "moved_dt_multiplier": 1.5 } }"#;
    let (t, fit) = Tunables::from_env(
        object(vec![]), Some(blob), &vars, &read, &mut vec![], &plus,
    );
    assert_eq!(fit, vec![true, false, true]);
    assert_eq!(f(t.tracking.moved_dt_multiplier), 2.0);
    let (t, _) = Tunables::from_env(object(vec![]), Some(blob), &vec![], &read, &mut vec![], &plus);
    assert_eq!(f(t.tracking.moved_dt_multiplier), 1.5);
}

#[test]
fn folding_keeps_the_tree_of_what_fits() {
    let layer = |text: &str| parse_json(text).expect("layer parses");
    let small = |json: &Json| match json {
        Json::Object(entries) if entries.len() <= 2 => Some(entries.len()),
        _ => None,
    };
    let base = layer(r#"{ "a": [1, "x", null, true] }"#);
    let (tree, size, fit) = fold_fitting(
        copy_json(&base),
        vec![layer(r#"{ "b": 1 }"#), layer(r#"{ "c": 2 }"#), layer(r#"{ "b": 3 }"#)],
        &small,
    );
    assert_eq!(tree, layer(r#"{ "a": [1, "x", null, true], "b": 3 }"#));
    assert_eq!((size, fit), (Some(2), vec![true, false, true]));
    assert_eq!(fold_fitting(base, vec![], &small).1, None);
}

#[test]
fn dotted_path_nests_correctly() {
    let nested = nest_dotted_path("tracking.moved_dt_multiplier", number("1.25"));
    assert_eq!(
        nested,
        parse_json(r#"{ "tracking": { "moved_dt_multiplier": 1.25 } }"#).expect("parses")
    );
    assert_eq!(nest_dotted_path("", Json::Null), object(vec![("", Json::Null)]));
    assert_eq!(
        nest_dotted_path("a..b", Json::Null),
        object(vec![("a", object(vec![("", object(vec![("b", Json::Null)]))]))])
    );
}

#[test]
fn merge_replaces_scalars_and_merges_objects() {
    let read = |text: &str| parse_json(text).expect("parses");
    let mut base = read(r#"{ "a": { "x": 1, "y": 2 }, "b": 3 }"#);
    merge_json(&mut base, read(r#"{ "a": { "y": 9 }, "c": 4 }"#));
    assert_eq!(base, read(r#"{ "a": { "x": 1, "y": 9 }, "b": 3, "c": 4 }"#));
}

#[test]
fn overlays_are_sanitized_to_hard_bounds() {
    let mut t = Tunables::default();
    t.decision_mpc.reselect_min_execution_confidence = r(-1.0);
    t.shooting.shot_block_bailout_max_probability = r(4.0);
    t.defensive_shape.back_four_horizontal_min_gap_yards = r(12.0);
    t.defensive_shape.back_four_horizontal_max_gap_yards = r(4.0);
    t.carrier_keep_rolling.stop_target_yards = r(99.0);
    t.carrier_keep_rolling.carry_target_yards = r(2.0);
    t.carrier_keep_rolling.carry_min_step_yards = r(4.0);
    t.carrier_keep_rolling.min_space_yards = r(1.0);
    t.fresh_possession_escape.fresh_seconds = r(99.0);
    t.fresh_possession_escape.min_forward_space_yards = r(99.0);
    t.fresh_possession_escape.target_yards = r(0.5);
    t.fresh_possession_escape.corridor_half_width_yards = r(99.0);
    t.fresh_possession_escape.min_cushion_gain_yards = r(2.0);
    t.fresh_possession_escape.initial_push_yps = r(99.0);
    t.fresh_possession_escape.crowded_min_opponents = 99;
    t.lane_affinity.goalkeeper_home_lane_weight = r(9.0);
    t.lane_affinity.possession_factor = r(4.0);
    t.lane_affinity.forward_lane_radius = 99;
    t.lane_affinity.home_lane_match_span_lanes = r(99.0);
    t.lane_affinity.role_home_lane_weight = r(-1.0);
    t.lane_affinity.lookahead_min_seconds = r(2.0);
    t.lane_affinity.lookahead_max_seconds = r(0.5);
    t.policy_selection.top1_weight = r(-0.5);
    t.policy_selection.boltzmann_temperature = r(5000.0);
    t.pomdp_perception.player_reaction_min_seconds = r(2.0);
    t.pomdp_perception.player_reaction_max_seconds = r(-1.0);
    t.pomdp_perception.ball_holder_core_degrees = r(-4.0);
    t.pomdp_perception.ball_holder_side_scan_confidence = r(2.0);
    t.pomdp_perception.ball_holder_head_scan_min_seconds = r(99.0);
    t.pomdp_perception.ball_holder_head_scan_max_seconds = r(-1.0);
    t.pomdp_perception.ball_holder_scan_confidence_vision_bonus = r(9.0);
    t.pomdp_perception.ball_holder_scan_confidence_cap = r(-1.0);
    t.pomdp_perception.ball_holder_head_scan_drift_risk_base = r(5.0);
    t.pomdp_perception.ball_holder_head_scan_drift_risk_span = r(-5.0);
    t.pomdp_perception.kalman_point_match_radius_yards = r(99.0);
    t.pomdp_perception.kalman_min_history_samples = 99;
    t.pomdp_perception.kalman_current_sample_epsilon_yards = r(-2.0);
    t.pomdp_perception.kalman_base_sigma_yards = r(0.0);
    t.pomdp_perception.kalman_visible_max_confidence = r(3.0);
    let t = t.sanitized(&mut vec![], &plus);
    assert_eq!(f(t.decision_mpc.reselect_min_execution_confidence), 0.0);
    assert_eq!(f(t.shooting.shot_block_bailout_max_probability), 1.0);
    assert_eq!(f(t.defensive_shape.back_four_horizontal_min_gap_yards), 4.0);
    assert_eq!(f(t.defensive_shape.back_four_horizontal_max_gap_yards), 12.0);
    assert_eq!(f(t.carrier_keep_rolling.stop_target_yards), 6.0);
    assert_eq!(f(t.carrier_keep_rolling.carry_target_yards), 2.0);
    assert_eq!(f(t.carrier_keep_rolling.carry_min_step_yards), 2.0);
    assert_eq!(f(t.carrier_keep_rolling.min_space_yards), 2.0);
    assert_eq!(f(t.fresh_possession_escape.fresh_seconds), 5.0);
    assert_eq!(f(t.fresh_possession_escape.min_forward_space_yards), 20.0);
    assert_eq!(f(t.fresh_possession_escape.target_yards), 2.0);
    assert_eq!(f(t.fresh_possession_escape.corridor_half_width_yards), 8.0);
    assert_eq!(f(t.fresh_possession_escape.min_cushion_gain_yards), 2.0);
    assert_eq!(f(t.fresh_possession_escape.initial_push_yps), 8.0);
    assert_eq!(t.fresh_possession_escape.crowded_min_opponents, 8);
    assert_eq!(f(t.lane_affinity.goalkeeper_home_lane_weight), 1.0);
    assert_eq!(f(t.lane_affinity.possession_factor), 1.0);
    assert_eq!(t.lane_affinity.forward_lane_radius, 6);
    assert_eq!(f(t.lane_affinity.home_lane_match_span_lanes), 12.0);
    assert_eq!(f(t.lane_affinity.role_home_lane_weight), 0.0);
    assert_eq!(f(t.lane_affinity.lookahead_min_seconds), 0.5);
    assert_eq!(f(t.lane_affinity.lookahead_max_seconds), 2.0);
    // Negative rank weight clamps up to the 0.0 hard floor; an absurd
    // temperature clamps down to the 1000.0 hard ceiling.
    assert_eq!(f(t.policy_selection.top1_weight), 0.0);
    assert_eq!(f(t.policy_selection.boltzmann_temperature), 1_000.0);
    assert_eq!(f(t.pomdp_perception.player_reaction_min_seconds), 1.0);
    assert_eq!(f(t.pomdp_perception.player_reaction_max_seconds), 1.0);
    assert_eq!(f(t.pomdp_perception.ball_holder_core_degrees), 1.0);
    assert_eq!(f(t.pomdp_perception.ball_holder_side_scan_confidence), 1.0);
    assert_eq!(f(t.pomdp_perception.ball_holder_head_scan_min_seconds), 3.0);
    assert_eq!(f(t.pomdp_perception.ball_holder_head_scan_max_seconds), 3.0);
    assert_eq!(f(t.pomdp_perception.ball_holder_scan_confidence_vision_bonus), 0.25);
    assert_eq!(f(t.pomdp_perception.ball_holder_scan_confidence_cap), 0.0);
    assert_eq!(f(t.pomdp_perception.ball_holder_head_scan_drift_risk_base), 1.0);
    assert_eq!(f(t.pomdp_perception.ball_holder_head_scan_drift_risk_span), 0.0);
    assert_eq!(f(t.pomdp_perception.kalman_point_match_radius_yards), 5.0);
    assert_eq!(t.pomdp_perception.kalman_min_history_samples, 10);
    assert_eq!(f(t.pomdp_perception.kalman_current_sample_epsilon_yards), 0.0);
    assert_eq!(f(t.pomdp_perception.kalman_base_sigma_yards), 0.01);
    assert_eq!(f(t.pomdp_perception.kalman_visible_max_confidence), 1.0);
}

#[test]
fn strict_validation_reports_bad_direct_configs() {
    let mut t = Tunables::default();
    t.shooting.shot_on_frame_min_probability = r(1.2);
    t.defensive_shape.back_four_horizontal_min_gap_yards = r(9.0);
    t.defensive_shape.back_four_horizontal_max_gap_yards = r(6.0);
    t.carrier_keep_rolling.carry_min_step_yards = r(6.0);
    t.carrier_keep_rolling.carry_target_yards = r(4.0);
    t.fresh_possession_escape.target_yards = r(0.6);
    t.fresh_possession_escape.min_cushion_gain_yards = r(1.2);
    t.lane_affinity.possession_factor = r(1.2);
    t.lane_affinity.goalkeeper_home_lane_weight = r(-0.1);
    t.lane_affinity.forward_lane_radius = 9;
    t.lane_affinity.home_lane_match_span_lanes = r(0.5);
    t.lane_affinity.forward_home_lane_weight = r(6.0);
    t.pomdp_perception.player_reaction_min_seconds = r(0.8);
    t.pomdp_perception.player_reaction_max_seconds = r(0.2);
    t.pomdp_perception.ball_holder_head_scan_min_seconds = r(2.5);
    t.pomdp_perception.ball_holder_head_scan_max_seconds = r(1.5);
    t.pomdp_perception.ball_holder_side_scan_confidence = r(1.2);
    t.pomdp_perception.ball_holder_head_scan_drift_risk_base = r(-0.1);
    t.pomdp_perception.kalman_min_history_samples = 0;

    let err = t
        .validate_strict(&plus)
        .expect_err("config should be invalid")
        .iter()
        .map(text)
        .collect::<Vec<_>>()
        .join("; ");
    assert!(err.contains("shooting.shot_on_frame_min_probability"));
    assert!(err.contains("defensive_shape.back_four_horizontal_min_gap_yards >"));
    assert!(err.contains("carrier_keep_rolling.carry_min_step_yards >"));
    assert!(err.contains("fresh_possession_escape.target_yards <"));
    assert!(err.contains("lane_affinity.possession_factor"));
    assert!(err.contains("lane_affinity.goalkeeper_home_lane_weight"));
    assert!(err.contains("lane_affinity.forward_lane_radius"));
    assert!(err.contains("lane_affinity.home_lane_match_span_lanes"));
    assert!(err.contains("lane_affinity.forward_home_lane_weight"));
    assert!(err.contains(
        "pomdp_perception.player_reaction_max_seconds < pomdp_perception.player_reaction_min_seconds"
    ));
    assert!(err.contains("pomdp_perception.ball_holder_side_scan_confidence"));
    assert!(err.contains(
        "pomdp_perception.ball_holder_head_scan_drift_risk_base"
    ));
    assert!(err.contains("pomdp_perception.kalman_min_history_samples"));
    assert!(err.contains(
        "pomdp_perception.ball_holder_head_scan_max_seconds < pomdp_perception.ball_holder_head_scan_min_seconds"
    ));
}

#[test]
fn faults_name_what_is_wrong() {
    let mut t = Tunables::default();
    assert!(t.validate_strict(&plus).is_ok());
    t.tracking.moved_dt_multiplier = r(f64::NAN);
    let faults = t.validate_strict(&plus).expect_err("NaN is refused");
    assert_eq!(faults.len(), 1);
    assert_eq!(text(&faults[0]), "tracking.moved_dt_multiplier is non-finite");
    let mut t = Tunables::default();
    t.tracking.moved_dt_multiplier = r(1.0e9);
    let faults = t.validate_strict(&plus).expect_err("too large");
    assert_eq!(faults.len(), 1);
    assert_eq!(text(&faults[0]), "tracking.moved_dt_multiplier=v outside [lo, hi]");
    let mut t = Tunables::default();
    t.pomdp_perception.kalman_min_history_samples = 104;
    let faults = t.validate_strict(&plus).expect_err("too many");
    assert_eq!(faults.len(), 1);
    assert_eq!(
        text(&faults[0]),
        "pomdp_perception.kalman_min_history_samples=104 outside [1, 10]"
    );
}

#[test]
fn sanitizing_twice_changes_nothing_more() {
    let mut t = Tunables::default();
    t.reward.giveaway_to_loose_opp_half_penalty = r(-7.0);
    t.lane_affinity.forward_lane_radius = 0;
    t.killer_pass_over_top = KillerPassOverTopTunables::default();
    let once = t.sanitized(&mut vec![], &plus);
    let radius = once.lane_affinity.forward_lane_radius;
    let penalty = once.reward.giveaway_to_loose_opp_half_penalty;
    assert!(once.validate_strict(&plus).is_ok());
    let twice = once.sanitized(&mut vec![], &plus);
    assert_eq!(twice.lane_affinity.forward_lane_radius, radius);
    assert_eq!(twice.reward.giveaway_to_loose_opp_half_penalty, penalty);
}

#[test]
fn vanishing_fit_weights_are_reset() {
    let mut t = Tunables::default();
    t.killer_pass_over_top.fit_distance_weight = r(0.0);
    t.killer_pass_over_top.fit_angle_weight = r(-3.0);
    t.killer_pass_over_top.fit_line_weight = r(0.0);
    t.killer_pass_over_top.fit_keeper_weight = r(0.5e-9);
    assert!(t.killer_pass_over_top.fit_weights_vanish(&plus));
    let faults = t.validate_strict(&plus).expect_err("no weights");
    assert!(faults
        .iter()
        .map(text)
        .any(|m| m == "killer_pass_over_top.fit weights sum to zero"));
    let t = t.sanitized(&mut vec![], &plus);
    assert_eq!(f(t.killer_pass_over_top.fit_distance_weight), 0.34);
    assert_eq!(f(t.killer_pass_over_top.fit_keeper_weight), 0.22);
}

#[test]
fn spans_follow_from_the_perception_knobs() {
    let mut p = Tunables::default().pomdp_perception;
    p.player_reaction_min_seconds = r(0.25);
    p.player_reaction_max_seconds = r(0.75);
    assert_eq!(f(p.player_reaction_span_seconds(&plus)), 0.5);
    p.player_reaction_max_seconds = r(0.25);
    assert_eq!(f(p.player_reaction_span_seconds(&plus)), f64::EPSILON);
    p.ball_holder_core_degrees = r(90.0);
    p.ball_holder_shoulder_degrees = r(30.0);
    assert_eq!(f(p.ball_holder_shoulder_scan_limit_degrees(&plus, &times)), 75.0);
    p.ball_holder_head_scan_max_seconds = r(1.5);
    assert_eq!(f(p.perception_latency_upper_bound_seconds(&plus)), 1.75);
}

#[test]
fn parsing_reads_every_kind_of_value() {
    let json = parse_json(r#"{"a":[null,true,-2,1.5e3,"x"],"b":{}}"#).expect("parses");
    assert_eq!(
        json,
        object(vec![
            (
                "a",
                Json::Array(vec![
                    Json::Null,
                    Json::Bool(true),
                    number("-2"),
                    number("1500.0"),
                    Json::Text("x".to_string()),
                ])
            ),
            ("b", object(vec![])),
        ])
    );
    assert_eq!(parse_json("{oops"), None);
}

#[test]
fn layers_of_the_environment_come_in_order() {
    let vars = vec![
        ("DD_SOCCER_TUNABLE__b.x".to_string(), "2".to_string()),
        ("PATH".to_string(), "/bin".to_string()),
        ("DD_SOCCER_TUNABLE__a".to_string(), "plain words".to_string()),
        ("DD_SOCCER_TUNABLE__b".to_string(), "true".to_string()),
        ("DD_SOCCER_TUNABLE_c".to_string(), "1".to_string()),
    ];
    let layers = env_overlays(Some(r#"{"whole": 1}"#), &vars);
    assert_eq!(
        layers,
        vec![
            object(vec![("whole", number("1"))]),
            object(vec![("a", Json::Text("plain words".to_string()))]),
            object(vec![("b", Json::Bool(true))]),
            object(vec![("b", object(vec![("x", number("2"))]))]),
        ]
    );
    assert_eq!(env_overlays(Some("not json"), &vec![]), vec![]);
    assert_eq!(env_overlays(None, &vec![]), vec![]);
}

#[test]
fn unreadable_field_values_stay_texts() {
    assert_eq!(
        field_overlay("a.b", "raw", None),
        object(vec![("a", object(vec![("b", Json::Text("raw".to_string()))]))])
    );
    assert_eq!(
        field_overlay("a", "7", Some(number("7"))),
        object(vec![("a", number("7"))])
    );
}

#[test]
fn every_knob_comes_out_finite() {
    let mut t = Tunables::default();
    t.goalkeeper.alignment_line_weight = r(f64::NAN);
    t.dribble.touch_length_base_yards = r(f64::INFINITY);
    t.lane_discipline.strength = r(f64::NEG_INFINITY);
    let kept = t.dribble.carry_run_space_yards;
    let mut notices = Vec::new();
    let fixed = t.sanitized(&mut notices, &plus);
    let d = Tunables::default();
    assert_eq!(fixed.goalkeeper.alignment_line_weight, d.goalkeeper.alignment_line_weight);
    assert_eq!(fixed.dribble.touch_length_base_yards, d.dribble.touch_length_base_yards);
    assert_eq!(fixed.lane_discipline.strength, d.lane_discipline.strength);
    assert_eq!(fixed.dribble.carry_run_space_yards, kept);
    assert_eq!(notices.len(), 3);
    assert!(notices.iter().all(|n| matches!(n, Notice::NonFinite { .. })));
}

#[test]
fn repairs_are_noted() {
    let mut t = Tunables::default();
    let mut notices = Vec::new();
    t.sanitized(&mut notices, &plus);
    assert!(notices.is_empty(), "defaults are sane: {notices:?}");
    t.pomdp_perception.player_reaction_max_seconds = r(0.9);
    t.pomdp_perception.player_reaction_min_seconds = r(7.0);
    t.pomdp_perception.kalman_min_history_samples = 99;
    t.lane_affinity.forward_lane_radius = 6;
    t.policy_selection.top1_weight = r(2.0);
    let fixed = t.sanitized(&mut notices, &plus);
    assert_eq!(f(fixed.policy_selection.top1_weight), 2.0);
    assert_eq!(f(fixed.pomdp_perception.player_reaction_max_seconds), 1.0);
    assert!(notices.iter().any(|n| matches!(
        n,
        Notice::Clamped { path: "pomdp_perception.player_reaction_min_seconds", kept, .. }
            if f(*kept) == 1.0
    )));
    assert!(notices.iter().any(|n| matches!(
        n,
        Notice::OutsideSane { path: "pomdp_perception.player_reaction_max_seconds", value, .. }
            if f(*value) == 0.9
    )));
    assert!(notices.iter().any(|n| matches!(
        n,
        Notice::CountClamped { path: "pomdp_perception.kalman_min_history_samples", kept_count: 10, .. }
    )));
    assert!(notices.iter().any(|n| matches!(
        n,
        Notice::CountOutsideSane { path: "lane_affinity.forward_lane_radius", count: 6, .. }
    )));
    assert!(notices.iter().any(|n| matches!(
        n,
        Notice::OutsideSane { path: "policy_selection.top1_weight", .. }
    )));
    assert!(notices.iter().any(|n| matches!(
        n,
        Notice::Reordered {
            what: "pomdp_perception reaction min seconds exceeded max seconds; raising max"
        }
    )));
}

#[test]
fn valid_knobs_are_left_alone() {
    let mut t = Tunables::default();
    t.tracking.moved_dt_multiplier = r(1.4);
    t.lane_affinity.possession_factor = r(0.7);
    assert!(t.validate_strict(&plus).is_ok());
    let fixed = t.sanitized(&mut vec![], &plus);
    assert_eq!(f(fixed.tracking.moved_dt_multiplier), 1.4);
    assert_eq!(f(fixed.lane_affinity.possession_factor), 0.7);
    assert!(fixed.validate_strict(&plus).is_ok());
}
