use soccer::flags::{
    draw_aware_wilson_enabled, env_flag, soccer_formation_lp_internal_simplex_enabled,
    soccer_lp_debug_enabled, winger_pinch_in_enabled, winger_pinch_in_rehearsed,
    winger_pinch_model_enabled, winger_pinch_model_enabled_from_env,
};
use soccer::number::Real64;
use soccer::pitch::{PlayerRole, Team, Vec2};
use soccer::winger::appetite::{
    analytic_winger_pinch_bias, box_congestion, report_winger_pinch_training,
    train_reward_weighted, train_winger_pinch_head, winger_pinch_applies, winger_pinch_bias,
    winger_pinch_effective_bias, ActivationName, BoxRunner, RandomNetworkSpec, RewardEvent,
    TrainOutcome, WingerPinchHead, WingerPinchInputs, WingerPinchLog, WingerPinchSample, WingerSighting,
    WINGER_PINCH_FEATURE_DIM, WINGER_PINCH_SAMPLE_CAP,
};
use soccer::winger::sighting::{build_winger_pinch_inputs, WingerSituation};
use soccer::winger::{
    decide_winger_pinch, decide_winger_pinch_with_bias, final_third_depth_frac,
    winger_pinch_decision_profile, winger_pinch_target, WingerPinchChoice,
    PINCH_CROWDED_BOX_RUNNERS,
};

const W: f64 = 80.0;
const L: f64 = 120.0;

fn f(r: Real64) -> f64 {
    f64::from_bits(r.to_bits())
}

fn r(x: f64) -> Real64 {
    Real64::from_bits(x.to_bits())
}

fn plus(a: Real64, b: Real64) -> Real64 {
    r(f(a) + f(b))
}

fn times(a: Real64, b: Real64) -> Real64 {
    r(f(a) * f(b))
}

fn over(a: Real64, b: Real64) -> Real64 {
    r(f(a) / f(b))
}

fn count(n: usize) -> Real64 {
    r(n as f64)
}

fn v(x: f64, y: f64) -> Vec2 {
    Vec2 { x: r(x), y: r(y) }
}

fn distance(a: Vec2, b: Vec2) -> Real64 {
    r((f(a.x) - f(b.x)).hypot(f(a.y) - f(b.y)))
}

fn squash(x: Real64) -> Real64 {
    r(f(x).tanh())
}

fn decide(mine: bool, cross: bool, depth: f64, congestion: usize, offside: bool) -> WingerPinchChoice {
    decide_winger_pinch(mine, cross, r(depth), congestion, offside, &plus, &times, &count)
}

fn target(choice: WingerPinchChoice, home_x: f64) -> Option<(f64, f64)> {
    winger_pinch_target(choice, r(home_x), r(L), r(1.0), r(W), r(L), &plus, &times)
        .map(|v| (f(v.x), f(v.y)))
}

fn depth(ball_y: f64, goal_y: f64) -> f64 {
    f(final_third_depth_frac(r(ball_y), r(goal_y), r(L), &plus, &times, &over))
}

#[test]
fn ball_on_my_flank_holds_width() {
    // Same-flank winger is the deliverer / overlap: stay wide even with a cross on.
    assert_eq!(decide(true, true, 0.9, 0, false), WingerPinchChoice::StayWide);
}

#[test]
fn weak_side_deep_cross_attacks_back_post() {
    // Far-flank winger, crossing position on, ball deep, box not crowded, onside: back post.
    assert_eq!(decide(false, true, 0.85, 1, false), WingerPinchChoice::PinchBackPost);
}

#[test]
fn crowded_box_prefers_half_space_cutback() {
    // Same weak-side cross, but the box is already packed: tuck to the cut-back instead.
    assert_eq!(
        decide(false, true, 0.85, PINCH_CROWDED_BOX_RUNNERS + 1, false),
        WingerPinchChoice::PinchHalfSpace
    );
}

#[test]
fn offside_back_post_is_masked_to_half_space() {
    // Deep weak-side cross that would be offside at the back post falls to the half-space.
    assert_eq!(decide(false, true, 0.95, 0, true), WingerPinchChoice::PinchHalfSpace);
}

#[test]
fn no_cross_threat_keeps_width() {
    // Weak-side but no crossing position on yet: keep width as a switch outlet.
    assert_eq!(decide(false, false, 0.2, 0, false), WingerPinchChoice::StayWide);
}

#[test]
fn back_post_target_is_on_own_side_near_goal() {
    // Right winger (home x > centre) attacks the right-hand (back) post for a left cross.
    let back = target(WingerPinchChoice::PinchBackPost, W * 0.85).expect("back-post target");
    assert!(back.0 > W * 0.5, "back post is on the winger's own side");
    assert!((L - back.1).abs() <= 7.0, "back post sits close to the goal line");
    // Half-space tuck is wider of the post and shallower than the back-post run.
    let half = target(WingerPinchChoice::PinchHalfSpace, W * 0.85).expect("half-space target");
    assert!(half.0 > back.0, "half-space sits wider than the back post");
    assert!((L - half.1) > (L - back.1), "half-space sits further from goal");
    assert_eq!(back, (44.5, 114.5));
    assert_eq!(half, (52.0, 104.0));
}

#[test]
fn stay_wide_has_no_override_target() {
    assert!(target(WingerPinchChoice::StayWide, W * 0.85).is_none());
}

#[test]
fn final_third_depth_grows_toward_the_byline() {
    // Home attacks y = L. Final-third edge at y = 80.
    assert_eq!(depth(70.0, L), 0.0); // short of the final third
    assert!(depth(100.0, L) > 0.4);
    assert!(depth(118.0, L) > 0.9); // near the byline
    // Away attacks y = 0: depth grows toward y = 0.
    assert!(depth(2.0, 0.0) > 0.9);
    assert_eq!(depth(50.0, 0.0), 0.0);
}

fn baseline_inputs() -> WingerPinchInputs {
    WingerPinchInputs {
        ball_on_my_flank: r(0.0),
        crossing_position_on: r(1.0),
        depth_frac: r(0.7),
        box_congestion: r(0.2),
        back_post_offside: r(0.0),
        back_post_space: r(0.6),
        half_space_space: r(0.5),
        dist_to_ball: r(0.6),
    }
}

fn analytic(i: &WingerPinchInputs) -> f64 {
    f(analytic_winger_pinch_bias(i, &plus, &times, &squash))
}

#[test]
fn features_are_finite_bounded_and_right_dim() {
    let features = baseline_inputs().to_features();
    assert_eq!(features.len(), WINGER_PINCH_FEATURE_DIM);
    for v in features {
        assert!(f(v).is_finite() && (0.0..=1.0).contains(&f(v)));
    }
}

#[test]
fn analytic_bias_is_a_valid_signed_unit() {
    assert!((-1.0..=1.0).contains(&analytic(&baseline_inputs())));
}

#[test]
fn weak_side_deep_cross_with_space_biases_toward_pinching() {
    let b = analytic(&baseline_inputs());
    assert!(b > 0.0, "a weak-side winger with a deep cross + space should pinch, got {b}");
}

#[test]
fn ball_on_my_flank_biases_toward_holding_width() {
    let mut i = baseline_inputs();
    i.ball_on_my_flank = r(1.0);
    assert!(analytic(&i) < 0.0, "the ball-side winger is the deliverer and should hold width");
}

/// A network of one tanh unit: a weight for each feature, and a bias.
fn make(spec: &RandomNetworkSpec, seed: u32) -> Vec<f64> {
    assert_eq!((spec.input_dim, spec.output_dim), (8, 1));
    assert_eq!(spec.hidden_layers, vec![14]);
    assert_eq!(spec.hidden_activation, ActivationName::Tanh);
    assert_eq!(spec.output_activation, ActivationName::Tanh);
    assert_eq!(spec.weight_scale, None);
    (0..=spec.input_dim)
        .map(|i| (f64::from(seed % 97) / 97.0 - 0.5) * 0.1 + i as f64 * 0.001)
        .collect()
}

fn respond(network: &Vec<f64>, features: &Vec<Real64>) -> f64 {
    let sum: f64 = features.iter().zip(network).map(|(x, w)| f(*x) * w).sum();
    (sum + network[WINGER_PINCH_FEATURE_DIM]).tanh()
}

fn run(network: &Vec<f64>, features: &Vec<Real64>) -> Vec<Real64> {
    vec![r(respond(network, features))]
}

fn train(
    network: Vec<f64>,
    features: &Vec<Real64>,
    target: Real64,
    step: Real64,
    clip: Real64,
) -> TrainOutcome<Vec<f64>> {
    assert_eq!(f(clip), 4.0);
    let out = respond(&network, features);
    let error = out - f(target);
    let slope = error * (1.0 - out * out) * f(step);
    let mut network = network;
    for (i, x) in features.iter().enumerate() {
        network[i] -= slope * f(*x);
    }
    network[WINGER_PINCH_FEATURE_DIM] -= slope;
    TrainOutcome { network, applied: true, loss: r(error * error * 0.5) }
}

fn root(x: Real64) -> Real64 {
    r(f(x).sqrt())
}

fn exp(x: Real64) -> Real64 {
    r(f(x).exp())
}

#[test]
fn head_predicts_a_bounded_signed_bias() {
    let head = WingerPinchHead::new(3, &make);
    let b = head.predict(&baseline_inputs(), &run).expect("finite");
    assert!((-1.0..=1.0).contains(&f(b)));
    let mut unseen = baseline_inputs();
    unseen.depth_frac = r(f64::NAN);
    assert!(head.predict(&unseen, &run).is_none());
}

#[test]
fn reward_weighted_training_steers_toward_the_high_reward_action() {
    let mut head = WingerPinchHead::new(9, &make);
    let inputs = baseline_inputs();
    let before = f(head.predict(&inputs, &run).expect("finite"));
    let samples: Vec<WingerPinchSample> = (0..32)
        .flat_map(|_| {
            [
                WingerPinchSample { inputs, action_bias: r(0.8), reward: r(1.0) },
                WingerPinchSample { inputs, action_bias: r(-0.8), reward: r(-1.0) },
            ]
        })
        .collect();
    for _ in 0..80 {
        let (next, _) = train_reward_weighted(
            head, &samples, r(0.05), &train, &plus, &times, &over, &count, &root, &exp,
        );
        head = next;
    }
    let after = f(head.predict(&inputs, &run).expect("finite"));
    assert!(after > before && after > 0.0);
    assert_eq!(head.training_steps(), 80 * 64);
    assert!(head.last_loss().is_some());
}

#[test]
fn train_entry_skips_empty_and_trains_valid() {
    let none = train_winger_pinch_head(
        &vec![], 1, 4, r(0.02), &make, &train, &plus, &times, &over, &count, &root, &exp,
    );
    assert!(none.is_none());
    let samples: Vec<WingerPinchSample> = (0..16)
        .map(|i| WingerPinchSample {
            inputs: baseline_inputs(),
            action_bias: r(if i % 2 == 0 { 0.8 } else { -0.8 }),
            reward: r(if i % 2 == 0 { 1.0 } else { -1.0 }),
        })
        .collect();
    let (_, report) = train_winger_pinch_head(
        &samples, 1, 4, r(0.02), &make, &train, &plus, &times, &over, &count, &root, &exp,
    )
    .expect("trains a usable corpus");
    assert_eq!(report.samples, 16);
    assert!(report.training_steps > 0 && f(report.final_loss).is_finite());
    let again = report_winger_pinch_training(
        &samples, 1, 4, r(0.02), &make, &train, &plus, &times, &over, &count, &root, &exp,
    )
    .expect("trains a usable corpus");
    assert_eq!(again, report);
}

#[test]
fn unusable_rows_are_left_out() {
    let head = WingerPinchHead::new(9, &make);
    let good = WingerPinchSample { inputs: baseline_inputs(), action_bias: r(0.5), reward: r(1.0) };
    let mut blind = good;
    blind.inputs.dist_to_ball = r(f64::NAN);
    let mut lost = good;
    lost.reward = r(f64::INFINITY);
    let (head, _) = train_reward_weighted(
        head, &vec![good, blind, lost], r(0.05), &train, &plus, &times, &over, &count, &root, &exp,
    );
    assert_eq!(head.training_steps(), 1);
    let (head, loss) = train_reward_weighted(
        head, &vec![lost], r(0.05), &train, &plus, &times, &over, &count, &root, &exp,
    );
    assert_eq!(head.training_steps(), 1);
    assert_eq!(f(loss), 0.0);
}

#[test]
fn scores_are_the_weighted_sums() {
    let p = winger_pinch_decision_profile(false, true, r(0.5), 2, false, &plus, &times, &count);
    assert_eq!(f(p.stay_score), 1.0);
    assert!((f(p.half_space_score) - (2.0 * 0.6 + 1.4 + 2.0 * 0.7)).abs() < 1e-12);
    assert!((f(p.back_post_score) - (2.0 + 2.2 + 0.5 * 2.0 - 2.0 * 0.6)).abs() < 1e-12);
    let masked = winger_pinch_decision_profile(false, true, r(9.0), 2, true, &plus, &times, &count);
    assert_eq!(f(masked.back_post_score), 0.0);
    assert_eq!(f(masked.ball_final_third_depth_frac), 1.0);
    assert_eq!(p.choice.label(), "pinch-back-post");
}

#[test]
fn a_full_bias_does_not_drag_the_ball_side_winger_infield() {
    let choice = decide_winger_pinch_with_bias(
        true, true, r(1.0), 0, false, r(1.0), &plus, &times, &count,
    );
    assert_eq!(choice, WingerPinchChoice::StayWide);
    let choice = decide_winger_pinch_with_bias(
        false, true, r(0.0), 0, false, r(-50.0), &plus, &times, &count,
    );
    assert_eq!(choice, WingerPinchChoice::PinchBackPost);
}

#[test]
fn biases_come_from_the_trained_head_or_the_seed() {
    let head = |training_steps| WingerPinchHead { network: (), training_steps, last_loss: None };
    let says = |_: &(), _: &Vec<Real64>| vec![r(0.4)];
    let mute = |_: &(), _: &Vec<Real64>| Vec::<Real64>::new();
    let i = baseline_inputs();
    let seed = r(analytic(&i));
    let bias = |enabled, steps: usize| {
        winger_pinch_bias(enabled, Some(&head(steps)), &i, &plus, &times, &squash, &says)
    };
    assert_eq!(bias(false, 900), None);
    assert_eq!(bias(true, 200), Some(r(0.4)));
    assert_eq!(bias(true, 199), Some(seed));
    let silent = winger_pinch_bias(true, Some(&head(500)), &i, &plus, &times, &squash, &mute);
    assert_eq!(silent, Some(seed));
    let wild = winger_pinch_bias(true, Some(&head(0)), &i, &plus, &times, &|_| r(7.0), &says);
    assert_eq!(wild, Some(r(1.0)));
    let blind = WingerPinchInputs { ball_on_my_flank: r(f64::NAN), ..i };
    let nobody: Option<&WingerPinchHead<()>> = None;
    assert_eq!(winger_pinch_bias(true, nobody, &blind, &plus, &times, &squash, &says), None);
    let effective = |i: &WingerPinchInputs| {
        winger_pinch_effective_bias(true, nobody, i, &plus, &times, &squash, &says)
    };
    assert_eq!(effective(&blind), r(0.0));
    assert_eq!(effective(&i), seed);
}

#[test]
fn only_open_play_off_the_ball_weighs_pinching() {
    let applies = |possession, holder, set_play| {
        winger_pinch_applies(possession, Team::Home, holder, 7, false, true, set_play, true)
    };
    assert!(applies(Some(Team::Home), Some(3), false));
    assert!(!applies(Some(Team::Away), Some(3), false));
    assert!(!applies(Some(Team::Home), Some(7), false));
    assert!(!applies(Some(Team::Home), None, true));
    let runner = |id, role, inside| BoxRunner {
        id,
        team: Team::Home,
        role,
        position: v(60.0, 110.0),
        in_attacked_box: inside,
    };
    let players = vec![
        runner(7, PlayerRole::Forward, true),
        runner(8, PlayerRole::Forward, true),
        runner(9, PlayerRole::Midfielder, true),
        runner(4, PlayerRole::Defender, true),
        runner(10, PlayerRole::Forward, false),
        BoxRunner { team: Team::Away, ..runner(20, PlayerRole::Forward, true) },
    ];
    assert_eq!(box_congestion(&players, Team::Home, 7, Some(9)), 1);
    assert_eq!(box_congestion(&players, Team::Home, 7, None), 2);
}

const UNTRAINED: Option<&WingerPinchHead<Vec<f64>>> = None;

fn sighting(player_id: usize, team: Team) -> WingerSighting {
    WingerSighting { player_id, team, inputs: Some(baseline_inputs()) }
}

/// A winger of a team that is attacking down the other flank.
fn winger(player_id: usize, team: Team) -> WingerSituation {
    WingerSituation {
        team,
        player_id,
        home_x: r(8.0),
        position: v(10.0, 100.0),
        controlled: false,
        wide_attacker: true,
        set_play: false,
        possession: Some(team),
        holder: Some(11),
        ball: v(70.0, 112.0),
        final_third: true,
        attacked_goal_y: r(120.0),
        attack_dir: r(1.0),
        field_width: r(80.0),
        field_length: r(120.0),
    }
}

fn collect(
    log: &mut WingerPinchLog,
    enabled: bool,
    tick: u64,
    events: &Vec<RewardEvent>,
    wingers: &Vec<WingerSituation>,
    now_away: f64,
    now_home: f64,
) {
    let crossing = |_: Team, _: Vec2| true;
    let onside = |_: Team, _: Vec2| false;
    let space = |team: Team, _: Vec2| r(if team == Team::Home { 6.0 } else { 3.0 });
    log.collect_winger_pinch_rl_samples(
        enabled,
        tick,
        &vec![Team::Home, Team::Away],
        events,
        UNTRAINED,
        wingers,
        &vec![],
        r(now_home),
        r(now_away),
        &plus,
        &times,
        &squash,
        &run,
        &over,
        &count,
        &distance,
        &crossing,
        &onside,
        &space,
    );
}

#[test]
fn decisions_are_opened_credited_and_settled() {
    let mut log = WingerPinchLog::new();
    let idle = WingerSituation { set_play: true, ..winger(3, Team::Home) };
    let seen = vec![winger(1, Team::Home), idle, winger(2, Team::Away)];
    collect(&mut log, false, 6, &vec![], &seen, 2.0, 1.0);
    assert!(log.pending.is_empty());
    collect(&mut log, true, 6, &vec![], &seen, 2.0, 1.0);
    assert_eq!(log.pending.len(), 2);
    assert_eq!(log.pending[0].due_tick, 51);
    assert_eq!(f(log.pending[0].inputs.back_post_space), 0.5);
    assert_eq!(f(log.pending[1].inputs.back_post_space), 0.25);
    // Without a trained head the seed is sampled.
    assert_eq!(f(log.pending[0].action_bias), analytic(&log.pending[0].inputs));
    // Off the interval nothing is opened; rewards of nobody and odd amounts do not count.
    let events = vec![
        RewardEvent { player_id: 0, amount: r(0.5) },
        RewardEvent { player_id: 1, amount: r(f64::NAN) },
        RewardEvent { player_id: 9, amount: r(4.0) },
    ];
    collect(&mut log, true, 7, &events, &seen, 2.0, 1.0);
    assert_eq!(log.pending.len(), 2);
    assert_eq!(f(log.pending[0].reward_accum), 0.5);
    assert_eq!(f(log.pending[1].reward_accum), 0.0);
    collect(&mut log, true, 51, &vec![], &vec![], f64::NAN, 4.0);
    assert!(log.pending.is_empty());
    let mut rewards: Vec<f64> = log.samples.iter().map(|s| f(s.reward)).collect();
    rewards.sort_by(|a, b| a.partial_cmp(b).unwrap());
    assert_eq!(rewards, vec![0.0, 3.5]);
    assert_eq!(log.drain_winger_pinch_samples().len(), 2);
    assert!(log.samples.is_empty());
}

#[test]
fn what_is_not_due_stays_open_and_rows_are_capped() {
    let mut log = WingerPinchLog::new();
    let many: Vec<WingerSighting> =
        (0..WINGER_PINCH_SAMPLE_CAP + 3).map(|i| sighting(i, Team::Home)).collect();
    log.open(0, UNTRAINED, &many, r(0.0), r(0.0), &plus, &times, &squash, &run);
    let late = vec![sighting(77, Team::Away)];
    log.open(100, UNTRAINED, &late, r(0.0), r(0.0), &plus, &times, &squash, &run);
    log.settle(45, r(0.0), r(0.0), &plus, &times);
    assert_eq!(log.samples.len(), WINGER_PINCH_SAMPLE_CAP);
    assert_eq!(log.pending.len(), 1);
    assert_eq!(log.pending[0].player_id, 77);
}

#[test]
fn switches_are_read_from_their_texts() {
    assert_eq!(env_flag(None), None);
    assert_eq!(env_flag(Some("  YES\n")), Some(true));
    assert_eq!(env_flag(Some("On")), Some(true));
    assert_eq!(env_flag(Some("2")), Some(false));
    assert!(!winger_pinch_model_enabled(Some("true"), Some("true"), true));
    assert!(winger_pinch_model_enabled(Some("0"), Some("1"), false));
    assert!(winger_pinch_model_enabled_from_env(None, None));
    assert!(!winger_pinch_model_enabled_from_env(None, Some("no")));
    assert!(winger_pinch_in_enabled(None));
    assert!(!winger_pinch_in_enabled(Some(" Off ")));
    assert!(winger_pinch_in_enabled(Some("maybe")));
    assert!(!winger_pinch_in_rehearsed(None));
    assert!(winger_pinch_in_rehearsed(Some("1")));
    assert!(!draw_aware_wilson_enabled(None));
    assert!(draw_aware_wilson_enabled(Some("yes")));
    assert!(!soccer_lp_debug_enabled(Some("0")));
    assert!(!soccer_lp_debug_enabled(Some("")));
    assert!(soccer_lp_debug_enabled(Some("no")));
    assert!(soccer_formation_lp_internal_simplex_enabled(Some("TRUE")));
    assert!(!soccer_formation_lp_internal_simplex_enabled(Some("True")));
    assert!(!soccer_formation_lp_internal_simplex_enabled(None));
}

#[test]
fn a_winger_sees_the_weak_side() {
    let s = WingerSituation {
        team: Team::Home,
        player_id: 7,
        home_x: r(8.0),
        position: v(10.0, 100.0),
        controlled: false,
        wide_attacker: true,
        set_play: false,
        possession: Some(Team::Home),
        holder: Some(11),
        ball: v(70.0, 112.0),
        final_third: true,
        attacked_goal_y: r(120.0),
        attack_dir: r(1.0),
        field_width: r(80.0),
        field_length: r(120.0),
    };
    let runner = |id, x: f64| BoxRunner {
        id,
        team: Team::Home,
        role: PlayerRole::Forward,
        position: v(x, 111.0),
        in_attacked_box: true,
    };
    let players = vec![runner(7, 10.0), runner(9, 40.0), runner(11, 72.0)];
    let crossing = |_: Team, p: Vec2| f(p.x) == 72.0;
    let onside = |_: Team, _: Vec2| false;
    let space = |_: Team, _: Vec2| r(6.0);
    let see = |s: &WingerSituation| {
        build_winger_pinch_inputs(
            s, &players, &plus, &times, &over, &count, &distance, &crossing, &onside, &space,
        )
    };
    let seen = see(&s).expect("weighs pinching");
    assert_eq!(f(seen.ball_on_my_flank), 0.0);
    assert_eq!(f(seen.crossing_position_on), 1.0);
    assert_eq!(f(seen.box_congestion), 0.25);
    assert_eq!(f(seen.back_post_offside), 0.0);
    assert_eq!(f(seen.back_post_space), 0.5);
    assert_eq!(f(seen.half_space_space), 0.5);
    assert_eq!(f(seen.dist_to_ball), 1.0);
    assert!((f(seen.depth_frac) - depth(112.0, 120.0)).abs() < 1e-12);
    // With the crosser on the same side the ball is on the winger's flank.
    let near = WingerSituation { home_x: r(76.0), ..s };
    assert_eq!(f(see(&near).expect("weighs").ball_on_my_flank), 1.0);
    // An opponent on the ball is no crosser: the ball's own place counts.
    let loose = WingerSituation { holder: Some(99), ..s };
    assert_eq!(f(see(&loose).expect("weighs").crossing_position_on), 0.0);
    for other in [
        WingerSituation { set_play: true, ..s },
        WingerSituation { controlled: true, ..s },
        WingerSituation { wide_attacker: false, ..s },
        WingerSituation { holder: Some(7), ..s },
        WingerSituation { possession: Some(Team::Away), ..s },
        WingerSituation { final_third: false, ..s },
    ] {
        assert!(see(&other).is_none());
    }
}

#[test]
fn no_bias_draws_a_held_winger_in() {
    let choose = |flank: bool, cross: bool, offside: bool, bias: f64| {
        decide_winger_pinch_with_bias(
            flank, cross, r(0.9), 1, offside, r(bias), &plus, &times, &count,
        )
    };
    for bias in [f64::NEG_INFINITY, -1.0, -0.0, 0.0, 0.4, 1.0, 7.0, f64::INFINITY, f64::NAN] {
        for (flank, cross) in [(true, true), (true, false), (false, false)] {
            assert_eq!(choose(flank, cross, false, bias), WingerPinchChoice::StayWide);
        }
        assert_ne!(choose(false, true, true, bias), WingerPinchChoice::PinchBackPost);
    }
    for offside in [true, false] {
        let plain =
            decide_winger_pinch(false, true, r(0.9), 1, offside, &plus, &times, &count);
        assert_eq!(choose(false, true, offside, 0.0), plain);
        assert_eq!(choose(false, true, offside, -0.0), plain);
        assert_eq!(choose(false, true, offside, 9.0), choose(false, true, offside, 1.0));
        assert_eq!(choose(false, true, offside, -9.0), choose(false, true, offside, -1.0));
    }
}
