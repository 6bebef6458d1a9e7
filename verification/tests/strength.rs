use soccer::confidence::{draw_aware_lower_bound, wilson_lower_bound};
use soccer::elo::{
    elo_expected_score, match_score, CrossPlayMatrix, EloRatings, MatchReport,
};
use soccer::eval_gate::{
    candidate_record, evaluate_promotion, CandidateRecord, PromotionReason, PromotionThresholds,
    PromotionVerdict,
};
use soccer::number::Real64;

const ELO_DEFAULT_RATING: f64 = 1500.0;
const ELO_DEFAULT_K: f64 = 24.0;
const PROMOTION_WILSON_FLOOR: f64 = 0.5;
const PROMOTION_WILSON_Z: f64 = 1.96;

fn f(r: Real64) -> f64 {
    f64::from_bits(r.to_bits())
}

fn r(x: f64) -> Real64 {
    Real64::from_bits(x.to_bits())
}

fn plus(a: Real64, b: Real64) -> Real64 {
    r(f(a) + f(b))
}

fn times(a: Real64, b: Real64) -> Real64 {
    r(f(a) * f(b))
}

fn over(a: Real64, b: Real64) -> Real64 {
    r(f(a) / f(b))
}

fn count(n: usize) -> Real64 {
    r(n as f64)
}

fn power(x: Real64) -> Real64 {
    r(10.0_f64.powf(f(x)))
}

fn matrix(reports: &Vec<MatchReport>) -> CrossPlayMatrix {
    CrossPlayMatrix::from_match_reports(reports, &plus)
}

fn payoff(m: &CrossPlayMatrix, a: usize, b: usize) -> Option<f64> {
    m.payoff(a, b, &over, &count).map(f)
}

fn root(x: Real64) -> Real64 {
    r(f(x).sqrt())
}

fn wilson(p_hat: f64, games: u32, z: f64) -> f64 {
    f(wilson_lower_bound(r(p_hat), games, r(z), &plus, &times, &over, &count, &root))
}

fn report(home_id: usize, away_id: usize, hg: u32, ag: u32) -> MatchReport {
    MatchReport { home_id, away_id, home_goals: hg, away_goals: ag, shootout_winner: None }
}

fn ratings(reports: &Vec<MatchReport>) -> EloRatings {
    EloRatings::from_match_reports(reports, r(ELO_DEFAULT_K), 12, &power, &plus, &times, &over)
}

fn verdict(reports: &Vec<MatchReport>) -> PromotionVerdict {
    evaluate_promotion(
        reports,
        1,
        2,
        &PromotionThresholds::default(),
        false,
        &power,
        &plus,
        &times,
        &over,
        &count,
        &root,
    )
}

fn mean_over_field(v: &PromotionVerdict) -> Option<f64> {
    v.mean_payoff_vs_field.map(f)
}

#[test]
fn expected_score_is_symmetric_and_monotone() {
    let expected = |a: f64, b: f64| f(elo_expected_score(r(a), r(b), &power, &plus, &over));
    assert!((expected(1500.0, 1500.0) - 0.5).abs() < 1e-9);
    let stronger = expected(1700.0, 1500.0);
    assert!(stronger > 0.5);
    // Symmetry: the two perspectives sum to one.
    assert!((stronger + expected(1500.0, 1700.0) - 1.0).abs() < 1e-9);
    // Non-finite inputs fall back to the anchor rather than producing NaN.
    assert!((expected(f64::NAN, 1500.0) - 0.5).abs() < 1e-9);
}

#[test]
fn match_score_handles_win_draw_loss_and_shootout() {
    let score = |h, a, s| f(match_score(h, a, s));
    assert_eq!(score(2, 1, None), 1.0);
    assert_eq!(score(0, 3, None), 0.0);
    assert_eq!(score(1, 1, None), 0.5);
    assert_eq!(score(1, 1, Some(true)), 1.0);
    assert_eq!(score(1, 1, Some(false)), 0.0);
}

#[test]
fn a_win_raises_the_winner_and_lowers_the_loser_zero_sum() {
    let mut elo = EloRatings::new(r(ELO_DEFAULT_K));
    elo.update(1, 2, r(1.0), &power, &plus, &times, &over);
    assert!(f(elo.rating(1)) > ELO_DEFAULT_RATING);
    assert!(f(elo.rating(2)) < ELO_DEFAULT_RATING);
    // Zero-sum: total rating conserved.
    assert!((f(elo.rating(1)) + f(elo.rating(2)) - 2.0 * ELO_DEFAULT_RATING).abs() < 1e-9);
    assert_eq!(f(elo.rating(1)), 1512.0);
}

#[test]
fn consistent_winner_climbs_above_the_field() {
    // Team 1 beats everyone; team 4 loses to everyone.
    let reports = vec![
        report(1, 2, 2, 0),
        report(1, 3, 1, 0),
        report(1, 4, 3, 0),
        report(2, 3, 1, 0),
        report(2, 4, 2, 0),
        report(3, 4, 1, 0),
    ];
    let elo = ratings(&reports);
    let ranked = elo.ranked();
    assert_eq!(ranked.first().unwrap().id, 1, "the team that beat everyone leads");
    assert_eq!(ranked.last().unwrap().id, 4, "the team that lost to everyone trails");
    assert_eq!(elo.leader(), Some(1));
}

#[test]
fn cross_play_payoff_is_order_independent_and_averages() {
    // Same fixtures in two different orders must yield identical payoffs
    // (unlike sequential Elo, this is an average).
    let a = vec![report(1, 2, 1, 0), report(1, 2, 0, 1)];
    let b = vec![report(1, 2, 0, 1), report(1, 2, 1, 0)];
    let ma = matrix(&a);
    let mb = matrix(&b);
    // One win, one loss apiece: even payoff both ways.
    assert_eq!(payoff(&ma, 1, 2), Some(0.5));
    assert_eq!(payoff(&ma, 1, 2), payoff(&mb, 1, 2));
    assert_eq!(payoff(&ma, 2, 1), Some(0.5));
    assert_eq!(ma.games_between(1, 2), 2);
}

#[test]
fn exploitability_surfaces_a_counter() {
    // Team 1 crushes the field (beats 2 and 3) but is hard-countered by 4.
    let reports = vec![
        report(1, 2, 3, 0),
        report(1, 3, 2, 0),
        report(4, 1, 2, 0), // 4 beats 1
    ];
    let m = matrix(&reports);
    assert!(
        f(m.mean_payoff_vs_field(1, &plus, &over, &count).unwrap()) > 0.5,
        "1 is strong on average"
    );
    let (counter, payoff) = m.worst_case(1, &over, &count).unwrap();
    assert_eq!(counter, 4, "team 4 is the exploit");
    assert_eq!(f(payoff), 0.0, "1 loses to its counter every time");
}

#[test]
fn unmet_pairs_have_no_payoff() {
    let m = matrix(&vec![report(1, 2, 1, 0)]);
    assert!(payoff(&m, 1, 3).is_none());
    assert_eq!(m.ids(), vec![1, 2]);
    assert!(m.mean_payoff_vs_field(3, &plus, &over, &count).is_none());
}

/// A held-out slate where the candidate (1) reliably beats a 4-team frozen field, twice each (8
/// games, clearing the evidence floor), with no hard counter.
fn dominant_slate() -> Vec<MatchReport> {
    let mut reports = Vec::new();
    for &opp in &[2usize, 3, 4, 5] {
        reports.push(report(1, opp, 2, 0));
        reports.push(report(opp, 1, 0, 1)); // candidate wins away too
    }
    reports
}

#[test]
fn candidate_record_counts_both_orientations_and_shootouts() {
    let reports = vec![
        report(1, 2, 3, 1), // home win
        report(2, 1, 0, 2), // away win
        report(1, 3, 1, 1), // draw
        MatchReport {
            // level, shootout to candidate
            shootout_winner: Some(1),
            ..report(1, 4, 2, 2)
        },
    ];
    let rec = candidate_record(&reports, 1);
    assert_eq!(rec.wins, 3);
    assert_eq!(rec.draws, 1);
    assert_eq!(rec.losses, 0);
    assert_eq!(rec.goals_for, 3 + 2 + 1 + 2);
    assert_eq!(rec.goals_against, 1 + 0 + 1 + 2);
    let mean = f(rec.mean_score(&plus, &times, &over, &count));
    assert!((mean - (3.0 + 0.5) / 4.0).abs() < 1e-9);
    assert_eq!(rec.goal_difference(), 4);
}

#[test]
fn dominant_candidate_is_promoted() {
    let verdict = verdict(&dominant_slate());
    assert!(verdict.promote, "reasons: {:?}", verdict.reasons);
    assert!(f(verdict.candidate_elo) - f(verdict.baseline_elo) > 0.0);
    assert!(mean_over_field(&verdict).unwrap() > 0.5);
    assert!(f(verdict.wilson_lower_bound) >= PROMOTION_WILSON_FLOOR);
}

#[test]
fn even_candidate_is_rejected_for_lack_of_confidence() {
    // Splits every series 1-1: mean score 0.5, lower bound below 0.5.
    let mut reports = Vec::new();
    for &opp in &[2usize, 3, 4] {
        reports.push(report(1, opp, 1, 0));
        reports.push(report(1, opp, 0, 1));
    }
    let verdict = verdict(&reports);
    assert!(!verdict.promote);
    assert!(verdict
        .reasons
        .iter()
        .any(|r| matches!(r, PromotionReason::NotConfident { .. })));
}

#[test]
fn exploitable_candidate_is_rejected_even_if_strong_on_average() {
    // Candidate crushes 2 and 3 but is hard-countered by 4 (loses every time).
    let mut reports = Vec::new();
    for &opp in &[2usize, 3] {
        for _ in 0..4 {
            reports.push(report(1, opp, 3, 0));
        }
    }
    for _ in 0..4 {
        reports.push(report(4, 1, 2, 0)); // 4 beats the candidate every time
    }
    let verdict = verdict(&reports);
    assert!(!verdict.promote, "a hard-countered brain is different, not better");
    assert_eq!(verdict.worst_case.map(|(o, _)| o), Some(4));
    assert!(verdict
        .reasons
        .iter()
        .any(|r| matches!(r, PromotionReason::Exploitable { .. })));
}

#[test]
fn too_few_games_auto_rejects() {
    let reports = vec![report(1, 2, 5, 0), report(1, 3, 4, 0)];
    let verdict = verdict(&reports);
    assert!(!verdict.promote);
    assert!(verdict
        .reasons
        .iter()
        .filter_map(|r| r.plain_message())
        .any(|text| text.contains("insufficient evidence")));
}

#[test]
fn candidate_that_never_played_is_rejected() {
    let reports = vec![report(2, 3, 1, 0), report(3, 4, 2, 1)];
    let verdict = verdict(&reports);
    assert!(!verdict.promote);
    assert!(mean_over_field(&verdict).is_none());
    assert_eq!(verdict.record.games(), 0);
    assert!(verdict
        .reasons
        .iter()
        .any(|r| r.plain_message().as_deref()
            == Some("candidate never met the field (no cross-play payoff)")));
}

#[test]
fn sides_do_not_play_themselves() {
    let mut elo = EloRatings::new(r(-3.0));
    assert_eq!(f(elo.k), ELO_DEFAULT_K);
    elo.update(5, 5, r(1.0), &power, &plus, &times, &over);
    assert_eq!(elo.leader(), None);
    assert_eq!(f(elo.rating(5)), ELO_DEFAULT_RATING);
}

#[test]
fn shootouts_count_as_wins_in_the_matrix() {
    let decided = MatchReport { shootout_winner: Some(2), ..report(1, 2, 1, 1) };
    let m = matrix(&vec![decided]);
    assert_eq!(payoff(&m, 2, 1), Some(1.0));
    assert_eq!(payoff(&m, 1, 2), Some(0.0));
    assert_eq!(m.games_between(1, 2), 1);
}

#[test]
fn any_score_is_recorded_within_bounds() {
    let mut m = CrossPlayMatrix::new();
    m.record(1, 2, r(0.25), &plus);
    m.record(1, 2, r(3.0), &plus);
    m.record(2, 2, r(1.0), &plus);
    assert_eq!(payoff(&m, 1, 2), Some(0.625));
    assert_eq!(payoff(&m, 2, 1), Some(0.375));
    assert_eq!(m.games_between(2, 1), 2);
    assert_eq!(m.ids(), vec![1, 2]);
    m.record(7, 1, r(-2.0), &plus);
    assert_eq!(payoff(&m, 1, 7), Some(1.0));
    assert_eq!(f(m.mean_payoff_vs_field(1, &plus, &over, &count).unwrap()), 0.8125);
    assert_eq!(m.worst_case(1, &over, &count).map(|(x, p)| (x, f(p))), Some((2, 0.625)));
    assert_eq!(m.worst_case(9, &over, &count), None);
}

#[test]
fn wilson_lower_bound_is_conservative_and_grows_with_n() {
    // 100% over few games is NOT confidently > 0.5; over many games it is.
    let few = wilson(1.0, 3, PROMOTION_WILSON_Z);
    let many = wilson(1.0, 50, PROMOTION_WILSON_Z);
    assert!(few < many, "more games, tighter (higher) lower bound: {few} vs {many}");
    assert!(few < 1.0 && few > 0.0);
    // n == 0 is the floor.
    assert_eq!(wilson(1.0, 0, PROMOTION_WILSON_Z), 0.0);
    // A coin-flip mean never clears 0.5 from below.
    assert!(wilson(0.5, 40, PROMOTION_WILSON_Z) < 0.5);
    let z2 = 1.96_f64 * 1.96;
    let exact = (1.0 + z2 / 100.0 - 1.96 * (z2 / 10_000.0_f64).sqrt()) / (1.0 + z2 / 50.0);
    assert!((many - exact).abs() < 1e-12);
}

#[test]
fn draws_tighten_the_bound() {
    let aware = |c: &CandidateRecord| {
        f(draw_aware_lower_bound(c, r(1.96), &plus, &times, &over, &count, &root))
    };
    assert_eq!(aware(&CandidateRecord::default()), 0.0);
    let drawn = CandidateRecord { draws: 40, ..Default::default() };
    assert_eq!(aware(&drawn), 0.5);
    let mixed = CandidateRecord { wins: 12, draws: 20, losses: 8, ..Default::default() };
    let mean: f64 = 22.0 / 40.0;
    let var: f64 = 17.0 / 40.0 - mean * mean;
    assert!((aware(&mixed) - (mean - 1.96 * (var / 40.0).sqrt())).abs() < 1e-12);
    assert!(aware(&mixed) > wilson(mean, 40, 1.96));
}

#[test]
fn a_draw_heavy_climb_is_promoted_by_the_draw_aware_bound() {
    let mut reports: Vec<MatchReport> = (0..36).map(|i| report(1, 2 + i % 4, 1, 1)).collect();
    reports.extend((0..4).map(|i| report(1, 2 + i, 2, 0)));
    let decide = |draw_aware| {
        evaluate_promotion(
            &reports, 1, 2, &PromotionThresholds::default(), draw_aware, &power, &plus, &times, &over,
            &count, &root,
        )
    };
    let plain = decide(false);
    assert!(!plain.promote);
    assert_eq!(plain.bound, plain.wilson_lower_bound);
    let aware = decide(true);
    assert!(aware.promote, "reasons: {:?}", aware.reasons);
    assert!(f(aware.bound) >= 0.5 && f(aware.wilson_lower_bound) < 0.5);
}

#[test]
fn any_score_moves_the_ratings() {
    let mut elo = EloRatings::new(r(ELO_DEFAULT_K));
    elo.update(1, 2, r(0.25), &power, &plus, &times, &over);
    assert_eq!((f(elo.rating(1)), f(elo.rating(2))), (1494.0, 1506.0));
    // A score beyond a win counts as a win.
    let mut elo = EloRatings::new(r(ELO_DEFAULT_K));
    elo.update(1, 2, r(3.0), &power, &plus, &times, &over);
    assert_eq!(f(elo.rating(1)), 1512.0);
}

#[test]
fn goals_beyond_the_signed_range_wrap() {
    let record = CandidateRecord { goals_for: u32::MAX, goals_against: 1, ..Default::default() };
    assert_eq!(record.goal_difference(), -2);
}

#[test]
fn records_add_up_in_any_order() {
    let a = vec![report(1, 2, 3, 1), report(3, 1, 2, 2), report(2, 3, 9, 9)];
    let b = vec![
        report(4, 1, 1, 0),
        MatchReport { shootout_winner: Some(1), ..report(1, 5, 0, 0) },
        report(1, 5, 2, 2),
    ];
    let (ra, rb) = (candidate_record(&a, 1), candidate_record(&b, 1));
    let mut both: Vec<MatchReport> = a.iter().chain(&b).copied().collect();
    let sum = CandidateRecord {
        wins: ra.wins + rb.wins,
        draws: ra.draws + rb.draws,
        losses: ra.losses + rb.losses,
        goals_for: ra.goals_for + rb.goals_for,
        goals_against: ra.goals_against + rb.goals_against,
    };
    assert_eq!(candidate_record(&both, 1), sum);
    both.reverse();
    assert_eq!(candidate_record(&both, 1), sum);
    both.retain(|r| r.home_id == 1 || r.away_id == 1);
    assert_eq!(candidate_record(&both, 1), sum);
    assert_eq!((sum.games(), sum.draws), (5, 2));
}

#[test]
fn pairs_share_their_games() {
    let reports = vec![report(1, 2, 1, 0), report(2, 1, 1, 1), report(3, 1, 0, 4), report(2, 1, 2, 0)];
    let m = matrix(&reports);
    assert_eq!((m.games_between(1, 2), m.games_between(2, 1)), (3, 3));
    assert_eq!(payoff(&m, 1, 2).unwrap() + payoff(&m, 2, 1).unwrap(), 1.0);
    assert_eq!((m.games_between(2, 3), payoff(&m, 2, 3)), (0, None));
    // Of two equally bad opponents the one with the smaller id is the worst case.
    let level = matrix(&vec![report(9, 4, 0, 0), report(9, 2, 1, 1), report(9, 7, 1, 0)]);
    assert_eq!(level.worst_case(9, &over, &count).map(|(x, p)| (x, f(p))), Some((2, 0.5)));
}

#[test]
fn expectations_stay_between_nothing_and_one() {
    for a in [f64::NEG_INFINITY, -1e308, 0.0, 1500.0, 1e308, f64::NAN] {
        for b in [-1e308, 900.0, 1e308] {
            let e = f(elo_expected_score(r(a), r(b), &power, &plus, &over));
            assert!((0.0..=1.0).contains(&e), "{a} {b} {e}");
        }
    }
}
