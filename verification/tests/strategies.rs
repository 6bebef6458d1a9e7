use soccer::number::Real64;
use soccer::strategy::{FlankAttackPolicy, TeamAttackStrategy, TeamDefenseStrategy};
use std::collections::HashSet;

fn f(r: Real64) -> f64 {
    f64::from_bits(r.to_bits())
}

#[test]
fn defines_thirty_plus_attack_and_fifteen_plus_defense_modes() {
    // Team-level strategy catalogue: ~30-50 modes total (attack + defense).
    assert!(
        TeamAttackStrategy::ALL.len() >= 30,
        "expected >=30 attack modes, got {}",
        TeamAttackStrategy::ALL.len()
    );
    assert!(
        TeamDefenseStrategy::ALL.len() >= 15,
        "expected >=15 defense modes, got {}",
        TeamDefenseStrategy::ALL.len()
    );
    let total = TeamAttackStrategy::ALL.len() + TeamDefenseStrategy::ALL.len();
    assert!(
        (30..=80).contains(&total),
        "total team-level modes should land in the 30-50+ range, got {total}"
    );
}

#[test]
fn strategy_labels_are_unique_and_shapes_are_sane() {
    let mut labels = HashSet::new();
    for strat in TeamAttackStrategy::ALL {
        assert!(labels.insert(strat.as_str()), "duplicate label {strat:?}");
        let shape = strat.shape();
        assert!(
            (1..=7).contains(&shape.max_passes),
            "{strat:?} horizon out of range: {}",
            shape.max_passes
        );
        assert!((0.0..=1.0).contains(&f(shape.directness)));
    }
    for strat in TeamDefenseStrategy::ALL {
        assert!(labels.insert(strat.as_str()), "duplicate label {strat:?}");
        let shape = strat.shape();
        assert!((0.0..=1.0).contains(&f(shape.block_height)));
        assert!((0.0..=1.0).contains(&f(shape.man_orientation)));
        assert!((0.0..=1.0).contains(&f(shape.press)));
        assert!(f(shape.max_seconds) > 0.0 && f(shape.max_seconds) <= 20.0);
    }
}

#[test]
fn attack_switch_maneuvers_change_lane() {
    // A "switch" maneuver must resolve in a different lane than it starts.
    assert!(TeamAttackStrategy::PullWideLeftSwitchRight
        .shape()
        .switches_lane());
    assert!(TeamAttackStrategy::SwitchPlayDiagonalRightLeft
        .shape()
        .switches_lane());
    assert!(!TeamAttackStrategy::HoldUpfieldUntilOpening
        .shape()
        .switches_lane());
    // The patient hold-up option is the long-horizon one.
    assert_eq!(
        TeamAttackStrategy::HoldUpfieldUntilOpening
            .shape()
            .max_passes,
        7
    );
}

#[test]
fn each_flank_policy_prefers_one_cross() {
    assert!(FlankAttackPolicy::PlayDownFlankLowCross.prefers_low_cross());
    assert!(!FlankAttackPolicy::PlayDownFlankLowCross.prefers_high_cross());
    assert!(FlankAttackPolicy::PlayDownFlankHighCross.prefers_high_cross());
    assert!(!FlankAttackPolicy::PlayDownFlankHighCross.prefers_low_cross());
    assert!(!FlankAttackPolicy::NoFlank.prefers_low_cross());
    assert!(!FlankAttackPolicy::NoFlank.prefers_high_cross());
}
