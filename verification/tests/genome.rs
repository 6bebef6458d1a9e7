use soccer::genome::{
    formation_anchors, jitter_u8, nearest_choice, DefenderEngagement, GenomeRng, SoccerTeamGenome,
    TeamFormation, DEF_LINE_BAND_PERMUTATION_COUNT, DEF_LINE_MAX_DISTANCE_CHOICES_YARDS,
    DEF_LINE_MIN_DISTANCE_CHOICES_YARDS, PITCH_GENOME_LANES, PITCH_GENOME_ROWS,
};
use soccer::number::Real64;

fn f(r: Real64) -> f64 {
    f64::from_bits(r.to_bits())
}

fn r(x: f64) -> Real64 {
    Real64::from_bits(x.to_bits())
}

fn plus(a: Real64, b: Real64) -> Real64 {
    r(f(a) + f(b))
}

fn times(a: Real64, b: Real64) -> Real64 {
    r(f(a) * f(b))
}

fn share(draw: u64) -> Real64 {
    r(draw as f64 / (1u64 << 53) as f64)
}

fn min_choices() -> Vec<f64> {
    DEF_LINE_MIN_DISTANCE_CHOICES_YARDS.iter().map(|b| f64::from_bits(*b)).collect()
}

fn max_choices() -> Vec<f64> {
    DEF_LINE_MAX_DISTANCE_CHOICES_YARDS.iter().map(|b| f64::from_bits(*b)).collect()
}

fn random(seed: u64) -> SoccerTeamGenome {
    SoccerTeamGenome::random(&mut GenomeRng::new(seed), &share, &plus, &times)
}

#[test]
fn genome_random_is_reproducible_and_distinct() {
    let a = random(1);
    let a2 = random(1);
    let b = random(2);
    assert_eq!(a.press_urgency, a2.press_urgency);
    assert_eq!(a.anchors, a2.anchors);
    assert!(a.press_urgency != b.press_urgency || a.formation != b.formation);
    assert!(min_choices().contains(&f(a.def_line_min_dist_from_ball)));
    assert!(max_choices().contains(&f(a.def_line_max_dist_from_ball)));
    for anchor in &a.anchors {
        assert!(anchor.lane < PITCH_GENOME_LANES && anchor.row < PITCH_GENOME_ROWS);
    }
}

#[test]
fn defensive_line_band_permutation_cycles_all_discrete_combinations() {
    let mut seen = std::collections::HashSet::new();
    for index in 0..DEF_LINE_BAND_PERMUTATION_COUNT {
        let band = SoccerTeamGenome::defensive_line_band_for_permutation(index);
        assert!(min_choices().contains(&f(band.0)));
        assert!(max_choices().contains(&f(band.1)));
        assert!(seen.insert((f(band.0) as i32, f(band.1) as i32)));
    }

    assert_eq!(seen.len(), DEF_LINE_BAND_PERMUTATION_COUNT);
    assert_eq!(
        SoccerTeamGenome::defensive_line_band_for_permutation(DEF_LINE_BAND_PERMUTATION_COUNT),
        SoccerTeamGenome::defensive_line_band_for_permutation(0)
    );
}

#[test]
fn genome_crossover_takes_genes_from_parents_and_survives_serde() {
    let a = SoccerTeamGenome {
        formation: TeamFormation::F433,
        use_scoop_pass: true,
        gk_line_height: r(0.1),
        ..SoccerTeamGenome::default()
    };
    let b = SoccerTeamGenome {
        formation: TeamFormation::F442,
        use_scoop_pass: false,
        gk_line_height: r(0.9),
        press_urgency: r(0.9),
        ..SoccerTeamGenome::default()
    };
    let child = SoccerTeamGenome::crossover(&a, &b, &mut GenomeRng::new(7), &plus);
    assert!(child.use_scoop_pass == a.use_scoop_pass || child.use_scoop_pass == b.use_scoop_pass);
    assert!(child.gk_line_height == a.gk_line_height || child.gk_line_height == b.gk_line_height);
    let anchors: Vec<(u8, u8)> = child.anchors.iter().map(|x| (x.lane, x.row)).collect();
    let plain = (
        child.formation == TeamFormation::F433,
        anchors.clone(),
        f(child.def_line_max_dist_from_ball),
    );
    let json = serde_json::to_value(&plain).expect("genome serializes");
    let back: (bool, Vec<(u8, u8)>, f64) =
        serde_json::from_value(json).expect("genome deserializes");
    assert_eq!(back.0, child.formation == TeamFormation::F433);
    assert_eq!(back.1, anchors);
    assert_eq!(back.2, f(child.def_line_max_dist_from_ball));
}

#[test]
fn hybrids_take_every_gene_from_a_parent() {
    let a = SoccerTeamGenome {
        pass_distance_priority: [r(1.0), r(0.0), r(0.0), r(0.0), r(0.0)],
        def_line_max_dist_from_ball: r(20.0),
        ..SoccerTeamGenome::default()
    };
    let b = SoccerTeamGenome {
        formation: TeamFormation::F442,
        pass_distance_priority: [r(0.0), r(0.5), r(0.0), r(0.0), r(0.0)],
        def_line_min_dist_from_ball: r(3.0),
        def_line_max_dist_from_ball: r(29.0),
        ..SoccerTeamGenome::default()
    };
    let mut evened = 0;
    for seed in 0..40 {
        let c = SoccerTeamGenome::crossover(&a, &b, &mut GenomeRng::new(seed), &plus);
        assert!(c.formation == a.formation || c.formation == b.formation);
        assert!([2.0, 3.0].contains(&f(c.def_line_min_dist_from_ball)));
        assert!([20.0, 29.0].contains(&f(c.def_line_max_dist_from_ball)));
        // Where every inherited weight is zero, the weights become equal.
        if c.pass_distance_priority.iter().all(|w| f(*w) == 1.0) {
            evened += 1;
        } else {
            for (i, w) in c.pass_distance_priority.iter().enumerate() {
                assert!(*w == a.pass_distance_priority[i] || *w == b.pass_distance_priority[i]);
            }
        }
    }
    assert!(0 < evened && evened < 40);
}

#[test]
fn sanitize_repairs_a_corrupt_or_out_of_range_genome() {
    let mut g = SoccerTeamGenome::default();
    g.anchors.clear();
    g.press_urgency = r(f64::NAN);
    g.def_line_max_dist_from_ball = r(f64::INFINITY);
    g.defender_on_ball_opponent_distance = r(-5.0);
    g.defender_on_ball_pass_urgency = r(9.0);
    g.pass_distance_priority = [r(f64::NAN), r(0.0), r(0.0), r(0.0), r(0.0)];
    g.sanitize(&plus);
    assert_eq!(g.anchors.len(), 11);
    assert!((0.0..=1.0).contains(&f(g.press_urgency)));
    assert!(f(g.def_line_max_dist_from_ball).is_finite());
    assert!(f(g.def_line_max_dist_from_ball) >= f(g.def_line_min_dist_from_ball));
    assert!(min_choices().contains(&f(g.def_line_min_dist_from_ball)));
    assert!(max_choices().contains(&f(g.def_line_max_dist_from_ball)));
    assert!((0.0..=12.0).contains(&f(g.defender_on_ball_opponent_distance)));
    assert!((0.0..=1.0).contains(&f(g.defender_on_ball_pass_urgency)));
    assert!(g.pass_distance_priority.iter().all(|w| f(*w).is_finite()));
    for anchor in &g.anchors {
        assert!(anchor.lane < PITCH_GENOME_LANES && anchor.row < PITCH_GENOME_ROWS);
    }
}

#[test]
fn genome_mutate_respects_bounds() {
    let mut g = SoccerTeamGenome::default();
    let mut rng = GenomeRng::new(99);
    for _ in 0..50 {
        g.mutate(&mut rng, r(1.0), &share, &plus, &times);
    }
    assert!(f(g.press_urgency) >= 0.0 && f(g.press_urgency) <= 1.0);
    assert!(f(g.def_line_max_dist_from_ball) >= f(g.def_line_min_dist_from_ball));
    assert!(min_choices().contains(&f(g.def_line_min_dist_from_ball)));
    assert!(max_choices().contains(&f(g.def_line_max_dist_from_ball)));
    for anchor in &g.anchors {
        assert!(anchor.lane < PITCH_GENOME_LANES && anchor.row < PITCH_GENOME_ROWS);
    }
}

#[test]
fn the_generator_follows_its_seed() {
    let mut rng = GenomeRng::new(0x9E37_79B9_7F4A_7C15);
    assert_eq!(rng.next_u64(), 0xE220_A839_7B1D_CDAF);
    assert_eq!(rng.next_u64(), 0x6E78_9E6A_A1B9_65F4);
    let state = rng.state;
    assert_eq!(rng.index(0), 0);
    assert_eq!(rng.state, state);
    assert!(rng.index(5) < 5);
    assert_ne!(rng.state, state);
}

#[test]
fn a_rate_of_zero_changes_no_gene() {
    let mut g = SoccerTeamGenome::default();
    let before = SoccerTeamGenome::default();
    g.mutate(&mut GenomeRng::new(3), r(0.0), &share, &plus, &times);
    assert_eq!(g.anchors, before.anchors);
    assert_eq!(g.press_urgency, before.press_urgency);
    assert_eq!(g.pass_distance_priority, before.pass_distance_priority);
    assert_eq!(g.defender_engagement, before.defender_engagement);
}

#[test]
fn sanitizing_a_sane_genome_changes_nothing() {
    let mut g = random(12);
    let again = random(12);
    g.sanitize(&plus);
    assert_eq!(g.anchors, again.anchors);
    assert_eq!(g.pass_distance_priority, again.pass_distance_priority);
    assert_eq!(g.def_line_min_dist_from_ball, again.def_line_min_dist_from_ball);
    assert_eq!(g.mid_gap_from_back4_opp_half, again.mid_gap_from_back4_opp_half);
}

#[test]
fn choices_are_the_nearest_and_the_first_of_several() {
    let choices = [1.0f64, 2.0, 3.0].map(f64::to_bits);
    assert_eq!(f(nearest_choice(r(2.4), &choices, r(2.0), &plus)), 2.0);
    assert_eq!(f(nearest_choice(r(2.5), &choices, r(2.0), &plus)), 2.0);
    assert_eq!(f(nearest_choice(r(99.0), &choices, r(2.0), &plus)), 3.0);
    assert_eq!(f(nearest_choice(r(f64::NAN), &choices, r(1.2), &plus)), 1.0);
    assert_eq!(f(nearest_choice(r(5.0), &[], r(2.0), &plus)), 2.0);
}

#[test]
fn keepers_are_labelled_by_height_and_boldness() {
    let label = |height: f64, bold: f64| {
        SoccerTeamGenome {
            gk_line_height: r(height),
            gk_commit_aggression: r(bold),
            ..SoccerTeamGenome::default()
        }
        .gk_strategy_label()
    };
    assert_eq!(label(0.66, 0.6), "sweeper");
    assert_eq!(label(0.33, 0.6), "off-line-angle-closing");
    assert_eq!(label(0.33, 0.59), "goal-line-max-reaction");
    assert_eq!(label(0.5, 0.9), "no-mans-land-balanced");
    assert_eq!(label(f64::NAN, 0.9), "no-mans-land-balanced");
}

#[test]
fn bands_are_read_and_set() {
    let mut g = SoccerTeamGenome::default();
    let band = g.defensive_line_band_yards(&plus);
    assert_eq!((f(band.0), f(band.1)), (2.0, 25.0));
    g.apply_defensive_line_band_permutation(4);
    let band = g.defensive_line_band_yards(&plus);
    assert_eq!((f(band.0), f(band.1)), (2.0, 23.0));
}

#[test]
fn jitter_stays_within_its_span() {
    for seed in 0..40u64 {
        let mut rng = GenomeRng::new(seed);
        let v = jitter_u8(1, 2, &mut rng);
        assert!(v <= 3);
        let mut rng = GenomeRng::new(seed);
        assert!(jitter_u8(255, 2, &mut rng) >= 253);
    }
}

#[test]
fn formations_have_eleven_anchors() {
    let back = formation_anchors(TeamFormation::F442);
    assert_eq!(back.len(), 11);
    assert_eq!((back[8].lane, back[8].row), (11, 12));
    let front = formation_anchors(TeamFormation::F433);
    assert_eq!((front[9].lane, front[9].row), (6, 19));
    assert_eq!(SoccerTeamGenome::default().defender_engagement, DefenderEngagement::Press);
}
