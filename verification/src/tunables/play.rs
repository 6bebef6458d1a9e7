//! Knobs of tracking inference, flank crosses, rewards, plan execution and shooting.
use crate::decimals::{
    DM1000, DM10, D0, D0_002, D0_03, D0_05, D0_06, D0_1, D0_11, D0_18, D0_2, D0_25, D0_3, D0_34,
    D0_35, D0_4, D0_5, D0_52, D0_55, D0_6, D0_62, D0_75, D0_8, D0_85, D0_86, D0_88, D0_9, D0_95,
    D0_98, D1, D1_2, D1_5, D1_75, D2, D2_2, D3, D3_5, D3_8, D5, D6, D8, D10, D12, D15, D16, D20,
    D22, D25, D30, D35, D40, D45, D54, D55, D60, D80, D100, D120, D200, D250, D500, D1000,
};
use crate::number::Real64;
use crate::tunables::{
    Fault, Notice, checked, checked_shows_range, fitted, fitted_is_within, noticed, sanitize_f64,
    validate_f64, within,
};
use vstd::prelude::*;

verus! {

/// Knobs of the action inference that labels tracking data.
#[derive(Clone, Copy, Debug)]
pub struct TrackingInferenceTunables {
    pub moved_dt_multiplier: Real64,
    pub shot_lane_max_yards_to_goal: Real64,
    pub tackle_recover_max_distance_yards: Real64,
    pub defend_closing_margin_yards: Real64,
    pub space_improvement_threshold: Real64,
}

impl Default for TrackingInferenceTunables {
    fn default() -> (r: Self)
        ensures
            r == Self::defaults(),
    {
        TrackingInferenceTunables {
            moved_dt_multiplier: Real64 { bits: D1_2 },
            shot_lane_max_yards_to_goal: Real64 { bits: D25 },
            tackle_recover_max_distance_yards: Real64 { bits: D3_8 },
            defend_closing_margin_yards: Real64 { bits: D0_35 },
            space_improvement_threshold: Real64 { bits: D0_25 },
        }
    }
}

impl TrackingInferenceTunables {
    /// The default of every knob.
    pub open spec fn defaults() -> Self {
        TrackingInferenceTunables {
            moved_dt_multiplier: Real64 { bits: D1_2 },
            shot_lane_max_yards_to_goal: Real64 { bits: D25 },
            tackle_recover_max_distance_yards: Real64 { bits: D3_8 },
            defend_closing_margin_yards: Real64 { bits: D0_35 },
            space_improvement_threshold: Real64 { bits: D0_25 },
        }
    }

    /// Every knob on its own put inside its hard range.
    pub open spec fn clamped(self) -> Self {
        TrackingInferenceTunables {
            moved_dt_multiplier: fitted(self.moved_dt_multiplier, D1_2, D0_05, D12),
            shot_lane_max_yards_to_goal: fitted(self.shot_lane_max_yards_to_goal, D25, D1, D120),
            tackle_recover_max_distance_yards: fitted(
                self.tackle_recover_max_distance_yards,
                D3_8,
                D0_2,
                D20,
            ),
            defend_closing_margin_yards: fitted(self.defend_closing_margin_yards, D0_35, D0, D8),
            space_improvement_threshold: fitted(self.space_improvement_threshold, D0_25, D0, D20),
        }
    }

    /// What `sanitize` makes of the knobs.
    pub open spec fn repaired(self) -> Self {
        self.clamped()
    }

    /// Every knob is finite and inside its hard range, and paired knobs are in order.
    pub open spec fn in_hard_bounds(self) -> bool {
        &&& within(self.moved_dt_multiplier, D0_05, D12)
        &&& within(self.shot_lane_max_yards_to_goal, D1, D120)
        &&& within(self.tackle_recover_max_distance_yards, D0_2, D20)
        &&& within(self.defend_closing_margin_yards, D0, D8)
        &&& within(self.space_improvement_threshold, D0, D20)
    }

    /// What a repair has to say of these knobs, in the order of the fields, after the notices
    /// `found`.
    pub open spec fn notices(self, found: Seq<Notice>) -> Seq<Notice> {
        let n = found;
        let n = noticed(
            n,
            "tracking.moved_dt_multiplier",
            self.moved_dt_multiplier,
            D1_2,
            D0_05,
            D12,
            D0_3,
            D3,
        );
        let n = noticed(
            n,
            "tracking.shot_lane_max_yards_to_goal",
            self.shot_lane_max_yards_to_goal,
            D25,
            D1,
            D120,
            D8,
            D45,
        );
        let n = noticed(
            n,
            "tracking.tackle_recover_max_distance_yards",
            self.tackle_recover_max_distance_yards,
            D3_8,
            D0_2,
            D20,
            D1,
            D8,
        );
        let n = noticed(
            n,
            "tracking.defend_closing_margin_yards",
            self.defend_closing_margin_yards,
            D0_35,
            D0,
            D8,
            D0_05,
            D2,
        );
        let n = noticed(
            n,
            "tracking.space_improvement_threshold",
            self.space_improvement_threshold,
            D0_25,
            D0,
            D20,
            D0,
            D3,
        );
        n
    }

    /// Puts every knob inside its hard range and brings paired knobs into order. Notes every
    /// knob that was moved, or that lies outside its sane range.
    pub fn sanitize(&mut self, notices: &mut Vec<Notice>)
        ensures
            *final(self) == old(self).repaired(),
            final(notices)@ == old(self).notices(old(notices)@),
    {
        sanitize_f64(
            "tracking.moved_dt_multiplier",
            &mut self.moved_dt_multiplier,
            D1_2,
            D0_05,
            D12,
            D0_3,
            D3,
            notices,
        );
        sanitize_f64(
            "tracking.shot_lane_max_yards_to_goal",
            &mut self.shot_lane_max_yards_to_goal,
            D25,
            D1,
            D120,
            D8,
            D45,
            notices,
        );
        sanitize_f64(
            "tracking.tackle_recover_max_distance_yards",
            &mut self.tackle_recover_max_distance_yards,
            D3_8,
            D0_2,
            D20,
            D1,
            D8,
            notices,
        );
        sanitize_f64(
            "tracking.defend_closing_margin_yards",
            &mut self.defend_closing_margin_yards,
            D0_35,
            D0,
            D8,
            D0_05,
            D2,
            notices,
        );
        sanitize_f64(
            "tracking.space_improvement_threshold",
            &mut self.space_improvement_threshold,
            D0_25,
            D0,
            D20,
            D0,
            D3,
            notices,
        );
    }

    /// The faults of these knobs, in the order of the fields, after the faults `found`.
    pub open spec fn faults(self, prefix: &'static str, found: Seq<Fault>) -> Seq<Fault> {
        let e = found;
        let e = checked(e, prefix, "moved_dt_multiplier", self.moved_dt_multiplier, D0_05, D12);
        let e = checked(
            e,
            prefix,
            "shot_lane_max_yards_to_goal",
            self.shot_lane_max_yards_to_goal,
            D1,
            D120,
        );
        let e = checked(
            e,
            prefix,
            "tackle_recover_max_distance_yards",
            self.tackle_recover_max_distance_yards,
            D0_2,
            D20,
        );
        let e = checked(
            e,
            prefix,
            "defend_closing_margin_yards",
            self.defend_closing_margin_yards,
            D0,
            D8,
        );
        let e = checked(
            e,
            prefix,
            "space_improvement_threshold",
            self.space_improvement_threshold,
            D0,
            D20,
        );
        e
    }

    /// Appends the faults of these knobs to `errors`.
    pub fn validate_strict(&self, prefix: &'static str, errors: &mut Vec<Fault>)
        ensures
            final(errors)@ == self.faults(prefix, old(errors)@),
    {
        validate_f64(prefix, "moved_dt_multiplier", self.moved_dt_multiplier, D0_05, D12, errors);
        validate_f64(
            prefix,
            "shot_lane_max_yards_to_goal",
            self.shot_lane_max_yards_to_goal,
            D1,
            D120,
            errors,
        );
        validate_f64(
            prefix,
            "tackle_recover_max_distance_yards",
            self.tackle_recover_max_distance_yards,
            D0_2,
            D20,
            errors,
        );
        validate_f64(
            prefix,
            "defend_closing_margin_yards",
            self.defend_closing_margin_yards,
            D0,
            D8,
            errors,
        );
        validate_f64(
            prefix,
            "space_improvement_threshold",
            self.space_improvement_threshold,
            D0,
            D20,
            errors,
        );
    }

    /// What is repaired is in bounds, and what is in bounds is not touched by a repair.
    pub proof fn repair_reaches_bounds(self)
        ensures
            self.repaired().in_hard_bounds(),
            self.in_hard_bounds() ==> self.repaired() == self,
    {
        reveal(within);
        fitted_is_within(self.moved_dt_multiplier, D1_2, D0_05, D12);
        fitted_is_within(self.shot_lane_max_yards_to_goal, D25, D1, D120);
        fitted_is_within(self.tackle_recover_max_distance_yards, D3_8, D0_2, D20);
        fitted_is_within(self.defend_closing_margin_yards, D0_35, D0, D8);
        fitted_is_within(self.space_improvement_threshold, D0_25, D0, D20);
    }

    /// The defaults are in bounds.
    pub proof fn defaults_reach_bounds()
        ensures
            Self::defaults().in_hard_bounds(),
    {
        reveal(within);
    }

    /// Validation finds nothing exactly where the knobs are in bounds.
    pub proof fn faults_show_bounds(self, prefix: &'static str, found: Seq<Fault>)
        ensures
            self.faults(prefix, found).len() >= found.len(),
            self.faults(prefix, found).len() == found.len() <==> self.in_hard_bounds(),
            self.in_hard_bounds() ==> self.faults(prefix, found) == found,
    {
        let e = found;
        checked_shows_range(e, prefix, "moved_dt_multiplier", self.moved_dt_multiplier, D0_05, D12);
        let e = checked(e, prefix, "moved_dt_multiplier", self.moved_dt_multiplier, D0_05, D12);
        checked_shows_range(
            e,
            prefix,
            "shot_lane_max_yards_to_goal",
            self.shot_lane_max_yards_to_goal,
            D1,
            D120,
        );
        let e = checked(
            e,
            prefix,
            "shot_lane_max_yards_to_goal",
            self.shot_lane_max_yards_to_goal,
            D1,
            D120,
        );
        checked_shows_range(
            e,
            prefix,
            "tackle_recover_max_distance_yards",
            self.tackle_recover_max_distance_yards,
            D0_2,
            D20,
        );
        let e = checked(
            e,
            prefix,
            "tackle_recover_max_distance_yards",
            self.tackle_recover_max_distance_yards,
            D0_2,
            D20,
        );
        checked_shows_range(
            e,
            prefix,
            "defend_closing_margin_yards",
            self.defend_closing_margin_yards,
            D0,
            D8,
        );
        let e = checked(
            e,
            prefix,
            "defend_closing_margin_yards",
            self.defend_closing_margin_yards,
            D0,
            D8,
        );
        checked_shows_range(
            e,
            prefix,
            "space_improvement_threshold",
            self.space_improvement_threshold,
            D0,
            D20,
        );
        let e = checked(
            e,
            prefix,
            "space_improvement_threshold",
            self.space_improvement_threshold,
            D0,
            D20,
        );
    }
}

/// Flank-cross legality and context-scoring weights.
#[derive(Clone, Copy, Debug)]
pub struct FlankCrossTunables {
    /// Minimum flank-lane score for a flank cross to be legal.
    pub min_flank_score: Real64,
    /// Maximum yards-to-goal for a flank cross (legality gate + attacking-depth scale).
    pub max_yards_to_goal: Real64,
    /// Weight of perceived pressure in the pressure-release term.
    pub perceived_pressure_weight: Real64,
    /// Weight of pressure urgency in the pressure-release term.
    pub pressure_urgency_weight: Real64,
    /// Upper cap on the pressure-release term.
    pub pressure_release_cap: Real64,
    /// Weight of the flank-lane component in the context score.
    pub flank_weight: Real64,
    /// Weight of the attacking-depth component in the context score.
    pub attacking_depth_weight: Real64,
}

impl Default for FlankCrossTunables {
    fn default() -> (r: Self)
        ensures
            r == Self::defaults(),
    {
        FlankCrossTunables {
            min_flank_score: Real64 { bits: D0_52 },
            max_yards_to_goal: Real64 { bits: D54 },
            perceived_pressure_weight: Real64 { bits: D0_35 },
            pressure_urgency_weight: Real64 { bits: D0_25 },
            pressure_release_cap: Real64 { bits: D0_4 },
            flank_weight: Real64 { bits: D0_62 },
            attacking_depth_weight: Real64 { bits: D0_3 },
        }
    }
}

impl FlankCrossTunables {
    /// The default of every knob.
    pub open spec fn defaults() -> Self {
        FlankCrossTunables {
            min_flank_score: Real64 { bits: D0_52 },
            max_yards_to_goal: Real64 { bits: D54 },
            perceived_pressure_weight: Real64 { bits: D0_35 },
            pressure_urgency_weight: Real64 { bits: D0_25 },
            pressure_release_cap: Real64 { bits: D0_4 },
            flank_weight: Real64 { bits: D0_62 },
            attacking_depth_weight: Real64 { bits: D0_3 },
        }
    }

    /// Every knob on its own put inside its hard range.
    pub open spec fn clamped(self) -> Self {
        FlankCrossTunables {
            min_flank_score: fitted(self.min_flank_score, D0_52, D0, D1),
            max_yards_to_goal: fitted(self.max_yards_to_goal, D54, D1, D120),
            perceived_pressure_weight: fitted(self.perceived_pressure_weight, D0_35, D0, D5),
            pressure_urgency_weight: fitted(self.pressure_urgency_weight, D0_25, D0, D5),
            pressure_release_cap: fitted(self.pressure_release_cap, D0_4, D0, D1),
            flank_weight: fitted(self.flank_weight, D0_62, D0, D5),
            attacking_depth_weight: fitted(self.attacking_depth_weight, D0_3, D0, D5),
        }
    }

    /// What `sanitize` makes of the knobs.
    pub open spec fn repaired(self) -> Self {
        self.clamped()
    }

    /// Every knob is finite and inside its hard range, and paired knobs are in order.
    pub open spec fn in_hard_bounds(self) -> bool {
        &&& within(self.min_flank_score, D0, D1)
        &&& within(self.max_yards_to_goal, D1, D120)
        &&& within(self.perceived_pressure_weight, D0, D5)
        &&& within(self.pressure_urgency_weight, D0, D5)
        &&& within(self.pressure_release_cap, D0, D1)
        &&& within(self.flank_weight, D0, D5)
        &&& within(self.attacking_depth_weight, D0, D5)
    }

    /// What a repair has to say of these knobs, in the order of the fields, after the notices
    /// `found`.
    pub open spec fn notices(self, found: Seq<Notice>) -> Seq<Notice> {
        let n = found;
        let n = noticed(
            n,
            "flank_cross.min_flank_score",
            self.min_flank_score,
            D0_52,
            D0,
            D1,
            D0_1,
            D0_9,
        );
        let n = noticed(
            n,
            "flank_cross.max_yards_to_goal",
            self.max_yards_to_goal,
            D54,
            D1,
            D120,
            D20,
            D80,
        );
        let n = noticed(
            n,
            "flank_cross.perceived_pressure_weight",
            self.perceived_pressure_weight,
            D0_35,
            D0,
            D5,
            D0,
            D1_5,
        );
        let n = noticed(
            n,
            "flank_cross.pressure_urgency_weight",
            self.pressure_urgency_weight,
            D0_25,
            D0,
            D5,
            D0,
            D1_5,
        );
        let n = noticed(
            n,
            "flank_cross.pressure_release_cap",
            self.pressure_release_cap,
            D0_4,
            D0,
            D1,
            D0,
            D0_85,
        );
        let n = noticed(n, "flank_cross.flank_weight", self.flank_weight, D0_62, D0, D5, D0, D1_5);
        let n = noticed(
            n,
            "flank_cross.attacking_depth_weight",
            self.attacking_depth_weight,
            D0_3,
            D0,
            D5,
            D0,
            D1_5,
        );
        n
    }

    /// Puts every knob inside its hard range and brings paired knobs into order. Notes every
    /// knob that was moved, or that lies outside its sane range.
    pub fn sanitize(&mut self, notices: &mut Vec<Notice>)
        ensures
            *final(self) == old(self).repaired(),
            final(notices)@ == old(self).notices(old(notices)@),
    {
        sanitize_f64(
            "flank_cross.min_flank_score",
            &mut self.min_flank_score,
            D0_52,
            D0,
            D1,
            D0_1,
            D0_9,
            notices,
        );
        sanitize_f64(
            "flank_cross.max_yards_to_goal",
            &mut self.max_yards_to_goal,
            D54,
            D1,
            D120,
            D20,
            D80,
            notices,
        );
        sanitize_f64(
            "flank_cross.perceived_pressure_weight",
            &mut self.perceived_pressure_weight,
            D0_35,
            D0,
            D5,
            D0,
            D1_5,
            notices,
        );
        sanitize_f64(
            "flank_cross.pressure_urgency_weight",
            &mut self.pressure_urgency_weight,
            D0_25,
            D0,
            D5,
            D0,
            D1_5,
            notices,
        );
        sanitize_f64(
            "flank_cross.pressure_release_cap",
            &mut self.pressure_release_cap,
            D0_4,
            D0,
            D1,
            D0,
            D0_85,
            notices,
        );
        sanitize_f64(
            "flank_cross.flank_weight",
            &mut self.flank_weight,
            D0_62,
            D0,
            D5,
            D0,
            D1_5,
            notices,
        );
        sanitize_f64(
            "flank_cross.attacking_depth_weight",
            &mut self.attacking_depth_weight,
            D0_3,
            D0,
            D5,
            D0,
            D1_5,
            notices,
        );
    }

    /// The faults of these knobs, in the order of the fields, after the faults `found`.
    pub open spec fn faults(self, prefix: &'static str, found: Seq<Fault>) -> Seq<Fault> {
        let e = found;
        let e = checked(e, prefix, "min_flank_score", self.min_flank_score, D0, D1);
        let e = checked(e, prefix, "max_yards_to_goal", self.max_yards_to_goal, D1, D120);
        let e = checked(
            e,
            prefix,
            "perceived_pressure_weight",
            self.perceived_pressure_weight,
            D0,
            D5,
        );
        let e = checked(e, prefix, "pressure_urgency_weight", self.pressure_urgency_weight, D0, D5);
        let e = checked(e, prefix, "pressure_release_cap", self.pressure_release_cap, D0, D1);
        let e = checked(e, prefix, "flank_weight", self.flank_weight, D0, D5);
        let e = checked(e, prefix, "attacking_depth_weight", self.attacking_depth_weight, D0, D5);
        e
    }

    /// Appends the faults of these knobs to `errors`.
    pub fn validate_strict(&self, prefix: &'static str, errors: &mut Vec<Fault>)
        ensures
            final(errors)@ == self.faults(prefix, old(errors)@),
    {
        validate_f64(prefix, "min_flank_score", self.min_flank_score, D0, D1, errors);
        validate_f64(prefix, "max_yards_to_goal", self.max_yards_to_goal, D1, D120, errors);
        validate_f64(
            prefix,
            "perceived_pressure_weight",
            self.perceived_pressure_weight,
            D0,
            D5,
            errors,
        );
        validate_f64(
            prefix,
            "pressure_urgency_weight",
            self.pressure_urgency_weight,
            D0,
            D5,
            errors,
        );
        validate_f64(prefix, "pressure_release_cap", self.pressure_release_cap, D0, D1, errors);
        validate_f64(prefix, "flank_weight", self.flank_weight, D0, D5, errors);
        validate_f64(prefix, "attacking_depth_weight", self.attacking_depth_weight, D0, D5, errors);
    }

    /// What is repaired is in bounds, and what is in bounds is not touched by a repair.
    pub proof fn repair_reaches_bounds(self)
        ensures
            self.repaired().in_hard_bounds(),
            self.in_hard_bounds() ==> self.repaired() == self,
    {
        reveal(within);
        fitted_is_within(self.min_flank_score, D0_52, D0, D1);
        fitted_is_within(self.max_yards_to_goal, D54, D1, D120);
        fitted_is_within(self.perceived_pressure_weight, D0_35, D0, D5);
        fitted_is_within(self.pressure_urgency_weight, D0_25, D0, D5);
        fitted_is_within(self.pressure_release_cap, D0_4, D0, D1);
        fitted_is_within(self.flank_weight, D0_62, D0, D5);
        fitted_is_within(self.attacking_depth_weight, D0_3, D0, D5);
    }

    /// The defaults are in bounds.
    pub proof fn defaults_reach_bounds()
        ensures
            Self::defaults().in_hard_bounds(),
    {
        reveal(within);
    }

    /// Validation finds nothing exactly where the knobs are in bounds.
    pub proof fn faults_show_bounds(self, prefix: &'static str, found: Seq<Fault>)
        ensures
            self.faults(prefix, found).len() >= found.len(),
            self.faults(prefix, found).len() == found.len() <==> self.in_hard_bounds(),
            self.in_hard_bounds() ==> self.faults(prefix, found) == found,
    {
        let e = found;
        checked_shows_range(e, prefix, "min_flank_score", self.min_flank_score, D0, D1);
        let e = checked(e, prefix, "min_flank_score", self.min_flank_score, D0, D1);
        checked_shows_range(e, prefix, "max_yards_to_goal", self.max_yards_to_goal, D1, D120);
        let e = checked(e, prefix, "max_yards_to_goal", self.max_yards_to_goal, D1, D120);
        checked_shows_range(
            e,
            prefix,
            "perceived_pressure_weight",
            self.perceived_pressure_weight,
            D0,
            D5,
        );
        let e = checked(
            e,
            prefix,
            "perceived_pressure_weight",
            self.perceived_pressure_weight,
            D0,
            D5,
        );
        checked_shows_range(
            e,
            prefix,
            "pressure_urgency_weight",
            self.pressure_urgency_weight,
            D0,
            D5,
        );
        let e = checked(e, prefix, "pressure_urgency_weight", self.pressure_urgency_weight, D0, D5);
        checked_shows_range(e, prefix, "pressure_release_cap", self.pressure_release_cap, D0, D1);
        let e = checked(e, prefix, "pressure_release_cap", self.pressure_release_cap, D0, D1);
        checked_shows_range(e, prefix, "flank_weight", self.flank_weight, D0, D5);
        let e = checked(e, prefix, "flank_weight", self.flank_weight, D0, D5);
        checked_shows_range(
            e,
            prefix,
            "attacking_depth_weight",
            self.attacking_depth_weight,
            D0,
            D5,
        );
        let e = checked(e, prefix, "attacking_depth_weight", self.attacking_depth_weight, D0, D5);
    }
}

/// Magnitudes of the discrete-event learning rewards.
#[derive(Clone, Copy, Debug)]
pub struct RewardTunables {
    /// Reward added per goal the actor's team scores this transition.
    pub goal_scored_points: Real64,
    /// Penalty when conceding, for a goalkeeper or defender (heavier - it's their job to
    /// prevent it).
    pub concede_keeper_defender_penalty: Real64,
    /// Penalty when conceding, for an outfield non-defender.
    pub concede_outfield_penalty: Real64,
    /// Shaping reward for easing out of a sustained teammate overlap.
    pub teammate_overlap_relief_reward: Real64,
    /// Shaping penalty for camping in a teammate overlap.
    pub teammate_overlap_camp_penalty: Real64,
    /// Penalty per yard a central defender advances ahead of the wing-backs.
    pub center_back_ahead_of_wingback_penalty_per_yard: Real64,
    /// Penalty for a floor pass played into a blocked lane.
    pub blocked_lane_floor_pass_penalty_points: Real64,
    /// Penalty for a forced pass played under low pressure (no need to rush).
    pub low_pressure_forced_pass_penalty_points: Real64,
    pub giveaway_to_opponent_own_half_penalty: Real64,
    /// Flat penalty for giving the ball straight to the opponent from a hold in the OPPONENT's
    /// half (less exposed than an own-half giveaway).
    pub giveaway_to_opponent_opp_half_penalty: Real64,
    /// Flat penalty for losing the ball into a loose/contested state (no team in settled
    /// possession after the touch) from the actor's OWN half - softer than a clean giveaway
    /// because the ball is still up for grabs.
    pub giveaway_to_loose_own_half_penalty: Real64,
    /// Flat penalty for losing the ball into a loose/contested state from the OPPONENT's half.
    pub giveaway_to_loose_opp_half_penalty: Real64,
    pub pitch_value_threat_delta_points: Real64,
    pub dense_shaping_budget_points: Real64,
}

impl Default for RewardTunables {
    fn default() -> (r: Self)
        ensures
            r == Self::defaults(),
    {
        RewardTunables {
            goal_scored_points: Real64 { bits: D100 },
            concede_keeper_defender_penalty: Real64 { bits: D8 },
            concede_outfield_penalty: Real64 { bits: D2 },
            teammate_overlap_relief_reward: Real64 { bits: D0_06 },
            teammate_overlap_camp_penalty: Real64 { bits: D0_03 },
            center_back_ahead_of_wingback_penalty_per_yard: Real64 { bits: D0_11 },
            blocked_lane_floor_pass_penalty_points: Real64 { bits: D6 },
            low_pressure_forced_pass_penalty_points: Real64 { bits: D1_75 },
            giveaway_to_opponent_own_half_penalty: Real64 { bits: D3_5 },
            giveaway_to_opponent_opp_half_penalty: Real64 { bits: D2_2 },
            giveaway_to_loose_own_half_penalty: Real64 { bits: D0_85 },
            giveaway_to_loose_opp_half_penalty: Real64 { bits: D0_55 },
            pitch_value_threat_delta_points: Real64 { bits: D12 },
            dense_shaping_budget_points: Real64 { bits: D12 },
        }
    }
}

impl RewardTunables {
    /// The default of every knob.
    pub open spec fn defaults() -> Self {
        RewardTunables {
            goal_scored_points: Real64 { bits: D100 },
            concede_keeper_defender_penalty: Real64 { bits: D8 },
            concede_outfield_penalty: Real64 { bits: D2 },
            teammate_overlap_relief_reward: Real64 { bits: D0_06 },
            teammate_overlap_camp_penalty: Real64 { bits: D0_03 },
            center_back_ahead_of_wingback_penalty_per_yard: Real64 { bits: D0_11 },
            blocked_lane_floor_pass_penalty_points: Real64 { bits: D6 },
            low_pressure_forced_pass_penalty_points: Real64 { bits: D1_75 },
            giveaway_to_opponent_own_half_penalty: Real64 { bits: D3_5 },
            giveaway_to_opponent_opp_half_penalty: Real64 { bits: D2_2 },
            giveaway_to_loose_own_half_penalty: Real64 { bits: D0_85 },
            giveaway_to_loose_opp_half_penalty: Real64 { bits: D0_55 },
            pitch_value_threat_delta_points: Real64 { bits: D12 },
            dense_shaping_budget_points: Real64 { bits: D12 },
        }
    }

    /// Every knob on its own put inside its hard range.
    pub open spec fn clamped(self) -> Self {
        RewardTunables {
            goal_scored_points: fitted(self.goal_scored_points, D100, DM1000, D1000),
            concede_keeper_defender_penalty: fitted(
                self.concede_keeper_defender_penalty,
                D8,
                D0,
                D200,
            ),
            concede_outfield_penalty: fitted(self.concede_outfield_penalty, D2, D0, D200),
            teammate_overlap_relief_reward: fitted(
                self.teammate_overlap_relief_reward,
                D0_06,
                DM10,
                D10,
            ),
            teammate_overlap_camp_penalty: fitted(
                self.teammate_overlap_camp_penalty,
                D0_03,
                D0,
                D10,
            ),
            center_back_ahead_of_wingback_penalty_per_yard: fitted(
                self.center_back_ahead_of_wingback_penalty_per_yard,
                D0_11,
                D0,
                D10,
            ),
            blocked_lane_floor_pass_penalty_points: fitted(
                self.blocked_lane_floor_pass_penalty_points,
                D6,
                D0,
                D200,
            ),
            low_pressure_forced_pass_penalty_points: fitted(
                self.low_pressure_forced_pass_penalty_points,
                D1_75,
                D0,
                D200,
            ),
            giveaway_to_opponent_own_half_penalty: fitted(
                self.giveaway_to_opponent_own_half_penalty,
                D3_5,
                D0,
                D200,
            ),
            giveaway_to_opponent_opp_half_penalty: fitted(
                self.giveaway_to_opponent_opp_half_penalty,
                D2_2,
                D0,
                D200,
            ),
            giveaway_to_loose_own_half_penalty: fitted(
                self.giveaway_to_loose_own_half_penalty,
                D0_85,
                D0,
                D200,
            ),
            giveaway_to_loose_opp_half_penalty: fitted(
                self.giveaway_to_loose_opp_half_penalty,
                D0_55,
                D0,
                D200,
            ),
            pitch_value_threat_delta_points: fitted(
                self.pitch_value_threat_delta_points,
                D12,
                D0,
                D500,
            ),
            dense_shaping_budget_points: fitted(self.dense_shaping_budget_points, D12, D0, D1000),
        }
    }

    /// What `sanitize` makes of the knobs.
    pub open spec fn repaired(self) -> Self {
        self.clamped()
    }

    /// Every knob is finite and inside its hard range, and paired knobs are in order.
    pub open spec fn in_hard_bounds(self) -> bool {
        &&& within(self.goal_scored_points, DM1000, D1000)
        &&& within(self.concede_keeper_defender_penalty, D0, D200)
        &&& within(self.concede_outfield_penalty, D0, D200)
        &&& within(self.teammate_overlap_relief_reward, DM10, D10)
        &&& within(self.teammate_overlap_camp_penalty, D0, D10)
        &&& within(self.center_back_ahead_of_wingback_penalty_per_yard, D0, D10)
        &&& within(self.blocked_lane_floor_pass_penalty_points, D0, D200)
        &&& within(self.low_pressure_forced_pass_penalty_points, D0, D200)
        &&& within(self.giveaway_to_opponent_own_half_penalty, D0, D200)
        &&& within(self.giveaway_to_opponent_opp_half_penalty, D0, D200)
        &&& within(self.giveaway_to_loose_own_half_penalty, D0, D200)
        &&& within(self.giveaway_to_loose_opp_half_penalty, D0, D200)
        &&& within(self.pitch_value_threat_delta_points, D0, D500)
        &&& within(self.dense_shaping_budget_points, D0, D1000)
    }

    /// What a repair has to say of these knobs, in the order of the fields, after the notices
    /// `found`.
    pub open spec fn notices(self, found: Seq<Notice>) -> Seq<Notice> {
        let n = found;
        let n = noticed(
            n,
            "reward.goal_scored_points",
            self.goal_scored_points,
            D100,
            DM1000,
            D1000,
            D0,
            D250,
        );
        let n = noticed(
            n,
            "reward.concede_keeper_defender_penalty",
            self.concede_keeper_defender_penalty,
            D8,
            D0,
            D200,
            D0,
            D40,
        );
        let n = noticed(
            n,
            "reward.concede_outfield_penalty",
            self.concede_outfield_penalty,
            D2,
            D0,
            D200,
            D0,
            D25,
        );
        let n = noticed(
            n,
            "reward.teammate_overlap_relief_reward",
            self.teammate_overlap_relief_reward,
            D0_06,
            DM10,
            D10,
            D0,
            D2,
        );
        let n = noticed(
            n,
            "reward.teammate_overlap_camp_penalty",
            self.teammate_overlap_camp_penalty,
            D0_03,
            D0,
            D10,
            D0,
            D2,
        );
        let n = noticed(
            n,
            "reward.center_back_ahead_of_wingback_penalty_per_yard",
            self.center_back_ahead_of_wingback_penalty_per_yard,
            D0_11,
            D0,
            D10,
            D0,
            D2,
        );
        let n = noticed(
            n,
            "reward.blocked_lane_floor_pass_penalty_points",
            self.blocked_lane_floor_pass_penalty_points,
            D6,
            D0,
            D200,
            D0,
            D40,
        );
        let n = noticed(
            n,
            "reward.low_pressure_forced_pass_penalty_points",
            self.low_pressure_forced_pass_penalty_points,
            D1_75,
            D0,
            D200,
            D0,
            D25,
        );
        let n = noticed(
            n,
            "reward.giveaway_to_opponent_own_half_penalty",
            self.giveaway_to_opponent_own_half_penalty,
            D3_5,
            D0,
            D200,
            D0,
            D25,
        );
        let n = noticed(
            n,
            "reward.giveaway_to_opponent_opp_half_penalty",
            self.giveaway_to_opponent_opp_half_penalty,
            D2_2,
            D0,
            D200,
            D0,
            D25,
        );
        let n = noticed(
            n,
            "reward.giveaway_to_loose_own_half_penalty",
            self.giveaway_to_loose_own_half_penalty,
            D0_85,
            D0,
            D200,
            D0,
            D25,
        );
        let n = noticed(
            n,
            "reward.giveaway_to_loose_opp_half_penalty",
            self.giveaway_to_loose_opp_half_penalty,
            D0_55,
            D0,
            D200,
            D0,
            D25,
        );
        let n = noticed(
            n,
            "reward.pitch_value_threat_delta_points",
            self.pitch_value_threat_delta_points,
            D12,
            D0,
            D500,
            D0,
            D60,
        );
        let n = noticed(
            n,
            "reward.dense_shaping_budget_points",
            self.dense_shaping_budget_points,
            D12,
            D0,
            D1000,
            D0,
            D200,
        );
        n
    }

    /// Puts every knob inside its hard range and brings paired knobs into order. Notes every
    /// knob that was moved, or that lies outside its sane range.
    pub fn sanitize(&mut self, notices: &mut Vec<Notice>)
        ensures
            *final(self) == old(self).repaired(),
            final(notices)@ == old(self).notices(old(notices)@),
    {
        sanitize_f64(
            "reward.goal_scored_points",
            &mut self.goal_scored_points,
            D100,
            DM1000,
            D1000,
            D0,
            D250,
            notices,
        );
        sanitize_f64(
            "reward.concede_keeper_defender_penalty",
            &mut self.concede_keeper_defender_penalty,
            D8,
            D0,
            D200,
            D0,
            D40,
            notices,
        );
        sanitize_f64(
            "reward.concede_outfield_penalty",
            &mut self.concede_outfield_penalty,
            D2,
            D0,
            D200,
            D0,
            D25,
            notices,
        );
        sanitize_f64(
            "reward.teammate_overlap_relief_reward",
            &mut self.teammate_overlap_relief_reward,
            D0_06,
            DM10,
            D10,
            D0,
            D2,
            notices,
        );
        sanitize_f64(
            "reward.teammate_overlap_camp_penalty",
            &mut self.teammate_overlap_camp_penalty,
            D0_03,
            D0,
            D10,
            D0,
            D2,
            notices,
        );
        sanitize_f64(
            "reward.center_back_ahead_of_wingback_penalty_per_yard",
            &mut self.center_back_ahead_of_wingback_penalty_per_yard,
            D0_11,
            D0,
            D10,
            D0,
            D2,
            notices,
        );
        sanitize_f64(
            "reward.blocked_lane_floor_pass_penalty_points",
            &mut self.blocked_lane_floor_pass_penalty_points,
            D6,
            D0,
            D200,
            D0,
            D40,
            notices,
        );
        sanitize_f64(
            "reward.low_pressure_forced_pass_penalty_points",
            &mut self.low_pressure_forced_pass_penalty_points,
            D1_75,
            D0,
            D200,
            D0,
            D25,
            notices,
        );
        sanitize_f64(
            "reward.giveaway_to_opponent_own_half_penalty",
            &mut self.giveaway_to_opponent_own_half_penalty,
            D3_5,
            D0,
            D200,
            D0,
            D25,
            notices,
        );
        sanitize_f64(
            "reward.giveaway_to_opponent_opp_half_penalty",
            &mut self.giveaway_to_opponent_opp_half_penalty,
            D2_2,
            D0,
            D200,
            D0,
            D25,
            notices,
        );
        sanitize_f64(
            "reward.giveaway_to_loose_own_half_penalty",
            &mut self.giveaway_to_loose_own_half_penalty,
            D0_85,
            D0,
            D200,
            D0,
            D25,
            notices,
        );
        sanitize_f64(
            "reward.giveaway_to_loose_opp_half_penalty",
            &mut self.giveaway_to_loose_opp_half_penalty,
            D0_55,
            D0,
            D200,
            D0,
            D25,
            notices,
        );
        sanitize_f64(
            "reward.pitch_value_threat_delta_points",
            &mut self.pitch_value_threat_delta_points,
            D12,
            D0,
            D500,
            D0,
            D60,
            notices,
        );
        sanitize_f64(
            "reward.dense_shaping_budget_points",
            &mut self.dense_shaping_budget_points,
            D12,
            D0,
            D1000,
            D0,
            D200,
            notices,
        );
    }

    /// The faults of these knobs, in the order of the fields, after the faults `found`.
    pub open spec fn faults(self, prefix: &'static str, found: Seq<Fault>) -> Seq<Fault> {
        let e = found;
        let e = checked(e, prefix, "goal_scored_points", self.goal_scored_points, DM1000, D1000);
        let e = checked(
            e,
            prefix,
            "concede_keeper_defender_penalty",
            self.concede_keeper_defender_penalty,
            D0,
            D200,
        );
        let e = checked(
            e,
            prefix,
            "concede_outfield_penalty",
            self.concede_outfield_penalty,
            D0,
            D200,
        );
        let e = checked(
            e,
            prefix,
            "teammate_overlap_relief_reward",
            self.teammate_overlap_relief_reward,
            DM10,
            D10,
        );
        let e = checked(
            e,
            prefix,
            "teammate_overlap_camp_penalty",
            self.teammate_overlap_camp_penalty,
            D0,
            D10,
        );
        let e = checked(
            e,
            prefix,
            "center_back_ahead_of_wingback_penalty_per_yard",
            self.center_back_ahead_of_wingback_penalty_per_yard,
            D0,
            D10,
        );
        let e = checked(
            e,
            prefix,
            "blocked_lane_floor_pass_penalty_points",
            self.blocked_lane_floor_pass_penalty_points,
            D0,
            D200,
        );
        let e = checked(
            e,
            prefix,
            "low_pressure_forced_pass_penalty_points",
            self.low_pressure_forced_pass_penalty_points,
            D0,
            D200,
        );
        let e = checked(
            e,
            prefix,
            "giveaway_to_opponent_own_half_penalty",
            self.giveaway_to_opponent_own_half_penalty,
            D0,
            D200,
        );
        let e = checked(
            e,
            prefix,
            "giveaway_to_opponent_opp_half_penalty",
            self.giveaway_to_opponent_opp_half_penalty,
            D0,
            D200,
        );
        let e = checked(
            e,
            prefix,
            "giveaway_to_loose_own_half_penalty",
            self.giveaway_to_loose_own_half_penalty,
            D0,
            D200,
        );
        let e = checked(
            e,
            prefix,
            "giveaway_to_loose_opp_half_penalty",
            self.giveaway_to_loose_opp_half_penalty,
            D0,
            D200,
        );
        let e = checked(
            e,
            prefix,
            "pitch_value_threat_delta_points",
            self.pitch_value_threat_delta_points,
            D0,
            D500,
        );
        let e = checked(
            e,
            prefix,
            "dense_shaping_budget_points",
            self.dense_shaping_budget_points,
            D0,
            D1000,
        );
        e
    }

    /// Appends the faults of these knobs to `errors`.
    pub fn validate_strict(&self, prefix: &'static str, errors: &mut Vec<Fault>)
        ensures
            final(errors)@ == self.faults(prefix, old(errors)@),
    {
        validate_f64(prefix, "goal_scored_points", self.goal_scored_points, DM1000, D1000, errors);
        validate_f64(
            prefix,
            "concede_keeper_defender_penalty",
            self.concede_keeper_defender_penalty,
            D0,
            D200,
            errors,
        );
        validate_f64(
            prefix,
            "concede_outfield_penalty",
            self.concede_outfield_penalty,
            D0,
            D200,
            errors,
        );
        validate_f64(
            prefix,
            "teammate_overlap_relief_reward",
            self.teammate_overlap_relief_reward,
            DM10,
            D10,
            errors,
        );
        validate_f64(
            prefix,
            "teammate_overlap_camp_penalty",
            self.teammate_overlap_camp_penalty,
            D0,
            D10,
            errors,
        );
        validate_f64(
            prefix,
            "center_back_ahead_of_wingback_penalty_per_yard",
            self.center_back_ahead_of_wingback_penalty_per_yard,
            D0,
            D10,
            errors,
        );
        validate_f64(
            prefix,
            "blocked_lane_floor_pass_penalty_points",
            self.blocked_lane_floor_pass_penalty_points,
            D0,
            D200,
            errors,
        );
        validate_f64(
            prefix,
            "low_pressure_forced_pass_penalty_points",
            self.low_pressure_forced_pass_penalty_points,
            D0,
            D200,
            errors,
        );
        validate_f64(
            prefix,
            "giveaway_to_opponent_own_half_penalty",
            self.giveaway_to_opponent_own_half_penalty,
            D0,
            D200,
            errors,
        );
        validate_f64(
            prefix,
            "giveaway_to_opponent_opp_half_penalty",
            self.giveaway_to_opponent_opp_half_penalty,
            D0,
            D200,
            errors,
        );
        validate_f64(
            prefix,
            "giveaway_to_loose_own_half_penalty",
            self.giveaway_to_loose_own_half_penalty,
            D0,
            D200,
            errors,
        );
        validate_f64(
            prefix,
            "giveaway_to_loose_opp_half_penalty",
            self.giveaway_to_loose_opp_half_penalty,
            D0,
            D200,
            errors,
        );
        validate_f64(
            prefix,
            "pitch_value_threat_delta_points",
            self.pitch_value_threat_delta_points,
            D0,
            D500,
            errors,
        );
        validate_f64(
            prefix,
            "dense_shaping_budget_points",
            self.dense_shaping_budget_points,
            D0,
            D1000,
            errors,
        );
    }

    /// What is repaired is in bounds, and what is in bounds is not touched by a repair.
    pub proof fn repair_reaches_bounds(self)
        ensures
            self.repaired().in_hard_bounds(),
            self.in_hard_bounds() ==> self.repaired() == self,
    {
        reveal(within);
        fitted_is_within(self.goal_scored_points, D100, DM1000, D1000);
        fitted_is_within(self.concede_keeper_defender_penalty, D8, D0, D200);
        fitted_is_within(self.concede_outfield_penalty, D2, D0, D200);
        fitted_is_within(self.teammate_overlap_relief_reward, D0_06, DM10, D10);
        fitted_is_within(self.teammate_overlap_camp_penalty, D0_03, D0, D10);
        fitted_is_within(self.center_back_ahead_of_wingback_penalty_per_yard, D0_11, D0, D10);
        fitted_is_within(self.blocked_lane_floor_pass_penalty_points, D6, D0, D200);
        fitted_is_within(self.low_pressure_forced_pass_penalty_points, D1_75, D0, D200);
        fitted_is_within(self.giveaway_to_opponent_own_half_penalty, D3_5, D0, D200);
        fitted_is_within(self.giveaway_to_opponent_opp_half_penalty, D2_2, D0, D200);
        fitted_is_within(self.giveaway_to_loose_own_half_penalty, D0_85, D0, D200);
        fitted_is_within(self.giveaway_to_loose_opp_half_penalty, D0_55, D0, D200);
        fitted_is_within(self.pitch_value_threat_delta_points, D12, D0, D500);
        fitted_is_within(self.dense_shaping_budget_points, D12, D0, D1000);
    }

    /// The defaults are in bounds.
    pub proof fn defaults_reach_bounds()
        ensures
            Self::defaults().in_hard_bounds(),
    {
        reveal(within);
    }

    /// Validation finds nothing exactly where the knobs are in bounds.
    pub proof fn faults_show_bounds(self, prefix: &'static str, found: Seq<Fault>)
        ensures
            self.faults(prefix, found).len() >= found.len(),
            self.faults(prefix, found).len() == found.len() <==> self.in_hard_bounds(),
            self.in_hard_bounds() ==> self.faults(prefix, found) == found,
    {
        let e = found;
        checked_shows_range(
            e,
            prefix,
            "goal_scored_points",
            self.goal_scored_points,
            DM1000,
            D1000,
        );
        let e = checked(e, prefix, "goal_scored_points", self.goal_scored_points, DM1000, D1000);
        checked_shows_range(
            e,
            prefix,
            "concede_keeper_defender_penalty",
            self.concede_keeper_defender_penalty,
            D0,
            D200,
        );
        let e = checked(
            e,
            prefix,
            "concede_keeper_defender_penalty",
            self.concede_keeper_defender_penalty,
            D0,
            D200,
        );
        checked_shows_range(
            e,
            prefix,
            "concede_outfield_penalty",
            self.concede_outfield_penalty,
            D0,
            D200,
        );
        let e = checked(
            e,
            prefix,
            "concede_outfield_penalty",
            self.concede_outfield_penalty,
            D0,
            D200,
        );
        checked_shows_range(
            e,
            prefix,
            "teammate_overlap_relief_reward",
            self.teammate_overlap_relief_reward,
            DM10,
            D10,
        );
        let e = checked(
            e,
            prefix,
            "teammate_overlap_relief_reward",
            self.teammate_overlap_relief_reward,
            DM10,
            D10,
        );
        checked_shows_range(
            e,
            prefix,
            "teammate_overlap_camp_penalty",
            self.teammate_overlap_camp_penalty,
            D0,
            D10,
        );
        let e = checked(
            e,
            prefix,
            "teammate_overlap_camp_penalty",
            self.teammate_overlap_camp_penalty,
            D0,
            D10,
        );
        checked_shows_range(
            e,
            prefix,
            "center_back_ahead_of_wingback_penalty_per_yard",
            self.center_back_ahead_of_wingback_penalty_per_yard,
            D0,
            D10,
        );
        let e = checked(
            e,
            prefix,
            "center_back_ahead_of_wingback_penalty_per_yard",
            self.center_back_ahead_of_wingback_penalty_per_yard,
            D0,
            D10,
        );
        checked_shows_range(
            e,
            prefix,
            "blocked_lane_floor_pass_penalty_points",
            self.blocked_lane_floor_pass_penalty_points,
            D0,
            D200,
        );
        let e = checked(
            e,
            prefix,
            "blocked_lane_floor_pass_penalty_points",
            self.blocked_lane_floor_pass_penalty_points,
            D0,
            D200,
        );
        checked_shows_range(
            e,
            prefix,
            "low_pressure_forced_pass_penalty_points",
            self.low_pressure_forced_pass_penalty_points,
            D0,
            D200,
        );
        let e = checked(
            e,
            prefix,
            "low_pressure_forced_pass_penalty_points",
            self.low_pressure_forced_pass_penalty_points,
            D0,
            D200,
        );
        checked_shows_range(
            e,
            prefix,
            "giveaway_to_opponent_own_half_penalty",
            self.giveaway_to_opponent_own_half_penalty,
            D0,
            D200,
        );
        let e = checked(
            e,
            prefix,
            "giveaway_to_opponent_own_half_penalty",
            self.giveaway_to_opponent_own_half_penalty,
            D0,
            D200,
        );
        checked_shows_range(
            e,
            prefix,
            "giveaway_to_opponent_opp_half_penalty",
            self.giveaway_to_opponent_opp_half_penalty,
            D0,
            D200,
        );
        let e = checked(
            e,
            prefix,
            "giveaway_to_opponent_opp_half_penalty",
            self.giveaway_to_opponent_opp_half_penalty,
            D0,
            D200,
        );
        checked_shows_range(
            e,
            prefix,
            "giveaway_to_loose_own_half_penalty",
            self.giveaway_to_loose_own_half_penalty,
            D0,
            D200,
        );
        let e = checked(
            e,
            prefix,
            "giveaway_to_loose_own_half_penalty",
            self.giveaway_to_loose_own_half_penalty,
            D0,
            D200,
        );
        checked_shows_range(
            e,
            prefix,
            "giveaway_to_loose_opp_half_penalty",
            self.giveaway_to_loose_opp_half_penalty,
            D0,
            D200,
        );
        let e = checked(
            e,
            prefix,
            "giveaway_to_loose_opp_half_penalty",
            self.giveaway_to_loose_opp_half_penalty,
            D0,
            D200,
        );
        checked_shows_range(
            e,
            prefix,
            "pitch_value_threat_delta_points",
            self.pitch_value_threat_delta_points,
            D0,
            D500,
        );
        let e = checked(
            e,
            prefix,
            "pitch_value_threat_delta_points",
            self.pitch_value_threat_delta_points,
            D0,
            D500,
        );
        checked_shows_range(
            e,
            prefix,
            "dense_shaping_budget_points",
            self.dense_shaping_budget_points,
            D0,
            D1000,
        );
        let e = checked(
            e,
            prefix,
            "dense_shaping_budget_points",
            self.dense_shaping_budget_points,
            D0,
            D1000,
        );
    }
}

/// Thresholds for reselecting a decision after its execution was planned.
#[derive(Clone, Copy, Debug)]
pub struct DecisionMpcTunables {
    pub deviation_trace_threshold_yards: Real64,
    pub blend_max_target_delta_yards: Real64,
    pub reselect_max_target_delta_yards: Real64,
    pub reselect_min_execution_confidence: Real64,
    pub reselect_min_ball_execution_probability: Real64,
}

impl Default for DecisionMpcTunables {
    fn default() -> (r: Self)
        ensures
            r == Self::defaults(),
    {
        DecisionMpcTunables {
            deviation_trace_threshold_yards: Real64 { bits: D0_75 },
            blend_max_target_delta_yards: Real64 { bits: D6 },
            reselect_max_target_delta_yards: Real64 { bits: D16 },
            reselect_min_execution_confidence: Real64 { bits: D0_18 },
            reselect_min_ball_execution_probability: Real64 { bits: D0_34 },
        }
    }
}

impl DecisionMpcTunables {
    /// The default of every knob.
    pub open spec fn defaults() -> Self {
        DecisionMpcTunables {
            deviation_trace_threshold_yards: Real64 { bits: D0_75 },
            blend_max_target_delta_yards: Real64 { bits: D6 },
            reselect_max_target_delta_yards: Real64 { bits: D16 },
            reselect_min_execution_confidence: Real64 { bits: D0_18 },
            reselect_min_ball_execution_probability: Real64 { bits: D0_34 },
        }
    }

    /// Every knob on its own put inside its hard range.
    pub open spec fn clamped(self) -> Self {
        DecisionMpcTunables {
            deviation_trace_threshold_yards: fitted(
                self.deviation_trace_threshold_yards,
                D0_75,
                D0,
                D60,
            ),
            blend_max_target_delta_yards: fitted(self.blend_max_target_delta_yards, D6, D0, D120),
            reselect_max_target_delta_yards: fitted(
                self.reselect_max_target_delta_yards,
                D16,
                D0_1,
                D120,
            ),
            reselect_min_execution_confidence: fitted(
                self.reselect_min_execution_confidence,
                D0_18,
                D0,
                D1,
            ),
            reselect_min_ball_execution_probability: fitted(
                self.reselect_min_ball_execution_probability,
                D0_34,
                D0,
                D1,
            ),
        }
    }

    /// What `sanitize` makes of the knobs.
    pub open spec fn repaired(self) -> Self {
        self.clamped()
    }

    /// Every knob is finite and inside its hard range, and paired knobs are in order.
    pub open spec fn in_hard_bounds(self) -> bool {
        &&& within(self.deviation_trace_threshold_yards, D0, D60)
        &&& within(self.blend_max_target_delta_yards, D0, D120)
        &&& within(self.reselect_max_target_delta_yards, D0_1, D120)
        &&& within(self.reselect_min_execution_confidence, D0, D1)
        &&& within(self.reselect_min_ball_execution_probability, D0, D1)
    }

    /// What a repair has to say of these knobs, in the order of the fields, after the notices
    /// `found`.
    pub open spec fn notices(self, found: Seq<Notice>) -> Seq<Notice> {
        let n = found;
        let n = noticed(
            n,
            "decision_mpc.deviation_trace_threshold_yards",
            self.deviation_trace_threshold_yards,
            D0_75,
            D0,
            D60,
            D0_1,
            D8,
        );
        let n = noticed(
            n,
            "decision_mpc.blend_max_target_delta_yards",
            self.blend_max_target_delta_yards,
            D6,
            D0,
            D120,
            D1,
            D25,
        );
        let n = noticed(
            n,
            "decision_mpc.reselect_max_target_delta_yards",
            self.reselect_max_target_delta_yards,
            D16,
            D0_1,
            D120,
            D3,
            D45,
        );
        let n = noticed(
            n,
            "decision_mpc.reselect_min_execution_confidence",
            self.reselect_min_execution_confidence,
            D0_18,
            D0,
            D1,
            D0,
            D0_8,
        );
        let n = noticed(
            n,
            "decision_mpc.reselect_min_ball_execution_probability",
            self.reselect_min_ball_execution_probability,
            D0_34,
            D0,
            D1,
            D0,
            D0_8,
        );
        n
    }

    /// Puts every knob inside its hard range and brings paired knobs into order. Notes every
    /// knob that was moved, or that lies outside its sane range.
    pub fn sanitize(&mut self, notices: &mut Vec<Notice>)
        ensures
            *final(self) == old(self).repaired(),
            final(notices)@ == old(self).notices(old(notices)@),
    {
        sanitize_f64(
            "decision_mpc.deviation_trace_threshold_yards",
            &mut self.deviation_trace_threshold_yards,
            D0_75,
            D0,
            D60,
            D0_1,
            D8,
            notices,
        );
        sanitize_f64(
            "decision_mpc.blend_max_target_delta_yards",
            &mut self.blend_max_target_delta_yards,
            D6,
            D0,
            D120,
            D1,
            D25,
            notices,
        );
        sanitize_f64(
            "decision_mpc.reselect_max_target_delta_yards",
            &mut self.reselect_max_target_delta_yards,
            D16,
            D0_1,
            D120,
            D3,
            D45,
            notices,
        );
        sanitize_f64(
            "decision_mpc.reselect_min_execution_confidence",
            &mut self.reselect_min_execution_confidence,
            D0_18,
            D0,
            D1,
            D0,
            D0_8,
            notices,
        );
        sanitize_f64(
            "decision_mpc.reselect_min_ball_execution_probability",
            &mut self.reselect_min_ball_execution_probability,
            D0_34,
            D0,
            D1,
            D0,
            D0_8,
            notices,
        );
    }

    /// The faults of these knobs, in the order of the fields, after the faults `found`.
    pub open spec fn faults(self, prefix: &'static str, found: Seq<Fault>) -> Seq<Fault> {
        let e = found;
        let e = checked(
            e,
            prefix,
            "deviation_trace_threshold_yards",
            self.deviation_trace_threshold_yards,
            D0,
            D60,
        );
        let e = checked(
            e,
            prefix,
            "blend_max_target_delta_yards",
            self.blend_max_target_delta_yards,
            D0,
            D120,
        );
        let e = checked(
            e,
            prefix,
            "reselect_max_target_delta_yards",
            self.reselect_max_target_delta_yards,
            D0_1,
            D120,
        );
        let e = checked(
            e,
            prefix,
            "reselect_min_execution_confidence",
            self.reselect_min_execution_confidence,
            D0,
            D1,
        );
        let e = checked(
            e,
            prefix,
            "reselect_min_ball_execution_probability",
            self.reselect_min_ball_execution_probability,
            D0,
            D1,
        );
        e
    }

    /// Appends the faults of these knobs to `errors`.
    pub fn validate_strict(&self, prefix: &'static str, errors: &mut Vec<Fault>)
        ensures
            final(errors)@ == self.faults(prefix, old(errors)@),
    {
        validate_f64(
            prefix,
            "deviation_trace_threshold_yards",
            self.deviation_trace_threshold_yards,
            D0,
            D60,
            errors,
        );
        validate_f64(
            prefix,
            "blend_max_target_delta_yards",
            self.blend_max_target_delta_yards,
            D0,
            D120,
            errors,
        );
        validate_f64(
            prefix,
            "reselect_max_target_delta_yards",
            self.reselect_max_target_delta_yards,
            D0_1,
            D120,
            errors,
        );
        validate_f64(
            prefix,
            "reselect_min_execution_confidence",
            self.reselect_min_execution_confidence,
            D0,
            D1,
            errors,
        );
        validate_f64(
            prefix,
            "reselect_min_ball_execution_probability",
            self.reselect_min_ball_execution_probability,
            D0,
            D1,
            errors,
        );
    }

    /// What is repaired is in bounds, and what is in bounds is not touched by a repair.
    pub proof fn repair_reaches_bounds(self)
        ensures
            self.repaired().in_hard_bounds(),
            self.in_hard_bounds() ==> self.repaired() == self,
    {
        reveal(within);
        fitted_is_within(self.deviation_trace_threshold_yards, D0_75, D0, D60);
        fitted_is_within(self.blend_max_target_delta_yards, D6, D0, D120);
        fitted_is_within(self.reselect_max_target_delta_yards, D16, D0_1, D120);
        fitted_is_within(self.reselect_min_execution_confidence, D0_18, D0, D1);
        fitted_is_within(self.reselect_min_ball_execution_probability, D0_34, D0, D1);
    }

    /// The defaults are in bounds.
    pub proof fn defaults_reach_bounds()
        ensures
            Self::defaults().in_hard_bounds(),
    {
        reveal(within);
    }

    /// Validation finds nothing exactly where the knobs are in bounds.
    pub proof fn faults_show_bounds(self, prefix: &'static str, found: Seq<Fault>)
        ensures
            self.faults(prefix, found).len() >= found.len(),
            self.faults(prefix, found).len() == found.len() <==> self.in_hard_bounds(),
            self.in_hard_bounds() ==> self.faults(prefix, found) == found,
    {
        let e = found;
        checked_shows_range(
            e,
            prefix,
            "deviation_trace_threshold_yards",
            self.deviation_trace_threshold_yards,
            D0,
            D60,
        );
        let e = checked(
            e,
            prefix,
            "deviation_trace_threshold_yards",
            self.deviation_trace_threshold_yards,
            D0,
            D60,
        );
        checked_shows_range(
            e,
            prefix,
            "blend_max_target_delta_yards",
            self.blend_max_target_delta_yards,
            D0,
            D120,
        );
        let e = checked(
            e,
            prefix,
            "blend_max_target_delta_yards",
            self.blend_max_target_delta_yards,
            D0,
            D120,
        );
        checked_shows_range(
            e,
            prefix,
            "reselect_max_target_delta_yards",
            self.reselect_max_target_delta_yards,
            D0_1,
            D120,
        );
        let e = checked(
            e,
            prefix,
            "reselect_max_target_delta_yards",
            self.reselect_max_target_delta_yards,
            D0_1,
            D120,
        );
        checked_shows_range(
            e,
            prefix,
            "reselect_min_execution_confidence",
            self.reselect_min_execution_confidence,
            D0,
            D1,
        );
        let e = checked(
            e,
            prefix,
            "reselect_min_execution_confidence",
            self.reselect_min_execution_confidence,
            D0,
            D1,
        );
        checked_shows_range(
            e,
            prefix,
            "reselect_min_ball_execution_probability",
            self.reselect_min_ball_execution_probability,
            D0,
            D1,
        );
        let e = checked(
            e,
            prefix,
            "reselect_min_ball_execution_probability",
            self.reselect_min_ball_execution_probability,
            D0,
            D1,
        );
    }
}

/// Shot and carry decision thresholds.
#[derive(Clone, Copy, Debug)]
pub struct ShootingTunables {
    pub shot_on_frame_min_probability: Real64,
    pub striker_shot_window_yards: Real64,
    pub shot_block_bailout_max_probability: Real64,
    pub goal_approach_carry_yards: Real64,
    pub striker_hold_up_min_goal_distance_yards: Real64,
    pub shot_trigger_long_range_yards: Real64,
    /// Minimum shot-trigger value `[0,1]` for a long (`> shot_trigger_long_range_yards`) shot
    /// to be volunteered.
    pub shot_trigger_long_range_min_value: Real64,
    /// Score a vetoed long shot is crushed to in the possession ranker: tiny but non-zero so it
    /// ranks below carrying/passing while staying a LEGAL option.
    pub shot_trigger_volunteer_floor: Real64,
    /// Execution-probability damp applied when the MPC foot choice forces the weaker foot.
    pub shot_foot_weak_foot_execution_damp: Real64,
}

impl Default for ShootingTunables {
    fn default() -> (r: Self)
        ensures
            r == Self::defaults(),
    {
        ShootingTunables {
            shot_on_frame_min_probability: Real64 { bits: D0_6 },
            striker_shot_window_yards: Real64 { bits: D30 },
            shot_block_bailout_max_probability: Real64 { bits: D0_86 },
            goal_approach_carry_yards: Real64 { bits: D45 },
            striker_hold_up_min_goal_distance_yards: Real64 { bits: D45 },
            shot_trigger_long_range_yards: Real64 { bits: D22 },
            shot_trigger_long_range_min_value: Real64 { bits: D0_25 },
            shot_trigger_volunteer_floor: Real64 { bits: D0_002 },
            shot_foot_weak_foot_execution_damp: Real64 { bits: D0_88 },
        }
    }
}

impl ShootingTunables {
    /// The default of every knob.
    pub open spec fn defaults() -> Self {
        ShootingTunables {
            shot_on_frame_min_probability: Real64 { bits: D0_6 },
            striker_shot_window_yards: Real64 { bits: D30 },
            shot_block_bailout_max_probability: Real64 { bits: D0_86 },
            goal_approach_carry_yards: Real64 { bits: D45 },
            striker_hold_up_min_goal_distance_yards: Real64 { bits: D45 },
            shot_trigger_long_range_yards: Real64 { bits: D22 },
            shot_trigger_long_range_min_value: Real64 { bits: D0_25 },
            shot_trigger_volunteer_floor: Real64 { bits: D0_002 },
            shot_foot_weak_foot_execution_damp: Real64 { bits: D0_88 },
        }
    }

    /// Every knob on its own put inside its hard range.
    pub open spec fn clamped(self) -> Self {
        ShootingTunables {
            shot_on_frame_min_probability: fitted(self.shot_on_frame_min_probability, D0_6, D0, D1),
            striker_shot_window_yards: fitted(self.striker_shot_window_yards, D30, D1, D120),
            shot_block_bailout_max_probability: fitted(
                self.shot_block_bailout_max_probability,
                D0_86,
                D0,
                D1,
            ),
            goal_approach_carry_yards: fitted(self.goal_approach_carry_yards, D45, D1, D120),
            striker_hold_up_min_goal_distance_yards: fitted(
                self.striker_hold_up_min_goal_distance_yards,
                D45,
                D1,
                D120,
            ),
            shot_trigger_long_range_yards: fitted(self.shot_trigger_long_range_yards, D22, D1, D40),
            shot_trigger_long_range_min_value: fitted(
                self.shot_trigger_long_range_min_value,
                D0_25,
                D0,
                D1,
            ),
            shot_trigger_volunteer_floor: fitted(self.shot_trigger_volunteer_floor, D0_002, D0, D1),
            shot_foot_weak_foot_execution_damp: fitted(
                self.shot_foot_weak_foot_execution_damp,
                D0_88,
                D0,
                D1,
            ),
        }
    }

    /// What `sanitize` makes of the knobs.
    pub open spec fn repaired(self) -> Self {
        self.clamped()
    }

    /// Every knob is finite and inside its hard range, and paired knobs are in order.
    pub open spec fn in_hard_bounds(self) -> bool {
        &&& within(self.shot_on_frame_min_probability, D0, D1)
        &&& within(self.striker_shot_window_yards, D1, D120)
        &&& within(self.shot_block_bailout_max_probability, D0, D1)
        &&& within(self.goal_approach_carry_yards, D1, D120)
        &&& within(self.striker_hold_up_min_goal_distance_yards, D1, D120)
        &&& within(self.shot_trigger_long_range_yards, D1, D40)
        &&& within(self.shot_trigger_long_range_min_value, D0, D1)
        &&& within(self.shot_trigger_volunteer_floor, D0, D1)
        &&& within(self.shot_foot_weak_foot_execution_damp, D0, D1)
    }

    /// What a repair has to say of these knobs, in the order of the fields, after the notices
    /// `found`.
    pub open spec fn notices(self, found: Seq<Notice>) -> Seq<Notice> {
        let n = found;
        let n = noticed(
            n,
            "shooting.shot_on_frame_min_probability",
            self.shot_on_frame_min_probability,
            D0_6,
            D0,
            D1,
            D0_05,
            D0_95,
        );
        let n = noticed(
            n,
            "shooting.striker_shot_window_yards",
            self.striker_shot_window_yards,
            D30,
            D1,
            D120,
            D8,
            D55,
        );
        let n = noticed(
            n,
            "shooting.shot_block_bailout_max_probability",
            self.shot_block_bailout_max_probability,
            D0_86,
            D0,
            D1,
            D0_1,
            D0_98,
        );
        let n = noticed(
            n,
            "shooting.goal_approach_carry_yards",
            self.goal_approach_carry_yards,
            D45,
            D1,
            D120,
            D15,
            D80,
        );
        let n = noticed(
            n,
            "shooting.striker_hold_up_min_goal_distance_yards",
            self.striker_hold_up_min_goal_distance_yards,
            D45,
            D1,
            D120,
            D15,
            D80,
        );
        let n = noticed(
            n,
            "shooting.shot_trigger_long_range_yards",
            self.shot_trigger_long_range_yards,
            D22,
            D1,
            D40,
            D12,
            D35,
        );
        let n = noticed(
            n,
            "shooting.shot_trigger_long_range_min_value",
            self.shot_trigger_long_range_min_value,
            D0_25,
            D0,
            D1,
            D0,
            D0_9,
        );
        let n = noticed(
            n,
            "shooting.shot_trigger_volunteer_floor",
            self.shot_trigger_volunteer_floor,
            D0_002,
            D0,
            D1,
            D0,
            D0_5,
        );
        let n = noticed(
            n,
            "shooting.shot_foot_weak_foot_execution_damp",
            self.shot_foot_weak_foot_execution_damp,
            D0_88,
            D0,
            D1,
            D0_5,
            D1,
        );
        n
    }

    /// Puts every knob inside its hard range and brings paired knobs into order. Notes every
    /// knob that was moved, or that lies outside its sane range.
    pub fn sanitize(&mut self, notices: &mut Vec<Notice>)
        ensures
            *final(self) == old(self).repaired(),
            final(notices)@ == old(self).notices(old(notices)@),
    {
        sanitize_f64(
            "shooting.shot_on_frame_min_probability",
            &mut self.shot_on_frame_min_probability,
            D0_6,
            D0,
            D1,
            D0_05,
            D0_95,
            notices,
        );
        sanitize_f64(
            "shooting.striker_shot_window_yards",
            &mut self.striker_shot_window_yards,
            D30,
            D1,
            D120,
            D8,
            D55,
            notices,
        );
        sanitize_f64(
            "shooting.shot_block_bailout_max_probability",
            &mut self.shot_block_bailout_max_probability,
            D0_86,
            D0,
            D1,
            D0_1,
            D0_98,
            notices,
        );
        sanitize_f64(
            "shooting.goal_approach_carry_yards",
            &mut self.goal_approach_carry_yards,
            D45,
            D1,
            D120,
            D15,
            D80,
            notices,
        );
        sanitize_f64(
            "shooting.striker_hold_up_min_goal_distance_yards",
            &mut self.striker_hold_up_min_goal_distance_yards,
            D45,
            D1,
            D120,
            D15,
            D80,
            notices,
        );
        sanitize_f64(
            "shooting.shot_trigger_long_range_yards",
            &mut self.shot_trigger_long_range_yards,
            D22,
            D1,
            D40,
            D12,
            D35,
            notices,
        );
        sanitize_f64(
            "shooting.shot_trigger_long_range_min_value",
            &mut self.shot_trigger_long_range_min_value,
            D0_25,
            D0,
            D1,
            D0,
            D0_9,
            notices,
        );
        sanitize_f64(
            "shooting.shot_trigger_volunteer_floor",
            &mut self.shot_trigger_volunteer_floor,
            D0_002,
            D0,
            D1,
            D0,
            D0_5,
            notices,
        );
        sanitize_f64(
            "shooting.shot_foot_weak_foot_execution_damp",
            &mut self.shot_foot_weak_foot_execution_damp,
            D0_88,
            D0,
            D1,
            D0_5,
            D1,
            notices,
        );
    }

    /// The faults of these knobs, in the order of the fields, after the faults `found`.
    pub open spec fn faults(self, prefix: &'static str, found: Seq<Fault>) -> Seq<Fault> {
        let e = found;
        let e = checked(
            e,
            prefix,
            "shot_on_frame_min_probability",
            self.shot_on_frame_min_probability,
            D0,
            D1,
        );
        let e = checked(
            e,
            prefix,
            "striker_shot_window_yards",
            self.striker_shot_window_yards,
            D1,
            D120,
        );
        let e = checked(
            e,
            prefix,
            "shot_block_bailout_max_probability",
            self.shot_block_bailout_max_probability,
            D0,
            D1,
        );
        let e = checked(
            e,
            prefix,
            "goal_approach_carry_yards",
            self.goal_approach_carry_yards,
            D1,
            D120,
        );
        let e = checked(
            e,
            prefix,
            "striker_hold_up_min_goal_distance_yards",
            self.striker_hold_up_min_goal_distance_yards,
            D1,
            D120,
        );
        let e = checked(
            e,
            prefix,
            "shot_trigger_long_range_yards",
            self.shot_trigger_long_range_yards,
            D1,
            D40,
        );
        let e = checked(
            e,
            prefix,
            "shot_trigger_long_range_min_value",
            self.shot_trigger_long_range_min_value,
            D0,
            D1,
        );
        let e = checked(
            e,
            prefix,
            "shot_trigger_volunteer_floor",
            self.shot_trigger_volunteer_floor,
            D0,
            D1,
        );
        let e = checked(
            e,
            prefix,
            "shot_foot_weak_foot_execution_damp",
            self.shot_foot_weak_foot_execution_damp,
            D0,
            D1,
        );
        e
    }

    /// Appends the faults of these knobs to `errors`.
    pub fn validate_strict(&self, prefix: &'static str, errors: &mut Vec<Fault>)
        ensures
            final(errors)@ == self.faults(prefix, old(errors)@),
    {
        validate_f64(
            prefix,
            "shot_on_frame_min_probability",
            self.shot_on_frame_min_probability,
            D0,
            D1,
            errors,
        );
        validate_f64(
            prefix,
            "striker_shot_window_yards",
            self.striker_shot_window_yards,
            D1,
            D120,
            errors,
        );
        validate_f64(
            prefix,
            "shot_block_bailout_max_probability",
            self.shot_block_bailout_max_probability,
            D0,
            D1,
            errors,
        );
        validate_f64(
            prefix,
            "goal_approach_carry_yards",
            self.goal_approach_carry_yards,
            D1,
            D120,
            errors,
        );
        validate_f64(
            prefix,
            "striker_hold_up_min_goal_distance_yards",
            self.striker_hold_up_min_goal_distance_yards,
            D1,
            D120,
            errors,
        );
        validate_f64(
            prefix,
            "shot_trigger_long_range_yards",
            self.shot_trigger_long_range_yards,
            D1,
            D40,
            errors,
        );
        validate_f64(
            prefix,
            "shot_trigger_long_range_min_value",
            self.shot_trigger_long_range_min_value,
            D0,
            D1,
            errors,
        );
        validate_f64(
            prefix,
            "shot_trigger_volunteer_floor",
            self.shot_trigger_volunteer_floor,
            D0,
            D1,
            errors,
        );
        validate_f64(
            prefix,
            "shot_foot_weak_foot_execution_damp",
            self.shot_foot_weak_foot_execution_damp,
            D0,
            D1,
            errors,
        );
    }

    /// What is repaired is in bounds, and what is in bounds is not touched by a repair.
    pub proof fn repair_reaches_bounds(self)
        ensures
            self.repaired().in_hard_bounds(),
            self.in_hard_bounds() ==> self.repaired() == self,
    {
        reveal(within);
        fitted_is_within(self.shot_on_frame_min_probability, D0_6, D0, D1);
        fitted_is_within(self.striker_shot_window_yards, D30, D1, D120);
        fitted_is_within(self.shot_block_bailout_max_probability, D0_86, D0, D1);
        fitted_is_within(self.goal_approach_carry_yards, D45, D1, D120);
        fitted_is_within(self.striker_hold_up_min_goal_distance_yards, D45, D1, D120);
        fitted_is_within(self.shot_trigger_long_range_yards, D22, D1, D40);
        fitted_is_within(self.shot_trigger_long_range_min_value, D0_25, D0, D1);
        fitted_is_within(self.shot_trigger_volunteer_floor, D0_002, D0, D1);
        fitted_is_within(self.shot_foot_weak_foot_execution_damp, D0_88, D0, D1);
    }

    /// The defaults are in bounds.
    pub proof fn defaults_reach_bounds()
        ensures
            Self::defaults().in_hard_bounds(),
    {
        reveal(within);
    }

    /// Validation finds nothing exactly where the knobs are in bounds.
    pub proof fn faults_show_bounds(self, prefix: &'static str, found: Seq<Fault>)
        ensures
            self.faults(prefix, found).len() >= found.len(),
            self.faults(prefix, found).len() == found.len() <==> self.in_hard_bounds(),
            self.in_hard_bounds() ==> self.faults(prefix, found) == found,
    {
        let e = found;
        checked_shows_range(
            e,
            prefix,
            "shot_on_frame_min_probability",
            self.shot_on_frame_min_probability,
            D0,
            D1,
        );
        let e = checked(
            e,
            prefix,
            "shot_on_frame_min_probability",
            self.shot_on_frame_min_probability,
            D0,
            D1,
        );
        checked_shows_range(
            e,
            prefix,
            "striker_shot_window_yards",
            self.striker_shot_window_yards,
            D1,
            D120,
        );
        let e = checked(
            e,
            prefix,
            "striker_shot_window_yards",
            self.striker_shot_window_yards,
            D1,
            D120,
        );
        checked_shows_range(
            e,
            prefix,
            "shot_block_bailout_max_probability",
            self.shot_block_bailout_max_probability,
            D0,
            D1,
        );
        let e = checked(
            e,
            prefix,
            "shot_block_bailout_max_probability",
            self.shot_block_bailout_max_probability,
            D0,
            D1,
        );
        checked_shows_range(
            e,
            prefix,
            "goal_approach_carry_yards",
            self.goal_approach_carry_yards,
            D1,
            D120,
        );
        let e = checked(
            e,
            prefix,
            "goal_approach_carry_yards",
            self.goal_approach_carry_yards,
            D1,
            D120,
        );
        checked_shows_range(
            e,
            prefix,
            "striker_hold_up_min_goal_distance_yards",
            self.striker_hold_up_min_goal_distance_yards,
            D1,
            D120,
        );
        let e = checked(
            e,
            prefix,
            "striker_hold_up_min_goal_distance_yards",
            self.striker_hold_up_min_goal_distance_yards,
            D1,
            D120,
        );
        checked_shows_range(
            e,
            prefix,
            "shot_trigger_long_range_yards",
            self.shot_trigger_long_range_yards,
            D1,
            D40,
        );
        let e = checked(
            e,
            prefix,
            "shot_trigger_long_range_yards",
            self.shot_trigger_long_range_yards,
            D1,
            D40,
        );
        checked_shows_range(
            e,
            prefix,
            "shot_trigger_long_range_min_value",
            self.shot_trigger_long_range_min_value,
            D0,
            D1,
        );
        let e = checked(
            e,
            prefix,
            "shot_trigger_long_range_min_value",
            self.shot_trigger_long_range_min_value,
            D0,
            D1,
        );
        checked_shows_range(
            e,
            prefix,
            "shot_trigger_volunteer_floor",
            self.shot_trigger_volunteer_floor,
            D0,
            D1,
        );
        let e = checked(
            e,
            prefix,
            "shot_trigger_volunteer_floor",
            self.shot_trigger_volunteer_floor,
            D0,
            D1,
        );
        checked_shows_range(
            e,
            prefix,
            "shot_foot_weak_foot_execution_damp",
            self.shot_foot_weak_foot_execution_damp,
            D0,
            D1,
        );
        let e = checked(
            e,
            prefix,
            "shot_foot_weak_foot_execution_damp",
            self.shot_foot_weak_foot_execution_damp,
            D0,
            D1,
        );
    }
}

} // verus!
