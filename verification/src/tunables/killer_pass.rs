//! Knobs of the clipped pass over the back four.
use crate::decimals::{
    D0, D0_05, D0_15, D0_18, D0_22, D0_25, D0_26, D0_34, D0_35, D0_4, D0_45, D0_5, D0_55, D0_65,
    D0_7, D0_72, D0_75, D0_85, D0_9, D1, D1_45, D1_5, D2, D2_5, D3, D4, D4_5, D5, D6, D7, D8, D9,
    D10, D12, D15, D16, D18, D20, D25, D30, D32, D35, D40, D45, D60, D80,
};
use crate::number::Real64;
use crate::tunables::{
    Fault, Notice, checked, checked_order, checked_shows_range, fitted, fitted_is_within, noticed,
    noticed_order, sanitize_f64, validate_f64, within,
};
use vstd::prelude::*;

verus! {

/// The clipped pass over the opposing back four.
#[derive(Clone, Copy, Debug)]
pub struct KillerPassOverTopTunables {
    pub min_distance_yards: Real64,
    pub max_distance_yards: Real64,
    pub target_distance_yards: Real64,
    pub height_yards: Real64,
    pub back_line_margin_yards: Real64,
    pub lateral_offset_yards: Real64,
    pub keeper_avoid_radius_yards: Real64,
    pub lane_fit: Real64,
    pub target_line_slack_yards: Real64,
    pub side_basis_epsilon_yards: Real64,
    pub touchline_margin_yards: Real64,
    pub byline_margin_yards: Real64,
    pub target_lateral_velocity_projection_seconds: Real64,
    pub target_lateral_velocity_cap_yards: Real64,
    pub central_gap_keeper_radius_factor: Real64,
    pub secondary_lateral_offset_factor: Real64,
    pub keeper_avoidance_min_factor: Real64,
    pub fit_distance_weight: Real64,
    pub fit_angle_weight: Real64,
    pub fit_line_weight: Real64,
    pub fit_keeper_weight: Real64,
    pub fit_line_normalizer_yards: Real64,
    pub fit_keeper_normalizer_yards: Real64,
    pub score_bonus_weight: Real64,
}

impl Default for KillerPassOverTopTunables {
    fn default() -> (r: Self)
        ensures
            r == Self::defaults(),
    {
        KillerPassOverTopTunables {
            min_distance_yards: Real64 { bits: D25 },
            max_distance_yards: Real64 { bits: D35 },
            target_distance_yards: Real64 { bits: D30 },
            height_yards: Real64 { bits: D4 },
            back_line_margin_yards: Real64 { bits: D2_5 },
            lateral_offset_yards: Real64 { bits: D4_5 },
            keeper_avoid_radius_yards: Real64 { bits: D5 },
            lane_fit: Real64 { bits: D0_72 },
            target_line_slack_yards: Real64 { bits: D6 },
            side_basis_epsilon_yards: Real64 { bits: D0_75 },
            touchline_margin_yards: Real64 { bits: D3 },
            byline_margin_yards: Real64 { bits: D2 },
            target_lateral_velocity_projection_seconds: Real64 { bits: D0_35 },
            target_lateral_velocity_cap_yards: Real64 { bits: D3 },
            central_gap_keeper_radius_factor: Real64 { bits: D0_55 },
            secondary_lateral_offset_factor: Real64 { bits: D0_45 },
            keeper_avoidance_min_factor: Real64 { bits: D0_7 },
            fit_distance_weight: Real64 { bits: D0_34 },
            fit_angle_weight: Real64 { bits: D0_18 },
            fit_line_weight: Real64 { bits: D0_26 },
            fit_keeper_weight: Real64 { bits: D0_22 },
            fit_line_normalizer_yards: Real64 { bits: D8 },
            fit_keeper_normalizer_yards: Real64 { bits: D10 },
            score_bonus_weight: Real64 { bits: D1_45 },
        }
    }
}

impl KillerPassOverTopTunables {
    /// The default of every knob.
    pub open spec fn defaults() -> Self {
        KillerPassOverTopTunables {
            min_distance_yards: Real64 { bits: D25 },
            max_distance_yards: Real64 { bits: D35 },
            target_distance_yards: Real64 { bits: D30 },
            height_yards: Real64 { bits: D4 },
            back_line_margin_yards: Real64 { bits: D2_5 },
            lateral_offset_yards: Real64 { bits: D4_5 },
            keeper_avoid_radius_yards: Real64 { bits: D5 },
            lane_fit: Real64 { bits: D0_72 },
            target_line_slack_yards: Real64 { bits: D6 },
            side_basis_epsilon_yards: Real64 { bits: D0_75 },
            touchline_margin_yards: Real64 { bits: D3 },
            byline_margin_yards: Real64 { bits: D2 },
            target_lateral_velocity_projection_seconds: Real64 { bits: D0_35 },
            target_lateral_velocity_cap_yards: Real64 { bits: D3 },
            central_gap_keeper_radius_factor: Real64 { bits: D0_55 },
            secondary_lateral_offset_factor: Real64 { bits: D0_45 },
            keeper_avoidance_min_factor: Real64 { bits: D0_7 },
            fit_distance_weight: Real64 { bits: D0_34 },
            fit_angle_weight: Real64 { bits: D0_18 },
            fit_line_weight: Real64 { bits: D0_26 },
            fit_keeper_weight: Real64 { bits: D0_22 },
            fit_line_normalizer_yards: Real64 { bits: D8 },
            fit_keeper_normalizer_yards: Real64 { bits: D10 },
            score_bonus_weight: Real64 { bits: D1_45 },
        }
    }

    /// Every knob on its own put inside its hard range.
    pub open spec fn clamped(self) -> Self {
        KillerPassOverTopTunables {
            min_distance_yards: fitted(self.min_distance_yards, D25, D5, D60),
            max_distance_yards: fitted(self.max_distance_yards, D35, D10, D80),
            target_distance_yards: fitted(self.target_distance_yards, D30, D5, D80),
            height_yards: fitted(self.height_yards, D4, D0_5, D12),
            back_line_margin_yards: fitted(self.back_line_margin_yards, D2_5, D0, D10),
            lateral_offset_yards: fitted(self.lateral_offset_yards, D4_5, D0, D15),
            keeper_avoid_radius_yards: fitted(self.keeper_avoid_radius_yards, D5, D0, D20),
            lane_fit: fitted(self.lane_fit, D0_72, D0, D1),
            target_line_slack_yards: fitted(self.target_line_slack_yards, D6, D0, D20),
            side_basis_epsilon_yards: fitted(self.side_basis_epsilon_yards, D0_75, D0_05, D5),
            touchline_margin_yards: fitted(self.touchline_margin_yards, D3, D0_5, D12),
            byline_margin_yards: fitted(self.byline_margin_yards, D2, D0_5, D12),
            target_lateral_velocity_projection_seconds: fitted(
                self.target_lateral_velocity_projection_seconds,
                D0_35,
                D0,
                D2,
            ),
            target_lateral_velocity_cap_yards: fitted(
                self.target_lateral_velocity_cap_yards,
                D3,
                D0,
                D12,
            ),
            central_gap_keeper_radius_factor: fitted(
                self.central_gap_keeper_radius_factor,
                D0_55,
                D0,
                D2,
            ),
            secondary_lateral_offset_factor: fitted(
                self.secondary_lateral_offset_factor,
                D0_45,
                D0,
                D1,
            ),
            keeper_avoidance_min_factor: fitted(self.keeper_avoidance_min_factor, D0_7, D0, D1),
            fit_distance_weight: fitted(self.fit_distance_weight, D0_34, D0, D1),
            fit_angle_weight: fitted(self.fit_angle_weight, D0_18, D0, D1),
            fit_line_weight: fitted(self.fit_line_weight, D0_26, D0, D1),
            fit_keeper_weight: fitted(self.fit_keeper_weight, D0_22, D0, D1),
            fit_line_normalizer_yards: fitted(self.fit_line_normalizer_yards, D8, D0_5, D40),
            fit_keeper_normalizer_yards: fitted(self.fit_keeper_normalizer_yards, D10, D0_5, D40),
            score_bonus_weight: fitted(self.score_bonus_weight, D1_45, D0, D5),
        }
    }

    /// What `sanitize` makes of the knobs.
    pub open spec fn ordered(self) -> Self {
        let c = self.clamped();
        let c = if c.max_distance_yards.less(c.min_distance_yards) {
            KillerPassOverTopTunables {
                min_distance_yards: c.max_distance_yards,
                max_distance_yards: c.min_distance_yards,
                ..c
            }
        } else {
            c
        };
        if c.target_distance_yards.less(c.min_distance_yards) {
            KillerPassOverTopTunables { target_distance_yards: c.min_distance_yards, ..c }
        } else if c.max_distance_yards.less(c.target_distance_yards) {
            KillerPassOverTopTunables { target_distance_yards: c.max_distance_yards, ..c }
        } else {
            c
        }
    }

    /// What `sanitize` followed by `repair_fit_weights` makes of the knobs.
    pub open spec fn repaired(self, fit_weights_vanish: bool) -> Self {
        self.ordered().with_fit_weights(fit_weights_vanish)
    }

    /// The fit weights, reset to their defaults where they vanish.
    pub open spec fn with_fit_weights(self, fit_weights_vanish: bool) -> Self {
        if fit_weights_vanish {
            KillerPassOverTopTunables {
                fit_distance_weight: Self::defaults().fit_distance_weight,
                fit_angle_weight: Self::defaults().fit_angle_weight,
                fit_line_weight: Self::defaults().fit_line_weight,
                fit_keeper_weight: Self::defaults().fit_keeper_weight,
                ..self
            }
        } else {
            self
        }
    }

    /// Every knob is finite and inside its hard range, and paired knobs are in order.
    pub open spec fn in_hard_bounds(self) -> bool {
        &&& within(self.min_distance_yards, D5, D60)
        &&& within(self.max_distance_yards, D10, D80)
        &&& within(self.target_distance_yards, D5, D80)
        &&& within(self.height_yards, D0_5, D12)
        &&& within(self.back_line_margin_yards, D0, D10)
        &&& within(self.lateral_offset_yards, D0, D15)
        &&& within(self.keeper_avoid_radius_yards, D0, D20)
        &&& within(self.lane_fit, D0, D1)
        &&& within(self.target_line_slack_yards, D0, D20)
        &&& within(self.side_basis_epsilon_yards, D0_05, D5)
        &&& within(self.touchline_margin_yards, D0_5, D12)
        &&& within(self.byline_margin_yards, D0_5, D12)
        &&& within(self.target_lateral_velocity_projection_seconds, D0, D2)
        &&& within(self.target_lateral_velocity_cap_yards, D0, D12)
        &&& within(self.central_gap_keeper_radius_factor, D0, D2)
        &&& within(self.secondary_lateral_offset_factor, D0, D1)
        &&& within(self.keeper_avoidance_min_factor, D0, D1)
        &&& within(self.fit_distance_weight, D0, D1)
        &&& within(self.fit_angle_weight, D0, D1)
        &&& within(self.fit_line_weight, D0, D1)
        &&& within(self.fit_keeper_weight, D0, D1)
        &&& within(self.fit_line_normalizer_yards, D0_5, D40)
        &&& within(self.fit_keeper_normalizer_yards, D0_5, D40)
        &&& within(self.score_bonus_weight, D0, D5)
        &&& !self.max_distance_yards.less(self.min_distance_yards)
        &&& !self.target_distance_yards.less(self.min_distance_yards)
        &&& !self.max_distance_yards.less(self.target_distance_yards)
    }

    /// What a repair has to say of these knobs, in the order of the fields, after the notices
    /// `found`.
    pub open spec fn notices(self, found: Seq<Notice>) -> Seq<Notice> {
        let n = found;
        let n = noticed(
            n,
            "killer_pass_over_top.min_distance_yards",
            self.min_distance_yards,
            D25,
            D5,
            D60,
            D18,
            D32,
        );
        let n = noticed(
            n,
            "killer_pass_over_top.max_distance_yards",
            self.max_distance_yards,
            D35,
            D10,
            D80,
            D30,
            D45,
        );
        let n = noticed(
            n,
            "killer_pass_over_top.target_distance_yards",
            self.target_distance_yards,
            D30,
            D5,
            D80,
            D25,
            D35,
        );
        let n = noticed(
            n,
            "killer_pass_over_top.height_yards",
            self.height_yards,
            D4,
            D0_5,
            D12,
            D3,
            D6,
        );
        let n = noticed(
            n,
            "killer_pass_over_top.back_line_margin_yards",
            self.back_line_margin_yards,
            D2_5,
            D0,
            D10,
            D1_5,
            D5,
        );
        let n = noticed(
            n,
            "killer_pass_over_top.lateral_offset_yards",
            self.lateral_offset_yards,
            D4_5,
            D0,
            D15,
            D2,
            D7,
        );
        let n = noticed(
            n,
            "killer_pass_over_top.keeper_avoid_radius_yards",
            self.keeper_avoid_radius_yards,
            D5,
            D0,
            D20,
            D3,
            D8,
        );
        let n = noticed(
            n,
            "killer_pass_over_top.lane_fit",
            self.lane_fit,
            D0_72,
            D0,
            D1,
            D0_45,
            D0_9,
        );
        let n = noticed(
            n,
            "killer_pass_over_top.target_line_slack_yards",
            self.target_line_slack_yards,
            D6,
            D0,
            D20,
            D3,
            D9,
        );
        let n = noticed(
            n,
            "killer_pass_over_top.side_basis_epsilon_yards",
            self.side_basis_epsilon_yards,
            D0_75,
            D0_05,
            D5,
            D0_25,
            D1_5,
        );
        let n = noticed(
            n,
            "killer_pass_over_top.touchline_margin_yards",
            self.touchline_margin_yards,
            D3,
            D0_5,
            D12,
            D2,
            D5,
        );
        let n = noticed(
            n,
            "killer_pass_over_top.byline_margin_yards",
            self.byline_margin_yards,
            D2,
            D0_5,
            D12,
            D1_5,
            D5,
        );
        let n = noticed(
            n,
            "killer_pass_over_top.target_lateral_velocity_projection_seconds",
            self.target_lateral_velocity_projection_seconds,
            D0_35,
            D0,
            D2,
            D0_15,
            D0_7,
        );
        let n = noticed(
            n,
            "killer_pass_over_top.target_lateral_velocity_cap_yards",
            self.target_lateral_velocity_cap_yards,
            D3,
            D0,
            D12,
            D1,
            D5,
        );
        let n = noticed(
            n,
            "killer_pass_over_top.central_gap_keeper_radius_factor",
            self.central_gap_keeper_radius_factor,
            D0_55,
            D0,
            D2,
            D0_25,
            D0_85,
        );
        let n = noticed(
            n,
            "killer_pass_over_top.secondary_lateral_offset_factor",
            self.secondary_lateral_offset_factor,
            D0_45,
            D0,
            D1,
            D0_25,
            D0_65,
        );
        let n = noticed(
            n,
            "killer_pass_over_top.keeper_avoidance_min_factor",
            self.keeper_avoidance_min_factor,
            D0_7,
            D0,
            D1,
            D0_55,
            D0_85,
        );
        let n = noticed(
            n,
            "killer_pass_over_top.fit_distance_weight",
            self.fit_distance_weight,
            D0_34,
            D0,
            D1,
            D0_05,
            D0_55,
        );
        let n = noticed(
            n,
            "killer_pass_over_top.fit_angle_weight",
            self.fit_angle_weight,
            D0_18,
            D0,
            D1,
            D0_05,
            D0_4,
        );
        let n = noticed(
            n,
            "killer_pass_over_top.fit_line_weight",
            self.fit_line_weight,
            D0_26,
            D0,
            D1,
            D0_05,
            D0_5,
        );
        let n = noticed(
            n,
            "killer_pass_over_top.fit_keeper_weight",
            self.fit_keeper_weight,
            D0_22,
            D0,
            D1,
            D0_05,
            D0_45,
        );
        let n = noticed(
            n,
            "killer_pass_over_top.fit_line_normalizer_yards",
            self.fit_line_normalizer_yards,
            D8,
            D0_5,
            D40,
            D5,
            D16,
        );
        let n = noticed(
            n,
            "killer_pass_over_top.fit_keeper_normalizer_yards",
            self.fit_keeper_normalizer_yards,
            D10,
            D0_5,
            D40,
            D6,
            D18,
        );
        let n = noticed(
            n,
            "killer_pass_over_top.score_bonus_weight",
            self.score_bonus_weight,
            D1_45,
            D0,
            D5,
            D0_5,
            D2_5,
        );
        let c = self.clamped();
        let swapped = c.max_distance_yards.less(c.min_distance_yards);
        let n = noticed_order(
            n,
            swapped,
            "killer_pass_over_top min distance exceeded max; swapping",
        );
        let (low, high) = if swapped {
            (c.max_distance_yards, c.min_distance_yards)
        } else {
            (c.min_distance_yards, c.max_distance_yards)
        };
        noticed_order(
            n,
            c.target_distance_yards.less(low) || high.less(c.target_distance_yards),
            "killer_pass_over_top target distance outside min/max; clamping",
        )
    }

    /// Puts every knob inside its hard range and brings paired knobs into order. Notes every
    /// knob that was moved, or that lies outside its sane range.
    pub fn sanitize(&mut self, notices: &mut Vec<Notice>)
        ensures
            *final(self) == old(self).ordered(),
            final(notices)@ == old(self).notices(old(notices)@),
    {
        sanitize_f64(
            "killer_pass_over_top.min_distance_yards",
            &mut self.min_distance_yards,
            D25,
            D5,
            D60,
            D18,
            D32,
            notices,
        );
        sanitize_f64(
            "killer_pass_over_top.max_distance_yards",
            &mut self.max_distance_yards,
            D35,
            D10,
            D80,
            D30,
            D45,
            notices,
        );
        sanitize_f64(
            "killer_pass_over_top.target_distance_yards",
            &mut self.target_distance_yards,
            D30,
            D5,
            D80,
            D25,
            D35,
            notices,
        );
        sanitize_f64(
            "killer_pass_over_top.height_yards",
            &mut self.height_yards,
            D4,
            D0_5,
            D12,
            D3,
            D6,
            notices,
        );
        sanitize_f64(
            "killer_pass_over_top.back_line_margin_yards",
            &mut self.back_line_margin_yards,
            D2_5,
            D0,
            D10,
            D1_5,
            D5,
            notices,
        );
        sanitize_f64(
            "killer_pass_over_top.lateral_offset_yards",
            &mut self.lateral_offset_yards,
            D4_5,
            D0,
            D15,
            D2,
            D7,
            notices,
        );
        sanitize_f64(
            "killer_pass_over_top.keeper_avoid_radius_yards",
            &mut self.keeper_avoid_radius_yards,
            D5,
            D0,
            D20,
            D3,
            D8,
            notices,
        );
        sanitize_f64(
            "killer_pass_over_top.lane_fit",
            &mut self.lane_fit,
            D0_72,
            D0,
            D1,
            D0_45,
            D0_9,
            notices,
        );
        sanitize_f64(
            "killer_pass_over_top.target_line_slack_yards",
            &mut self.target_line_slack_yards,
            D6,
            D0,
            D20,
            D3,
            D9,
            notices,
        );
        sanitize_f64(
            "killer_pass_over_top.side_basis_epsilon_yards",
            &mut self.side_basis_epsilon_yards,
            D0_75,
            D0_05,
            D5,
            D0_25,
            D1_5,
            notices,
        );
        sanitize_f64(
            "killer_pass_over_top.touchline_margin_yards",
            &mut self.touchline_margin_yards,
            D3,
            D0_5,
            D12,
            D2,
            D5,
            notices,
        );
        sanitize_f64(
            "killer_pass_over_top.byline_margin_yards",
            &mut self.byline_margin_yards,
            D2,
            D0_5,
            D12,
            D1_5,
            D5,
            notices,
        );
        sanitize_f64(
            "killer_pass_over_top.target_lateral_velocity_projection_seconds",
            &mut self.target_lateral_velocity_projection_seconds,
            D0_35,
            D0,
            D2,
            D0_15,
            D0_7,
            notices,
        );
        sanitize_f64(
            "killer_pass_over_top.target_lateral_velocity_cap_yards",
            &mut self.target_lateral_velocity_cap_yards,
            D3,
            D0,
            D12,
            D1,
            D5,
            notices,
        );
        sanitize_f64(
            "killer_pass_over_top.central_gap_keeper_radius_factor",
            &mut self.central_gap_keeper_radius_factor,
            D0_55,
            D0,
            D2,
            D0_25,
            D0_85,
            notices,
        );
        sanitize_f64(
            "killer_pass_over_top.secondary_lateral_offset_factor",
            &mut self.secondary_lateral_offset_factor,
            D0_45,
            D0,
            D1,
            D0_25,
            D0_65,
            notices,
        );
        sanitize_f64(
            "killer_pass_over_top.keeper_avoidance_min_factor",
            &mut self.keeper_avoidance_min_factor,
            D0_7,
            D0,
            D1,
            D0_55,
            D0_85,
            notices,
        );
        sanitize_f64(
            "killer_pass_over_top.fit_distance_weight",
            &mut self.fit_distance_weight,
            D0_34,
            D0,
            D1,
            D0_05,
            D0_55,
            notices,
        );
        sanitize_f64(
            "killer_pass_over_top.fit_angle_weight",
            &mut self.fit_angle_weight,
            D0_18,
            D0,
            D1,
            D0_05,
            D0_4,
            notices,
        );
        sanitize_f64(
            "killer_pass_over_top.fit_line_weight",
            &mut self.fit_line_weight,
            D0_26,
            D0,
            D1,
            D0_05,
            D0_5,
            notices,
        );
        sanitize_f64(
            "killer_pass_over_top.fit_keeper_weight",
            &mut self.fit_keeper_weight,
            D0_22,
            D0,
            D1,
            D0_05,
            D0_45,
            notices,
        );
        sanitize_f64(
            "killer_pass_over_top.fit_line_normalizer_yards",
            &mut self.fit_line_normalizer_yards,
            D8,
            D0_5,
            D40,
            D5,
            D16,
            notices,
        );
        sanitize_f64(
            "killer_pass_over_top.fit_keeper_normalizer_yards",
            &mut self.fit_keeper_normalizer_yards,
            D10,
            D0_5,
            D40,
            D6,
            D18,
            notices,
        );
        sanitize_f64(
            "killer_pass_over_top.score_bonus_weight",
            &mut self.score_bonus_weight,
            D1_45,
            D0,
            D5,
            D0_5,
            D2_5,
            notices,
        );
        if self.max_distance_yards.is_below(self.min_distance_yards) {
            notices.push(
                Notice::Reordered {
                    what: "killer_pass_over_top min distance exceeded max; swapping",
                },
            );
            let low: Real64 = self.max_distance_yards;
            self.max_distance_yards = self.min_distance_yards;
            self.min_distance_yards = low;
        }
        if self.target_distance_yards.is_below(self.min_distance_yards) {
            notices.push(
                Notice::Reordered {
                    what: "killer_pass_over_top target distance outside min/max; clamping",
                },
            );
            self.target_distance_yards = self.min_distance_yards;
        } else if self.max_distance_yards.is_below(self.target_distance_yards) {
            notices.push(
                Notice::Reordered {
                    what: "killer_pass_over_top target distance outside min/max; clamping",
                },
            );
            self.target_distance_yards = self.max_distance_yards;
        }
    }

    /// Resets the four fit weights to their defaults where their sum was found to vanish.
    pub fn repair_fit_weights(&mut self, fit_weights_vanish: bool)
        ensures
            *final(self) == old(self).with_fit_weights(fit_weights_vanish),
    {
        if fit_weights_vanish {
            let default: KillerPassOverTopTunables = KillerPassOverTopTunables::default();
            self.fit_distance_weight = default.fit_distance_weight;
            self.fit_angle_weight = default.fit_angle_weight;
            self.fit_line_weight = default.fit_line_weight;
            self.fit_keeper_weight = default.fit_keeper_weight;
        }
    }

    /// The faults of these knobs, in the order of the fields, after the faults `found`.
    pub open spec fn faults(
        self,
        prefix: &'static str,
        fit_weights_vanish: bool,
        found: Seq<Fault>,
    ) -> Seq<Fault> {
        let e = found;
        let e = checked(e, prefix, "min_distance_yards", self.min_distance_yards, D5, D60);
        let e = checked(e, prefix, "max_distance_yards", self.max_distance_yards, D10, D80);
        let e = checked(e, prefix, "target_distance_yards", self.target_distance_yards, D5, D80);
        let e = checked(e, prefix, "height_yards", self.height_yards, D0_5, D12);
        let e = checked(e, prefix, "back_line_margin_yards", self.back_line_margin_yards, D0, D10);
        let e = checked(e, prefix, "lateral_offset_yards", self.lateral_offset_yards, D0, D15);
        let e = checked(
            e,
            prefix,
            "keeper_avoid_radius_yards",
            self.keeper_avoid_radius_yards,
            D0,
            D20,
        );
        let e = checked(e, prefix, "lane_fit", self.lane_fit, D0, D1);
        let e = checked(
            e,
            prefix,
            "target_line_slack_yards",
            self.target_line_slack_yards,
            D0,
            D20,
        );
        let e = checked(
            e,
            prefix,
            "side_basis_epsilon_yards",
            self.side_basis_epsilon_yards,
            D0_05,
            D5,
        );
        let e = checked(
            e,
            prefix,
            "touchline_margin_yards",
            self.touchline_margin_yards,
            D0_5,
            D12,
        );
        let e = checked(e, prefix, "byline_margin_yards", self.byline_margin_yards, D0_5, D12);
        let e = checked(
            e,
            prefix,
            "target_lateral_velocity_projection_seconds",
            self.target_lateral_velocity_projection_seconds,
            D0,
            D2,
        );
        let e = checked(
            e,
            prefix,
            "target_lateral_velocity_cap_yards",
            self.target_lateral_velocity_cap_yards,
            D0,
            D12,
        );
        let e = checked(
            e,
            prefix,
            "central_gap_keeper_radius_factor",
            self.central_gap_keeper_radius_factor,
            D0,
            D2,
        );
        let e = checked(
            e,
            prefix,
            "secondary_lateral_offset_factor",
            self.secondary_lateral_offset_factor,
            D0,
            D1,
        );
        let e = checked(
            e,
            prefix,
            "keeper_avoidance_min_factor",
            self.keeper_avoidance_min_factor,
            D0,
            D1,
        );
        let e = checked(e, prefix, "fit_distance_weight", self.fit_distance_weight, D0, D1);
        let e = checked(e, prefix, "fit_angle_weight", self.fit_angle_weight, D0, D1);
        let e = checked(e, prefix, "fit_line_weight", self.fit_line_weight, D0, D1);
        let e = checked(e, prefix, "fit_keeper_weight", self.fit_keeper_weight, D0, D1);
        let e = checked(
            e,
            prefix,
            "fit_line_normalizer_yards",
            self.fit_line_normalizer_yards,
            D0_5,
            D40,
        );
        let e = checked(
            e,
            prefix,
            "fit_keeper_normalizer_yards",
            self.fit_keeper_normalizer_yards,
            D0_5,
            D40,
        );
        let e = checked(e, prefix, "score_bonus_weight", self.score_bonus_weight, D0, D5);
        let e = checked_order(
            e,
            self.max_distance_yards.less(self.min_distance_yards),
            (Fault::Above { prefix, left: "min_distance_yards", right: "max_distance_yards" }),
        );
        let e = checked_order(
            e,
            self.target_distance_yards.less(self.min_distance_yards)
                || self.max_distance_yards.less(self.target_distance_yards),
            (Fault::NotBetween {
                prefix,
                field: "target_distance_yards",
                low: "min_distance_yards",
                high: "max_distance_yards",
            }),
        );
        let e = checked_order(
            e,
            fit_weights_vanish,
            (Fault::WeightsVanish { prefix, name: "fit" }),
        );
        e
    }

    /// Appends the faults of these knobs to `errors`.
    pub fn validate_strict(
        &self,
        prefix: &'static str,
        fit_weights_vanish: bool,
        errors: &mut Vec<Fault>,
    )
        ensures
            final(errors)@ == self.faults(prefix, fit_weights_vanish, old(errors)@),
    {
        validate_f64(prefix, "min_distance_yards", self.min_distance_yards, D5, D60, errors);
        validate_f64(prefix, "max_distance_yards", self.max_distance_yards, D10, D80, errors);
        validate_f64(prefix, "target_distance_yards", self.target_distance_yards, D5, D80, errors);
        validate_f64(prefix, "height_yards", self.height_yards, D0_5, D12, errors);
        validate_f64(
            prefix,
            "back_line_margin_yards",
            self.back_line_margin_yards,
            D0,
            D10,
            errors,
        );
        validate_f64(prefix, "lateral_offset_yards", self.lateral_offset_yards, D0, D15, errors);
        validate_f64(
            prefix,
            "keeper_avoid_radius_yards",
            self.keeper_avoid_radius_yards,
            D0,
            D20,
            errors,
        );
        validate_f64(prefix, "lane_fit", self.lane_fit, D0, D1, errors);
        validate_f64(
            prefix,
            "target_line_slack_yards",
            self.target_line_slack_yards,
            D0,
            D20,
            errors,
        );
        validate_f64(
            prefix,
            "side_basis_epsilon_yards",
            self.side_basis_epsilon_yards,
            D0_05,
            D5,
            errors,
        );
        validate_f64(
            prefix,
            "touchline_margin_yards",
            self.touchline_margin_yards,
            D0_5,
            D12,
            errors,
        );
        validate_f64(prefix, "byline_margin_yards", self.byline_margin_yards, D0_5, D12, errors);
        validate_f64(
            prefix,
            "target_lateral_velocity_projection_seconds",
            self.target_lateral_velocity_projection_seconds,
            D0,
            D2,
            errors,
        );
        validate_f64(
            prefix,
            "target_lateral_velocity_cap_yards",
            self.target_lateral_velocity_cap_yards,
            D0,
            D12,
            errors,
        );
        validate_f64(
            prefix,
            "central_gap_keeper_radius_factor",
            self.central_gap_keeper_radius_factor,
            D0,
            D2,
            errors,
        );
        validate_f64(
            prefix,
            "secondary_lateral_offset_factor",
            self.secondary_lateral_offset_factor,
            D0,
            D1,
            errors,
        );
        validate_f64(
            prefix,
            "keeper_avoidance_min_factor",
            self.keeper_avoidance_min_factor,
            D0,
            D1,
            errors,
        );
        validate_f64(prefix, "fit_distance_weight", self.fit_distance_weight, D0, D1, errors);
        validate_f64(prefix, "fit_angle_weight", self.fit_angle_weight, D0, D1, errors);
        validate_f64(prefix, "fit_line_weight", self.fit_line_weight, D0, D1, errors);
        validate_f64(prefix, "fit_keeper_weight", self.fit_keeper_weight, D0, D1, errors);
        validate_f64(
            prefix,
            "fit_line_normalizer_yards",
            self.fit_line_normalizer_yards,
            D0_5,
            D40,
            errors,
        );
        validate_f64(
            prefix,
            "fit_keeper_normalizer_yards",
            self.fit_keeper_normalizer_yards,
            D0_5,
            D40,
            errors,
        );
        validate_f64(prefix, "score_bonus_weight", self.score_bonus_weight, D0, D5, errors);
        if self.max_distance_yards.is_below(self.min_distance_yards) {
            errors.push(
                Fault::Above { prefix, left: "min_distance_yards", right: "max_distance_yards" },
            );
        }
        if self.target_distance_yards.is_below(self.min_distance_yards)
            || self.max_distance_yards.is_below(self.target_distance_yards) {
            errors.push(
                Fault::NotBetween {
                    prefix,
                    field: "target_distance_yards",
                    low: "min_distance_yards",
                    high: "max_distance_yards",
                },
            );
        }
        if fit_weights_vanish {
            errors.push(Fault::WeightsVanish { prefix, name: "fit" });
        }
    }

    /// What is repaired is in bounds, and what is in bounds is not touched by a repair.
    pub proof fn repair_reaches_bounds(self, fit_weights_vanish: bool)
        ensures
            self.repaired(fit_weights_vanish).in_hard_bounds(),
            self.in_hard_bounds() ==> self.repaired(false) == self,
    {
        reveal(within);
        fitted_is_within(self.min_distance_yards, D25, D5, D60);
        fitted_is_within(self.max_distance_yards, D35, D10, D80);
        fitted_is_within(self.target_distance_yards, D30, D5, D80);
        fitted_is_within(self.height_yards, D4, D0_5, D12);
        fitted_is_within(self.back_line_margin_yards, D2_5, D0, D10);
        fitted_is_within(self.lateral_offset_yards, D4_5, D0, D15);
        fitted_is_within(self.keeper_avoid_radius_yards, D5, D0, D20);
        fitted_is_within(self.lane_fit, D0_72, D0, D1);
        fitted_is_within(self.target_line_slack_yards, D6, D0, D20);
        fitted_is_within(self.side_basis_epsilon_yards, D0_75, D0_05, D5);
        fitted_is_within(self.touchline_margin_yards, D3, D0_5, D12);
        fitted_is_within(self.byline_margin_yards, D2, D0_5, D12);
        fitted_is_within(self.target_lateral_velocity_projection_seconds, D0_35, D0, D2);
        fitted_is_within(self.target_lateral_velocity_cap_yards, D3, D0, D12);
        fitted_is_within(self.central_gap_keeper_radius_factor, D0_55, D0, D2);
        fitted_is_within(self.secondary_lateral_offset_factor, D0_45, D0, D1);
        fitted_is_within(self.keeper_avoidance_min_factor, D0_7, D0, D1);
        fitted_is_within(self.fit_distance_weight, D0_34, D0, D1);
        fitted_is_within(self.fit_angle_weight, D0_18, D0, D1);
        fitted_is_within(self.fit_line_weight, D0_26, D0, D1);
        fitted_is_within(self.fit_keeper_weight, D0_22, D0, D1);
        fitted_is_within(self.fit_line_normalizer_yards, D8, D0_5, D40);
        fitted_is_within(self.fit_keeper_normalizer_yards, D10, D0_5, D40);
        fitted_is_within(self.score_bonus_weight, D1_45, D0, D5);
    }

    /// The defaults are in bounds.
    pub proof fn defaults_reach_bounds()
        ensures
            Self::defaults().in_hard_bounds(),
    {
        reveal(within);
    }

    /// Validation finds nothing exactly where the knobs are in bounds and the fit weights do not vanish.
    pub proof fn faults_show_bounds(
        self,
        prefix: &'static str,
        fit_weights_vanish: bool,
        found: Seq<Fault>,
    )
        ensures
            self.faults(prefix, fit_weights_vanish, found).len() >= found.len(),
            self.faults(prefix, fit_weights_vanish, found).len() == found.len() <==> !fit_weights_vanish && self.in_hard_bounds(),
            !fit_weights_vanish && self.in_hard_bounds() ==> self.faults(
                prefix,
                fit_weights_vanish,
                found,
            ) == found,
    {
        let e = found;
        checked_shows_range(e, prefix, "min_distance_yards", self.min_distance_yards, D5, D60);
        let e = checked(e, prefix, "min_distance_yards", self.min_distance_yards, D5, D60);
        checked_shows_range(e, prefix, "max_distance_yards", self.max_distance_yards, D10, D80);
        let e = checked(e, prefix, "max_distance_yards", self.max_distance_yards, D10, D80);
        checked_shows_range(
            e,
            prefix,
            "target_distance_yards",
            self.target_distance_yards,
            D5,
            D80,
        );
        let e = checked(e, prefix, "target_distance_yards", self.target_distance_yards, D5, D80);
        checked_shows_range(e, prefix, "height_yards", self.height_yards, D0_5, D12);
        let e = checked(e, prefix, "height_yards", self.height_yards, D0_5, D12);
        checked_shows_range(
            e,
            prefix,
            "back_line_margin_yards",
            self.back_line_margin_yards,
            D0,
            D10,
        );
        let e = checked(e, prefix, "back_line_margin_yards", self.back_line_margin_yards, D0, D10);
        checked_shows_range(e, prefix, "lateral_offset_yards", self.lateral_offset_yards, D0, D15);
        let e = checked(e, prefix, "lateral_offset_yards", self.lateral_offset_yards, D0, D15);
        checked_shows_range(
            e,
            prefix,
            "keeper_avoid_radius_yards",
            self.keeper_avoid_radius_yards,
            D0,
            D20,
        );
        let e = checked(
            e,
            prefix,
            "keeper_avoid_radius_yards",
            self.keeper_avoid_radius_yards,
            D0,
            D20,
        );
        checked_shows_range(e, prefix, "lane_fit", self.lane_fit, D0, D1);
        let e = checked(e, prefix, "lane_fit", self.lane_fit, D0, D1);
        checked_shows_range(
            e,
            prefix,
            "target_line_slack_yards",
            self.target_line_slack_yards,
            D0,
            D20,
        );
        let e = checked(
            e,
            prefix,
            "target_line_slack_yards",
            self.target_line_slack_yards,
            D0,
            D20,
        );
        checked_shows_range(
            e,
            prefix,
            "side_basis_epsilon_yards",
            self.side_basis_epsilon_yards,
            D0_05,
            D5,
        );
        let e = checked(
            e,
            prefix,
            "side_basis_epsilon_yards",
            self.side_basis_epsilon_yards,
            D0_05,
            D5,
        );
        checked_shows_range(
            e,
            prefix,
            "touchline_margin_yards",
            self.touchline_margin_yards,
            D0_5,
            D12,
        );
        let e = checked(
            e,
            prefix,
            "touchline_margin_yards",
            self.touchline_margin_yards,
            D0_5,
            D12,
        );
        checked_shows_range(e, prefix, "byline_margin_yards", self.byline_margin_yards, D0_5, D12);
        let e = checked(e, prefix, "byline_margin_yards", self.byline_margin_yards, D0_5, D12);
        checked_shows_range(
            e,
            prefix,
            "target_lateral_velocity_projection_seconds",
            self.target_lateral_velocity_projection_seconds,
            D0,
            D2,
        );
        let e = checked(
            e,
            prefix,
            "target_lateral_velocity_projection_seconds",
            self.target_lateral_velocity_projection_seconds,
            D0,
            D2,
        );
        checked_shows_range(
            e,
            prefix,
            "target_lateral_velocity_cap_yards",
            self.target_lateral_velocity_cap_yards,
            D0,
            D12,
        );
        let e = checked(
            e,
            prefix,
            "target_lateral_velocity_cap_yards",
            self.target_lateral_velocity_cap_yards,
            D0,
            D12,
        );
        checked_shows_range(
            e,
            prefix,
            "central_gap_keeper_radius_factor",
            self.central_gap_keeper_radius_factor,
            D0,
            D2,
        );
        let e = checked(
            e,
            prefix,
            "central_gap_keeper_radius_factor",
            self.central_gap_keeper_radius_factor,
            D0,
            D2,
        );
        checked_shows_range(
            e,
            prefix,
            "secondary_lateral_offset_factor",
            self.secondary_lateral_offset_factor,
            D0,
            D1,
        );
        let e = checked(
            e,
            prefix,
            "secondary_lateral_offset_factor",
            self.secondary_lateral_offset_factor,
            D0,
            D1,
        );
        checked_shows_range(
            e,
            prefix,
            "keeper_avoidance_min_factor",
            self.keeper_avoidance_min_factor,
            D0,
            D1,
        );
        let e = checked(
            e,
            prefix,
            "keeper_avoidance_min_factor",
            self.keeper_avoidance_min_factor,
            D0,
            D1,
        );
        checked_shows_range(e, prefix, "fit_distance_weight", self.fit_distance_weight, D0, D1);
        let e = checked(e, prefix, "fit_distance_weight", self.fit_distance_weight, D0, D1);
        checked_shows_range(e, prefix, "fit_angle_weight", self.fit_angle_weight, D0, D1);
        let e = checked(e, prefix, "fit_angle_weight", self.fit_angle_weight, D0, D1);
        checked_shows_range(e, prefix, "fit_line_weight", self.fit_line_weight, D0, D1);
        let e = checked(e, prefix, "fit_line_weight", self.fit_line_weight, D0, D1);
        checked_shows_range(e, prefix, "fit_keeper_weight", self.fit_keeper_weight, D0, D1);
        let e = checked(e, prefix, "fit_keeper_weight", self.fit_keeper_weight, D0, D1);
        checked_shows_range(
            e,
            prefix,
            "fit_line_normalizer_yards",
            self.fit_line_normalizer_yards,
            D0_5,
            D40,
        );
        let e = checked(
            e,
            prefix,
            "fit_line_normalizer_yards",
            self.fit_line_normalizer_yards,
            D0_5,
            D40,
        );
        checked_shows_range(
            e,
            prefix,
            "fit_keeper_normalizer_yards",
            self.fit_keeper_normalizer_yards,
            D0_5,
            D40,
        );
        let e = checked(
            e,
            prefix,
            "fit_keeper_normalizer_yards",
            self.fit_keeper_normalizer_yards,
            D0_5,
            D40,
        );
        checked_shows_range(e, prefix, "score_bonus_weight", self.score_bonus_weight, D0, D5);
        let e = checked(e, prefix, "score_bonus_weight", self.score_bonus_weight, D0, D5);
    }
}

} // verus!
