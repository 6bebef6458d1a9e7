//! Knobs of the defensive shape and of carrying the ball.
use crate::decimals::{
    D0, D0_2, D0_25, D0_4, D0_5, D0_55, D0_56, D0_6, D0_75, D0_8, D0_85, D1, D1_2, D1_45, D1_5,
    D1_8, D2, D2_2, D2_25, D2_5, D2_75, D3, D3_25, D3_5, D4, D4_2, D4_5, D4_8, D5, D6, D7, D8, D10,
    D12, D15, D16, D20, D22, D25, D30, D40, D45, D80,
};
use crate::number::Real64;
use crate::tunables::{
    Fault, Notice, checked, checked_count, checked_order, checked_shows_range, fitted,
    fitted_count, fitted_is_within, noticed, noticed_count, noticed_order, sanitize_f64,
    sanitize_usize, validate_f64, validate_usize, within,
};
use vstd::prelude::*;

verus! {

/// Defensive line and back-four shape thresholds.
#[derive(Clone, Copy, Debug)]
pub struct DefensiveShapeTunables {
    pub defensive_line_max_into_opp_half_yards: Real64,
    pub back_four_block_width_yards: Real64,
    pub back_four_horizontal_min_gap_yards: Real64,
    pub back_four_horizontal_max_gap_yards: Real64,
    pub wingback_defensive_pinch_target_seconds: Real64,
    pub wingback_defensive_pinch_opponent_half_margin_yards: Real64,
    pub defensive_goal_side_min_yards: Real64,
}

impl Default for DefensiveShapeTunables {
    fn default() -> (r: Self)
        ensures
            r == Self::defaults(),
    {
        DefensiveShapeTunables {
            defensive_line_max_into_opp_half_yards: Real64 { bits: D5 },
            back_four_block_width_yards: Real64 { bits: D22 },
            back_four_horizontal_min_gap_yards: Real64 { bits: D6 },
            back_four_horizontal_max_gap_yards: Real64 { bits: D15 },
            wingback_defensive_pinch_target_seconds: Real64 { bits: D3 },
            wingback_defensive_pinch_opponent_half_margin_yards: Real64 { bits: D8 },
            defensive_goal_side_min_yards: Real64 { bits: D1_5 },
        }
    }
}

impl DefensiveShapeTunables {
    /// The default of every knob.
    pub open spec fn defaults() -> Self {
        DefensiveShapeTunables {
            defensive_line_max_into_opp_half_yards: Real64 { bits: D5 },
            back_four_block_width_yards: Real64 { bits: D22 },
            back_four_horizontal_min_gap_yards: Real64 { bits: D6 },
            back_four_horizontal_max_gap_yards: Real64 { bits: D15 },
            wingback_defensive_pinch_target_seconds: Real64 { bits: D3 },
            wingback_defensive_pinch_opponent_half_margin_yards: Real64 { bits: D8 },
            defensive_goal_side_min_yards: Real64 { bits: D1_5 },
        }
    }

    /// Every knob on its own put inside its hard range.
    pub open spec fn clamped(self) -> Self {
        DefensiveShapeTunables {
            defensive_line_max_into_opp_half_yards: fitted(
                self.defensive_line_max_into_opp_half_yards,
                D5,
                D0,
                D30,
            ),
            back_four_block_width_yards: fitted(self.back_four_block_width_yards, D22, D4, D80),
            back_four_horizontal_min_gap_yards: fitted(
                self.back_four_horizontal_min_gap_yards,
                D6,
                D0_5,
                D20,
            ),
            back_four_horizontal_max_gap_yards: fitted(
                self.back_four_horizontal_max_gap_yards,
                D15,
                D0_5,
                D30,
            ),
            wingback_defensive_pinch_target_seconds: fitted(
                self.wingback_defensive_pinch_target_seconds,
                D3,
                D0,
                D20,
            ),
            wingback_defensive_pinch_opponent_half_margin_yards: fitted(
                self.wingback_defensive_pinch_opponent_half_margin_yards,
                D8,
                D0,
                D40,
            ),
            defensive_goal_side_min_yards: fitted(
                self.defensive_goal_side_min_yards,
                D1_5,
                D0,
                D10,
            ),
        }
    }

    /// What `sanitize` makes of the knobs.
    pub open spec fn repaired(self) -> Self {
        let c = self.clamped();
        let c = if c.back_four_horizontal_max_gap_yards.less(c.back_four_horizontal_min_gap_yards) {
            DefensiveShapeTunables {
                back_four_horizontal_min_gap_yards: c.back_four_horizontal_max_gap_yards,
                back_four_horizontal_max_gap_yards: c.back_four_horizontal_min_gap_yards,
                ..c
            }
        } else {
            c
        };
        c
    }

    /// Every knob is finite and inside its hard range, and paired knobs are in order.
    pub open spec fn in_hard_bounds(self) -> bool {
        &&& within(self.defensive_line_max_into_opp_half_yards, D0, D30)
        &&& within(self.back_four_block_width_yards, D4, D80)
        &&& within(self.back_four_horizontal_min_gap_yards, D0_5, D20)
        &&& within(self.back_four_horizontal_max_gap_yards, D0_5, D30)
        &&& within(self.wingback_defensive_pinch_target_seconds, D0, D20)
        &&& within(self.wingback_defensive_pinch_opponent_half_margin_yards, D0, D40)
        &&& within(self.defensive_goal_side_min_yards, D0, D10)
        &&& !self.back_four_horizontal_max_gap_yards.less(self.back_four_horizontal_min_gap_yards)
    }

    /// What a repair has to say of these knobs, in the order of the fields, after the notices
    /// `found`.
    pub open spec fn notices(self, found: Seq<Notice>) -> Seq<Notice> {
        let n = found;
        let n = noticed(
            n,
            "defensive_shape.defensive_line_max_into_opp_half_yards",
            self.defensive_line_max_into_opp_half_yards,
            D5,
            D0,
            D30,
            D0,
            D12,
        );
        let n = noticed(
            n,
            "defensive_shape.back_four_block_width_yards",
            self.back_four_block_width_yards,
            D22,
            D4,
            D80,
            D12,
            D45,
        );
        let n = noticed(
            n,
            "defensive_shape.back_four_horizontal_min_gap_yards",
            self.back_four_horizontal_min_gap_yards,
            D6,
            D0_5,
            D20,
            D1,
            D6,
        );
        let n = noticed(
            n,
            "defensive_shape.back_four_horizontal_max_gap_yards",
            self.back_four_horizontal_max_gap_yards,
            D15,
            D0_5,
            D30,
            D3,
            D16,
        );
        let n = noticed(
            n,
            "defensive_shape.wingback_defensive_pinch_target_seconds",
            self.wingback_defensive_pinch_target_seconds,
            D3,
            D0,
            D20,
            D0_5,
            D8,
        );
        let n = noticed(
            n,
            "defensive_shape.wingback_defensive_pinch_opponent_half_margin_yards",
            self.wingback_defensive_pinch_opponent_half_margin_yards,
            D8,
            D0,
            D40,
            D2,
            D20,
        );
        let n = noticed(
            n,
            "defensive_shape.defensive_goal_side_min_yards",
            self.defensive_goal_side_min_yards,
            D1_5,
            D0,
            D10,
            D0_5,
            D4,
        );
        let c = self.clamped();
        noticed_order(
            n,
            c.back_four_horizontal_max_gap_yards.less(c.back_four_horizontal_min_gap_yards),
            "defensive_shape back-four min gap exceeded max gap; swapping",
        )
    }

    /// Puts every knob inside its hard range and brings paired knobs into order. Notes every
    /// knob that was moved, or that lies outside its sane range.
    pub fn sanitize(&mut self, notices: &mut Vec<Notice>)
        ensures
            *final(self) == old(self).repaired(),
            final(notices)@ == old(self).notices(old(notices)@),
    {
        sanitize_f64(
            "defensive_shape.defensive_line_max_into_opp_half_yards",
            &mut self.defensive_line_max_into_opp_half_yards,
            D5,
            D0,
            D30,
            D0,
            D12,
            notices,
        );
        sanitize_f64(
            "defensive_shape.back_four_block_width_yards",
            &mut self.back_four_block_width_yards,
            D22,
            D4,
            D80,
            D12,
            D45,
            notices,
        );
        sanitize_f64(
            "defensive_shape.back_four_horizontal_min_gap_yards",
            &mut self.back_four_horizontal_min_gap_yards,
            D6,
            D0_5,
            D20,
            D1,
            D6,
            notices,
        );
        sanitize_f64(
            "defensive_shape.back_four_horizontal_max_gap_yards",
            &mut self.back_four_horizontal_max_gap_yards,
            D15,
            D0_5,
            D30,
            D3,
            D16,
            notices,
        );
        sanitize_f64(
            "defensive_shape.wingback_defensive_pinch_target_seconds",
            &mut self.wingback_defensive_pinch_target_seconds,
            D3,
            D0,
            D20,
            D0_5,
            D8,
            notices,
        );
        sanitize_f64(
            "defensive_shape.wingback_defensive_pinch_opponent_half_margin_yards",
            &mut self.wingback_defensive_pinch_opponent_half_margin_yards,
            D8,
            D0,
            D40,
            D2,
            D20,
            notices,
        );
        sanitize_f64(
            "defensive_shape.defensive_goal_side_min_yards",
            &mut self.defensive_goal_side_min_yards,
            D1_5,
            D0,
            D10,
            D0_5,
            D4,
            notices,
        );
        if self.back_four_horizontal_max_gap_yards.is_below(
            self.back_four_horizontal_min_gap_yards,
        ) {
            notices.push(
                Notice::Reordered {
                    what: "defensive_shape back-four min gap exceeded max gap; swapping",
                },
            );
            let low: Real64 = self.back_four_horizontal_max_gap_yards;
            self.back_four_horizontal_max_gap_yards = self.back_four_horizontal_min_gap_yards;
            self.back_four_horizontal_min_gap_yards = low;
        }
    }

    /// The faults of these knobs, in the order of the fields, after the faults `found`.
    pub open spec fn faults(self, prefix: &'static str, found: Seq<Fault>) -> Seq<Fault> {
        let e = found;
        let e = checked(
            e,
            prefix,
            "defensive_line_max_into_opp_half_yards",
            self.defensive_line_max_into_opp_half_yards,
            D0,
            D30,
        );
        let e = checked(
            e,
            prefix,
            "back_four_block_width_yards",
            self.back_four_block_width_yards,
            D4,
            D80,
        );
        let e = checked(
            e,
            prefix,
            "back_four_horizontal_min_gap_yards",
            self.back_four_horizontal_min_gap_yards,
            D0_5,
            D20,
        );
        let e = checked(
            e,
            prefix,
            "back_four_horizontal_max_gap_yards",
            self.back_four_horizontal_max_gap_yards,
            D0_5,
            D30,
        );
        let e = checked(
            e,
            prefix,
            "wingback_defensive_pinch_target_seconds",
            self.wingback_defensive_pinch_target_seconds,
            D0,
            D20,
        );
        let e = checked(
            e,
            prefix,
            "wingback_defensive_pinch_opponent_half_margin_yards",
            self.wingback_defensive_pinch_opponent_half_margin_yards,
            D0,
            D40,
        );
        let e = checked(
            e,
            prefix,
            "defensive_goal_side_min_yards",
            self.defensive_goal_side_min_yards,
            D0,
            D10,
        );
        let e = checked_order(
            e,
            self.back_four_horizontal_max_gap_yards.less(self.back_four_horizontal_min_gap_yards),
            (
                Fault::Above {
                    prefix,
                    left: "back_four_horizontal_min_gap_yards",
                    right: "back_four_horizontal_max_gap_yards",
                }
            ),
        );
        e
    }

    /// Appends the faults of these knobs to `errors`.
    pub fn validate_strict(&self, prefix: &'static str, errors: &mut Vec<Fault>)
        ensures
            final(errors)@ == self.faults(prefix, old(errors)@),
    {
        validate_f64(
            prefix,
            "defensive_line_max_into_opp_half_yards",
            self.defensive_line_max_into_opp_half_yards,
            D0,
            D30,
            errors,
        );
        validate_f64(
            prefix,
            "back_four_block_width_yards",
            self.back_four_block_width_yards,
            D4,
            D80,
            errors,
        );
        validate_f64(
            prefix,
            "back_four_horizontal_min_gap_yards",
            self.back_four_horizontal_min_gap_yards,
            D0_5,
            D20,
            errors,
        );
        validate_f64(
            prefix,
            "back_four_horizontal_max_gap_yards",
            self.back_four_horizontal_max_gap_yards,
            D0_5,
            D30,
            errors,
        );
        validate_f64(
            prefix,
            "wingback_defensive_pinch_target_seconds",
            self.wingback_defensive_pinch_target_seconds,
            D0,
            D20,
            errors,
        );
        validate_f64(
            prefix,
            "wingback_defensive_pinch_opponent_half_margin_yards",
            self.wingback_defensive_pinch_opponent_half_margin_yards,
            D0,
            D40,
            errors,
        );
        validate_f64(
            prefix,
            "defensive_goal_side_min_yards",
            self.defensive_goal_side_min_yards,
            D0,
            D10,
            errors,
        );
        if self.back_four_horizontal_max_gap_yards.is_below(
            self.back_four_horizontal_min_gap_yards,
        ) {
            errors.push(
                Fault::Above {
                    prefix,
                    left: "back_four_horizontal_min_gap_yards",
                    right: "back_four_horizontal_max_gap_yards",
                },
            );
        }
    }

    /// What is repaired is in bounds, and what is in bounds is not touched by a repair.
    pub proof fn repair_reaches_bounds(self)
        ensures
            self.repaired().in_hard_bounds(),
            self.in_hard_bounds() ==> self.repaired() == self,
    {
        reveal(within);
        fitted_is_within(self.defensive_line_max_into_opp_half_yards, D5, D0, D30);
        fitted_is_within(self.back_four_block_width_yards, D22, D4, D80);
        fitted_is_within(self.back_four_horizontal_min_gap_yards, D6, D0_5, D20);
        fitted_is_within(self.back_four_horizontal_max_gap_yards, D15, D0_5, D30);
        fitted_is_within(self.wingback_defensive_pinch_target_seconds, D3, D0, D20);
        fitted_is_within(self.wingback_defensive_pinch_opponent_half_margin_yards, D8, D0, D40);
        fitted_is_within(self.defensive_goal_side_min_yards, D1_5, D0, D10);
    }

    /// The defaults are in bounds.
    pub proof fn defaults_reach_bounds()
        ensures
            Self::defaults().in_hard_bounds(),
    {
        reveal(within);
    }

    /// Validation finds nothing exactly where the knobs are in bounds.
    pub proof fn faults_show_bounds(self, prefix: &'static str, found: Seq<Fault>)
        ensures
            self.faults(prefix, found).len() >= found.len(),
            self.faults(prefix, found).len() == found.len() <==> self.in_hard_bounds(),
            self.in_hard_bounds() ==> self.faults(prefix, found) == found,
    {
        let e = found;
        checked_shows_range(
            e,
            prefix,
            "defensive_line_max_into_opp_half_yards",
            self.defensive_line_max_into_opp_half_yards,
            D0,
            D30,
        );
        let e = checked(
            e,
            prefix,
            "defensive_line_max_into_opp_half_yards",
            self.defensive_line_max_into_opp_half_yards,
            D0,
            D30,
        );
        checked_shows_range(
            e,
            prefix,
            "back_four_block_width_yards",
            self.back_four_block_width_yards,
            D4,
            D80,
        );
        let e = checked(
            e,
            prefix,
            "back_four_block_width_yards",
            self.back_four_block_width_yards,
            D4,
            D80,
        );
        checked_shows_range(
            e,
            prefix,
            "back_four_horizontal_min_gap_yards",
            self.back_four_horizontal_min_gap_yards,
            D0_5,
            D20,
        );
        let e = checked(
            e,
            prefix,
            "back_four_horizontal_min_gap_yards",
            self.back_four_horizontal_min_gap_yards,
            D0_5,
            D20,
        );
        checked_shows_range(
            e,
            prefix,
            "back_four_horizontal_max_gap_yards",
            self.back_four_horizontal_max_gap_yards,
            D0_5,
            D30,
        );
        let e = checked(
            e,
            prefix,
            "back_four_horizontal_max_gap_yards",
            self.back_four_horizontal_max_gap_yards,
            D0_5,
            D30,
        );
        checked_shows_range(
            e,
            prefix,
            "wingback_defensive_pinch_target_seconds",
            self.wingback_defensive_pinch_target_seconds,
            D0,
            D20,
        );
        let e = checked(
            e,
            prefix,
            "wingback_defensive_pinch_target_seconds",
            self.wingback_defensive_pinch_target_seconds,
            D0,
            D20,
        );
        checked_shows_range(
            e,
            prefix,
            "wingback_defensive_pinch_opponent_half_margin_yards",
            self.wingback_defensive_pinch_opponent_half_margin_yards,
            D0,
            D40,
        );
        let e = checked(
            e,
            prefix,
            "wingback_defensive_pinch_opponent_half_margin_yards",
            self.wingback_defensive_pinch_opponent_half_margin_yards,
            D0,
            D40,
        );
        checked_shows_range(
            e,
            prefix,
            "defensive_goal_side_min_yards",
            self.defensive_goal_side_min_yards,
            D0,
            D10,
        );
        let e = checked(
            e,
            prefix,
            "defensive_goal_side_min_yards",
            self.defensive_goal_side_min_yards,
            D0,
            D10,
        );
    }
}

/// Thresholds that keep a ball carrier rolling instead of stuttering.
#[derive(Clone, Copy, Debug)]
pub struct CarrierKeepRollingTunables {
    pub enabled: bool,
    pub stop_target_yards: Real64,
    pub min_opponent_distance_yards: Real64,
    pub min_space_yards: Real64,
    pub carry_target_yards: Real64,
    pub carry_min_step_yards: Real64,
    pub momentum_yps: Real64,
}

impl Default for CarrierKeepRollingTunables {
    fn default() -> (r: Self)
        ensures
            r == Self::defaults(),
    {
        CarrierKeepRollingTunables {
            enabled: true,
            stop_target_yards: Real64 { bits: D2_75 },
            min_opponent_distance_yards: Real64 { bits: D3 },
            min_space_yards: Real64 { bits: D5 },
            carry_target_yards: Real64 { bits: D4_2 },
            carry_min_step_yards: Real64 { bits: D2_25 },
            momentum_yps: Real64 { bits: D0_6 },
        }
    }
}

impl CarrierKeepRollingTunables {
    /// The default of every knob.
    pub open spec fn defaults() -> Self {
        CarrierKeepRollingTunables {
            enabled: true,
            stop_target_yards: Real64 { bits: D2_75 },
            min_opponent_distance_yards: Real64 { bits: D3 },
            min_space_yards: Real64 { bits: D5 },
            carry_target_yards: Real64 { bits: D4_2 },
            carry_min_step_yards: Real64 { bits: D2_25 },
            momentum_yps: Real64 { bits: D0_6 },
        }
    }

    /// Every knob on its own put inside its hard range.
    pub open spec fn clamped(self) -> Self {
        CarrierKeepRollingTunables {
            stop_target_yards: fitted(self.stop_target_yards, D2_75, D0, D6),
            min_opponent_distance_yards: fitted(self.min_opponent_distance_yards, D3, D0, D15),
            min_space_yards: fitted(self.min_space_yards, D5, D0, D40),
            carry_target_yards: fitted(self.carry_target_yards, D4_2, D0_5, D25),
            carry_min_step_yards: fitted(self.carry_min_step_yards, D2_25, D0, D12),
            momentum_yps: fitted(self.momentum_yps, D0_6, D0, D12),
            ..self
        }
    }

    /// What `sanitize` makes of the knobs.
    pub open spec fn repaired(self) -> Self {
        let c = self.clamped();
        let c = if c.carry_target_yards.less(c.carry_min_step_yards) {
            CarrierKeepRollingTunables { carry_min_step_yards: c.carry_target_yards, ..c }
        } else {
            c
        };
        let c = if c.min_space_yards.less(c.carry_min_step_yards) {
            CarrierKeepRollingTunables { min_space_yards: c.carry_min_step_yards, ..c }
        } else {
            c
        };
        c
    }

    /// Every knob is finite and inside its hard range, and paired knobs are in order.
    pub open spec fn in_hard_bounds(self) -> bool {
        &&& within(self.stop_target_yards, D0, D6)
        &&& within(self.min_opponent_distance_yards, D0, D15)
        &&& within(self.min_space_yards, D0, D40)
        &&& within(self.carry_target_yards, D0_5, D25)
        &&& within(self.carry_min_step_yards, D0, D12)
        &&& within(self.momentum_yps, D0, D12)
        &&& !self.carry_target_yards.less(self.carry_min_step_yards)
        &&& !self.min_space_yards.less(self.carry_min_step_yards)
    }

    /// What a repair has to say of these knobs, in the order of the fields, after the notices
    /// `found`.
    pub open spec fn notices(self, found: Seq<Notice>) -> Seq<Notice> {
        let n = found;
        let n = noticed(
            n,
            "carrier_keep_rolling.stop_target_yards",
            self.stop_target_yards,
            D2_75,
            D0,
            D6,
            D0_5,
            D3_25,
        );
        let n = noticed(
            n,
            "carrier_keep_rolling.min_opponent_distance_yards",
            self.min_opponent_distance_yards,
            D3,
            D0,
            D15,
            D2,
            D6,
        );
        let n = noticed(
            n,
            "carrier_keep_rolling.min_space_yards",
            self.min_space_yards,
            D5,
            D0,
            D40,
            D3,
            D12,
        );
        let n = noticed(
            n,
            "carrier_keep_rolling.carry_target_yards",
            self.carry_target_yards,
            D4_2,
            D0_5,
            D25,
            D2,
            D8,
        );
        let n = noticed(
            n,
            "carrier_keep_rolling.carry_min_step_yards",
            self.carry_min_step_yards,
            D2_25,
            D0,
            D12,
            D1,
            D5,
        );
        let n = noticed(
            n,
            "carrier_keep_rolling.momentum_yps",
            self.momentum_yps,
            D0_6,
            D0,
            D12,
            D0_2,
            D3,
        );
        let c = self.clamped();
        let long_step = c.carry_target_yards.less(c.carry_min_step_yards);
        let n = noticed_order(
            n,
            long_step,
            "carrier_keep_rolling min step exceeded target; clamping min step",
        );
        let step = if long_step {
            c.carry_target_yards
        } else {
            c.carry_min_step_yards
        };
        noticed_order(
            n,
            c.min_space_yards.less(step),
            "carrier_keep_rolling min space below min step; raising min space",
        )
    }

    /// Puts every knob inside its hard range and brings paired knobs into order. Notes every
    /// knob that was moved, or that lies outside its sane range.
    pub fn sanitize(&mut self, notices: &mut Vec<Notice>)
        ensures
            *final(self) == old(self).repaired(),
            final(notices)@ == old(self).notices(old(notices)@),
    {
        sanitize_f64(
            "carrier_keep_rolling.stop_target_yards",
            &mut self.stop_target_yards,
            D2_75,
            D0,
            D6,
            D0_5,
            D3_25,
            notices,
        );
        sanitize_f64(
            "carrier_keep_rolling.min_opponent_distance_yards",
            &mut self.min_opponent_distance_yards,
            D3,
            D0,
            D15,
            D2,
            D6,
            notices,
        );
        sanitize_f64(
            "carrier_keep_rolling.min_space_yards",
            &mut self.min_space_yards,
            D5,
            D0,
            D40,
            D3,
            D12,
            notices,
        );
        sanitize_f64(
            "carrier_keep_rolling.carry_target_yards",
            &mut self.carry_target_yards,
            D4_2,
            D0_5,
            D25,
            D2,
            D8,
            notices,
        );
        sanitize_f64(
            "carrier_keep_rolling.carry_min_step_yards",
            &mut self.carry_min_step_yards,
            D2_25,
            D0,
            D12,
            D1,
            D5,
            notices,
        );
        sanitize_f64(
            "carrier_keep_rolling.momentum_yps",
            &mut self.momentum_yps,
            D0_6,
            D0,
            D12,
            D0_2,
            D3,
            notices,
        );
        if self.carry_target_yards.is_below(self.carry_min_step_yards) {
            notices.push(
                Notice::Reordered {
                    what: "carrier_keep_rolling min step exceeded target; clamping min step",
                },
            );
            self.carry_min_step_yards = self.carry_target_yards;
        }
        if self.min_space_yards.is_below(self.carry_min_step_yards) {
            notices.push(
                Notice::Reordered {
                    what: "carrier_keep_rolling min space below min step; raising min space",
                },
            );
            self.min_space_yards = self.carry_min_step_yards;
        }
    }

    /// The faults of these knobs, in the order of the fields, after the faults `found`.
    pub open spec fn faults(self, prefix: &'static str, found: Seq<Fault>) -> Seq<Fault> {
        let e = found;
        let e = checked(e, prefix, "stop_target_yards", self.stop_target_yards, D0, D6);
        let e = checked(
            e,
            prefix,
            "min_opponent_distance_yards",
            self.min_opponent_distance_yards,
            D0,
            D15,
        );
        let e = checked(e, prefix, "min_space_yards", self.min_space_yards, D0, D40);
        let e = checked(e, prefix, "carry_target_yards", self.carry_target_yards, D0_5, D25);
        let e = checked(e, prefix, "carry_min_step_yards", self.carry_min_step_yards, D0, D12);
        let e = checked(e, prefix, "momentum_yps", self.momentum_yps, D0, D12);
        let e = checked_order(
            e,
            self.carry_target_yards.less(self.carry_min_step_yards),
            (Fault::Above { prefix, left: "carry_min_step_yards", right: "carry_target_yards" }),
        );
        let e = checked_order(
            e,
            self.min_space_yards.less(self.carry_min_step_yards),
            (Fault::Below { prefix, left: "min_space_yards", right: "carry_min_step_yards" }),
        );
        e
    }

    /// Appends the faults of these knobs to `errors`.
    pub fn validate_strict(&self, prefix: &'static str, errors: &mut Vec<Fault>)
        ensures
            final(errors)@ == self.faults(prefix, old(errors)@),
    {
        validate_f64(prefix, "stop_target_yards", self.stop_target_yards, D0, D6, errors);
        validate_f64(
            prefix,
            "min_opponent_distance_yards",
            self.min_opponent_distance_yards,
            D0,
            D15,
            errors,
        );
        validate_f64(prefix, "min_space_yards", self.min_space_yards, D0, D40, errors);
        validate_f64(prefix, "carry_target_yards", self.carry_target_yards, D0_5, D25, errors);
        validate_f64(prefix, "carry_min_step_yards", self.carry_min_step_yards, D0, D12, errors);
        validate_f64(prefix, "momentum_yps", self.momentum_yps, D0, D12, errors);
        if self.carry_target_yards.is_below(self.carry_min_step_yards) {
            errors.push(
                Fault::Above { prefix, left: "carry_min_step_yards", right: "carry_target_yards" },
            );
        }
        if self.min_space_yards.is_below(self.carry_min_step_yards) {
            errors.push(
                Fault::Below { prefix, left: "min_space_yards", right: "carry_min_step_yards" },
            );
        }
    }

    /// What is repaired is in bounds, and what is in bounds is not touched by a repair.
    pub proof fn repair_reaches_bounds(self)
        ensures
            self.repaired().in_hard_bounds(),
            self.in_hard_bounds() ==> self.repaired() == self,
    {
        reveal(within);
        fitted_is_within(self.stop_target_yards, D2_75, D0, D6);
        fitted_is_within(self.min_opponent_distance_yards, D3, D0, D15);
        fitted_is_within(self.min_space_yards, D5, D0, D40);
        fitted_is_within(self.carry_target_yards, D4_2, D0_5, D25);
        fitted_is_within(self.carry_min_step_yards, D2_25, D0, D12);
        fitted_is_within(self.momentum_yps, D0_6, D0, D12);
    }

    /// The defaults are in bounds.
    pub proof fn defaults_reach_bounds()
        ensures
            Self::defaults().in_hard_bounds(),
    {
        reveal(within);
    }

    /// Validation finds nothing exactly where the knobs are in bounds.
    pub proof fn faults_show_bounds(self, prefix: &'static str, found: Seq<Fault>)
        ensures
            self.faults(prefix, found).len() >= found.len(),
            self.faults(prefix, found).len() == found.len() <==> self.in_hard_bounds(),
            self.in_hard_bounds() ==> self.faults(prefix, found) == found,
    {
        let e = found;
        checked_shows_range(e, prefix, "stop_target_yards", self.stop_target_yards, D0, D6);
        let e = checked(e, prefix, "stop_target_yards", self.stop_target_yards, D0, D6);
        checked_shows_range(
            e,
            prefix,
            "min_opponent_distance_yards",
            self.min_opponent_distance_yards,
            D0,
            D15,
        );
        let e = checked(
            e,
            prefix,
            "min_opponent_distance_yards",
            self.min_opponent_distance_yards,
            D0,
            D15,
        );
        checked_shows_range(e, prefix, "min_space_yards", self.min_space_yards, D0, D40);
        let e = checked(e, prefix, "min_space_yards", self.min_space_yards, D0, D40);
        checked_shows_range(e, prefix, "carry_target_yards", self.carry_target_yards, D0_5, D25);
        let e = checked(e, prefix, "carry_target_yards", self.carry_target_yards, D0_5, D25);
        checked_shows_range(e, prefix, "carry_min_step_yards", self.carry_min_step_yards, D0, D12);
        let e = checked(e, prefix, "carry_min_step_yards", self.carry_min_step_yards, D0, D12);
        checked_shows_range(e, prefix, "momentum_yps", self.momentum_yps, D0, D12);
        let e = checked(e, prefix, "momentum_yps", self.momentum_yps, D0, D12);
    }
}

/// Escape-burst thresholds right after the ball was won.
#[derive(Clone, Copy, Debug)]
pub struct FreshPossessionEscapeTunables {
    pub enabled: bool,
    pub fresh_seconds: Real64,
    pub min_pressure: Real64,
    pub crowded_radius_yards: Real64,
    pub crowded_min_opponents: usize,
    pub min_forward_space_yards: Real64,
    pub target_yards: Real64,
    pub corridor_half_width_yards: Real64,
    pub min_cushion_gain_yards: Real64,
    pub min_landing_clearance_yards: Real64,
    pub initial_push_yps: Real64,
    pub decision_floor_max_probability: Real64,
}

impl Default for FreshPossessionEscapeTunables {
    fn default() -> (r: Self)
        ensures
            r == Self::defaults(),
    {
        FreshPossessionEscapeTunables {
            enabled: true,
            fresh_seconds: Real64 { bits: D0_8 },
            min_pressure: Real64 { bits: D0_55 },
            crowded_radius_yards: Real64 { bits: D6 },
            crowded_min_opponents: 2,
            min_forward_space_yards: Real64 { bits: D4 },
            target_yards: Real64 { bits: D4_8 },
            corridor_half_width_yards: Real64 { bits: D3 },
            min_cushion_gain_yards: Real64 { bits: D0_85 },
            min_landing_clearance_yards: Real64 { bits: D2_2 },
            initial_push_yps: Real64 { bits: D1_45 },
            decision_floor_max_probability: Real64 { bits: D0_56 },
        }
    }
}

impl FreshPossessionEscapeTunables {
    /// The default of every knob.
    pub open spec fn defaults() -> Self {
        FreshPossessionEscapeTunables {
            enabled: true,
            fresh_seconds: Real64 { bits: D0_8 },
            min_pressure: Real64 { bits: D0_55 },
            crowded_radius_yards: Real64 { bits: D6 },
            crowded_min_opponents: 2,
            min_forward_space_yards: Real64 { bits: D4 },
            target_yards: Real64 { bits: D4_8 },
            corridor_half_width_yards: Real64 { bits: D3 },
            min_cushion_gain_yards: Real64 { bits: D0_85 },
            min_landing_clearance_yards: Real64 { bits: D2_2 },
            initial_push_yps: Real64 { bits: D1_45 },
            decision_floor_max_probability: Real64 { bits: D0_56 },
        }
    }

    /// Every knob on its own put inside its hard range.
    pub open spec fn clamped(self) -> Self {
        FreshPossessionEscapeTunables {
            fresh_seconds: fitted(self.fresh_seconds, D0_8, D0, D5),
            min_pressure: fitted(self.min_pressure, D0_55, D0, D1),
            crowded_radius_yards: fitted(self.crowded_radius_yards, D6, D0, D20),
            crowded_min_opponents: fitted_count(self.crowded_min_opponents, 0, 8),
            min_forward_space_yards: fitted(self.min_forward_space_yards, D4, D0, D20),
            target_yards: fitted(self.target_yards, D4_8, D0_5, D12),
            corridor_half_width_yards: fitted(self.corridor_half_width_yards, D3, D0_5, D8),
            min_cushion_gain_yards: fitted(self.min_cushion_gain_yards, D0_85, D0, D4),
            min_landing_clearance_yards: fitted(self.min_landing_clearance_yards, D2_2, D0, D8),
            initial_push_yps: fitted(self.initial_push_yps, D1_45, D0, D8),
            decision_floor_max_probability: fitted(
                self.decision_floor_max_probability,
                D0_56,
                D0,
                D1,
            ),
            ..self
        }
    }

    /// What `sanitize` makes of the knobs.
    pub open spec fn repaired(self) -> Self {
        let c = self.clamped();
        let c = if c.target_yards.less(c.min_cushion_gain_yards) {
            FreshPossessionEscapeTunables { target_yards: c.min_cushion_gain_yards, ..c }
        } else {
            c
        };
        c
    }

    /// Every knob is finite and inside its hard range, and paired knobs are in order.
    pub open spec fn in_hard_bounds(self) -> bool {
        &&& within(self.fresh_seconds, D0, D5)
        &&& within(self.min_pressure, D0, D1)
        &&& within(self.crowded_radius_yards, D0, D20)
        &&& 0 <= self.crowded_min_opponents <= 8
        &&& within(self.min_forward_space_yards, D0, D20)
        &&& within(self.target_yards, D0_5, D12)
        &&& within(self.corridor_half_width_yards, D0_5, D8)
        &&& within(self.min_cushion_gain_yards, D0, D4)
        &&& within(self.min_landing_clearance_yards, D0, D8)
        &&& within(self.initial_push_yps, D0, D8)
        &&& within(self.decision_floor_max_probability, D0, D1)
        &&& !self.target_yards.less(self.min_cushion_gain_yards)
    }

    /// What a repair has to say of these knobs, in the order of the fields, after the notices
    /// `found`.
    pub open spec fn notices(self, found: Seq<Notice>) -> Seq<Notice> {
        let n = found;
        let n = noticed(
            n,
            "fresh_possession_escape.fresh_seconds",
            self.fresh_seconds,
            D0_8,
            D0,
            D5,
            D0_2,
            D1_5,
        );
        let n = noticed(
            n,
            "fresh_possession_escape.min_pressure",
            self.min_pressure,
            D0_55,
            D0,
            D1,
            D0_25,
            D0_8,
        );
        let n = noticed(
            n,
            "fresh_possession_escape.crowded_radius_yards",
            self.crowded_radius_yards,
            D6,
            D0,
            D20,
            D3,
            D10,
        );
        let n = noticed_count(
            n,
            "fresh_possession_escape.crowded_min_opponents",
            self.crowded_min_opponents,
            2,
            0,
            8,
            1,
            4,
        );
        let n = noticed(
            n,
            "fresh_possession_escape.min_forward_space_yards",
            self.min_forward_space_yards,
            D4,
            D0,
            D20,
            D2,
            D8,
        );
        let n = noticed(
            n,
            "fresh_possession_escape.target_yards",
            self.target_yards,
            D4_8,
            D0_5,
            D12,
            D2_5,
            D7,
        );
        let n = noticed(
            n,
            "fresh_possession_escape.corridor_half_width_yards",
            self.corridor_half_width_yards,
            D3,
            D0_5,
            D8,
            D1_5,
            D4_5,
        );
        let n = noticed(
            n,
            "fresh_possession_escape.min_cushion_gain_yards",
            self.min_cushion_gain_yards,
            D0_85,
            D0,
            D4,
            D0_4,
            D1_8,
        );
        let n = noticed(
            n,
            "fresh_possession_escape.min_landing_clearance_yards",
            self.min_landing_clearance_yards,
            D2_2,
            D0,
            D8,
            D1_2,
            D4,
        );
        let n = noticed(
            n,
            "fresh_possession_escape.initial_push_yps",
            self.initial_push_yps,
            D1_45,
            D0,
            D8,
            D0_5,
            D3_5,
        );
        let n = noticed(
            n,
            "fresh_possession_escape.decision_floor_max_probability",
            self.decision_floor_max_probability,
            D0_56,
            D0,
            D1,
            D0_2,
            D0_75,
        );
        let c = self.clamped();
        noticed_order(
            n,
            c.target_yards.less(c.min_cushion_gain_yards),
            "fresh_possession_escape target below cushion gain; raising target",
        )
    }

    /// Puts every knob inside its hard range and brings paired knobs into order. Notes every
    /// knob that was moved, or that lies outside its sane range.
    pub fn sanitize(&mut self, notices: &mut Vec<Notice>)
        ensures
            *final(self) == old(self).repaired(),
            final(notices)@ == old(self).notices(old(notices)@),
    {
        sanitize_f64(
            "fresh_possession_escape.fresh_seconds",
            &mut self.fresh_seconds,
            D0_8,
            D0,
            D5,
            D0_2,
            D1_5,
            notices,
        );
        sanitize_f64(
            "fresh_possession_escape.min_pressure",
            &mut self.min_pressure,
            D0_55,
            D0,
            D1,
            D0_25,
            D0_8,
            notices,
        );
        sanitize_f64(
            "fresh_possession_escape.crowded_radius_yards",
            &mut self.crowded_radius_yards,
            D6,
            D0,
            D20,
            D3,
            D10,
            notices,
        );
        sanitize_usize(
            "fresh_possession_escape.crowded_min_opponents",
            &mut self.crowded_min_opponents,
            2,
            0,
            8,
            1,
            4,
            notices,
        );
        sanitize_f64(
            "fresh_possession_escape.min_forward_space_yards",
            &mut self.min_forward_space_yards,
            D4,
            D0,
            D20,
            D2,
            D8,
            notices,
        );
        sanitize_f64(
            "fresh_possession_escape.target_yards",
            &mut self.target_yards,
            D4_8,
            D0_5,
            D12,
            D2_5,
            D7,
            notices,
        );
        sanitize_f64(
            "fresh_possession_escape.corridor_half_width_yards",
            &mut self.corridor_half_width_yards,
            D3,
            D0_5,
            D8,
            D1_5,
            D4_5,
            notices,
        );
        sanitize_f64(
            "fresh_possession_escape.min_cushion_gain_yards",
            &mut self.min_cushion_gain_yards,
            D0_85,
            D0,
            D4,
            D0_4,
            D1_8,
            notices,
        );
        sanitize_f64(
            "fresh_possession_escape.min_landing_clearance_yards",
            &mut self.min_landing_clearance_yards,
            D2_2,
            D0,
            D8,
            D1_2,
            D4,
            notices,
        );
        sanitize_f64(
            "fresh_possession_escape.initial_push_yps",
            &mut self.initial_push_yps,
            D1_45,
            D0,
            D8,
            D0_5,
            D3_5,
            notices,
        );
        sanitize_f64(
            "fresh_possession_escape.decision_floor_max_probability",
            &mut self.decision_floor_max_probability,
            D0_56,
            D0,
            D1,
            D0_2,
            D0_75,
            notices,
        );
        if self.target_yards.is_below(self.min_cushion_gain_yards) {
            notices.push(
                Notice::Reordered {
                    what: "fresh_possession_escape target below cushion gain; raising target",
                },
            );
            self.target_yards = self.min_cushion_gain_yards;
        }
    }

    /// The faults of these knobs, in the order of the fields, after the faults `found`.
    pub open spec fn faults(self, prefix: &'static str, found: Seq<Fault>) -> Seq<Fault> {
        let e = found;
        let e = checked(e, prefix, "fresh_seconds", self.fresh_seconds, D0, D5);
        let e = checked(e, prefix, "min_pressure", self.min_pressure, D0, D1);
        let e = checked(e, prefix, "crowded_radius_yards", self.crowded_radius_yards, D0, D20);
        let e = checked_count(e, prefix, "crowded_min_opponents", self.crowded_min_opponents, 0, 8);
        let e = checked(
            e,
            prefix,
            "min_forward_space_yards",
            self.min_forward_space_yards,
            D0,
            D20,
        );
        let e = checked(e, prefix, "target_yards", self.target_yards, D0_5, D12);
        let e = checked(
            e,
            prefix,
            "corridor_half_width_yards",
            self.corridor_half_width_yards,
            D0_5,
            D8,
        );
        let e = checked(e, prefix, "min_cushion_gain_yards", self.min_cushion_gain_yards, D0, D4);
        let e = checked(
            e,
            prefix,
            "min_landing_clearance_yards",
            self.min_landing_clearance_yards,
            D0,
            D8,
        );
        let e = checked(e, prefix, "initial_push_yps", self.initial_push_yps, D0, D8);
        let e = checked(
            e,
            prefix,
            "decision_floor_max_probability",
            self.decision_floor_max_probability,
            D0,
            D1,
        );
        let e = checked_order(
            e,
            self.target_yards.less(self.min_cushion_gain_yards),
            (Fault::Below { prefix, left: "target_yards", right: "min_cushion_gain_yards" }),
        );
        e
    }

    /// Appends the faults of these knobs to `errors`.
    pub fn validate_strict(&self, prefix: &'static str, errors: &mut Vec<Fault>)
        ensures
            final(errors)@ == self.faults(prefix, old(errors)@),
    {
        validate_f64(prefix, "fresh_seconds", self.fresh_seconds, D0, D5, errors);
        validate_f64(prefix, "min_pressure", self.min_pressure, D0, D1, errors);
        validate_f64(prefix, "crowded_radius_yards", self.crowded_radius_yards, D0, D20, errors);
        validate_usize(prefix, "crowded_min_opponents", self.crowded_min_opponents, 0, 8, errors);
        validate_f64(
            prefix,
            "min_forward_space_yards",
            self.min_forward_space_yards,
            D0,
            D20,
            errors,
        );
        validate_f64(prefix, "target_yards", self.target_yards, D0_5, D12, errors);
        validate_f64(
            prefix,
            "corridor_half_width_yards",
            self.corridor_half_width_yards,
            D0_5,
            D8,
            errors,
        );
        validate_f64(prefix, "min_cushion_gain_yards", self.min_cushion_gain_yards, D0, D4, errors);
        validate_f64(
            prefix,
            "min_landing_clearance_yards",
            self.min_landing_clearance_yards,
            D0,
            D8,
            errors,
        );
        validate_f64(prefix, "initial_push_yps", self.initial_push_yps, D0, D8, errors);
        validate_f64(
            prefix,
            "decision_floor_max_probability",
            self.decision_floor_max_probability,
            D0,
            D1,
            errors,
        );
        if self.target_yards.is_below(self.min_cushion_gain_yards) {
            errors.push(
                Fault::Below { prefix, left: "target_yards", right: "min_cushion_gain_yards" },
            );
        }
    }

    /// What is repaired is in bounds, and what is in bounds is not touched by a repair.
    pub proof fn repair_reaches_bounds(self)
        ensures
            self.repaired().in_hard_bounds(),
            self.in_hard_bounds() ==> self.repaired() == self,
    {
        reveal(within);
        fitted_is_within(self.fresh_seconds, D0_8, D0, D5);
        fitted_is_within(self.min_pressure, D0_55, D0, D1);
        fitted_is_within(self.crowded_radius_yards, D6, D0, D20);
        fitted_is_within(self.min_forward_space_yards, D4, D0, D20);
        fitted_is_within(self.target_yards, D4_8, D0_5, D12);
        fitted_is_within(self.corridor_half_width_yards, D3, D0_5, D8);
        fitted_is_within(self.min_cushion_gain_yards, D0_85, D0, D4);
        fitted_is_within(self.min_landing_clearance_yards, D2_2, D0, D8);
        fitted_is_within(self.initial_push_yps, D1_45, D0, D8);
        fitted_is_within(self.decision_floor_max_probability, D0_56, D0, D1);
    }

    /// The defaults are in bounds.
    pub proof fn defaults_reach_bounds()
        ensures
            Self::defaults().in_hard_bounds(),
    {
        reveal(within);
    }

    /// Validation finds nothing exactly where the knobs are in bounds.
    pub proof fn faults_show_bounds(self, prefix: &'static str, found: Seq<Fault>)
        ensures
            self.faults(prefix, found).len() >= found.len(),
            self.faults(prefix, found).len() == found.len() <==> self.in_hard_bounds(),
            self.in_hard_bounds() ==> self.faults(prefix, found) == found,
    {
        let e = found;
        checked_shows_range(e, prefix, "fresh_seconds", self.fresh_seconds, D0, D5);
        let e = checked(e, prefix, "fresh_seconds", self.fresh_seconds, D0, D5);
        checked_shows_range(e, prefix, "min_pressure", self.min_pressure, D0, D1);
        let e = checked(e, prefix, "min_pressure", self.min_pressure, D0, D1);
        checked_shows_range(e, prefix, "crowded_radius_yards", self.crowded_radius_yards, D0, D20);
        let e = checked(e, prefix, "crowded_radius_yards", self.crowded_radius_yards, D0, D20);
        let e = checked_count(e, prefix, "crowded_min_opponents", self.crowded_min_opponents, 0, 8);
        checked_shows_range(
            e,
            prefix,
            "min_forward_space_yards",
            self.min_forward_space_yards,
            D0,
            D20,
        );
        let e = checked(
            e,
            prefix,
            "min_forward_space_yards",
            self.min_forward_space_yards,
            D0,
            D20,
        );
        checked_shows_range(e, prefix, "target_yards", self.target_yards, D0_5, D12);
        let e = checked(e, prefix, "target_yards", self.target_yards, D0_5, D12);
        checked_shows_range(
            e,
            prefix,
            "corridor_half_width_yards",
            self.corridor_half_width_yards,
            D0_5,
            D8,
        );
        let e = checked(
            e,
            prefix,
            "corridor_half_width_yards",
            self.corridor_half_width_yards,
            D0_5,
            D8,
        );
        checked_shows_range(
            e,
            prefix,
            "min_cushion_gain_yards",
            self.min_cushion_gain_yards,
            D0,
            D4,
        );
        let e = checked(e, prefix, "min_cushion_gain_yards", self.min_cushion_gain_yards, D0, D4);
        checked_shows_range(
            e,
            prefix,
            "min_landing_clearance_yards",
            self.min_landing_clearance_yards,
            D0,
            D8,
        );
        let e = checked(
            e,
            prefix,
            "min_landing_clearance_yards",
            self.min_landing_clearance_yards,
            D0,
            D8,
        );
        checked_shows_range(e, prefix, "initial_push_yps", self.initial_push_yps, D0, D8);
        let e = checked(e, prefix, "initial_push_yps", self.initial_push_yps, D0, D8);
        checked_shows_range(
            e,
            prefix,
            "decision_floor_max_probability",
            self.decision_floor_max_probability,
            D0,
            D1,
        );
        let e = checked(
            e,
            prefix,
            "decision_floor_max_probability",
            self.decision_floor_max_probability,
            D0,
            D1,
        );
    }
}

} // verus!
