//! Perception knobs of a ball holder.
use crate::decimals::{
    D0, D0_01, D0_02, D0_05, D0_08, D0_1, D0_12, D0_14, D0_15, D0_2, D0_24, D0_25, D0_35, D0_38,
    D0_42, D0_45, D0_5, D0_52, D0_58, D0_6, D0_62, D0_68, D0_7, D0_75, D0_8, D0_85, D0_88, D0_9,
    D0_95, D0_96, D0_98, D1, D1_5, D1_85, D2, D2_5, D3, D4, D5, D10, D20, D40, D60, D80, D100,
    D140, D160, D240,
};
use crate::number::Real64;
use crate::tunables::{
    Fault, Notice, checked, checked_count, checked_order, checked_shows_range, fitted,
    fitted_count, fitted_is_within, noticed, noticed_count, noticed_order, sanitize_f64,
    sanitize_usize, validate_f64, validate_usize, within,
};
use vstd::prelude::*;

verus! {

/// What a ball holder perceives: head turns, shoulder checks, reaction times.
#[derive(Clone, Copy, Debug)]
pub struct PomdpPerceptionTunables {
    /// Minimum bounded human reaction delay carried in the POMDP observation.
    pub player_reaction_min_seconds: Real64,
    /// Maximum bounded human reaction delay carried in the POMDP observation.
    pub player_reaction_max_seconds: Real64,
    pub ball_holder_core_degrees: Real64,
    pub ball_holder_shoulder_degrees: Real64,
    /// Position confidence inside the core body-facing cone.
    pub ball_holder_core_confidence: Real64,
    /// Position confidence inside shoulder-check range.
    pub ball_holder_shoulder_confidence: Real64,
    /// Base position confidence for side head scans.
    pub ball_holder_side_scan_confidence: Real64,
    /// Base position confidence for rear head scans.
    pub ball_holder_rear_scan_confidence: Real64,
    /// Minimum added perception delay for non-forward head scans.
    pub ball_holder_head_scan_min_seconds: Real64,
    /// Maximum added perception delay for non-forward head scans.
    pub ball_holder_head_scan_max_seconds: Real64,
    /// Amount high-vision players shave from the maximum scan delay.
    pub ball_holder_head_scan_vision_relief_seconds: Real64,
    /// Extra confidence high-vision players add while scanning side/rear lanes.
    pub ball_holder_scan_confidence_vision_bonus: Real64,
    /// Maximum confidence for side/rear head-scan recognition.
    pub ball_holder_scan_confidence_cap: Real64,
    pub ball_holder_head_scan_drift_risk_base: Real64,
    /// Extra drift risk added as the scan delay approaches its maximum.
    pub ball_holder_head_scan_drift_risk_span: Real64,
    pub kalman_point_match_radius_yards: Real64,
    pub kalman_min_history_samples: usize,
    /// Distance treated as a current-position sample rather than a prediction.
    pub kalman_current_sample_epsilon_yards: Real64,
    pub kalman_base_sigma_yards: Real64,
    /// Additional uncertainty per yard-per-second of target speed.
    pub kalman_speed_sigma_per_yps: Real64,
    pub kalman_velocity_disagreement_sigma_yards: Real64,
    pub kalman_visible_max_confidence: Real64,
    /// Confidence cap for forward-but-not-currently-visible positions.
    pub kalman_front_max_confidence: Real64,
    /// Confidence cap for generally occluded positions.
    pub kalman_occluded_max_confidence: Real64,
    /// Confidence cap for ball-holder side/rear scanned but occluded positions.
    pub kalman_ball_holder_occluded_max_confidence: Real64,
}

impl Default for PomdpPerceptionTunables {
    fn default() -> (r: Self)
        ensures
            r == Self::defaults(),
    {
        PomdpPerceptionTunables {
            player_reaction_min_seconds: Real64 { bits: D0_1 },
            player_reaction_max_seconds: Real64 { bits: D0_25 },
            ball_holder_core_degrees: Real64 { bits: D100 },
            ball_holder_shoulder_degrees: Real64 { bits: D40 },
            ball_holder_core_confidence: Real64 { bits: D0_9 },
            ball_holder_shoulder_confidence: Real64 { bits: D0_7 },
            ball_holder_side_scan_confidence: Real64 { bits: D0_52 },
            ball_holder_rear_scan_confidence: Real64 { bits: D0_38 },
            ball_holder_head_scan_min_seconds: Real64 { bits: D0_75 },
            ball_holder_head_scan_max_seconds: Real64 { bits: D1_85 },
            ball_holder_head_scan_vision_relief_seconds: Real64 { bits: D0_35 },
            ball_holder_scan_confidence_vision_bonus: Real64 { bits: D0_08 },
            ball_holder_scan_confidence_cap: Real64 { bits: D0_62 },
            ball_holder_head_scan_drift_risk_base: Real64 { bits: D0_24 },
            ball_holder_head_scan_drift_risk_span: Real64 { bits: D0_42 },
            kalman_point_match_radius_yards: Real64 { bits: D0_35 },
            kalman_min_history_samples: 2,
            kalman_current_sample_epsilon_yards: Real64 { bits: D0_15 },
            kalman_base_sigma_yards: Real64 { bits: D0_85 },
            kalman_speed_sigma_per_yps: Real64 { bits: D0_1 },
            kalman_velocity_disagreement_sigma_yards: Real64 { bits: D0_14 },
            kalman_visible_max_confidence: Real64 { bits: D0_96 },
            kalman_front_max_confidence: Real64 { bits: D0_88 },
            kalman_occluded_max_confidence: Real64 { bits: D0_68 },
            kalman_ball_holder_occluded_max_confidence: Real64 { bits: D0_58 },
        }
    }
}

impl PomdpPerceptionTunables {
    /// The default of every knob.
    pub open spec fn defaults() -> Self {
        PomdpPerceptionTunables {
            player_reaction_min_seconds: Real64 { bits: D0_1 },
            player_reaction_max_seconds: Real64 { bits: D0_25 },
            ball_holder_core_degrees: Real64 { bits: D100 },
            ball_holder_shoulder_degrees: Real64 { bits: D40 },
            ball_holder_core_confidence: Real64 { bits: D0_9 },
            ball_holder_shoulder_confidence: Real64 { bits: D0_7 },
            ball_holder_side_scan_confidence: Real64 { bits: D0_52 },
            ball_holder_rear_scan_confidence: Real64 { bits: D0_38 },
            ball_holder_head_scan_min_seconds: Real64 { bits: D0_75 },
            ball_holder_head_scan_max_seconds: Real64 { bits: D1_85 },
            ball_holder_head_scan_vision_relief_seconds: Real64 { bits: D0_35 },
            ball_holder_scan_confidence_vision_bonus: Real64 { bits: D0_08 },
            ball_holder_scan_confidence_cap: Real64 { bits: D0_62 },
            ball_holder_head_scan_drift_risk_base: Real64 { bits: D0_24 },
            ball_holder_head_scan_drift_risk_span: Real64 { bits: D0_42 },
            kalman_point_match_radius_yards: Real64 { bits: D0_35 },
            kalman_min_history_samples: 2,
            kalman_current_sample_epsilon_yards: Real64 { bits: D0_15 },
            kalman_base_sigma_yards: Real64 { bits: D0_85 },
            kalman_speed_sigma_per_yps: Real64 { bits: D0_1 },
            kalman_velocity_disagreement_sigma_yards: Real64 { bits: D0_14 },
            kalman_visible_max_confidence: Real64 { bits: D0_96 },
            kalman_front_max_confidence: Real64 { bits: D0_88 },
            kalman_occluded_max_confidence: Real64 { bits: D0_68 },
            kalman_ball_holder_occluded_max_confidence: Real64 { bits: D0_58 },
        }
    }

    /// Every knob on its own put inside its hard range.
    pub open spec fn clamped(self) -> Self {
        PomdpPerceptionTunables {
            player_reaction_min_seconds: fitted(self.player_reaction_min_seconds, D0_1, D0, D1),
            player_reaction_max_seconds: fitted(self.player_reaction_max_seconds, D0_25, D0, D1),
            ball_holder_core_degrees: fitted(self.ball_holder_core_degrees, D100, D1, D240),
            ball_holder_shoulder_degrees: fitted(self.ball_holder_shoulder_degrees, D40, D0, D140),
            ball_holder_core_confidence: fitted(self.ball_holder_core_confidence, D0_9, D0, D1),
            ball_holder_shoulder_confidence: fitted(
                self.ball_holder_shoulder_confidence,
                D0_7,
                D0,
                D1,
            ),
            ball_holder_side_scan_confidence: fitted(
                self.ball_holder_side_scan_confidence,
                D0_52,
                D0,
                D1,
            ),
            ball_holder_rear_scan_confidence: fitted(
                self.ball_holder_rear_scan_confidence,
                D0_38,
                D0,
                D1,
            ),
            ball_holder_head_scan_min_seconds: fitted(
                self.ball_holder_head_scan_min_seconds,
                D0_75,
                D0,
                D3,
            ),
            ball_holder_head_scan_max_seconds: fitted(
                self.ball_holder_head_scan_max_seconds,
                D1_85,
                D0,
                D4,
            ),
            ball_holder_head_scan_vision_relief_seconds: fitted(
                self.ball_holder_head_scan_vision_relief_seconds,
                D0_35,
                D0,
                D2,
            ),
            ball_holder_scan_confidence_vision_bonus: fitted(
                self.ball_holder_scan_confidence_vision_bonus,
                D0_08,
                D0,
                D0_25,
            ),
            ball_holder_scan_confidence_cap: fitted(
                self.ball_holder_scan_confidence_cap,
                D0_62,
                D0,
                D1,
            ),
            ball_holder_head_scan_drift_risk_base: fitted(
                self.ball_holder_head_scan_drift_risk_base,
                D0_24,
                D0,
                D1,
            ),
            ball_holder_head_scan_drift_risk_span: fitted(
                self.ball_holder_head_scan_drift_risk_span,
                D0_42,
                D0,
                D1,
            ),
            kalman_point_match_radius_yards: fitted(
                self.kalman_point_match_radius_yards,
                D0_35,
                D0,
                D5,
            ),
            kalman_min_history_samples: fitted_count(self.kalman_min_history_samples, 1, 10),
            kalman_current_sample_epsilon_yards: fitted(
                self.kalman_current_sample_epsilon_yards,
                D0_15,
                D0,
                D2,
            ),
            kalman_base_sigma_yards: fitted(self.kalman_base_sigma_yards, D0_85, D0_01, D10),
            kalman_speed_sigma_per_yps: fitted(self.kalman_speed_sigma_per_yps, D0_1, D0, D2),
            kalman_velocity_disagreement_sigma_yards: fitted(
                self.kalman_velocity_disagreement_sigma_yards,
                D0_14,
                D0,
                D2,
            ),
            kalman_visible_max_confidence: fitted(
                self.kalman_visible_max_confidence,
                D0_96,
                D0,
                D1,
            ),
            kalman_front_max_confidence: fitted(self.kalman_front_max_confidence, D0_88, D0, D1),
            kalman_occluded_max_confidence: fitted(
                self.kalman_occluded_max_confidence,
                D0_68,
                D0,
                D1,
            ),
            kalman_ball_holder_occluded_max_confidence: fitted(
                self.kalman_ball_holder_occluded_max_confidence,
                D0_58,
                D0,
                D1,
            ),
        }
    }

    /// What `sanitize` makes of the knobs.
    pub open spec fn repaired(self) -> Self {
        let c = self.clamped();
        let c = if c.player_reaction_max_seconds.less(c.player_reaction_min_seconds) {
            PomdpPerceptionTunables {
                player_reaction_max_seconds: c.player_reaction_min_seconds,
                ..c
            }
        } else {
            c
        };
        let c = if c.ball_holder_head_scan_max_seconds.less(c.ball_holder_head_scan_min_seconds) {
            PomdpPerceptionTunables {
                ball_holder_head_scan_max_seconds: c.ball_holder_head_scan_min_seconds,
                ..c
            }
        } else {
            c
        };
        c
    }

    /// Every knob is finite and inside its hard range, and paired knobs are in order.
    pub open spec fn in_hard_bounds(self) -> bool {
        &&& within(self.player_reaction_min_seconds, D0, D1)
        &&& within(self.player_reaction_max_seconds, D0, D1)
        &&& within(self.ball_holder_core_degrees, D1, D240)
        &&& within(self.ball_holder_shoulder_degrees, D0, D140)
        &&& within(self.ball_holder_core_confidence, D0, D1)
        &&& within(self.ball_holder_shoulder_confidence, D0, D1)
        &&& within(self.ball_holder_side_scan_confidence, D0, D1)
        &&& within(self.ball_holder_rear_scan_confidence, D0, D1)
        &&& within(self.ball_holder_head_scan_min_seconds, D0, D3)
        &&& within(self.ball_holder_head_scan_max_seconds, D0, D4)
        &&& within(self.ball_holder_head_scan_vision_relief_seconds, D0, D2)
        &&& within(self.ball_holder_scan_confidence_vision_bonus, D0, D0_25)
        &&& within(self.ball_holder_scan_confidence_cap, D0, D1)
        &&& within(self.ball_holder_head_scan_drift_risk_base, D0, D1)
        &&& within(self.ball_holder_head_scan_drift_risk_span, D0, D1)
        &&& within(self.kalman_point_match_radius_yards, D0, D5)
        &&& 1 <= self.kalman_min_history_samples <= 10
        &&& within(self.kalman_current_sample_epsilon_yards, D0, D2)
        &&& within(self.kalman_base_sigma_yards, D0_01, D10)
        &&& within(self.kalman_speed_sigma_per_yps, D0, D2)
        &&& within(self.kalman_velocity_disagreement_sigma_yards, D0, D2)
        &&& within(self.kalman_visible_max_confidence, D0, D1)
        &&& within(self.kalman_front_max_confidence, D0, D1)
        &&& within(self.kalman_occluded_max_confidence, D0, D1)
        &&& within(self.kalman_ball_holder_occluded_max_confidence, D0, D1)
        &&& !self.player_reaction_max_seconds.less(self.player_reaction_min_seconds)
        &&& !self.ball_holder_head_scan_max_seconds.less(self.ball_holder_head_scan_min_seconds)
    }

    /// What a repair has to say of these knobs, in the order of the fields, after the notices
    /// `found`.
    pub open spec fn notices(self, found: Seq<Notice>) -> Seq<Notice> {
        let n = found;
        let n = noticed(
            n,
            "pomdp_perception.player_reaction_min_seconds",
            self.player_reaction_min_seconds,
            D0_1,
            D0,
            D1,
            D0_05,
            D0_25,
        );
        let n = noticed(
            n,
            "pomdp_perception.player_reaction_max_seconds",
            self.player_reaction_max_seconds,
            D0_25,
            D0,
            D1,
            D0_12,
            D0_5,
        );
        let n = noticed(
            n,
            "pomdp_perception.ball_holder_core_degrees",
            self.ball_holder_core_degrees,
            D100,
            D1,
            D240,
            D60,
            D160,
        );
        let n = noticed(
            n,
            "pomdp_perception.ball_holder_shoulder_degrees",
            self.ball_holder_shoulder_degrees,
            D40,
            D0,
            D140,
            D20,
            D80,
        );
        let n = noticed(
            n,
            "pomdp_perception.ball_holder_core_confidence",
            self.ball_holder_core_confidence,
            D0_9,
            D0,
            D1,
            D0_5,
            D1,
        );
        let n = noticed(
            n,
            "pomdp_perception.ball_holder_shoulder_confidence",
            self.ball_holder_shoulder_confidence,
            D0_7,
            D0,
            D1,
            D0_35,
            D0_95,
        );
        let n = noticed(
            n,
            "pomdp_perception.ball_holder_side_scan_confidence",
            self.ball_holder_side_scan_confidence,
            D0_52,
            D0,
            D1,
            D0_05,
            D0_85,
        );
        let n = noticed(
            n,
            "pomdp_perception.ball_holder_rear_scan_confidence",
            self.ball_holder_rear_scan_confidence,
            D0_38,
            D0,
            D1,
            D0_05,
            D0_85,
        );
        let n = noticed(
            n,
            "pomdp_perception.ball_holder_head_scan_min_seconds",
            self.ball_holder_head_scan_min_seconds,
            D0_75,
            D0,
            D3,
            D0_25,
            D1_5,
        );
        let n = noticed(
            n,
            "pomdp_perception.ball_holder_head_scan_max_seconds",
            self.ball_holder_head_scan_max_seconds,
            D1_85,
            D0,
            D4,
            D1,
            D2_5,
        );
        let n = noticed(
            n,
            "pomdp_perception.ball_holder_head_scan_vision_relief_seconds",
            self.ball_holder_head_scan_vision_relief_seconds,
            D0_35,
            D0,
            D2,
            D0,
            D0_8,
        );
        let n = noticed(
            n,
            "pomdp_perception.ball_holder_scan_confidence_vision_bonus",
            self.ball_holder_scan_confidence_vision_bonus,
            D0_08,
            D0,
            D0_25,
            D0,
            D0_12,
        );
        let n = noticed(
            n,
            "pomdp_perception.ball_holder_scan_confidence_cap",
            self.ball_holder_scan_confidence_cap,
            D0_62,
            D0,
            D1,
            D0_45,
            D0_8,
        );
        let n = noticed(
            n,
            "pomdp_perception.ball_holder_head_scan_drift_risk_base",
            self.ball_holder_head_scan_drift_risk_base,
            D0_24,
            D0,
            D1,
            D0,
            D0_5,
        );
        let n = noticed(
            n,
            "pomdp_perception.ball_holder_head_scan_drift_risk_span",
            self.ball_holder_head_scan_drift_risk_span,
            D0_42,
            D0,
            D1,
            D0_1,
            D0_75,
        );
        let n = noticed(
            n,
            "pomdp_perception.kalman_point_match_radius_yards",
            self.kalman_point_match_radius_yards,
            D0_35,
            D0,
            D5,
            D0_05,
            D1,
        );
        let n = noticed_count(
            n,
            "pomdp_perception.kalman_min_history_samples",
            self.kalman_min_history_samples,
            2,
            1,
            10,
            2,
            4,
        );
        let n = noticed(
            n,
            "pomdp_perception.kalman_current_sample_epsilon_yards",
            self.kalman_current_sample_epsilon_yards,
            D0_15,
            D0,
            D2,
            D0_02,
            D0_5,
        );
        let n = noticed(
            n,
            "pomdp_perception.kalman_base_sigma_yards",
            self.kalman_base_sigma_yards,
            D0_85,
            D0_01,
            D10,
            D0_2,
            D2_5,
        );
        let n = noticed(
            n,
            "pomdp_perception.kalman_speed_sigma_per_yps",
            self.kalman_speed_sigma_per_yps,
            D0_1,
            D0,
            D2,
            D0,
            D0_5,
        );
        let n = noticed(
            n,
            "pomdp_perception.kalman_velocity_disagreement_sigma_yards",
            self.kalman_velocity_disagreement_sigma_yards,
            D0_14,
            D0,
            D2,
            D0,
            D0_5,
        );
        let n = noticed(
            n,
            "pomdp_perception.kalman_visible_max_confidence",
            self.kalman_visible_max_confidence,
            D0_96,
            D0,
            D1,
            D0_75,
            D1,
        );
        let n = noticed(
            n,
            "pomdp_perception.kalman_front_max_confidence",
            self.kalman_front_max_confidence,
            D0_88,
            D0,
            D1,
            D0_6,
            D0_98,
        );
        let n = noticed(
            n,
            "pomdp_perception.kalman_occluded_max_confidence",
            self.kalman_occluded_max_confidence,
            D0_68,
            D0,
            D1,
            D0_35,
            D0_85,
        );
        let n = noticed(
            n,
            "pomdp_perception.kalman_ball_holder_occluded_max_confidence",
            self.kalman_ball_holder_occluded_max_confidence,
            D0_58,
            D0,
            D1,
            D0_25,
            D0_8,
        );
        let c = self.clamped();
        let n = noticed_order(
            n,
            c.player_reaction_max_seconds.less(c.player_reaction_min_seconds),
            "pomdp_perception reaction min seconds exceeded max seconds; raising max",
        );
        noticed_order(
            n,
            c.ball_holder_head_scan_max_seconds.less(c.ball_holder_head_scan_min_seconds),
            "pomdp_perception head-scan min seconds exceeded max seconds; raising max",
        )
    }

    /// Puts every knob inside its hard range and brings paired knobs into order. Notes every
    /// knob that was moved, or that lies outside its sane range.
    pub fn sanitize(&mut self, notices: &mut Vec<Notice>)
        ensures
            *final(self) == old(self).repaired(),
            final(notices)@ == old(self).notices(old(notices)@),
    {
        sanitize_f64(
            "pomdp_perception.player_reaction_min_seconds",
            &mut self.player_reaction_min_seconds,
            D0_1,
            D0,
            D1,
            D0_05,
            D0_25,
            notices,
        );
        sanitize_f64(
            "pomdp_perception.player_reaction_max_seconds",
            &mut self.player_reaction_max_seconds,
            D0_25,
            D0,
            D1,
            D0_12,
            D0_5,
            notices,
        );
        sanitize_f64(
            "pomdp_perception.ball_holder_core_degrees",
            &mut self.ball_holder_core_degrees,
            D100,
            D1,
            D240,
            D60,
            D160,
            notices,
        );
        sanitize_f64(
            "pomdp_perception.ball_holder_shoulder_degrees",
            &mut self.ball_holder_shoulder_degrees,
            D40,
            D0,
            D140,
            D20,
            D80,
            notices,
        );
        sanitize_f64(
            "pomdp_perception.ball_holder_core_confidence",
            &mut self.ball_holder_core_confidence,
            D0_9,
            D0,
            D1,
            D0_5,
            D1,
            notices,
        );
        sanitize_f64(
            "pomdp_perception.ball_holder_shoulder_confidence",
            &mut self.ball_holder_shoulder_confidence,
            D0_7,
            D0,
            D1,
            D0_35,
            D0_95,
            notices,
        );
        sanitize_f64(
            "pomdp_perception.ball_holder_side_scan_confidence",
            &mut self.ball_holder_side_scan_confidence,
            D0_52,
            D0,
            D1,
            D0_05,
            D0_85,
            notices,
        );
        sanitize_f64(
            "pomdp_perception.ball_holder_rear_scan_confidence",
            &mut self.ball_holder_rear_scan_confidence,
            D0_38,
            D0,
            D1,
            D0_05,
            D0_85,
            notices,
        );
        sanitize_f64(
            "pomdp_perception.ball_holder_head_scan_min_seconds",
            &mut self.ball_holder_head_scan_min_seconds,
            D0_75,
            D0,
            D3,
            D0_25,
            D1_5,
            notices,
        );
        sanitize_f64(
            "pomdp_perception.ball_holder_head_scan_max_seconds",
            &mut self.ball_holder_head_scan_max_seconds,
            D1_85,
            D0,
            D4,
            D1,
            D2_5,
            notices,
        );
        sanitize_f64(
            "pomdp_perception.ball_holder_head_scan_vision_relief_seconds",
            &mut self.ball_holder_head_scan_vision_relief_seconds,
            D0_35,
            D0,
            D2,
            D0,
            D0_8,
            notices,
        );
        sanitize_f64(
            "pomdp_perception.ball_holder_scan_confidence_vision_bonus",
            &mut self.ball_holder_scan_confidence_vision_bonus,
            D0_08,
            D0,
            D0_25,
            D0,
            D0_12,
            notices,
        );
        sanitize_f64(
            "pomdp_perception.ball_holder_scan_confidence_cap",
            &mut self.ball_holder_scan_confidence_cap,
            D0_62,
            D0,
            D1,
            D0_45,
            D0_8,
            notices,
        );
        sanitize_f64(
            "pomdp_perception.ball_holder_head_scan_drift_risk_base",
            &mut self.ball_holder_head_scan_drift_risk_base,
            D0_24,
            D0,
            D1,
            D0,
            D0_5,
            notices,
        );
        sanitize_f64(
            "pomdp_perception.ball_holder_head_scan_drift_risk_span",
            &mut self.ball_holder_head_scan_drift_risk_span,
            D0_42,
            D0,
            D1,
            D0_1,
            D0_75,
            notices,
        );
        sanitize_f64(
            "pomdp_perception.kalman_point_match_radius_yards",
            &mut self.kalman_point_match_radius_yards,
            D0_35,
            D0,
            D5,
            D0_05,
            D1,
            notices,
        );
        sanitize_usize(
            "pomdp_perception.kalman_min_history_samples",
            &mut self.kalman_min_history_samples,
            2,
            1,
            10,
            2,
            4,
            notices,
        );
        sanitize_f64(
            "pomdp_perception.kalman_current_sample_epsilon_yards",
            &mut self.kalman_current_sample_epsilon_yards,
            D0_15,
            D0,
            D2,
            D0_02,
            D0_5,
            notices,
        );
        sanitize_f64(
            "pomdp_perception.kalman_base_sigma_yards",
            &mut self.kalman_base_sigma_yards,
            D0_85,
            D0_01,
            D10,
            D0_2,
            D2_5,
            notices,
        );
        sanitize_f64(
            "pomdp_perception.kalman_speed_sigma_per_yps",
            &mut self.kalman_speed_sigma_per_yps,
            D0_1,
            D0,
            D2,
            D0,
            D0_5,
            notices,
        );
        sanitize_f64(
            "pomdp_perception.kalman_velocity_disagreement_sigma_yards",
            &mut self.kalman_velocity_disagreement_sigma_yards,
            D0_14,
            D0,
            D2,
            D0,
            D0_5,
            notices,
        );
        sanitize_f64(
            "pomdp_perception.kalman_visible_max_confidence",
            &mut self.kalman_visible_max_confidence,
            D0_96,
            D0,
            D1,
            D0_75,
            D1,
            notices,
        );
        sanitize_f64(
            "pomdp_perception.kalman_front_max_confidence",
            &mut self.kalman_front_max_confidence,
            D0_88,
            D0,
            D1,
            D0_6,
            D0_98,
            notices,
        );
        sanitize_f64(
            "pomdp_perception.kalman_occluded_max_confidence",
            &mut self.kalman_occluded_max_confidence,
            D0_68,
            D0,
            D1,
            D0_35,
            D0_85,
            notices,
        );
        sanitize_f64(
            "pomdp_perception.kalman_ball_holder_occluded_max_confidence",
            &mut self.kalman_ball_holder_occluded_max_confidence,
            D0_58,
            D0,
            D1,
            D0_25,
            D0_8,
            notices,
        );
        if self.player_reaction_max_seconds.is_below(self.player_reaction_min_seconds) {
            notices.push(
                Notice::Reordered {
                    what: "pomdp_perception reaction min seconds exceeded max seconds; raising max",
                },
            );
            self.player_reaction_max_seconds = self.player_reaction_min_seconds;
        }
        if self.ball_holder_head_scan_max_seconds.is_below(self.ball_holder_head_scan_min_seconds) {
            notices.push(
                Notice::Reordered {
                    what: "pomdp_perception head-scan min seconds exceeded max seconds; raising max",
                },
            );
            self.ball_holder_head_scan_max_seconds = self.ball_holder_head_scan_min_seconds;
        }
    }

    /// The faults of these knobs, in the order of the fields, after the faults `found`.
    pub open spec fn faults(self, prefix: &'static str, found: Seq<Fault>) -> Seq<Fault> {
        let e = found;
        let e = checked(
            e,
            prefix,
            "player_reaction_min_seconds",
            self.player_reaction_min_seconds,
            D0,
            D1,
        );
        let e = checked(
            e,
            prefix,
            "player_reaction_max_seconds",
            self.player_reaction_max_seconds,
            D0,
            D1,
        );
        let e = checked(
            e,
            prefix,
            "ball_holder_core_degrees",
            self.ball_holder_core_degrees,
            D1,
            D240,
        );
        let e = checked(
            e,
            prefix,
            "ball_holder_shoulder_degrees",
            self.ball_holder_shoulder_degrees,
            D0,
            D140,
        );
        let e = checked(
            e,
            prefix,
            "ball_holder_core_confidence",
            self.ball_holder_core_confidence,
            D0,
            D1,
        );
        let e = checked(
            e,
            prefix,
            "ball_holder_shoulder_confidence",
            self.ball_holder_shoulder_confidence,
            D0,
            D1,
        );
        let e = checked(
            e,
            prefix,
            "ball_holder_side_scan_confidence",
            self.ball_holder_side_scan_confidence,
            D0,
            D1,
        );
        let e = checked(
            e,
            prefix,
            "ball_holder_rear_scan_confidence",
            self.ball_holder_rear_scan_confidence,
            D0,
            D1,
        );
        let e = checked(
            e,
            prefix,
            "ball_holder_head_scan_min_seconds",
            self.ball_holder_head_scan_min_seconds,
            D0,
            D3,
        );
        let e = checked(
            e,
            prefix,
            "ball_holder_head_scan_max_seconds",
            self.ball_holder_head_scan_max_seconds,
            D0,
            D4,
        );
        let e = checked(
            e,
            prefix,
            "ball_holder_head_scan_vision_relief_seconds",
            self.ball_holder_head_scan_vision_relief_seconds,
            D0,
            D2,
        );
        let e = checked(
            e,
            prefix,
            "ball_holder_scan_confidence_vision_bonus",
            self.ball_holder_scan_confidence_vision_bonus,
            D0,
            D0_25,
        );
        let e = checked(
            e,
            prefix,
            "ball_holder_scan_confidence_cap",
            self.ball_holder_scan_confidence_cap,
            D0,
            D1,
        );
        let e = checked(
            e,
            prefix,
            "ball_holder_head_scan_drift_risk_base",
            self.ball_holder_head_scan_drift_risk_base,
            D0,
            D1,
        );
        let e = checked(
            e,
            prefix,
            "ball_holder_head_scan_drift_risk_span",
            self.ball_holder_head_scan_drift_risk_span,
            D0,
            D1,
        );
        let e = checked(
            e,
            prefix,
            "kalman_point_match_radius_yards",
            self.kalman_point_match_radius_yards,
            D0,
            D5,
        );
        let e = checked_count(
            e,
            prefix,
            "kalman_min_history_samples",
            self.kalman_min_history_samples,
            1,
            10,
        );
        let e = checked(
            e,
            prefix,
            "kalman_current_sample_epsilon_yards",
            self.kalman_current_sample_epsilon_yards,
            D0,
            D2,
        );
        let e = checked(
            e,
            prefix,
            "kalman_base_sigma_yards",
            self.kalman_base_sigma_yards,
            D0_01,
            D10,
        );
        let e = checked(
            e,
            prefix,
            "kalman_speed_sigma_per_yps",
            self.kalman_speed_sigma_per_yps,
            D0,
            D2,
        );
        let e = checked(
            e,
            prefix,
            "kalman_velocity_disagreement_sigma_yards",
            self.kalman_velocity_disagreement_sigma_yards,
            D0,
            D2,
        );
        let e = checked(
            e,
            prefix,
            "kalman_visible_max_confidence",
            self.kalman_visible_max_confidence,
            D0,
            D1,
        );
        let e = checked(
            e,
            prefix,
            "kalman_front_max_confidence",
            self.kalman_front_max_confidence,
            D0,
            D1,
        );
        let e = checked(
            e,
            prefix,
            "kalman_occluded_max_confidence",
            self.kalman_occluded_max_confidence,
            D0,
            D1,
        );
        let e = checked(
            e,
            prefix,
            "kalman_ball_holder_occluded_max_confidence",
            self.kalman_ball_holder_occluded_max_confidence,
            D0,
            D1,
        );
        let e = checked_order(
            e,
            self.player_reaction_max_seconds.less(self.player_reaction_min_seconds),
            (
                Fault::Below {
                    prefix,
                    left: "player_reaction_max_seconds",
                    right: "player_reaction_min_seconds",
                }
            ),
        );
        let e = checked_order(
            e,
            self.ball_holder_head_scan_max_seconds.less(self.ball_holder_head_scan_min_seconds),
            (
                Fault::Below {
                    prefix,
                    left: "ball_holder_head_scan_max_seconds",
                    right: "ball_holder_head_scan_min_seconds",
                }
            ),
        );
        e
    }

    /// Appends the faults of these knobs to `errors`.
    pub fn validate_strict(&self, prefix: &'static str, errors: &mut Vec<Fault>)
        ensures
            final(errors)@ == self.faults(prefix, old(errors)@),
    {
        validate_f64(
            prefix,
            "player_reaction_min_seconds",
            self.player_reaction_min_seconds,
            D0,
            D1,
            errors,
        );
        validate_f64(
            prefix,
            "player_reaction_max_seconds",
            self.player_reaction_max_seconds,
            D0,
            D1,
            errors,
        );
        validate_f64(
            prefix,
            "ball_holder_core_degrees",
            self.ball_holder_core_degrees,
            D1,
            D240,
            errors,
        );
        validate_f64(
            prefix,
            "ball_holder_shoulder_degrees",
            self.ball_holder_shoulder_degrees,
            D0,
            D140,
            errors,
        );
        validate_f64(
            prefix,
            "ball_holder_core_confidence",
            self.ball_holder_core_confidence,
            D0,
            D1,
            errors,
        );
        validate_f64(
            prefix,
            "ball_holder_shoulder_confidence",
            self.ball_holder_shoulder_confidence,
            D0,
            D1,
            errors,
        );
        validate_f64(
            prefix,
            "ball_holder_side_scan_confidence",
            self.ball_holder_side_scan_confidence,
            D0,
            D1,
            errors,
        );
        validate_f64(
            prefix,
            "ball_holder_rear_scan_confidence",
            self.ball_holder_rear_scan_confidence,
            D0,
            D1,
            errors,
        );
        validate_f64(
            prefix,
            "ball_holder_head_scan_min_seconds",
            self.ball_holder_head_scan_min_seconds,
            D0,
            D3,
            errors,
        );
        validate_f64(
            prefix,
            "ball_holder_head_scan_max_seconds",
            self.ball_holder_head_scan_max_seconds,
            D0,
            D4,
            errors,
        );
        validate_f64(
            prefix,
            "ball_holder_head_scan_vision_relief_seconds",
            self.ball_holder_head_scan_vision_relief_seconds,
            D0,
            D2,
            errors,
        );
        validate_f64(
            prefix,
            "ball_holder_scan_confidence_vision_bonus",
            self.ball_holder_scan_confidence_vision_bonus,
            D0,
            D0_25,
            errors,
        );
        validate_f64(
            prefix,
            "ball_holder_scan_confidence_cap",
            self.ball_holder_scan_confidence_cap,
            D0,
            D1,
            errors,
        );
        validate_f64(
            prefix,
            "ball_holder_head_scan_drift_risk_base",
            self.ball_holder_head_scan_drift_risk_base,
            D0,
            D1,
            errors,
        );
        validate_f64(
            prefix,
            "ball_holder_head_scan_drift_risk_span",
            self.ball_holder_head_scan_drift_risk_span,
            D0,
            D1,
            errors,
        );
        validate_f64(
            prefix,
            "kalman_point_match_radius_yards",
            self.kalman_point_match_radius_yards,
            D0,
            D5,
            errors,
        );
        validate_usize(
            prefix,
            "kalman_min_history_samples",
            self.kalman_min_history_samples,
            1,
            10,
            errors,
        );
        validate_f64(
            prefix,
            "kalman_current_sample_epsilon_yards",
            self.kalman_current_sample_epsilon_yards,
            D0,
            D2,
            errors,
        );
        validate_f64(
            prefix,
            "kalman_base_sigma_yards",
            self.kalman_base_sigma_yards,
            D0_01,
            D10,
            errors,
        );
        validate_f64(
            prefix,
            "kalman_speed_sigma_per_yps",
            self.kalman_speed_sigma_per_yps,
            D0,
            D2,
            errors,
        );
        validate_f64(
            prefix,
            "kalman_velocity_disagreement_sigma_yards",
            self.kalman_velocity_disagreement_sigma_yards,
            D0,
            D2,
            errors,
        );
        validate_f64(
            prefix,
            "kalman_visible_max_confidence",
            self.kalman_visible_max_confidence,
            D0,
            D1,
            errors,
        );
        validate_f64(
            prefix,
            "kalman_front_max_confidence",
            self.kalman_front_max_confidence,
            D0,
            D1,
            errors,
        );
        validate_f64(
            prefix,
            "kalman_occluded_max_confidence",
            self.kalman_occluded_max_confidence,
            D0,
            D1,
            errors,
        );
        validate_f64(
            prefix,
            "kalman_ball_holder_occluded_max_confidence",
            self.kalman_ball_holder_occluded_max_confidence,
            D0,
            D1,
            errors,
        );
        if self.player_reaction_max_seconds.is_below(self.player_reaction_min_seconds) {
            errors.push(
                Fault::Below {
                    prefix,
                    left: "player_reaction_max_seconds",
                    right: "player_reaction_min_seconds",
                },
            );
        }
        if self.ball_holder_head_scan_max_seconds.is_below(self.ball_holder_head_scan_min_seconds) {
            errors.push(
                Fault::Below {
                    prefix,
                    left: "ball_holder_head_scan_max_seconds",
                    right: "ball_holder_head_scan_min_seconds",
                },
            );
        }
    }

    /// What is repaired is in bounds, and what is in bounds is not touched by a repair.
    pub proof fn repair_reaches_bounds(self)
        ensures
            self.repaired().in_hard_bounds(),
            self.in_hard_bounds() ==> self.repaired() == self,
    {
        reveal(within);
        fitted_is_within(self.player_reaction_min_seconds, D0_1, D0, D1);
        fitted_is_within(self.player_reaction_max_seconds, D0_25, D0, D1);
        fitted_is_within(self.ball_holder_core_degrees, D100, D1, D240);
        fitted_is_within(self.ball_holder_shoulder_degrees, D40, D0, D140);
        fitted_is_within(self.ball_holder_core_confidence, D0_9, D0, D1);
        fitted_is_within(self.ball_holder_shoulder_confidence, D0_7, D0, D1);
        fitted_is_within(self.ball_holder_side_scan_confidence, D0_52, D0, D1);
        fitted_is_within(self.ball_holder_rear_scan_confidence, D0_38, D0, D1);
        fitted_is_within(self.ball_holder_head_scan_min_seconds, D0_75, D0, D3);
        fitted_is_within(self.ball_holder_head_scan_max_seconds, D1_85, D0, D4);
        fitted_is_within(self.ball_holder_head_scan_vision_relief_seconds, D0_35, D0, D2);
        fitted_is_within(self.ball_holder_scan_confidence_vision_bonus, D0_08, D0, D0_25);
        fitted_is_within(self.ball_holder_scan_confidence_cap, D0_62, D0, D1);
        fitted_is_within(self.ball_holder_head_scan_drift_risk_base, D0_24, D0, D1);
        fitted_is_within(self.ball_holder_head_scan_drift_risk_span, D0_42, D0, D1);
        fitted_is_within(self.kalman_point_match_radius_yards, D0_35, D0, D5);
        fitted_is_within(self.kalman_current_sample_epsilon_yards, D0_15, D0, D2);
        fitted_is_within(self.kalman_base_sigma_yards, D0_85, D0_01, D10);
        fitted_is_within(self.kalman_speed_sigma_per_yps, D0_1, D0, D2);
        fitted_is_within(self.kalman_velocity_disagreement_sigma_yards, D0_14, D0, D2);
        fitted_is_within(self.kalman_visible_max_confidence, D0_96, D0, D1);
        fitted_is_within(self.kalman_front_max_confidence, D0_88, D0, D1);
        fitted_is_within(self.kalman_occluded_max_confidence, D0_68, D0, D1);
        fitted_is_within(self.kalman_ball_holder_occluded_max_confidence, D0_58, D0, D1);
    }

    /// The defaults are in bounds.
    pub proof fn defaults_reach_bounds()
        ensures
            Self::defaults().in_hard_bounds(),
    {
        reveal(within);
    }

    /// Validation finds nothing exactly where the knobs are in bounds.
    pub proof fn faults_show_bounds(self, prefix: &'static str, found: Seq<Fault>)
        ensures
            self.faults(prefix, found).len() >= found.len(),
            self.faults(prefix, found).len() == found.len() <==> self.in_hard_bounds(),
            self.in_hard_bounds() ==> self.faults(prefix, found) == found,
    {
        let e = found;
        checked_shows_range(
            e,
            prefix,
            "player_reaction_min_seconds",
            self.player_reaction_min_seconds,
            D0,
            D1,
        );
        let e = checked(
            e,
            prefix,
            "player_reaction_min_seconds",
            self.player_reaction_min_seconds,
            D0,
            D1,
        );
        checked_shows_range(
            e,
            prefix,
            "player_reaction_max_seconds",
            self.player_reaction_max_seconds,
            D0,
            D1,
        );
        let e = checked(
            e,
            prefix,
            "player_reaction_max_seconds",
            self.player_reaction_max_seconds,
            D0,
            D1,
        );
        checked_shows_range(
            e,
            prefix,
            "ball_holder_core_degrees",
            self.ball_holder_core_degrees,
            D1,
            D240,
        );
        let e = checked(
            e,
            prefix,
            "ball_holder_core_degrees",
            self.ball_holder_core_degrees,
            D1,
            D240,
        );
        checked_shows_range(
            e,
            prefix,
            "ball_holder_shoulder_degrees",
            self.ball_holder_shoulder_degrees,
            D0,
            D140,
        );
        let e = checked(
            e,
            prefix,
            "ball_holder_shoulder_degrees",
            self.ball_holder_shoulder_degrees,
            D0,
            D140,
        );
        checked_shows_range(
            e,
            prefix,
            "ball_holder_core_confidence",
            self.ball_holder_core_confidence,
            D0,
            D1,
        );
        let e = checked(
            e,
            prefix,
            "ball_holder_core_confidence",
            self.ball_holder_core_confidence,
            D0,
            D1,
        );
        checked_shows_range(
            e,
            prefix,
            "ball_holder_shoulder_confidence",
            self.ball_holder_shoulder_confidence,
            D0,
            D1,
        );
        let e = checked(
            e,
            prefix,
            "ball_holder_shoulder_confidence",
            self.ball_holder_shoulder_confidence,
            D0,
            D1,
        );
        checked_shows_range(
            e,
            prefix,
            "ball_holder_side_scan_confidence",
            self.ball_holder_side_scan_confidence,
            D0,
            D1,
        );
        let e = checked(
            e,
            prefix,
            "ball_holder_side_scan_confidence",
            self.ball_holder_side_scan_confidence,
            D0,
            D1,
        );
        checked_shows_range(
            e,
            prefix,
            "ball_holder_rear_scan_confidence",
            self.ball_holder_rear_scan_confidence,
            D0,
            D1,
        );
        let e = checked(
            e,
            prefix,
            "ball_holder_rear_scan_confidence",
            self.ball_holder_rear_scan_confidence,
            D0,
            D1,
        );
        checked_shows_range(
            e,
            prefix,
            "ball_holder_head_scan_min_seconds",
            self.ball_holder_head_scan_min_seconds,
            D0,
            D3,
        );
        let e = checked(
            e,
            prefix,
            "ball_holder_head_scan_min_seconds",
            self.ball_holder_head_scan_min_seconds,
            D0,
            D3,
        );
        checked_shows_range(
            e,
            prefix,
            "ball_holder_head_scan_max_seconds",
            self.ball_holder_head_scan_max_seconds,
            D0,
            D4,
        );
        let e = checked(
            e,
            prefix,
            "ball_holder_head_scan_max_seconds",
            self.ball_holder_head_scan_max_seconds,
            D0,
            D4,
        );
        checked_shows_range(
            e,
            prefix,
            "ball_holder_head_scan_vision_relief_seconds",
            self.ball_holder_head_scan_vision_relief_seconds,
            D0,
            D2,
        );
        let e = checked(
            e,
            prefix,
            "ball_holder_head_scan_vision_relief_seconds",
            self.ball_holder_head_scan_vision_relief_seconds,
            D0,
            D2,
        );
        checked_shows_range(
            e,
            prefix,
            "ball_holder_scan_confidence_vision_bonus",
            self.ball_holder_scan_confidence_vision_bonus,
            D0,
            D0_25,
        );
        let e = checked(
            e,
            prefix,
            "ball_holder_scan_confidence_vision_bonus",
            self.ball_holder_scan_confidence_vision_bonus,
            D0,
            D0_25,
        );
        checked_shows_range(
            e,
            prefix,
            "ball_holder_scan_confidence_cap",
            self.ball_holder_scan_confidence_cap,
            D0,
            D1,
        );
        let e = checked(
            e,
            prefix,
            "ball_holder_scan_confidence_cap",
            self.ball_holder_scan_confidence_cap,
            D0,
            D1,
        );
        checked_shows_range(
            e,
            prefix,
            "ball_holder_head_scan_drift_risk_base",
            self.ball_holder_head_scan_drift_risk_base,
            D0,
            D1,
        );
        let e = checked(
            e,
            prefix,
            "ball_holder_head_scan_drift_risk_base",
            self.ball_holder_head_scan_drift_risk_base,
            D0,
            D1,
        );
        checked_shows_range(
            e,
            prefix,
            "ball_holder_head_scan_drift_risk_span",
            self.ball_holder_head_scan_drift_risk_span,
            D0,
            D1,
        );
        let e = checked(
            e,
            prefix,
            "ball_holder_head_scan_drift_risk_span",
            self.ball_holder_head_scan_drift_risk_span,
            D0,
            D1,
        );
        checked_shows_range(
            e,
            prefix,
            "kalman_point_match_radius_yards",
            self.kalman_point_match_radius_yards,
            D0,
            D5,
        );
        let e = checked(
            e,
            prefix,
            "kalman_point_match_radius_yards",
            self.kalman_point_match_radius_yards,
            D0,
            D5,
        );
        let e = checked_count(
            e,
            prefix,
            "kalman_min_history_samples",
            self.kalman_min_history_samples,
            1,
            10,
        );
        checked_shows_range(
            e,
            prefix,
            "kalman_current_sample_epsilon_yards",
            self.kalman_current_sample_epsilon_yards,
            D0,
            D2,
        );
        let e = checked(
            e,
            prefix,
            "kalman_current_sample_epsilon_yards",
            self.kalman_current_sample_epsilon_yards,
            D0,
            D2,
        );
        checked_shows_range(
            e,
            prefix,
            "kalman_base_sigma_yards",
            self.kalman_base_sigma_yards,
            D0_01,
            D10,
        );
        let e = checked(
            e,
            prefix,
            "kalman_base_sigma_yards",
            self.kalman_base_sigma_yards,
            D0_01,
            D10,
        );
        checked_shows_range(
            e,
            prefix,
            "kalman_speed_sigma_per_yps",
            self.kalman_speed_sigma_per_yps,
            D0,
            D2,
        );
        let e = checked(
            e,
            prefix,
            "kalman_speed_sigma_per_yps",
            self.kalman_speed_sigma_per_yps,
            D0,
            D2,
        );
        checked_shows_range(
            e,
            prefix,
            "kalman_velocity_disagreement_sigma_yards",
            self.kalman_velocity_disagreement_sigma_yards,
            D0,
            D2,
        );
        let e = checked(
            e,
            prefix,
            "kalman_velocity_disagreement_sigma_yards",
            self.kalman_velocity_disagreement_sigma_yards,
            D0,
            D2,
        );
        checked_shows_range(
            e,
            prefix,
            "kalman_visible_max_confidence",
            self.kalman_visible_max_confidence,
            D0,
            D1,
        );
        let e = checked(
            e,
            prefix,
            "kalman_visible_max_confidence",
            self.kalman_visible_max_confidence,
            D0,
            D1,
        );
        checked_shows_range(
            e,
            prefix,
            "kalman_front_max_confidence",
            self.kalman_front_max_confidence,
            D0,
            D1,
        );
        let e = checked(
            e,
            prefix,
            "kalman_front_max_confidence",
            self.kalman_front_max_confidence,
            D0,
            D1,
        );
        checked_shows_range(
            e,
            prefix,
            "kalman_occluded_max_confidence",
            self.kalman_occluded_max_confidence,
            D0,
            D1,
        );
        let e = checked(
            e,
            prefix,
            "kalman_occluded_max_confidence",
            self.kalman_occluded_max_confidence,
            D0,
            D1,
        );
        checked_shows_range(
            e,
            prefix,
            "kalman_ball_holder_occluded_max_confidence",
            self.kalman_ball_holder_occluded_max_confidence,
            D0,
            D1,
        );
        let e = checked(
            e,
            prefix,
            "kalman_ball_holder_occluded_max_confidence",
            self.kalman_ball_holder_occluded_max_confidence,
            D0,
            D1,
        );
    }
}

} // verus!
