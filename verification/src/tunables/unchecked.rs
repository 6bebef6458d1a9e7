//! Knob groups that are read as they are given.
use crate::decimals::{
    D0_033, D0_08, D0_1, D0_18, D0_3, D0_35, D0_48, D0_5, D0_52, D0_55, D0_58, D0_65, D0_68, D0_72,
    D0_78, D0_8, D0_82, D0_85, D0_86, D0_9, D1, D1_05, D1_18, D1_2, D1_5, D2, D2_5, D3, D4, D4_5,
    D9, D18, D24, D33_3, D42, D72,
};
use crate::number::Real64;
use crate::tunables::{finite_or, noticed_finite, sanitize_finite, Notice};
use vstd::prelude::*;

verus! {

/// How firmly outfield players hold their vertical lane. Without hard ranges.
#[derive(Clone, Copy, Debug)]
pub struct LaneDisciplineTunables {
    pub strength: Real64,
    pub lane_match_decay_yards: Real64,
    /// Static out-of-band affinity falloff base: `affinity = 1 - commitment * (base + per_yard
    /// * deviation_yards)` for a target outside the role band.
    pub static_fit_base: Real64,
    pub static_fit_per_yard: Real64,
    pub relief_full_release: Real64,
    pub commitment_hard_lock: Real64,
    pub soft_blend_max: Real64,
}

impl Default for LaneDisciplineTunables {
    fn default() -> (r: Self)
        ensures
            r == Self::defaults(),
    {
        LaneDisciplineTunables {
            strength: Real64 { bits: D1 },
            lane_match_decay_yards: Real64 { bits: D33_3 },
            static_fit_base: Real64 { bits: D0_58 },
            static_fit_per_yard: Real64 { bits: D0_033 },
            relief_full_release: Real64 { bits: D0_55 },
            commitment_hard_lock: Real64 { bits: D0_65 },
            soft_blend_max: Real64 { bits: D0_72 },
        }
    }
}

impl LaneDisciplineTunables {
    /// The default of every knob.
    pub open spec fn defaults() -> Self {
        LaneDisciplineTunables {
            strength: Real64 { bits: D1 },
            lane_match_decay_yards: Real64 { bits: D33_3 },
            static_fit_base: Real64 { bits: D0_58 },
            static_fit_per_yard: Real64 { bits: D0_033 },
            relief_full_release: Real64 { bits: D0_55 },
            commitment_hard_lock: Real64 { bits: D0_65 },
            soft_blend_max: Real64 { bits: D0_72 },
        }
    }

    /// What `sanitize` makes of the knobs: those that are not finite have their defaults.
    pub open spec fn repaired(self) -> Self {
        LaneDisciplineTunables {
            strength: finite_or(self.strength, D1),
            lane_match_decay_yards: finite_or(self.lane_match_decay_yards, D33_3),
            static_fit_base: finite_or(self.static_fit_base, D0_58),
            static_fit_per_yard: finite_or(self.static_fit_per_yard, D0_033),
            relief_full_release: finite_or(self.relief_full_release, D0_55),
            commitment_hard_lock: finite_or(self.commitment_hard_lock, D0_65),
            soft_blend_max: finite_or(self.soft_blend_max, D0_72),
        }
    }

    /// Every knob is finite.
    pub open spec fn all_finite(self) -> bool {
        &&& self.strength.finite()
        &&& self.lane_match_decay_yards.finite()
        &&& self.static_fit_base.finite()
        &&& self.static_fit_per_yard.finite()
        &&& self.relief_full_release.finite()
        &&& self.commitment_hard_lock.finite()
        &&& self.soft_blend_max.finite()
    }

    /// What a repair has to say of these knobs, in the order of the fields, after the notices
    /// `found`.
    pub open spec fn notices(self, found: Seq<Notice>) -> Seq<Notice> {
        let n = found;
        let n = noticed_finite(n, "lane_discipline.strength", self.strength, D1);
        let n = noticed_finite(
            n,
            "lane_discipline.lane_match_decay_yards",
            self.lane_match_decay_yards,
            D33_3,
        );
        let n = noticed_finite(n, "lane_discipline.static_fit_base", self.static_fit_base, D0_58);
        let n = noticed_finite(
            n,
            "lane_discipline.static_fit_per_yard",
            self.static_fit_per_yard,
            D0_033,
        );
        let n = noticed_finite(
            n,
            "lane_discipline.relief_full_release",
            self.relief_full_release,
            D0_55,
        );
        let n = noticed_finite(
            n,
            "lane_discipline.commitment_hard_lock",
            self.commitment_hard_lock,
            D0_65,
        );
        let n = noticed_finite(n, "lane_discipline.soft_blend_max", self.soft_blend_max, D0_72);
        n
    }

    /// Puts every knob that is not finite back to its default, and notes it.
    pub fn sanitize(&mut self, notices: &mut Vec<Notice>)
        ensures
            *final(self) == old(self).repaired(),
            final(notices)@ == old(self).notices(old(notices)@),
    {
        sanitize_finite("lane_discipline.strength", &mut self.strength, D1, notices);
        sanitize_finite(
            "lane_discipline.lane_match_decay_yards",
            &mut self.lane_match_decay_yards,
            D33_3,
            notices,
        );
        sanitize_finite(
            "lane_discipline.static_fit_base",
            &mut self.static_fit_base,
            D0_58,
            notices,
        );
        sanitize_finite(
            "lane_discipline.static_fit_per_yard",
            &mut self.static_fit_per_yard,
            D0_033,
            notices,
        );
        sanitize_finite(
            "lane_discipline.relief_full_release",
            &mut self.relief_full_release,
            D0_55,
            notices,
        );
        sanitize_finite(
            "lane_discipline.commitment_hard_lock",
            &mut self.commitment_hard_lock,
            D0_65,
            notices,
        );
        sanitize_finite("lane_discipline.soft_blend_max", &mut self.soft_blend_max, D0_72, notices);
    }

    /// What is repaired is finite, and finite knobs are not touched by a repair.
    pub proof fn repair_reaches_bounds(self)
        ensures
            self.repaired().all_finite(),
            self.all_finite() ==> self.repaired() == self,
    {
    }

    /// The defaults are finite.
    pub proof fn defaults_reach_bounds()
        ensures
            Self::defaults().all_finite(),
    {
    }
}

/// Direction, length and speed of dribbling touches. Without hard ranges.
#[derive(Clone, Copy, Debug)]
pub struct DribbleTuning {
    /// Weight on the MPC ball-control probability when scoring a touch direction (how much MPC
    /// execution feasibility steers which way the ball is knocked).
    pub direction_mpc_control_weight: Real64,
    /// Weight on the MPC QP acceleration fit in the direction score.
    pub direction_mpc_accel_weight: Real64,
    /// Weight on the kind-appropriate angle prior in the direction score.
    pub direction_angle_fit_weight: Real64,
    /// Open-grass scale on the forward-component reward in the direction score (a clearer lane
    /// ahead pulls the touch more forward).
    pub direction_forward_open_grass_scale: Real64,
    pub touch_length_base_yards: Real64,
    /// Yards of touch length added per unit of ball-control skill.
    pub touch_length_control_scale: Real64,
    /// Yards of touch length added per unit of open grass ahead.
    pub touch_length_open_grass_scale: Real64,
    /// Yards of touch length added per unit of touch intent.
    pub touch_length_intent_scale: Real64,
    /// An opponent at/inside this radius keeps the carrier on close control (no speed floor).
    pub carry_tight_pressure_yards: Real64,
    /// Open forward space (yards) at/above which the carrier is floored to at least a jog.
    pub carry_jog_space_yards: Real64,
    /// Open forward space (yards) at/above which the carrier is floored to a run.
    pub carry_run_space_yards: Real64,
    /// Open forward space (yards) at/above which the carrier is floored to a sprint.
    pub carry_sprint_space_yards: Real64,
    /// Above this fatigue the open-field carry floor caps at a run rather than a sprint.
    pub carry_sprint_max_fatigue: Real64,
    /// Minimum forward component (yards) of the intended move for the carry floor to engage.
    pub carry_min_forward_yards: Real64,
    /// Half-width (yards) of the carry lane used to measure open forward space.
    pub carry_lane_half_width_yards: Real64,
}

impl Default for DribbleTuning {
    fn default() -> (r: Self)
        ensures
            r == Self::defaults(),
    {
        DribbleTuning {
            direction_mpc_control_weight: Real64 { bits: D0_48 },
            direction_mpc_accel_weight: Real64 { bits: D0_3 },
            direction_angle_fit_weight: Real64 { bits: D1_18 },
            direction_forward_open_grass_scale: Real64 { bits: D0_68 },
            touch_length_base_yards: Real64 { bits: D0_78 },
            touch_length_control_scale: Real64 { bits: D0_86 },
            touch_length_open_grass_scale: Real64 { bits: D1_05 },
            touch_length_intent_scale: Real64 { bits: D0_52 },
            carry_tight_pressure_yards: Real64 { bits: D2_5 },
            carry_jog_space_yards: Real64 { bits: D3 },
            carry_run_space_yards: Real64 { bits: D9 },
            carry_sprint_space_yards: Real64 { bits: D18 },
            carry_sprint_max_fatigue: Real64 { bits: D0_8 },
            carry_min_forward_yards: Real64 { bits: D1 },
            carry_lane_half_width_yards: Real64 { bits: D4 },
        }
    }
}

impl DribbleTuning {
    /// The default of every knob.
    pub open spec fn defaults() -> Self {
        DribbleTuning {
            direction_mpc_control_weight: Real64 { bits: D0_48 },
            direction_mpc_accel_weight: Real64 { bits: D0_3 },
            direction_angle_fit_weight: Real64 { bits: D1_18 },
            direction_forward_open_grass_scale: Real64 { bits: D0_68 },
            touch_length_base_yards: Real64 { bits: D0_78 },
            touch_length_control_scale: Real64 { bits: D0_86 },
            touch_length_open_grass_scale: Real64 { bits: D1_05 },
            touch_length_intent_scale: Real64 { bits: D0_52 },
            carry_tight_pressure_yards: Real64 { bits: D2_5 },
            carry_jog_space_yards: Real64 { bits: D3 },
            carry_run_space_yards: Real64 { bits: D9 },
            carry_sprint_space_yards: Real64 { bits: D18 },
            carry_sprint_max_fatigue: Real64 { bits: D0_8 },
            carry_min_forward_yards: Real64 { bits: D1 },
            carry_lane_half_width_yards: Real64 { bits: D4 },
        }
    }

    /// What `sanitize` makes of the knobs: those that are not finite have their defaults.
    pub open spec fn repaired(self) -> Self {
        DribbleTuning {
            direction_mpc_control_weight: finite_or(self.direction_mpc_control_weight, D0_48),
            direction_mpc_accel_weight: finite_or(self.direction_mpc_accel_weight, D0_3),
            direction_angle_fit_weight: finite_or(self.direction_angle_fit_weight, D1_18),
            direction_forward_open_grass_scale: finite_or(
                self.direction_forward_open_grass_scale,
                D0_68,
            ),
            touch_length_base_yards: finite_or(self.touch_length_base_yards, D0_78),
            touch_length_control_scale: finite_or(self.touch_length_control_scale, D0_86),
            touch_length_open_grass_scale: finite_or(self.touch_length_open_grass_scale, D1_05),
            touch_length_intent_scale: finite_or(self.touch_length_intent_scale, D0_52),
            carry_tight_pressure_yards: finite_or(self.carry_tight_pressure_yards, D2_5),
            carry_jog_space_yards: finite_or(self.carry_jog_space_yards, D3),
            carry_run_space_yards: finite_or(self.carry_run_space_yards, D9),
            carry_sprint_space_yards: finite_or(self.carry_sprint_space_yards, D18),
            carry_sprint_max_fatigue: finite_or(self.carry_sprint_max_fatigue, D0_8),
            carry_min_forward_yards: finite_or(self.carry_min_forward_yards, D1),
            carry_lane_half_width_yards: finite_or(self.carry_lane_half_width_yards, D4),
        }
    }

    /// Every knob is finite.
    pub open spec fn all_finite(self) -> bool {
        &&& self.direction_mpc_control_weight.finite()
        &&& self.direction_mpc_accel_weight.finite()
        &&& self.direction_angle_fit_weight.finite()
        &&& self.direction_forward_open_grass_scale.finite()
        &&& self.touch_length_base_yards.finite()
        &&& self.touch_length_control_scale.finite()
        &&& self.touch_length_open_grass_scale.finite()
        &&& self.touch_length_intent_scale.finite()
        &&& self.carry_tight_pressure_yards.finite()
        &&& self.carry_jog_space_yards.finite()
        &&& self.carry_run_space_yards.finite()
        &&& self.carry_sprint_space_yards.finite()
        &&& self.carry_sprint_max_fatigue.finite()
        &&& self.carry_min_forward_yards.finite()
        &&& self.carry_lane_half_width_yards.finite()
    }

    /// What a repair has to say of these knobs, in the order of the fields, after the notices
    /// `found`.
    pub open spec fn notices(self, found: Seq<Notice>) -> Seq<Notice> {
        let n = found;
        let n = noticed_finite(
            n,
            "dribble.direction_mpc_control_weight",
            self.direction_mpc_control_weight,
            D0_48,
        );
        let n = noticed_finite(
            n,
            "dribble.direction_mpc_accel_weight",
            self.direction_mpc_accel_weight,
            D0_3,
        );
        let n = noticed_finite(
            n,
            "dribble.direction_angle_fit_weight",
            self.direction_angle_fit_weight,
            D1_18,
        );
        let n = noticed_finite(
            n,
            "dribble.direction_forward_open_grass_scale",
            self.direction_forward_open_grass_scale,
            D0_68,
        );
        let n = noticed_finite(
            n,
            "dribble.touch_length_base_yards",
            self.touch_length_base_yards,
            D0_78,
        );
        let n = noticed_finite(
            n,
            "dribble.touch_length_control_scale",
            self.touch_length_control_scale,
            D0_86,
        );
        let n = noticed_finite(
            n,
            "dribble.touch_length_open_grass_scale",
            self.touch_length_open_grass_scale,
            D1_05,
        );
        let n = noticed_finite(
            n,
            "dribble.touch_length_intent_scale",
            self.touch_length_intent_scale,
            D0_52,
        );
        let n = noticed_finite(
            n,
            "dribble.carry_tight_pressure_yards",
            self.carry_tight_pressure_yards,
            D2_5,
        );
        let n = noticed_finite(n, "dribble.carry_jog_space_yards", self.carry_jog_space_yards, D3);
        let n = noticed_finite(n, "dribble.carry_run_space_yards", self.carry_run_space_yards, D9);
        let n = noticed_finite(
            n,
            "dribble.carry_sprint_space_yards",
            self.carry_sprint_space_yards,
            D18,
        );
        let n = noticed_finite(
            n,
            "dribble.carry_sprint_max_fatigue",
            self.carry_sprint_max_fatigue,
            D0_8,
        );
        let n = noticed_finite(
            n,
            "dribble.carry_min_forward_yards",
            self.carry_min_forward_yards,
            D1,
        );
        let n = noticed_finite(
            n,
            "dribble.carry_lane_half_width_yards",
            self.carry_lane_half_width_yards,
            D4,
        );
        n
    }

    /// Puts every knob that is not finite back to its default, and notes it.
    pub fn sanitize(&mut self, notices: &mut Vec<Notice>)
        ensures
            *final(self) == old(self).repaired(),
            final(notices)@ == old(self).notices(old(notices)@),
    {
        sanitize_finite(
            "dribble.direction_mpc_control_weight",
            &mut self.direction_mpc_control_weight,
            D0_48,
            notices,
        );
        sanitize_finite(
            "dribble.direction_mpc_accel_weight",
            &mut self.direction_mpc_accel_weight,
            D0_3,
            notices,
        );
        sanitize_finite(
            "dribble.direction_angle_fit_weight",
            &mut self.direction_angle_fit_weight,
            D1_18,
            notices,
        );
        sanitize_finite(
            "dribble.direction_forward_open_grass_scale",
            &mut self.direction_forward_open_grass_scale,
            D0_68,
            notices,
        );
        sanitize_finite(
            "dribble.touch_length_base_yards",
            &mut self.touch_length_base_yards,
            D0_78,
            notices,
        );
        sanitize_finite(
            "dribble.touch_length_control_scale",
            &mut self.touch_length_control_scale,
            D0_86,
            notices,
        );
        sanitize_finite(
            "dribble.touch_length_open_grass_scale",
            &mut self.touch_length_open_grass_scale,
            D1_05,
            notices,
        );
        sanitize_finite(
            "dribble.touch_length_intent_scale",
            &mut self.touch_length_intent_scale,
            D0_52,
            notices,
        );
        sanitize_finite(
            "dribble.carry_tight_pressure_yards",
            &mut self.carry_tight_pressure_yards,
            D2_5,
            notices,
        );
        sanitize_finite(
            "dribble.carry_jog_space_yards",
            &mut self.carry_jog_space_yards,
            D3,
            notices,
        );
        sanitize_finite(
            "dribble.carry_run_space_yards",
            &mut self.carry_run_space_yards,
            D9,
            notices,
        );
        sanitize_finite(
            "dribble.carry_sprint_space_yards",
            &mut self.carry_sprint_space_yards,
            D18,
            notices,
        );
        sanitize_finite(
            "dribble.carry_sprint_max_fatigue",
            &mut self.carry_sprint_max_fatigue,
            D0_8,
            notices,
        );
        sanitize_finite(
            "dribble.carry_min_forward_yards",
            &mut self.carry_min_forward_yards,
            D1,
            notices,
        );
        sanitize_finite(
            "dribble.carry_lane_half_width_yards",
            &mut self.carry_lane_half_width_yards,
            D4,
            notices,
        );
    }

    /// What is repaired is finite, and finite knobs are not touched by a repair.
    pub proof fn repair_reaches_bounds(self)
        ensures
            self.repaired().all_finite(),
            self.all_finite() ==> self.repaired() == self,
    {
    }

    /// The defaults are finite.
    pub proof fn defaults_reach_bounds()
        ensures
            Self::defaults().all_finite(),
    {
    }
}

/// Goalkeeper positioning. Without hard ranges.
#[derive(Clone, Copy, Debug)]
pub struct GoalkeeperTunables {
    /// Ball->goal distance (yds) at which an advancing ball reaches full "ball pressure"
    /// (keeper pushed to its max forward depth).
    pub tracking_ball_pressure_reference_yards: Real64,
    /// Holder->goal-line distance (yds) at which holder pressure saturates.
    pub tracking_holder_pressure_reference_yards: Real64,
    /// Resting depth off the goal line (yds) with no pressure.
    pub tracking_resting_depth_yards: Real64,
    /// Extra depth (yds) added at full ball pressure.
    pub tracking_ball_pressure_depth_gain_yards: Real64,
    /// Extra depth (yds) added at full holder pressure.
    pub tracking_holder_pressure_depth_gain_yards: Real64,
    pub tracking_min_depth_yards: Real64,
    pub tracking_line_height_depth_span_yards: Real64,
    /// Minimum resting depth (yds) after the line-height shift.
    pub tracking_line_height_min_depth_yards: Real64,
    /// Standoff (yds) kept short of the ball so the keeper never overruns it.
    pub tracking_ball_standoff_yards: Real64,
    /// Perpendicular off-line distance (yds) that drops the line-alignment score by 1.0.
    pub alignment_line_distance_reference_yards: Real64,
    /// Projection overshoot past the goal/ball endpoints that drops the projection score by
    /// 1.0.
    pub alignment_projection_reference: Real64,
    /// Distance (yds) from the ideal tracking point that drops the depth score by 1.0.
    pub alignment_depth_reference_yards: Real64,
    /// Weight of the on-line term in the blended alignment score.
    pub alignment_line_weight: Real64,
    /// Weight of the projection (between-the-endpoints) term.
    pub alignment_projection_weight: Real64,
    /// Weight of the depth (distance-to-ideal) term.
    pub alignment_depth_weight: Real64,
    /// Depth (yds) off the own goal line a WIDE defender fans out to receive a short pass.
    pub buildup_wide_defender_depth_yards: Real64,
    /// Depth (yds) off the own goal line a CENTRAL defender fans out to.
    pub buildup_central_defender_depth_yards: Real64,
    pub buildup_lane_probe_offset_yards: Real64,
    /// Weight of goalkeeping ability in the keeper's sweep "tool" term.
    pub leave_confidence_goalkeeping_weight: Real64,
    /// Weight of acceleration ability in the sweep tool term.
    pub leave_confidence_acceleration_weight: Real64,
    /// Weight of perceived-position confidence in the sweep tool term.
    pub leave_confidence_perception_weight: Real64,
    /// Weight of the race-dominance term in the overall leave confidence.
    pub leave_confidence_dominance_weight: Real64,
    /// Weight of the keeper-tool term in the overall leave confidence.
    pub leave_confidence_tool_weight: Real64,
    /// On a ball WE last touched (can't handle), the keeper only charges out if it beats the
    /// nearest opponent to the ball by this fraction of the opponent's arrival time.
    pub backpass_commit_opponent_time_fraction: Real64,
    pub backpass_commit_teammate_margin_seconds: Real64,
}

impl Default for GoalkeeperTunables {
    fn default() -> (r: Self)
        ensures
            r == Self::defaults(),
    {
        GoalkeeperTunables {
            tracking_ball_pressure_reference_yards: Real64 { bits: D72 },
            tracking_holder_pressure_reference_yards: Real64 { bits: D42 },
            tracking_resting_depth_yards: Real64 { bits: D3 },
            tracking_ball_pressure_depth_gain_yards: Real64 { bits: D3 },
            tracking_holder_pressure_depth_gain_yards: Real64 { bits: D1_2 },
            tracking_min_depth_yards: Real64 { bits: D2 },
            tracking_line_height_depth_span_yards: Real64 { bits: D2 },
            tracking_line_height_min_depth_yards: Real64 { bits: D1_5 },
            tracking_ball_standoff_yards: Real64 { bits: D0_85 },
            alignment_line_distance_reference_yards: Real64 { bits: D1 },
            alignment_projection_reference: Real64 { bits: D0_35 },
            alignment_depth_reference_yards: Real64 { bits: D4_5 },
            alignment_line_weight: Real64 { bits: D0_82 },
            alignment_projection_weight: Real64 { bits: D0_08 },
            alignment_depth_weight: Real64 { bits: D0_1 },
            buildup_wide_defender_depth_yards: Real64 { bits: D24 },
            buildup_central_defender_depth_yards: Real64 { bits: D18 },
            buildup_lane_probe_offset_yards: Real64 { bits: D4 },
            leave_confidence_goalkeeping_weight: Real64 { bits: D0_72 },
            leave_confidence_acceleration_weight: Real64 { bits: D0_18 },
            leave_confidence_perception_weight: Real64 { bits: D0_1 },
            leave_confidence_dominance_weight: Real64 { bits: D0_9 },
            leave_confidence_tool_weight: Real64 { bits: D0_1 },
            backpass_commit_opponent_time_fraction: Real64 { bits: D0_65 },
            backpass_commit_teammate_margin_seconds: Real64 { bits: D0_5 },
        }
    }
}

impl GoalkeeperTunables {
    /// The default of every knob.
    pub open spec fn defaults() -> Self {
        GoalkeeperTunables {
            tracking_ball_pressure_reference_yards: Real64 { bits: D72 },
            tracking_holder_pressure_reference_yards: Real64 { bits: D42 },
            tracking_resting_depth_yards: Real64 { bits: D3 },
            tracking_ball_pressure_depth_gain_yards: Real64 { bits: D3 },
            tracking_holder_pressure_depth_gain_yards: Real64 { bits: D1_2 },
            tracking_min_depth_yards: Real64 { bits: D2 },
            tracking_line_height_depth_span_yards: Real64 { bits: D2 },
            tracking_line_height_min_depth_yards: Real64 { bits: D1_5 },
            tracking_ball_standoff_yards: Real64 { bits: D0_85 },
            alignment_line_distance_reference_yards: Real64 { bits: D1 },
            alignment_projection_reference: Real64 { bits: D0_35 },
            alignment_depth_reference_yards: Real64 { bits: D4_5 },
            alignment_line_weight: Real64 { bits: D0_82 },
            alignment_projection_weight: Real64 { bits: D0_08 },
            alignment_depth_weight: Real64 { bits: D0_1 },
            buildup_wide_defender_depth_yards: Real64 { bits: D24 },
            buildup_central_defender_depth_yards: Real64 { bits: D18 },
            buildup_lane_probe_offset_yards: Real64 { bits: D4 },
            leave_confidence_goalkeeping_weight: Real64 { bits: D0_72 },
            leave_confidence_acceleration_weight: Real64 { bits: D0_18 },
            leave_confidence_perception_weight: Real64 { bits: D0_1 },
            leave_confidence_dominance_weight: Real64 { bits: D0_9 },
            leave_confidence_tool_weight: Real64 { bits: D0_1 },
            backpass_commit_opponent_time_fraction: Real64 { bits: D0_65 },
            backpass_commit_teammate_margin_seconds: Real64 { bits: D0_5 },
        }
    }

    /// What `sanitize` makes of the knobs: those that are not finite have their defaults.
    pub open spec fn repaired(self) -> Self {
        GoalkeeperTunables {
            tracking_ball_pressure_reference_yards: finite_or(
                self.tracking_ball_pressure_reference_yards,
                D72,
            ),
            tracking_holder_pressure_reference_yards: finite_or(
                self.tracking_holder_pressure_reference_yards,
                D42,
            ),
            tracking_resting_depth_yards: finite_or(self.tracking_resting_depth_yards, D3),
            tracking_ball_pressure_depth_gain_yards: finite_or(
                self.tracking_ball_pressure_depth_gain_yards,
                D3,
            ),
            tracking_holder_pressure_depth_gain_yards: finite_or(
                self.tracking_holder_pressure_depth_gain_yards,
                D1_2,
            ),
            tracking_min_depth_yards: finite_or(self.tracking_min_depth_yards, D2),
            tracking_line_height_depth_span_yards: finite_or(
                self.tracking_line_height_depth_span_yards,
                D2,
            ),
            tracking_line_height_min_depth_yards: finite_or(
                self.tracking_line_height_min_depth_yards,
                D1_5,
            ),
            tracking_ball_standoff_yards: finite_or(self.tracking_ball_standoff_yards, D0_85),
            alignment_line_distance_reference_yards: finite_or(
                self.alignment_line_distance_reference_yards,
                D1,
            ),
            alignment_projection_reference: finite_or(self.alignment_projection_reference, D0_35),
            alignment_depth_reference_yards: finite_or(self.alignment_depth_reference_yards, D4_5),
            alignment_line_weight: finite_or(self.alignment_line_weight, D0_82),
            alignment_projection_weight: finite_or(self.alignment_projection_weight, D0_08),
            alignment_depth_weight: finite_or(self.alignment_depth_weight, D0_1),
            buildup_wide_defender_depth_yards: finite_or(
                self.buildup_wide_defender_depth_yards,
                D24,
            ),
            buildup_central_defender_depth_yards: finite_or(
                self.buildup_central_defender_depth_yards,
                D18,
            ),
            buildup_lane_probe_offset_yards: finite_or(self.buildup_lane_probe_offset_yards, D4),
            leave_confidence_goalkeeping_weight: finite_or(
                self.leave_confidence_goalkeeping_weight,
                D0_72,
            ),
            leave_confidence_acceleration_weight: finite_or(
                self.leave_confidence_acceleration_weight,
                D0_18,
            ),
            leave_confidence_perception_weight: finite_or(
                self.leave_confidence_perception_weight,
                D0_1,
            ),
            leave_confidence_dominance_weight: finite_or(
                self.leave_confidence_dominance_weight,
                D0_9,
            ),
            leave_confidence_tool_weight: finite_or(self.leave_confidence_tool_weight, D0_1),
            backpass_commit_opponent_time_fraction: finite_or(
                self.backpass_commit_opponent_time_fraction,
                D0_65,
            ),
            backpass_commit_teammate_margin_seconds: finite_or(
                self.backpass_commit_teammate_margin_seconds,
                D0_5,
            ),
        }
    }

    /// Every knob is finite.
    pub open spec fn all_finite(self) -> bool {
        &&& self.tracking_ball_pressure_reference_yards.finite()
        &&& self.tracking_holder_pressure_reference_yards.finite()
        &&& self.tracking_resting_depth_yards.finite()
        &&& self.tracking_ball_pressure_depth_gain_yards.finite()
        &&& self.tracking_holder_pressure_depth_gain_yards.finite()
        &&& self.tracking_min_depth_yards.finite()
        &&& self.tracking_line_height_depth_span_yards.finite()
        &&& self.tracking_line_height_min_depth_yards.finite()
        &&& self.tracking_ball_standoff_yards.finite()
        &&& self.alignment_line_distance_reference_yards.finite()
        &&& self.alignment_projection_reference.finite()
        &&& self.alignment_depth_reference_yards.finite()
        &&& self.alignment_line_weight.finite()
        &&& self.alignment_projection_weight.finite()
        &&& self.alignment_depth_weight.finite()
        &&& self.buildup_wide_defender_depth_yards.finite()
        &&& self.buildup_central_defender_depth_yards.finite()
        &&& self.buildup_lane_probe_offset_yards.finite()
        &&& self.leave_confidence_goalkeeping_weight.finite()
        &&& self.leave_confidence_acceleration_weight.finite()
        &&& self.leave_confidence_perception_weight.finite()
        &&& self.leave_confidence_dominance_weight.finite()
        &&& self.leave_confidence_tool_weight.finite()
        &&& self.backpass_commit_opponent_time_fraction.finite()
        &&& self.backpass_commit_teammate_margin_seconds.finite()
    }

    /// What a repair has to say of these knobs, in the order of the fields, after the notices
    /// `found`.
    pub open spec fn notices(self, found: Seq<Notice>) -> Seq<Notice> {
        let n = found;
        let n = noticed_finite(
            n,
            "goalkeeper.tracking_ball_pressure_reference_yards",
            self.tracking_ball_pressure_reference_yards,
            D72,
        );
        let n = noticed_finite(
            n,
            "goalkeeper.tracking_holder_pressure_reference_yards",
            self.tracking_holder_pressure_reference_yards,
            D42,
        );
        let n = noticed_finite(
            n,
            "goalkeeper.tracking_resting_depth_yards",
            self.tracking_resting_depth_yards,
            D3,
        );
        let n = noticed_finite(
            n,
            "goalkeeper.tracking_ball_pressure_depth_gain_yards",
            self.tracking_ball_pressure_depth_gain_yards,
            D3,
        );
        let n = noticed_finite(
            n,
            "goalkeeper.tracking_holder_pressure_depth_gain_yards",
            self.tracking_holder_pressure_depth_gain_yards,
            D1_2,
        );
        let n = noticed_finite(
            n,
            "goalkeeper.tracking_min_depth_yards",
            self.tracking_min_depth_yards,
            D2,
        );
        let n = noticed_finite(
            n,
            "goalkeeper.tracking_line_height_depth_span_yards",
            self.tracking_line_height_depth_span_yards,
            D2,
        );
        let n = noticed_finite(
            n,
            "goalkeeper.tracking_line_height_min_depth_yards",
            self.tracking_line_height_min_depth_yards,
            D1_5,
        );
        let n = noticed_finite(
            n,
            "goalkeeper.tracking_ball_standoff_yards",
            self.tracking_ball_standoff_yards,
            D0_85,
        );
        let n = noticed_finite(
            n,
            "goalkeeper.alignment_line_distance_reference_yards",
            self.alignment_line_distance_reference_yards,
            D1,
        );
        let n = noticed_finite(
            n,
            "goalkeeper.alignment_projection_reference",
            self.alignment_projection_reference,
            D0_35,
        );
        let n = noticed_finite(
            n,
            "goalkeeper.alignment_depth_reference_yards",
            self.alignment_depth_reference_yards,
            D4_5,
        );
        let n = noticed_finite(
            n,
            "goalkeeper.alignment_line_weight",
            self.alignment_line_weight,
            D0_82,
        );
        let n = noticed_finite(
            n,
            "goalkeeper.alignment_projection_weight",
            self.alignment_projection_weight,
            D0_08,
        );
        let n = noticed_finite(
            n,
            "goalkeeper.alignment_depth_weight",
            self.alignment_depth_weight,
            D0_1,
        );
        let n = noticed_finite(
            n,
            "goalkeeper.buildup_wide_defender_depth_yards",
            self.buildup_wide_defender_depth_yards,
            D24,
        );
        let n = noticed_finite(
            n,
            "goalkeeper.buildup_central_defender_depth_yards",
            self.buildup_central_defender_depth_yards,
            D18,
        );
        let n = noticed_finite(
            n,
            "goalkeeper.buildup_lane_probe_offset_yards",
            self.buildup_lane_probe_offset_yards,
            D4,
        );
        let n = noticed_finite(
            n,
            "goalkeeper.leave_confidence_goalkeeping_weight",
            self.leave_confidence_goalkeeping_weight,
            D0_72,
        );
        let n = noticed_finite(
            n,
            "goalkeeper.leave_confidence_acceleration_weight",
            self.leave_confidence_acceleration_weight,
            D0_18,
        );
        let n = noticed_finite(
            n,
            "goalkeeper.leave_confidence_perception_weight",
            self.leave_confidence_perception_weight,
            D0_1,
        );
        let n = noticed_finite(
            n,
            "goalkeeper.leave_confidence_dominance_weight",
            self.leave_confidence_dominance_weight,
            D0_9,
        );
        let n = noticed_finite(
            n,
            "goalkeeper.leave_confidence_tool_weight",
            self.leave_confidence_tool_weight,
            D0_1,
        );
        let n = noticed_finite(
            n,
            "goalkeeper.backpass_commit_opponent_time_fraction",
            self.backpass_commit_opponent_time_fraction,
            D0_65,
        );
        let n = noticed_finite(
            n,
            "goalkeeper.backpass_commit_teammate_margin_seconds",
            self.backpass_commit_teammate_margin_seconds,
            D0_5,
        );
        n
    }

    /// Puts every knob that is not finite back to its default, and notes it.
    pub fn sanitize(&mut self, notices: &mut Vec<Notice>)
        ensures
            *final(self) == old(self).repaired(),
            final(notices)@ == old(self).notices(old(notices)@),
    {
        sanitize_finite(
            "goalkeeper.tracking_ball_pressure_reference_yards",
            &mut self.tracking_ball_pressure_reference_yards,
            D72,
            notices,
        );
        sanitize_finite(
            "goalkeeper.tracking_holder_pressure_reference_yards",
            &mut self.tracking_holder_pressure_reference_yards,
            D42,
            notices,
        );
        sanitize_finite(
            "goalkeeper.tracking_resting_depth_yards",
            &mut self.tracking_resting_depth_yards,
            D3,
            notices,
        );
        sanitize_finite(
            "goalkeeper.tracking_ball_pressure_depth_gain_yards",
            &mut self.tracking_ball_pressure_depth_gain_yards,
            D3,
            notices,
        );
        sanitize_finite(
            "goalkeeper.tracking_holder_pressure_depth_gain_yards",
            &mut self.tracking_holder_pressure_depth_gain_yards,
            D1_2,
            notices,
        );
        sanitize_finite(
            "goalkeeper.tracking_min_depth_yards",
            &mut self.tracking_min_depth_yards,
            D2,
            notices,
        );
        sanitize_finite(
            "goalkeeper.tracking_line_height_depth_span_yards",
            &mut self.tracking_line_height_depth_span_yards,
            D2,
            notices,
        );
        sanitize_finite(
            "goalkeeper.tracking_line_height_min_depth_yards",
            &mut self.tracking_line_height_min_depth_yards,
            D1_5,
            notices,
        );
        sanitize_finite(
            "goalkeeper.tracking_ball_standoff_yards",
            &mut self.tracking_ball_standoff_yards,
            D0_85,
            notices,
        );
        sanitize_finite(
            "goalkeeper.alignment_line_distance_reference_yards",
            &mut self.alignment_line_distance_reference_yards,
            D1,
            notices,
        );
        sanitize_finite(
            "goalkeeper.alignment_projection_reference",
            &mut self.alignment_projection_reference,
            D0_35,
            notices,
        );
        sanitize_finite(
            "goalkeeper.alignment_depth_reference_yards",
            &mut self.alignment_depth_reference_yards,
            D4_5,
            notices,
        );
        sanitize_finite(
            "goalkeeper.alignment_line_weight",
            &mut self.alignment_line_weight,
            D0_82,
            notices,
        );
        sanitize_finite(
            "goalkeeper.alignment_projection_weight",
            &mut self.alignment_projection_weight,
            D0_08,
            notices,
        );
        sanitize_finite(
            "goalkeeper.alignment_depth_weight",
            &mut self.alignment_depth_weight,
            D0_1,
            notices,
        );
        sanitize_finite(
            "goalkeeper.buildup_wide_defender_depth_yards",
            &mut self.buildup_wide_defender_depth_yards,
            D24,
            notices,
        );
        sanitize_finite(
            "goalkeeper.buildup_central_defender_depth_yards",
            &mut self.buildup_central_defender_depth_yards,
            D18,
            notices,
        );
        sanitize_finite(
            "goalkeeper.buildup_lane_probe_offset_yards",
            &mut self.buildup_lane_probe_offset_yards,
            D4,
            notices,
        );
        sanitize_finite(
            "goalkeeper.leave_confidence_goalkeeping_weight",
            &mut self.leave_confidence_goalkeeping_weight,
            D0_72,
            notices,
        );
        sanitize_finite(
            "goalkeeper.leave_confidence_acceleration_weight",
            &mut self.leave_confidence_acceleration_weight,
            D0_18,
            notices,
        );
        sanitize_finite(
            "goalkeeper.leave_confidence_perception_weight",
            &mut self.leave_confidence_perception_weight,
            D0_1,
            notices,
        );
        sanitize_finite(
            "goalkeeper.leave_confidence_dominance_weight",
            &mut self.leave_confidence_dominance_weight,
            D0_9,
            notices,
        );
        sanitize_finite(
            "goalkeeper.leave_confidence_tool_weight",
            &mut self.leave_confidence_tool_weight,
            D0_1,
            notices,
        );
        sanitize_finite(
            "goalkeeper.backpass_commit_opponent_time_fraction",
            &mut self.backpass_commit_opponent_time_fraction,
            D0_65,
            notices,
        );
        sanitize_finite(
            "goalkeeper.backpass_commit_teammate_margin_seconds",
            &mut self.backpass_commit_teammate_margin_seconds,
            D0_5,
            notices,
        );
    }

    /// What is repaired is finite, and finite knobs are not touched by a repair.
    pub proof fn repair_reaches_bounds(self)
        ensures
            self.repaired().all_finite(),
            self.all_finite() ==> self.repaired() == self,
    {
    }

    /// The defaults are finite.
    pub proof fn defaults_reach_bounds()
        ensures
            Self::defaults().all_finite(),
    {
    }
}

} // verus!
