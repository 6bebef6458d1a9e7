//! Lane and row affinity knobs.
use crate::decimals::{
    D0, D0_03, D0_05, D0_06, D0_08, D0_1, D0_12, D0_14, D0_15, D0_16, D0_18, D0_2, D0_22, D0_25,
    D0_28, D0_3, D0_32, D0_34, D0_35, D0_36, D0_38, D0_4, D0_42, D0_45, D0_48, D0_5, D0_55, D0_58,
    D0_6, D0_62, D0_65, D0_68, D0_7, D0_75, D0_8, D0_85, D0_9, D0_92, D0_95, D1, D1_05, D1_25,
    D1_35, D1_5, D2, D2_5, D3, D4, D5, D6, D8, D12, D18, D20, D24, D30, D35, D40, D42, D55, D70,
    D72, D80, D96, D110, D120, D140, D160, D220,
};
use crate::number::Real64;
use crate::tunables::{
    Fault, Notice, checked, checked_count, checked_order, checked_shows_range, fitted,
    fitted_count, fitted_is_within, noticed, noticed_count, noticed_order, sanitize_f64,
    sanitize_usize, validate_f64, validate_usize, within,
};
use vstd::prelude::*;

verus! {

/// Lane and row affinity on the fine pitch grid.
#[derive(Clone, Copy, Debug)]
pub struct LaneAffinityTunables {
    pub goalkeeper_neutral_score: Real64,
    pub goalkeeper_home_lane_weight: Real64,
    pub defender_lane_radius_possession: usize,
    pub defender_lane_radius_defense: usize,
    pub midfielder_lane_radius_possession: usize,
    pub midfielder_lane_radius_defense: usize,
    pub forward_lane_radius: usize,
    pub defender_commitment_possession: Real64,
    pub defender_commitment_defense: Real64,
    pub midfielder_commitment_possession: Real64,
    pub midfielder_commitment_defense: Real64,
    pub forward_commitment_possession: Real64,
    pub forward_commitment_defense: Real64,
    pub commitment_relief_max: Real64,
    pub lane_gap_base_penalty: Real64,
    pub lane_gap_step_penalty: Real64,
    pub possession_factor: Real64,
    pub markov_relief_max: Real64,
    pub ball_speed_clamp_yps: Real64,
    pub ball_acceleration_clamp_yps2: Real64,
    pub lookahead_base_seconds: Real64,
    pub lookahead_speed_scale_yps: Real64,
    pub lookahead_acceleration_scale_yps2: Real64,
    pub lookahead_min_seconds: Real64,
    pub lookahead_max_seconds: Real64,
    pub lane_match_span_lanes: Real64,
    pub row_match_span_rows: Real64,
    pub home_lane_match_span_lanes: Real64,
    pub player_predicted_lane_weight: Real64,
    pub home_predicted_lane_weight: Real64,
    pub player_current_lane_weight: Real64,
    pub target_predicted_lane_weight: Real64,
    pub target_current_lane_weight: Real64,
    pub player_predicted_row_weight: Real64,
    pub home_predicted_row_weight: Real64,
    pub target_predicted_row_weight: Real64,
    pub target_current_row_weight: Real64,
    pub flow_base_score: Real64,
    pub flow_gap_weight: Real64,
    pub flow_min_score: Real64,
    pub flow_max_score: Real64,
    pub field_teammate_space_weight: Real64,
    pub field_open_space_weight: Real64,
    pub field_open_space_normalizer_yards: Real64,
    pub forward_static_fit_weight: Real64,
    pub forward_player_ball_weight: Real64,
    pub forward_target_ball_weight: Real64,
    pub forward_row_coherence_weight: Real64,
    pub forward_flow_weight: Real64,
    pub forward_field_config_weight: Real64,
    pub forward_home_lane_weight: Real64,
    pub role_markov_weight: Real64,
    pub role_static_fit_weight: Real64,
    pub role_player_ball_weight: Real64,
    pub role_target_ball_weight: Real64,
    pub role_row_coherence_weight: Real64,
    pub role_flow_weight: Real64,
    pub role_field_config_weight: Real64,
    pub role_home_lane_weight: Real64,
    pub open_space_dynamic_lane_bonus_weight: Real64,
    pub movement_shape_dynamic_lane_weight: Real64,
}

impl Default for LaneAffinityTunables {
    fn default() -> (r: Self)
        ensures
            r == Self::defaults(),
    {
        LaneAffinityTunables {
            goalkeeper_neutral_score: Real64 { bits: D0_5 },
            goalkeeper_home_lane_weight: Real64 { bits: D0_35 },
            defender_lane_radius_possession: 2,
            defender_lane_radius_defense: 1,
            midfielder_lane_radius_possession: 2,
            midfielder_lane_radius_defense: 1,
            forward_lane_radius: 3,
            defender_commitment_possession: Real64 { bits: D0_8 },
            defender_commitment_defense: Real64 { bits: D0_92 },
            midfielder_commitment_possession: Real64 { bits: D0_8 },
            midfielder_commitment_defense: Real64 { bits: D0_9 },
            forward_commitment_possession: Real64 { bits: D0_36 },
            forward_commitment_defense: Real64 { bits: D0_4 },
            commitment_relief_max: Real64 { bits: D0_65 },
            lane_gap_base_penalty: Real64 { bits: D0_58 },
            lane_gap_step_penalty: Real64 { bits: D0_22 },
            possession_factor: Real64 { bits: D0_8 },
            markov_relief_max: Real64 { bits: D0_85 },
            ball_speed_clamp_yps: Real64 { bits: D42 },
            ball_acceleration_clamp_yps2: Real64 { bits: D72 },
            lookahead_base_seconds: Real64 { bits: D0_45 },
            lookahead_speed_scale_yps: Real64 { bits: D42 },
            lookahead_acceleration_scale_yps2: Real64 { bits: D96 },
            lookahead_min_seconds: Real64 { bits: D0_45 },
            lookahead_max_seconds: Real64 { bits: D1_35 },
            lane_match_span_lanes: Real64 { bits: D5 },
            row_match_span_rows: Real64 { bits: D8 },
            home_lane_match_span_lanes: Real64 { bits: D3 },
            player_predicted_lane_weight: Real64 { bits: D0_48 },
            home_predicted_lane_weight: Real64 { bits: D0_34 },
            player_current_lane_weight: Real64 { bits: D0_18 },
            target_predicted_lane_weight: Real64 { bits: D0_68 },
            target_current_lane_weight: Real64 { bits: D0_32 },
            player_predicted_row_weight: Real64 { bits: D0_42 },
            home_predicted_row_weight: Real64 { bits: D0_18 },
            target_predicted_row_weight: Real64 { bits: D0_28 },
            target_current_row_weight: Real64 { bits: D0_12 },
            flow_base_score: Real64 { bits: D0_5 },
            flow_gap_weight: Real64 { bits: D0_18 },
            flow_min_score: Real64 { bits: D0_15 },
            flow_max_score: Real64 { bits: D0_85 },
            field_teammate_space_weight: Real64 { bits: D0_62 },
            field_open_space_weight: Real64 { bits: D0_38 },
            field_open_space_normalizer_yards: Real64 { bits: D18 },
            forward_static_fit_weight: Real64 { bits: D0_38 },
            forward_player_ball_weight: Real64 { bits: D0_18 },
            forward_target_ball_weight: Real64 { bits: D0_14 },
            forward_row_coherence_weight: Real64 { bits: D0_08 },
            forward_flow_weight: Real64 { bits: D0_06 },
            forward_field_config_weight: Real64 { bits: D0_1 },
            forward_home_lane_weight: Real64 { bits: D0_16 },
            role_markov_weight: Real64 { bits: D0_34 },
            role_static_fit_weight: Real64 { bits: D0_3 },
            role_player_ball_weight: Real64 { bits: D0_16 },
            role_target_ball_weight: Real64 { bits: D0_08 },
            role_row_coherence_weight: Real64 { bits: D0_06 },
            role_flow_weight: Real64 { bits: D0_03 },
            role_field_config_weight: Real64 { bits: D0_03 },
            role_home_lane_weight: Real64 { bits: D0_2 },
            open_space_dynamic_lane_bonus_weight: Real64 { bits: D1_05 },
            movement_shape_dynamic_lane_weight: Real64 { bits: D0_36 },
        }
    }
}

impl LaneAffinityTunables {
    /// The default of every knob.
    pub open spec fn defaults() -> Self {
        LaneAffinityTunables {
            goalkeeper_neutral_score: Real64 { bits: D0_5 },
            goalkeeper_home_lane_weight: Real64 { bits: D0_35 },
            defender_lane_radius_possession: 2,
            defender_lane_radius_defense: 1,
            midfielder_lane_radius_possession: 2,
            midfielder_lane_radius_defense: 1,
            forward_lane_radius: 3,
            defender_commitment_possession: Real64 { bits: D0_8 },
            defender_commitment_defense: Real64 { bits: D0_92 },
            midfielder_commitment_possession: Real64 { bits: D0_8 },
            midfielder_commitment_defense: Real64 { bits: D0_9 },
            forward_commitment_possession: Real64 { bits: D0_36 },
            forward_commitment_defense: Real64 { bits: D0_4 },
            commitment_relief_max: Real64 { bits: D0_65 },
            lane_gap_base_penalty: Real64 { bits: D0_58 },
            lane_gap_step_penalty: Real64 { bits: D0_22 },
            possession_factor: Real64 { bits: D0_8 },
            markov_relief_max: Real64 { bits: D0_85 },
            ball_speed_clamp_yps: Real64 { bits: D42 },
            ball_acceleration_clamp_yps2: Real64 { bits: D72 },
            lookahead_base_seconds: Real64 { bits: D0_45 },
            lookahead_speed_scale_yps: Real64 { bits: D42 },
            lookahead_acceleration_scale_yps2: Real64 { bits: D96 },
            lookahead_min_seconds: Real64 { bits: D0_45 },
            lookahead_max_seconds: Real64 { bits: D1_35 },
            lane_match_span_lanes: Real64 { bits: D5 },
            row_match_span_rows: Real64 { bits: D8 },
            home_lane_match_span_lanes: Real64 { bits: D3 },
            player_predicted_lane_weight: Real64 { bits: D0_48 },
            home_predicted_lane_weight: Real64 { bits: D0_34 },
            player_current_lane_weight: Real64 { bits: D0_18 },
            target_predicted_lane_weight: Real64 { bits: D0_68 },
            target_current_lane_weight: Real64 { bits: D0_32 },
            player_predicted_row_weight: Real64 { bits: D0_42 },
            home_predicted_row_weight: Real64 { bits: D0_18 },
            target_predicted_row_weight: Real64 { bits: D0_28 },
            target_current_row_weight: Real64 { bits: D0_12 },
            flow_base_score: Real64 { bits: D0_5 },
            flow_gap_weight: Real64 { bits: D0_18 },
            flow_min_score: Real64 { bits: D0_15 },
            flow_max_score: Real64 { bits: D0_85 },
            field_teammate_space_weight: Real64 { bits: D0_62 },
            field_open_space_weight: Real64 { bits: D0_38 },
            field_open_space_normalizer_yards: Real64 { bits: D18 },
            forward_static_fit_weight: Real64 { bits: D0_38 },
            forward_player_ball_weight: Real64 { bits: D0_18 },
            forward_target_ball_weight: Real64 { bits: D0_14 },
            forward_row_coherence_weight: Real64 { bits: D0_08 },
            forward_flow_weight: Real64 { bits: D0_06 },
            forward_field_config_weight: Real64 { bits: D0_1 },
            forward_home_lane_weight: Real64 { bits: D0_16 },
            role_markov_weight: Real64 { bits: D0_34 },
            role_static_fit_weight: Real64 { bits: D0_3 },
            role_player_ball_weight: Real64 { bits: D0_16 },
            role_target_ball_weight: Real64 { bits: D0_08 },
            role_row_coherence_weight: Real64 { bits: D0_06 },
            role_flow_weight: Real64 { bits: D0_03 },
            role_field_config_weight: Real64 { bits: D0_03 },
            role_home_lane_weight: Real64 { bits: D0_2 },
            open_space_dynamic_lane_bonus_weight: Real64 { bits: D1_05 },
            movement_shape_dynamic_lane_weight: Real64 { bits: D0_36 },
        }
    }

    /// Every knob on its own put inside its hard range.
    pub open spec fn clamped(self) -> Self {
        LaneAffinityTunables {
            goalkeeper_neutral_score: fitted(self.goalkeeper_neutral_score, D0_5, D0, D1),
            goalkeeper_home_lane_weight: fitted(self.goalkeeper_home_lane_weight, D0_35, D0, D1),
            defender_lane_radius_possession: fitted_count(
                self.defender_lane_radius_possession,
                0,
                6,
            ),
            defender_lane_radius_defense: fitted_count(self.defender_lane_radius_defense, 0, 6),
            midfielder_lane_radius_possession: fitted_count(
                self.midfielder_lane_radius_possession,
                0,
                6,
            ),
            midfielder_lane_radius_defense: fitted_count(self.midfielder_lane_radius_defense, 0, 6),
            forward_lane_radius: fitted_count(self.forward_lane_radius, 0, 6),
            defender_commitment_possession: fitted(
                self.defender_commitment_possession,
                D0_8,
                D0,
                D1,
            ),
            defender_commitment_defense: fitted(self.defender_commitment_defense, D0_92, D0, D1),
            midfielder_commitment_possession: fitted(
                self.midfielder_commitment_possession,
                D0_8,
                D0,
                D1,
            ),
            midfielder_commitment_defense: fitted(self.midfielder_commitment_defense, D0_9, D0, D1),
            forward_commitment_possession: fitted(
                self.forward_commitment_possession,
                D0_36,
                D0,
                D1,
            ),
            forward_commitment_defense: fitted(self.forward_commitment_defense, D0_4, D0, D1),
            commitment_relief_max: fitted(self.commitment_relief_max, D0_65, D0, D1),
            lane_gap_base_penalty: fitted(self.lane_gap_base_penalty, D0_58, D0, D2),
            lane_gap_step_penalty: fitted(self.lane_gap_step_penalty, D0_22, D0, D1),
            possession_factor: fitted(self.possession_factor, D0_8, D0, D1),
            markov_relief_max: fitted(self.markov_relief_max, D0_85, D0, D1),
            ball_speed_clamp_yps: fitted(self.ball_speed_clamp_yps, D42, D1, D80),
            ball_acceleration_clamp_yps2: fitted(self.ball_acceleration_clamp_yps2, D72, D1, D160),
            lookahead_base_seconds: fitted(self.lookahead_base_seconds, D0_45, D0, D5),
            lookahead_speed_scale_yps: fitted(self.lookahead_speed_scale_yps, D42, D1, D120),
            lookahead_acceleration_scale_yps2: fitted(
                self.lookahead_acceleration_scale_yps2,
                D96,
                D1,
                D220,
            ),
            lookahead_min_seconds: fitted(self.lookahead_min_seconds, D0_45, D0, D5),
            lookahead_max_seconds: fitted(self.lookahead_max_seconds, D1_35, D0, D5),
            lane_match_span_lanes: fitted(self.lane_match_span_lanes, D5, D1, D12),
            row_match_span_rows: fitted(self.row_match_span_rows, D8, D1, D24),
            home_lane_match_span_lanes: fitted(self.home_lane_match_span_lanes, D3, D1, D12),
            player_predicted_lane_weight: fitted(self.player_predicted_lane_weight, D0_48, D0, D5),
            home_predicted_lane_weight: fitted(self.home_predicted_lane_weight, D0_34, D0, D5),
            player_current_lane_weight: fitted(self.player_current_lane_weight, D0_18, D0, D5),
            target_predicted_lane_weight: fitted(self.target_predicted_lane_weight, D0_68, D0, D5),
            target_current_lane_weight: fitted(self.target_current_lane_weight, D0_32, D0, D5),
            player_predicted_row_weight: fitted(self.player_predicted_row_weight, D0_42, D0, D5),
            home_predicted_row_weight: fitted(self.home_predicted_row_weight, D0_18, D0, D5),
            target_predicted_row_weight: fitted(self.target_predicted_row_weight, D0_28, D0, D5),
            target_current_row_weight: fitted(self.target_current_row_weight, D0_12, D0, D5),
            flow_base_score: fitted(self.flow_base_score, D0_5, D0, D1),
            flow_gap_weight: fitted(self.flow_gap_weight, D0_18, D0, D1),
            flow_min_score: fitted(self.flow_min_score, D0_15, D0, D1),
            flow_max_score: fitted(self.flow_max_score, D0_85, D0, D1),
            field_teammate_space_weight: fitted(self.field_teammate_space_weight, D0_62, D0, D5),
            field_open_space_weight: fitted(self.field_open_space_weight, D0_38, D0, D5),
            field_open_space_normalizer_yards: fitted(
                self.field_open_space_normalizer_yards,
                D18,
                D1,
                D80,
            ),
            forward_static_fit_weight: fitted(self.forward_static_fit_weight, D0_38, D0, D5),
            forward_player_ball_weight: fitted(self.forward_player_ball_weight, D0_18, D0, D5),
            forward_target_ball_weight: fitted(self.forward_target_ball_weight, D0_14, D0, D5),
            forward_row_coherence_weight: fitted(self.forward_row_coherence_weight, D0_08, D0, D5),
            forward_flow_weight: fitted(self.forward_flow_weight, D0_06, D0, D5),
            forward_field_config_weight: fitted(self.forward_field_config_weight, D0_1, D0, D5),
            forward_home_lane_weight: fitted(self.forward_home_lane_weight, D0_16, D0, D1),
            role_markov_weight: fitted(self.role_markov_weight, D0_34, D0, D5),
            role_static_fit_weight: fitted(self.role_static_fit_weight, D0_3, D0, D5),
            role_player_ball_weight: fitted(self.role_player_ball_weight, D0_16, D0, D5),
            role_target_ball_weight: fitted(self.role_target_ball_weight, D0_08, D0, D5),
            role_row_coherence_weight: fitted(self.role_row_coherence_weight, D0_06, D0, D5),
            role_flow_weight: fitted(self.role_flow_weight, D0_03, D0, D5),
            role_field_config_weight: fitted(self.role_field_config_weight, D0_03, D0, D5),
            role_home_lane_weight: fitted(self.role_home_lane_weight, D0_2, D0, D1),
            open_space_dynamic_lane_bonus_weight: fitted(
                self.open_space_dynamic_lane_bonus_weight,
                D1_05,
                D0,
                D5,
            ),
            movement_shape_dynamic_lane_weight: fitted(
                self.movement_shape_dynamic_lane_weight,
                D0_36,
                D0,
                D5,
            ),
        }
    }

    /// What `sanitize` makes of the knobs.
    pub open spec fn repaired(self) -> Self {
        let c = self.clamped();
        let c = if c.lookahead_max_seconds.less(c.lookahead_min_seconds) {
            LaneAffinityTunables {
                lookahead_min_seconds: c.lookahead_max_seconds,
                lookahead_max_seconds: c.lookahead_min_seconds,
                ..c
            }
        } else {
            c
        };
        let c = if c.flow_max_score.less(c.flow_min_score) {
            LaneAffinityTunables {
                flow_min_score: c.flow_max_score,
                flow_max_score: c.flow_min_score,
                ..c
            }
        } else {
            c
        };
        c
    }

    /// Every knob is finite and inside its hard range, and paired knobs are in order.
    pub open spec fn in_hard_bounds(self) -> bool {
        &&& within(self.goalkeeper_neutral_score, D0, D1)
        &&& within(self.goalkeeper_home_lane_weight, D0, D1)
        &&& 0 <= self.defender_lane_radius_possession <= 6
        &&& 0 <= self.defender_lane_radius_defense <= 6
        &&& 0 <= self.midfielder_lane_radius_possession <= 6
        &&& 0 <= self.midfielder_lane_radius_defense <= 6
        &&& 0 <= self.forward_lane_radius <= 6
        &&& within(self.defender_commitment_possession, D0, D1)
        &&& within(self.defender_commitment_defense, D0, D1)
        &&& within(self.midfielder_commitment_possession, D0, D1)
        &&& within(self.midfielder_commitment_defense, D0, D1)
        &&& within(self.forward_commitment_possession, D0, D1)
        &&& within(self.forward_commitment_defense, D0, D1)
        &&& within(self.commitment_relief_max, D0, D1)
        &&& within(self.lane_gap_base_penalty, D0, D2)
        &&& within(self.lane_gap_step_penalty, D0, D1)
        &&& within(self.possession_factor, D0, D1)
        &&& within(self.markov_relief_max, D0, D1)
        &&& within(self.ball_speed_clamp_yps, D1, D80)
        &&& within(self.ball_acceleration_clamp_yps2, D1, D160)
        &&& within(self.lookahead_base_seconds, D0, D5)
        &&& within(self.lookahead_speed_scale_yps, D1, D120)
        &&& within(self.lookahead_acceleration_scale_yps2, D1, D220)
        &&& within(self.lookahead_min_seconds, D0, D5)
        &&& within(self.lookahead_max_seconds, D0, D5)
        &&& within(self.lane_match_span_lanes, D1, D12)
        &&& within(self.row_match_span_rows, D1, D24)
        &&& within(self.home_lane_match_span_lanes, D1, D12)
        &&& within(self.player_predicted_lane_weight, D0, D5)
        &&& within(self.home_predicted_lane_weight, D0, D5)
        &&& within(self.player_current_lane_weight, D0, D5)
        &&& within(self.target_predicted_lane_weight, D0, D5)
        &&& within(self.target_current_lane_weight, D0, D5)
        &&& within(self.player_predicted_row_weight, D0, D5)
        &&& within(self.home_predicted_row_weight, D0, D5)
        &&& within(self.target_predicted_row_weight, D0, D5)
        &&& within(self.target_current_row_weight, D0, D5)
        &&& within(self.flow_base_score, D0, D1)
        &&& within(self.flow_gap_weight, D0, D1)
        &&& within(self.flow_min_score, D0, D1)
        &&& within(self.flow_max_score, D0, D1)
        &&& within(self.field_teammate_space_weight, D0, D5)
        &&& within(self.field_open_space_weight, D0, D5)
        &&& within(self.field_open_space_normalizer_yards, D1, D80)
        &&& within(self.forward_static_fit_weight, D0, D5)
        &&& within(self.forward_player_ball_weight, D0, D5)
        &&& within(self.forward_target_ball_weight, D0, D5)
        &&& within(self.forward_row_coherence_weight, D0, D5)
        &&& within(self.forward_flow_weight, D0, D5)
        &&& within(self.forward_field_config_weight, D0, D5)
        &&& within(self.forward_home_lane_weight, D0, D1)
        &&& within(self.role_markov_weight, D0, D5)
        &&& within(self.role_static_fit_weight, D0, D5)
        &&& within(self.role_player_ball_weight, D0, D5)
        &&& within(self.role_target_ball_weight, D0, D5)
        &&& within(self.role_row_coherence_weight, D0, D5)
        &&& within(self.role_flow_weight, D0, D5)
        &&& within(self.role_field_config_weight, D0, D5)
        &&& within(self.role_home_lane_weight, D0, D1)
        &&& within(self.open_space_dynamic_lane_bonus_weight, D0, D5)
        &&& within(self.movement_shape_dynamic_lane_weight, D0, D5)
        &&& !self.lookahead_max_seconds.less(self.lookahead_min_seconds)
        &&& !self.flow_max_score.less(self.flow_min_score)
    }

    /// What a repair has to say of these knobs, in the order of the fields, after the notices
    /// `found`.
    pub open spec fn notices(self, found: Seq<Notice>) -> Seq<Notice> {
        let n = found;
        let n = noticed(
            n,
            "lane_affinity.goalkeeper_neutral_score",
            self.goalkeeper_neutral_score,
            D0_5,
            D0,
            D1,
            D0_25,
            D0_75,
        );
        let n = noticed(
            n,
            "lane_affinity.goalkeeper_home_lane_weight",
            self.goalkeeper_home_lane_weight,
            D0_35,
            D0,
            D1,
            D0,
            D0_7,
        );
        let n = noticed_count(
            n,
            "lane_affinity.defender_lane_radius_possession",
            self.defender_lane_radius_possession,
            2,
            0,
            6,
            1,
            3,
        );
        let n = noticed_count(
            n,
            "lane_affinity.defender_lane_radius_defense",
            self.defender_lane_radius_defense,
            1,
            0,
            6,
            1,
            2,
        );
        let n = noticed_count(
            n,
            "lane_affinity.midfielder_lane_radius_possession",
            self.midfielder_lane_radius_possession,
            2,
            0,
            6,
            1,
            3,
        );
        let n = noticed_count(
            n,
            "lane_affinity.midfielder_lane_radius_defense",
            self.midfielder_lane_radius_defense,
            1,
            0,
            6,
            1,
            2,
        );
        let n = noticed_count(
            n,
            "lane_affinity.forward_lane_radius",
            self.forward_lane_radius,
            3,
            0,
            6,
            2,
            4,
        );
        let n = noticed(
            n,
            "lane_affinity.defender_commitment_possession",
            self.defender_commitment_possession,
            D0_8,
            D0,
            D1,
            D0_5,
            D0_95,
        );
        let n = noticed(
            n,
            "lane_affinity.defender_commitment_defense",
            self.defender_commitment_defense,
            D0_92,
            D0,
            D1,
            D0_6,
            D1,
        );
        let n = noticed(
            n,
            "lane_affinity.midfielder_commitment_possession",
            self.midfielder_commitment_possession,
            D0_8,
            D0,
            D1,
            D0_45,
            D0_95,
        );
        let n = noticed(
            n,
            "lane_affinity.midfielder_commitment_defense",
            self.midfielder_commitment_defense,
            D0_9,
            D0,
            D1,
            D0_55,
            D1,
        );
        let n = noticed(
            n,
            "lane_affinity.forward_commitment_possession",
            self.forward_commitment_possession,
            D0_36,
            D0,
            D1,
            D0_15,
            D0_65,
        );
        let n = noticed(
            n,
            "lane_affinity.forward_commitment_defense",
            self.forward_commitment_defense,
            D0_4,
            D0,
            D1,
            D0_15,
            D0_7,
        );
        let n = noticed(
            n,
            "lane_affinity.commitment_relief_max",
            self.commitment_relief_max,
            D0_65,
            D0,
            D1,
            D0_3,
            D0_85,
        );
        let n = noticed(
            n,
            "lane_affinity.lane_gap_base_penalty",
            self.lane_gap_base_penalty,
            D0_58,
            D0,
            D2,
            D0_25,
            D1,
        );
        let n = noticed(
            n,
            "lane_affinity.lane_gap_step_penalty",
            self.lane_gap_step_penalty,
            D0_22,
            D0,
            D1,
            D0_05,
            D0_45,
        );
        let n = noticed(
            n,
            "lane_affinity.possession_factor",
            self.possession_factor,
            D0_8,
            D0,
            D1,
            D0_6,
            D0_9,
        );
        let n = noticed(
            n,
            "lane_affinity.markov_relief_max",
            self.markov_relief_max,
            D0_85,
            D0,
            D1,
            D0_4,
            D0_95,
        );
        let n = noticed(
            n,
            "lane_affinity.ball_speed_clamp_yps",
            self.ball_speed_clamp_yps,
            D42,
            D1,
            D80,
            D20,
            D55,
        );
        let n = noticed(
            n,
            "lane_affinity.ball_acceleration_clamp_yps2",
            self.ball_acceleration_clamp_yps2,
            D72,
            D1,
            D160,
            D30,
            D110,
        );
        let n = noticed(
            n,
            "lane_affinity.lookahead_base_seconds",
            self.lookahead_base_seconds,
            D0_45,
            D0,
            D5,
            D0_2,
            D1_25,
        );
        let n = noticed(
            n,
            "lane_affinity.lookahead_speed_scale_yps",
            self.lookahead_speed_scale_yps,
            D42,
            D1,
            D120,
            D20,
            D70,
        );
        let n = noticed(
            n,
            "lane_affinity.lookahead_acceleration_scale_yps2",
            self.lookahead_acceleration_scale_yps2,
            D96,
            D1,
            D220,
            D40,
            D140,
        );
        let n = noticed(
            n,
            "lane_affinity.lookahead_min_seconds",
            self.lookahead_min_seconds,
            D0_45,
            D0,
            D5,
            D0_2,
            D1,
        );
        let n = noticed(
            n,
            "lane_affinity.lookahead_max_seconds",
            self.lookahead_max_seconds,
            D1_35,
            D0,
            D5,
            D0_75,
            D2_5,
        );
        let n = noticed(
            n,
            "lane_affinity.lane_match_span_lanes",
            self.lane_match_span_lanes,
            D5,
            D1,
            D12,
            D3,
            D8,
        );
        let n = noticed(
            n,
            "lane_affinity.row_match_span_rows",
            self.row_match_span_rows,
            D8,
            D1,
            D24,
            D4,
            D12,
        );
        let n = noticed(
            n,
            "lane_affinity.home_lane_match_span_lanes",
            self.home_lane_match_span_lanes,
            D3,
            D1,
            D12,
            D2,
            D6,
        );
        let n = noticed(
            n,
            "lane_affinity.player_predicted_lane_weight",
            self.player_predicted_lane_weight,
            D0_48,
            D0,
            D5,
            D0,
            D1_5,
        );
        let n = noticed(
            n,
            "lane_affinity.home_predicted_lane_weight",
            self.home_predicted_lane_weight,
            D0_34,
            D0,
            D5,
            D0,
            D1_5,
        );
        let n = noticed(
            n,
            "lane_affinity.player_current_lane_weight",
            self.player_current_lane_weight,
            D0_18,
            D0,
            D5,
            D0,
            D1_5,
        );
        let n = noticed(
            n,
            "lane_affinity.target_predicted_lane_weight",
            self.target_predicted_lane_weight,
            D0_68,
            D0,
            D5,
            D0,
            D1_5,
        );
        let n = noticed(
            n,
            "lane_affinity.target_current_lane_weight",
            self.target_current_lane_weight,
            D0_32,
            D0,
            D5,
            D0,
            D1_5,
        );
        let n = noticed(
            n,
            "lane_affinity.player_predicted_row_weight",
            self.player_predicted_row_weight,
            D0_42,
            D0,
            D5,
            D0,
            D1_5,
        );
        let n = noticed(
            n,
            "lane_affinity.home_predicted_row_weight",
            self.home_predicted_row_weight,
            D0_18,
            D0,
            D5,
            D0,
            D1_5,
        );
        let n = noticed(
            n,
            "lane_affinity.target_predicted_row_weight",
            self.target_predicted_row_weight,
            D0_28,
            D0,
            D5,
            D0,
            D1_5,
        );
        let n = noticed(
            n,
            "lane_affinity.target_current_row_weight",
            self.target_current_row_weight,
            D0_12,
            D0,
            D5,
            D0,
            D1_5,
        );
        let n = noticed(
            n,
            "lane_affinity.flow_base_score",
            self.flow_base_score,
            D0_5,
            D0,
            D1,
            D0_2,
            D0_8,
        );
        let n = noticed(
            n,
            "lane_affinity.flow_gap_weight",
            self.flow_gap_weight,
            D0_18,
            D0,
            D1,
            D0_05,
            D0_4,
        );
        let n = noticed(
            n,
            "lane_affinity.flow_min_score",
            self.flow_min_score,
            D0_15,
            D0,
            D1,
            D0,
            D0_45,
        );
        let n = noticed(
            n,
            "lane_affinity.flow_max_score",
            self.flow_max_score,
            D0_85,
            D0,
            D1,
            D0_55,
            D1,
        );
        let n = noticed(
            n,
            "lane_affinity.field_teammate_space_weight",
            self.field_teammate_space_weight,
            D0_62,
            D0,
            D5,
            D0,
            D1_5,
        );
        let n = noticed(
            n,
            "lane_affinity.field_open_space_weight",
            self.field_open_space_weight,
            D0_38,
            D0,
            D5,
            D0,
            D1_5,
        );
        let n = noticed(
            n,
            "lane_affinity.field_open_space_normalizer_yards",
            self.field_open_space_normalizer_yards,
            D18,
            D1,
            D80,
            D8,
            D35,
        );
        let n = noticed(
            n,
            "lane_affinity.forward_static_fit_weight",
            self.forward_static_fit_weight,
            D0_38,
            D0,
            D5,
            D0,
            D1_5,
        );
        let n = noticed(
            n,
            "lane_affinity.forward_player_ball_weight",
            self.forward_player_ball_weight,
            D0_18,
            D0,
            D5,
            D0,
            D1_5,
        );
        let n = noticed(
            n,
            "lane_affinity.forward_target_ball_weight",
            self.forward_target_ball_weight,
            D0_14,
            D0,
            D5,
            D0,
            D1_5,
        );
        let n = noticed(
            n,
            "lane_affinity.forward_row_coherence_weight",
            self.forward_row_coherence_weight,
            D0_08,
            D0,
            D5,
            D0,
            D1_5,
        );
        let n = noticed(
            n,
            "lane_affinity.forward_flow_weight",
            self.forward_flow_weight,
            D0_06,
            D0,
            D5,
            D0,
            D1_5,
        );
        let n = noticed(
            n,
            "lane_affinity.forward_field_config_weight",
            self.forward_field_config_weight,
            D0_1,
            D0,
            D5,
            D0,
            D1_5,
        );
        let n = noticed(
            n,
            "lane_affinity.forward_home_lane_weight",
            self.forward_home_lane_weight,
            D0_16,
            D0,
            D1,
            D0,
            D0_45,
        );
        let n = noticed(
            n,
            "lane_affinity.role_markov_weight",
            self.role_markov_weight,
            D0_34,
            D0,
            D5,
            D0,
            D1_5,
        );
        let n = noticed(
            n,
            "lane_affinity.role_static_fit_weight",
            self.role_static_fit_weight,
            D0_3,
            D0,
            D5,
            D0,
            D1_5,
        );
        let n = noticed(
            n,
            "lane_affinity.role_player_ball_weight",
            self.role_player_ball_weight,
            D0_16,
            D0,
            D5,
            D0,
            D1_5,
        );
        let n = noticed(
            n,
            "lane_affinity.role_target_ball_weight",
            self.role_target_ball_weight,
            D0_08,
            D0,
            D5,
            D0,
            D1_5,
        );
        let n = noticed(
            n,
            "lane_affinity.role_row_coherence_weight",
            self.role_row_coherence_weight,
            D0_06,
            D0,
            D5,
            D0,
            D1_5,
        );
        let n = noticed(
            n,
            "lane_affinity.role_flow_weight",
            self.role_flow_weight,
            D0_03,
            D0,
            D5,
            D0,
            D1_5,
        );
        let n = noticed(
            n,
            "lane_affinity.role_field_config_weight",
            self.role_field_config_weight,
            D0_03,
            D0,
            D5,
            D0,
            D1_5,
        );
        let n = noticed(
            n,
            "lane_affinity.role_home_lane_weight",
            self.role_home_lane_weight,
            D0_2,
            D0,
            D1,
            D0,
            D0_55,
        );
        let n = noticed(
            n,
            "lane_affinity.open_space_dynamic_lane_bonus_weight",
            self.open_space_dynamic_lane_bonus_weight,
            D1_05,
            D0,
            D5,
            D0_2,
            D2,
        );
        let n = noticed(
            n,
            "lane_affinity.movement_shape_dynamic_lane_weight",
            self.movement_shape_dynamic_lane_weight,
            D0_36,
            D0,
            D5,
            D0_1,
            D1,
        );
        let c = self.clamped();
        let n = noticed_order(
            n,
            c.lookahead_max_seconds.less(c.lookahead_min_seconds),
            "lane_affinity lookahead min exceeded max; swapping",
        );
        noticed_order(
            n,
            c.flow_max_score.less(c.flow_min_score),
            "lane_affinity flow min exceeded max; swapping",
        )
    }

    /// Puts every knob inside its hard range and brings paired knobs into order. Notes every
    /// knob that was moved, or that lies outside its sane range.
    pub fn sanitize(&mut self, notices: &mut Vec<Notice>)
        ensures
            *final(self) == old(self).repaired(),
            final(notices)@ == old(self).notices(old(notices)@),
    {
        sanitize_f64(
            "lane_affinity.goalkeeper_neutral_score",
            &mut self.goalkeeper_neutral_score,
            D0_5,
            D0,
            D1,
            D0_25,
            D0_75,
            notices,
        );
        sanitize_f64(
            "lane_affinity.goalkeeper_home_lane_weight",
            &mut self.goalkeeper_home_lane_weight,
            D0_35,
            D0,
            D1,
            D0,
            D0_7,
            notices,
        );
        sanitize_usize(
            "lane_affinity.defender_lane_radius_possession",
            &mut self.defender_lane_radius_possession,
            2,
            0,
            6,
            1,
            3,
            notices,
        );
        sanitize_usize(
            "lane_affinity.defender_lane_radius_defense",
            &mut self.defender_lane_radius_defense,
            1,
            0,
            6,
            1,
            2,
            notices,
        );
        sanitize_usize(
            "lane_affinity.midfielder_lane_radius_possession",
            &mut self.midfielder_lane_radius_possession,
            2,
            0,
            6,
            1,
            3,
            notices,
        );
        sanitize_usize(
            "lane_affinity.midfielder_lane_radius_defense",
            &mut self.midfielder_lane_radius_defense,
            1,
            0,
            6,
            1,
            2,
            notices,
        );
        sanitize_usize(
            "lane_affinity.forward_lane_radius",
            &mut self.forward_lane_radius,
            3,
            0,
            6,
            2,
            4,
            notices,
        );
        sanitize_f64(
            "lane_affinity.defender_commitment_possession",
            &mut self.defender_commitment_possession,
            D0_8,
            D0,
            D1,
            D0_5,
            D0_95,
            notices,
        );
        sanitize_f64(
            "lane_affinity.defender_commitment_defense",
            &mut self.defender_commitment_defense,
            D0_92,
            D0,
            D1,
            D0_6,
            D1,
            notices,
        );
        sanitize_f64(
            "lane_affinity.midfielder_commitment_possession",
            &mut self.midfielder_commitment_possession,
            D0_8,
            D0,
            D1,
            D0_45,
            D0_95,
            notices,
        );
        sanitize_f64(
            "lane_affinity.midfielder_commitment_defense",
            &mut self.midfielder_commitment_defense,
            D0_9,
            D0,
            D1,
            D0_55,
            D1,
            notices,
        );
        sanitize_f64(
            "lane_affinity.forward_commitment_possession",
            &mut self.forward_commitment_possession,
            D0_36,
            D0,
            D1,
            D0_15,
            D0_65,
            notices,
        );
        sanitize_f64(
            "lane_affinity.forward_commitment_defense",
            &mut self.forward_commitment_defense,
            D0_4,
            D0,
            D1,
            D0_15,
            D0_7,
            notices,
        );
        sanitize_f64(
            "lane_affinity.commitment_relief_max",
            &mut self.commitment_relief_max,
            D0_65,
            D0,
            D1,
            D0_3,
            D0_85,
            notices,
        );
        sanitize_f64(
            "lane_affinity.lane_gap_base_penalty",
            &mut self.lane_gap_base_penalty,
            D0_58,
            D0,
            D2,
            D0_25,
            D1,
            notices,
        );
        sanitize_f64(
            "lane_affinity.lane_gap_step_penalty",
            &mut self.lane_gap_step_penalty,
            D0_22,
            D0,
            D1,
            D0_05,
            D0_45,
            notices,
        );
        sanitize_f64(
            "lane_affinity.possession_factor",
            &mut self.possession_factor,
            D0_8,
            D0,
            D1,
            D0_6,
            D0_9,
            notices,
        );
        sanitize_f64(
            "lane_affinity.markov_relief_max",
            &mut self.markov_relief_max,
            D0_85,
            D0,
            D1,
            D0_4,
            D0_95,
            notices,
        );
        sanitize_f64(
            "lane_affinity.ball_speed_clamp_yps",
            &mut self.ball_speed_clamp_yps,
            D42,
            D1,
            D80,
            D20,
            D55,
            notices,
        );
        sanitize_f64(
            "lane_affinity.ball_acceleration_clamp_yps2",
            &mut self.ball_acceleration_clamp_yps2,
            D72,
            D1,
            D160,
            D30,
            D110,
            notices,
        );
        sanitize_f64(
            "lane_affinity.lookahead_base_seconds",
            &mut self.lookahead_base_seconds,
            D0_45,
            D0,
            D5,
            D0_2,
            D1_25,
            notices,
        );
        sanitize_f64(
            "lane_affinity.lookahead_speed_scale_yps",
            &mut self.lookahead_speed_scale_yps,
            D42,
            D1,
            D120,
            D20,
            D70,
            notices,
        );
        sanitize_f64(
            "lane_affinity.lookahead_acceleration_scale_yps2",
            &mut self.lookahead_acceleration_scale_yps2,
            D96,
            D1,
            D220,
            D40,
            D140,
            notices,
        );
        sanitize_f64(
            "lane_affinity.lookahead_min_seconds",
            &mut self.lookahead_min_seconds,
            D0_45,
            D0,
            D5,
            D0_2,
            D1,
            notices,
        );
        sanitize_f64(
            "lane_affinity.lookahead_max_seconds",
            &mut self.lookahead_max_seconds,
            D1_35,
            D0,
            D5,
            D0_75,
            D2_5,
            notices,
        );
        sanitize_f64(
            "lane_affinity.lane_match_span_lanes",
            &mut self.lane_match_span_lanes,
            D5,
            D1,
            D12,
            D3,
            D8,
            notices,
        );
        sanitize_f64(
            "lane_affinity.row_match_span_rows",
            &mut self.row_match_span_rows,
            D8,
            D1,
            D24,
            D4,
            D12,
            notices,
        );
        sanitize_f64(
            "lane_affinity.home_lane_match_span_lanes",
            &mut self.home_lane_match_span_lanes,
            D3,
            D1,
            D12,
            D2,
            D6,
            notices,
        );
        sanitize_f64(
            "lane_affinity.player_predicted_lane_weight",
            &mut self.player_predicted_lane_weight,
            D0_48,
            D0,
            D5,
            D0,
            D1_5,
            notices,
        );
        sanitize_f64(
            "lane_affinity.home_predicted_lane_weight",
            &mut self.home_predicted_lane_weight,
            D0_34,
            D0,
            D5,
            D0,
            D1_5,
            notices,
        );
        sanitize_f64(
            "lane_affinity.player_current_lane_weight",
            &mut self.player_current_lane_weight,
            D0_18,
            D0,
            D5,
            D0,
            D1_5,
            notices,
        );
        sanitize_f64(
            "lane_affinity.target_predicted_lane_weight",
            &mut self.target_predicted_lane_weight,
            D0_68,
            D0,
            D5,
            D0,
            D1_5,
            notices,
        );
        sanitize_f64(
            "lane_affinity.target_current_lane_weight",
            &mut self.target_current_lane_weight,
            D0_32,
            D0,
            D5,
            D0,
            D1_5,
            notices,
        );
        sanitize_f64(
            "lane_affinity.player_predicted_row_weight",
            &mut self.player_predicted_row_weight,
            D0_42,
            D0,
            D5,
            D0,
            D1_5,
            notices,
        );
        sanitize_f64(
            "lane_affinity.home_predicted_row_weight",
            &mut self.home_predicted_row_weight,
            D0_18,
            D0,
            D5,
            D0,
            D1_5,
            notices,
        );
        sanitize_f64(
            "lane_affinity.target_predicted_row_weight",
            &mut self.target_predicted_row_weight,
            D0_28,
            D0,
            D5,
            D0,
            D1_5,
            notices,
        );
        sanitize_f64(
            "lane_affinity.target_current_row_weight",
            &mut self.target_current_row_weight,
            D0_12,
            D0,
            D5,
            D0,
            D1_5,
            notices,
        );
        sanitize_f64(
            "lane_affinity.flow_base_score",
            &mut self.flow_base_score,
            D0_5,
            D0,
            D1,
            D0_2,
            D0_8,
            notices,
        );
        sanitize_f64(
            "lane_affinity.flow_gap_weight",
            &mut self.flow_gap_weight,
            D0_18,
            D0,
            D1,
            D0_05,
            D0_4,
            notices,
        );
        sanitize_f64(
            "lane_affinity.flow_min_score",
            &mut self.flow_min_score,
            D0_15,
            D0,
            D1,
            D0,
            D0_45,
            notices,
        );
        sanitize_f64(
            "lane_affinity.flow_max_score",
            &mut self.flow_max_score,
            D0_85,
            D0,
            D1,
            D0_55,
            D1,
            notices,
        );
        sanitize_f64(
            "lane_affinity.field_teammate_space_weight",
            &mut self.field_teammate_space_weight,
            D0_62,
            D0,
            D5,
            D0,
            D1_5,
            notices,
        );
        sanitize_f64(
            "lane_affinity.field_open_space_weight",
            &mut self.field_open_space_weight,
            D0_38,
            D0,
            D5,
            D0,
            D1_5,
            notices,
        );
        sanitize_f64(
            "lane_affinity.field_open_space_normalizer_yards",
            &mut self.field_open_space_normalizer_yards,
            D18,
            D1,
            D80,
            D8,
            D35,
            notices,
        );
        sanitize_f64(
            "lane_affinity.forward_static_fit_weight",
            &mut self.forward_static_fit_weight,
            D0_38,
            D0,
            D5,
            D0,
            D1_5,
            notices,
        );
        sanitize_f64(
            "lane_affinity.forward_player_ball_weight",
            &mut self.forward_player_ball_weight,
            D0_18,
            D0,
            D5,
            D0,
            D1_5,
            notices,
        );
        sanitize_f64(
            "lane_affinity.forward_target_ball_weight",
            &mut self.forward_target_ball_weight,
            D0_14,
            D0,
            D5,
            D0,
            D1_5,
            notices,
        );
        sanitize_f64(
            "lane_affinity.forward_row_coherence_weight",
            &mut self.forward_row_coherence_weight,
            D0_08,
            D0,
            D5,
            D0,
            D1_5,
            notices,
        );
        sanitize_f64(
            "lane_affinity.forward_flow_weight",
            &mut self.forward_flow_weight,
            D0_06,
            D0,
            D5,
            D0,
            D1_5,
            notices,
        );
        sanitize_f64(
            "lane_affinity.forward_field_config_weight",
            &mut self.forward_field_config_weight,
            D0_1,
            D0,
            D5,
            D0,
            D1_5,
            notices,
        );
        sanitize_f64(
            "lane_affinity.forward_home_lane_weight",
            &mut self.forward_home_lane_weight,
            D0_16,
            D0,
            D1,
            D0,
            D0_45,
            notices,
        );
        sanitize_f64(
            "lane_affinity.role_markov_weight",
            &mut self.role_markov_weight,
            D0_34,
            D0,
            D5,
            D0,
            D1_5,
            notices,
        );
        sanitize_f64(
            "lane_affinity.role_static_fit_weight",
            &mut self.role_static_fit_weight,
            D0_3,
            D0,
            D5,
            D0,
            D1_5,
            notices,
        );
        sanitize_f64(
            "lane_affinity.role_player_ball_weight",
            &mut self.role_player_ball_weight,
            D0_16,
            D0,
            D5,
            D0,
            D1_5,
            notices,
        );
        sanitize_f64(
            "lane_affinity.role_target_ball_weight",
            &mut self.role_target_ball_weight,
            D0_08,
            D0,
            D5,
            D0,
            D1_5,
            notices,
        );
        sanitize_f64(
            "lane_affinity.role_row_coherence_weight",
            &mut self.role_row_coherence_weight,
            D0_06,
            D0,
            D5,
            D0,
            D1_5,
            notices,
        );
        sanitize_f64(
            "lane_affinity.role_flow_weight",
            &mut self.role_flow_weight,
            D0_03,
            D0,
            D5,
            D0,
            D1_5,
            notices,
        );
        sanitize_f64(
            "lane_affinity.role_field_config_weight",
            &mut self.role_field_config_weight,
            D0_03,
            D0,
            D5,
            D0,
            D1_5,
            notices,
        );
        sanitize_f64(
            "lane_affinity.role_home_lane_weight",
            &mut self.role_home_lane_weight,
            D0_2,
            D0,
            D1,
            D0,
            D0_55,
            notices,
        );
        sanitize_f64(
            "lane_affinity.open_space_dynamic_lane_bonus_weight",
            &mut self.open_space_dynamic_lane_bonus_weight,
            D1_05,
            D0,
            D5,
            D0_2,
            D2,
            notices,
        );
        sanitize_f64(
            "lane_affinity.movement_shape_dynamic_lane_weight",
            &mut self.movement_shape_dynamic_lane_weight,
            D0_36,
            D0,
            D5,
            D0_1,
            D1,
            notices,
        );
        if self.lookahead_max_seconds.is_below(self.lookahead_min_seconds) {
            notices.push(
                Notice::Reordered {
                    what: "lane_affinity lookahead min exceeded max; swapping",
                },
            );
            let low: Real64 = self.lookahead_max_seconds;
            self.lookahead_max_seconds = self.lookahead_min_seconds;
            self.lookahead_min_seconds = low;
        }
        if self.flow_max_score.is_below(self.flow_min_score) {
            notices.push(
                Notice::Reordered {
                    what: "lane_affinity flow min exceeded max; swapping",
                },
            );
            let low: Real64 = self.flow_max_score;
            self.flow_max_score = self.flow_min_score;
            self.flow_min_score = low;
        }
    }

    /// The faults of these knobs, in the order of the fields, after the faults `found`.
    pub open spec fn faults(self, prefix: &'static str, found: Seq<Fault>) -> Seq<Fault> {
        let e = found;
        let e = checked(
            e,
            prefix,
            "goalkeeper_neutral_score",
            self.goalkeeper_neutral_score,
            D0,
            D1,
        );
        let e = checked(
            e,
            prefix,
            "goalkeeper_home_lane_weight",
            self.goalkeeper_home_lane_weight,
            D0,
            D1,
        );
        let e = checked_count(
            e,
            prefix,
            "defender_lane_radius_possession",
            self.defender_lane_radius_possession,
            0,
            6,
        );
        let e = checked_count(
            e,
            prefix,
            "defender_lane_radius_defense",
            self.defender_lane_radius_defense,
            0,
            6,
        );
        let e = checked_count(
            e,
            prefix,
            "midfielder_lane_radius_possession",
            self.midfielder_lane_radius_possession,
            0,
            6,
        );
        let e = checked_count(
            e,
            prefix,
            "midfielder_lane_radius_defense",
            self.midfielder_lane_radius_defense,
            0,
            6,
        );
        let e = checked_count(e, prefix, "forward_lane_radius", self.forward_lane_radius, 0, 6);
        let e = checked(
            e,
            prefix,
            "defender_commitment_possession",
            self.defender_commitment_possession,
            D0,
            D1,
        );
        let e = checked(
            e,
            prefix,
            "defender_commitment_defense",
            self.defender_commitment_defense,
            D0,
            D1,
        );
        let e = checked(
            e,
            prefix,
            "midfielder_commitment_possession",
            self.midfielder_commitment_possession,
            D0,
            D1,
        );
        let e = checked(
            e,
            prefix,
            "midfielder_commitment_defense",
            self.midfielder_commitment_defense,
            D0,
            D1,
        );
        let e = checked(
            e,
            prefix,
            "forward_commitment_possession",
            self.forward_commitment_possession,
            D0,
            D1,
        );
        let e = checked(
            e,
            prefix,
            "forward_commitment_defense",
            self.forward_commitment_defense,
            D0,
            D1,
        );
        let e = checked(e, prefix, "commitment_relief_max", self.commitment_relief_max, D0, D1);
        let e = checked(e, prefix, "lane_gap_base_penalty", self.lane_gap_base_penalty, D0, D2);
        let e = checked(e, prefix, "lane_gap_step_penalty", self.lane_gap_step_penalty, D0, D1);
        let e = checked(e, prefix, "possession_factor", self.possession_factor, D0, D1);
        let e = checked(e, prefix, "markov_relief_max", self.markov_relief_max, D0, D1);
        let e = checked(e, prefix, "ball_speed_clamp_yps", self.ball_speed_clamp_yps, D1, D80);
        let e = checked(
            e,
            prefix,
            "ball_acceleration_clamp_yps2",
            self.ball_acceleration_clamp_yps2,
            D1,
            D160,
        );
        let e = checked(e, prefix, "lookahead_base_seconds", self.lookahead_base_seconds, D0, D5);
        let e = checked(
            e,
            prefix,
            "lookahead_speed_scale_yps",
            self.lookahead_speed_scale_yps,
            D1,
            D120,
        );
        let e = checked(
            e,
            prefix,
            "lookahead_acceleration_scale_yps2",
            self.lookahead_acceleration_scale_yps2,
            D1,
            D220,
        );
        let e = checked(e, prefix, "lookahead_min_seconds", self.lookahead_min_seconds, D0, D5);
        let e = checked(e, prefix, "lookahead_max_seconds", self.lookahead_max_seconds, D0, D5);
        let e = checked(e, prefix, "lane_match_span_lanes", self.lane_match_span_lanes, D1, D12);
        let e = checked(e, prefix, "row_match_span_rows", self.row_match_span_rows, D1, D24);
        let e = checked(
            e,
            prefix,
            "home_lane_match_span_lanes",
            self.home_lane_match_span_lanes,
            D1,
            D12,
        );
        let e = checked(
            e,
            prefix,
            "player_predicted_lane_weight",
            self.player_predicted_lane_weight,
            D0,
            D5,
        );
        let e = checked(
            e,
            prefix,
            "home_predicted_lane_weight",
            self.home_predicted_lane_weight,
            D0,
            D5,
        );
        let e = checked(
            e,
            prefix,
            "player_current_lane_weight",
            self.player_current_lane_weight,
            D0,
            D5,
        );
        let e = checked(
            e,
            prefix,
            "target_predicted_lane_weight",
            self.target_predicted_lane_weight,
            D0,
            D5,
        );
        let e = checked(
            e,
            prefix,
            "target_current_lane_weight",
            self.target_current_lane_weight,
            D0,
            D5,
        );
        let e = checked(
            e,
            prefix,
            "player_predicted_row_weight",
            self.player_predicted_row_weight,
            D0,
            D5,
        );
        let e = checked(
            e,
            prefix,
            "home_predicted_row_weight",
            self.home_predicted_row_weight,
            D0,
            D5,
        );
        let e = checked(
            e,
            prefix,
            "target_predicted_row_weight",
            self.target_predicted_row_weight,
            D0,
            D5,
        );
        let e = checked(
            e,
            prefix,
            "target_current_row_weight",
            self.target_current_row_weight,
            D0,
            D5,
        );
        let e = checked(e, prefix, "flow_base_score", self.flow_base_score, D0, D1);
        let e = checked(e, prefix, "flow_gap_weight", self.flow_gap_weight, D0, D1);
        let e = checked(e, prefix, "flow_min_score", self.flow_min_score, D0, D1);
        let e = checked(e, prefix, "flow_max_score", self.flow_max_score, D0, D1);
        let e = checked(
            e,
            prefix,
            "field_teammate_space_weight",
            self.field_teammate_space_weight,
            D0,
            D5,
        );
        let e = checked(e, prefix, "field_open_space_weight", self.field_open_space_weight, D0, D5);
        let e = checked(
            e,
            prefix,
            "field_open_space_normalizer_yards",
            self.field_open_space_normalizer_yards,
            D1,
            D80,
        );
        let e = checked(
            e,
            prefix,
            "forward_static_fit_weight",
            self.forward_static_fit_weight,
            D0,
            D5,
        );
        let e = checked(
            e,
            prefix,
            "forward_player_ball_weight",
            self.forward_player_ball_weight,
            D0,
            D5,
        );
        let e = checked(
            e,
            prefix,
            "forward_target_ball_weight",
            self.forward_target_ball_weight,
            D0,
            D5,
        );
        let e = checked(
            e,
            prefix,
            "forward_row_coherence_weight",
            self.forward_row_coherence_weight,
            D0,
            D5,
        );
        let e = checked(e, prefix, "forward_flow_weight", self.forward_flow_weight, D0, D5);
        let e = checked(
            e,
            prefix,
            "forward_field_config_weight",
            self.forward_field_config_weight,
            D0,
            D5,
        );
        let e = checked(
            e,
            prefix,
            "forward_home_lane_weight",
            self.forward_home_lane_weight,
            D0,
            D1,
        );
        let e = checked(e, prefix, "role_markov_weight", self.role_markov_weight, D0, D5);
        let e = checked(e, prefix, "role_static_fit_weight", self.role_static_fit_weight, D0, D5);
        let e = checked(e, prefix, "role_player_ball_weight", self.role_player_ball_weight, D0, D5);
        let e = checked(e, prefix, "role_target_ball_weight", self.role_target_ball_weight, D0, D5);
        let e = checked(
            e,
            prefix,
            "role_row_coherence_weight",
            self.role_row_coherence_weight,
            D0,
            D5,
        );
        let e = checked(e, prefix, "role_flow_weight", self.role_flow_weight, D0, D5);
        let e = checked(
            e,
            prefix,
            "role_field_config_weight",
            self.role_field_config_weight,
            D0,
            D5,
        );
        let e = checked(e, prefix, "role_home_lane_weight", self.role_home_lane_weight, D0, D1);
        let e = checked(
            e,
            prefix,
            "open_space_dynamic_lane_bonus_weight",
            self.open_space_dynamic_lane_bonus_weight,
            D0,
            D5,
        );
        let e = checked(
            e,
            prefix,
            "movement_shape_dynamic_lane_weight",
            self.movement_shape_dynamic_lane_weight,
            D0,
            D5,
        );
        let e = checked_order(
            e,
            self.lookahead_max_seconds.less(self.lookahead_min_seconds),
            (
                Fault::Above {
                    prefix,
                    left: "lookahead_min_seconds",
                    right: "lookahead_max_seconds",
                }
            ),
        );
        let e = checked_order(
            e,
            self.flow_max_score.less(self.flow_min_score),
            (Fault::Above { prefix, left: "flow_min_score", right: "flow_max_score" }),
        );
        e
    }

    /// Appends the faults of these knobs to `errors`.
    pub fn validate_strict(&self, prefix: &'static str, errors: &mut Vec<Fault>)
        ensures
            final(errors)@ == self.faults(prefix, old(errors)@),
    {
        validate_f64(
            prefix,
            "goalkeeper_neutral_score",
            self.goalkeeper_neutral_score,
            D0,
            D1,
            errors,
        );
        validate_f64(
            prefix,
            "goalkeeper_home_lane_weight",
            self.goalkeeper_home_lane_weight,
            D0,
            D1,
            errors,
        );
        validate_usize(
            prefix,
            "defender_lane_radius_possession",
            self.defender_lane_radius_possession,
            0,
            6,
            errors,
        );
        validate_usize(
            prefix,
            "defender_lane_radius_defense",
            self.defender_lane_radius_defense,
            0,
            6,
            errors,
        );
        validate_usize(
            prefix,
            "midfielder_lane_radius_possession",
            self.midfielder_lane_radius_possession,
            0,
            6,
            errors,
        );
        validate_usize(
            prefix,
            "midfielder_lane_radius_defense",
            self.midfielder_lane_radius_defense,
            0,
            6,
            errors,
        );
        validate_usize(prefix, "forward_lane_radius", self.forward_lane_radius, 0, 6, errors);
        validate_f64(
            prefix,
            "defender_commitment_possession",
            self.defender_commitment_possession,
            D0,
            D1,
            errors,
        );
        validate_f64(
            prefix,
            "defender_commitment_defense",
            self.defender_commitment_defense,
            D0,
            D1,
            errors,
        );
        validate_f64(
            prefix,
            "midfielder_commitment_possession",
            self.midfielder_commitment_possession,
            D0,
            D1,
            errors,
        );
        validate_f64(
            prefix,
            "midfielder_commitment_defense",
            self.midfielder_commitment_defense,
            D0,
            D1,
            errors,
        );
        validate_f64(
            prefix,
            "forward_commitment_possession",
            self.forward_commitment_possession,
            D0,
            D1,
            errors,
        );
        validate_f64(
            prefix,
            "forward_commitment_defense",
            self.forward_commitment_defense,
            D0,
            D1,
            errors,
        );
        validate_f64(prefix, "commitment_relief_max", self.commitment_relief_max, D0, D1, errors);
        validate_f64(prefix, "lane_gap_base_penalty", self.lane_gap_base_penalty, D0, D2, errors);
        validate_f64(prefix, "lane_gap_step_penalty", self.lane_gap_step_penalty, D0, D1, errors);
        validate_f64(prefix, "possession_factor", self.possession_factor, D0, D1, errors);
        validate_f64(prefix, "markov_relief_max", self.markov_relief_max, D0, D1, errors);
        validate_f64(prefix, "ball_speed_clamp_yps", self.ball_speed_clamp_yps, D1, D80, errors);
        validate_f64(
            prefix,
            "ball_acceleration_clamp_yps2",
            self.ball_acceleration_clamp_yps2,
            D1,
            D160,
            errors,
        );
        validate_f64(prefix, "lookahead_base_seconds", self.lookahead_base_seconds, D0, D5, errors);
        validate_f64(
            prefix,
            "lookahead_speed_scale_yps",
            self.lookahead_speed_scale_yps,
            D1,
            D120,
            errors,
        );
        validate_f64(
            prefix,
            "lookahead_acceleration_scale_yps2",
            self.lookahead_acceleration_scale_yps2,
            D1,
            D220,
            errors,
        );
        validate_f64(prefix, "lookahead_min_seconds", self.lookahead_min_seconds, D0, D5, errors);
        validate_f64(prefix, "lookahead_max_seconds", self.lookahead_max_seconds, D0, D5, errors);
        validate_f64(prefix, "lane_match_span_lanes", self.lane_match_span_lanes, D1, D12, errors);
        validate_f64(prefix, "row_match_span_rows", self.row_match_span_rows, D1, D24, errors);
        validate_f64(
            prefix,
            "home_lane_match_span_lanes",
            self.home_lane_match_span_lanes,
            D1,
            D12,
            errors,
        );
        validate_f64(
            prefix,
            "player_predicted_lane_weight",
            self.player_predicted_lane_weight,
            D0,
            D5,
            errors,
        );
        validate_f64(
            prefix,
            "home_predicted_lane_weight",
            self.home_predicted_lane_weight,
            D0,
            D5,
            errors,
        );
        validate_f64(
            prefix,
            "player_current_lane_weight",
            self.player_current_lane_weight,
            D0,
            D5,
            errors,
        );
        validate_f64(
            prefix,
            "target_predicted_lane_weight",
            self.target_predicted_lane_weight,
            D0,
            D5,
            errors,
        );
        validate_f64(
            prefix,
            "target_current_lane_weight",
            self.target_current_lane_weight,
            D0,
            D5,
            errors,
        );
        validate_f64(
            prefix,
            "player_predicted_row_weight",
            self.player_predicted_row_weight,
            D0,
            D5,
            errors,
        );
        validate_f64(
            prefix,
            "home_predicted_row_weight",
            self.home_predicted_row_weight,
            D0,
            D5,
            errors,
        );
        validate_f64(
            prefix,
            "target_predicted_row_weight",
            self.target_predicted_row_weight,
            D0,
            D5,
            errors,
        );
        validate_f64(
            prefix,
            "target_current_row_weight",
            self.target_current_row_weight,
            D0,
            D5,
            errors,
        );
        validate_f64(prefix, "flow_base_score", self.flow_base_score, D0, D1, errors);
        validate_f64(prefix, "flow_gap_weight", self.flow_gap_weight, D0, D1, errors);
        validate_f64(prefix, "flow_min_score", self.flow_min_score, D0, D1, errors);
        validate_f64(prefix, "flow_max_score", self.flow_max_score, D0, D1, errors);
        validate_f64(
            prefix,
            "field_teammate_space_weight",
            self.field_teammate_space_weight,
            D0,
            D5,
            errors,
        );
        validate_f64(
            prefix,
            "field_open_space_weight",
            self.field_open_space_weight,
            D0,
            D5,
            errors,
        );
        validate_f64(
            prefix,
            "field_open_space_normalizer_yards",
            self.field_open_space_normalizer_yards,
            D1,
            D80,
            errors,
        );
        validate_f64(
            prefix,
            "forward_static_fit_weight",
            self.forward_static_fit_weight,
            D0,
            D5,
            errors,
        );
        validate_f64(
            prefix,
            "forward_player_ball_weight",
            self.forward_player_ball_weight,
            D0,
            D5,
            errors,
        );
        validate_f64(
            prefix,
            "forward_target_ball_weight",
            self.forward_target_ball_weight,
            D0,
            D5,
            errors,
        );
        validate_f64(
            prefix,
            "forward_row_coherence_weight",
            self.forward_row_coherence_weight,
            D0,
            D5,
            errors,
        );
        validate_f64(prefix, "forward_flow_weight", self.forward_flow_weight, D0, D5, errors);
        validate_f64(
            prefix,
            "forward_field_config_weight",
            self.forward_field_config_weight,
            D0,
            D5,
            errors,
        );
        validate_f64(
            prefix,
            "forward_home_lane_weight",
            self.forward_home_lane_weight,
            D0,
            D1,
            errors,
        );
        validate_f64(prefix, "role_markov_weight", self.role_markov_weight, D0, D5, errors);
        validate_f64(prefix, "role_static_fit_weight", self.role_static_fit_weight, D0, D5, errors);
        validate_f64(
            prefix,
            "role_player_ball_weight",
            self.role_player_ball_weight,
            D0,
            D5,
            errors,
        );
        validate_f64(
            prefix,
            "role_target_ball_weight",
            self.role_target_ball_weight,
            D0,
            D5,
            errors,
        );
        validate_f64(
            prefix,
            "role_row_coherence_weight",
            self.role_row_coherence_weight,
            D0,
            D5,
            errors,
        );
        validate_f64(prefix, "role_flow_weight", self.role_flow_weight, D0, D5, errors);
        validate_f64(
            prefix,
            "role_field_config_weight",
            self.role_field_config_weight,
            D0,
            D5,
            errors,
        );
        validate_f64(prefix, "role_home_lane_weight", self.role_home_lane_weight, D0, D1, errors);
        validate_f64(
            prefix,
            "open_space_dynamic_lane_bonus_weight",
            self.open_space_dynamic_lane_bonus_weight,
            D0,
            D5,
            errors,
        );
        validate_f64(
            prefix,
            "movement_shape_dynamic_lane_weight",
            self.movement_shape_dynamic_lane_weight,
            D0,
            D5,
            errors,
        );
        if self.lookahead_max_seconds.is_below(self.lookahead_min_seconds) {
            errors.push(
                Fault::Above {
                    prefix,
                    left: "lookahead_min_seconds",
                    right: "lookahead_max_seconds",
                },
            );
        }
        if self.flow_max_score.is_below(self.flow_min_score) {
            errors.push(Fault::Above { prefix, left: "flow_min_score", right: "flow_max_score" });
        }
    }

    /// What is repaired is in bounds, and what is in bounds is not touched by a repair.
    pub proof fn repair_reaches_bounds(self)
        ensures
            self.repaired().in_hard_bounds(),
            self.in_hard_bounds() ==> self.repaired() == self,
    {
        reveal(within);
        fitted_is_within(self.goalkeeper_neutral_score, D0_5, D0, D1);
        fitted_is_within(self.goalkeeper_home_lane_weight, D0_35, D0, D1);
        fitted_is_within(self.defender_commitment_possession, D0_8, D0, D1);
        fitted_is_within(self.defender_commitment_defense, D0_92, D0, D1);
        fitted_is_within(self.midfielder_commitment_possession, D0_8, D0, D1);
        fitted_is_within(self.midfielder_commitment_defense, D0_9, D0, D1);
        fitted_is_within(self.forward_commitment_possession, D0_36, D0, D1);
        fitted_is_within(self.forward_commitment_defense, D0_4, D0, D1);
        fitted_is_within(self.commitment_relief_max, D0_65, D0, D1);
        fitted_is_within(self.lane_gap_base_penalty, D0_58, D0, D2);
        fitted_is_within(self.lane_gap_step_penalty, D0_22, D0, D1);
        fitted_is_within(self.possession_factor, D0_8, D0, D1);
        fitted_is_within(self.markov_relief_max, D0_85, D0, D1);
        fitted_is_within(self.ball_speed_clamp_yps, D42, D1, D80);
        fitted_is_within(self.ball_acceleration_clamp_yps2, D72, D1, D160);
        fitted_is_within(self.lookahead_base_seconds, D0_45, D0, D5);
        fitted_is_within(self.lookahead_speed_scale_yps, D42, D1, D120);
        fitted_is_within(self.lookahead_acceleration_scale_yps2, D96, D1, D220);
        fitted_is_within(self.lookahead_min_seconds, D0_45, D0, D5);
        fitted_is_within(self.lookahead_max_seconds, D1_35, D0, D5);
        fitted_is_within(self.lane_match_span_lanes, D5, D1, D12);
        fitted_is_within(self.row_match_span_rows, D8, D1, D24);
        fitted_is_within(self.home_lane_match_span_lanes, D3, D1, D12);
        fitted_is_within(self.player_predicted_lane_weight, D0_48, D0, D5);
        fitted_is_within(self.home_predicted_lane_weight, D0_34, D0, D5);
        fitted_is_within(self.player_current_lane_weight, D0_18, D0, D5);
        fitted_is_within(self.target_predicted_lane_weight, D0_68, D0, D5);
        fitted_is_within(self.target_current_lane_weight, D0_32, D0, D5);
        fitted_is_within(self.player_predicted_row_weight, D0_42, D0, D5);
        fitted_is_within(self.home_predicted_row_weight, D0_18, D0, D5);
        fitted_is_within(self.target_predicted_row_weight, D0_28, D0, D5);
        fitted_is_within(self.target_current_row_weight, D0_12, D0, D5);
        fitted_is_within(self.flow_base_score, D0_5, D0, D1);
        fitted_is_within(self.flow_gap_weight, D0_18, D0, D1);
        fitted_is_within(self.flow_min_score, D0_15, D0, D1);
        fitted_is_within(self.flow_max_score, D0_85, D0, D1);
        fitted_is_within(self.field_teammate_space_weight, D0_62, D0, D5);
        fitted_is_within(self.field_open_space_weight, D0_38, D0, D5);
        fitted_is_within(self.field_open_space_normalizer_yards, D18, D1, D80);
        fitted_is_within(self.forward_static_fit_weight, D0_38, D0, D5);
        fitted_is_within(self.forward_player_ball_weight, D0_18, D0, D5);
        fitted_is_within(self.forward_target_ball_weight, D0_14, D0, D5);
        fitted_is_within(self.forward_row_coherence_weight, D0_08, D0, D5);
        fitted_is_within(self.forward_flow_weight, D0_06, D0, D5);
        fitted_is_within(self.forward_field_config_weight, D0_1, D0, D5);
        fitted_is_within(self.forward_home_lane_weight, D0_16, D0, D1);
        fitted_is_within(self.role_markov_weight, D0_34, D0, D5);
        fitted_is_within(self.role_static_fit_weight, D0_3, D0, D5);
        fitted_is_within(self.role_player_ball_weight, D0_16, D0, D5);
        fitted_is_within(self.role_target_ball_weight, D0_08, D0, D5);
        fitted_is_within(self.role_row_coherence_weight, D0_06, D0, D5);
        fitted_is_within(self.role_flow_weight, D0_03, D0, D5);
        fitted_is_within(self.role_field_config_weight, D0_03, D0, D5);
        fitted_is_within(self.role_home_lane_weight, D0_2, D0, D1);
        fitted_is_within(self.open_space_dynamic_lane_bonus_weight, D1_05, D0, D5);
        fitted_is_within(self.movement_shape_dynamic_lane_weight, D0_36, D0, D5);
    }

    /// The defaults are in bounds.
    pub proof fn defaults_reach_bounds()
        ensures
            Self::defaults().in_hard_bounds(),
    {
        reveal(within);
    }

    /// Validation finds nothing exactly where the knobs are in bounds.
    pub proof fn faults_show_bounds(self, prefix: &'static str, found: Seq<Fault>)
        ensures
            self.faults(prefix, found).len() >= found.len(),
            self.faults(prefix, found).len() == found.len() <==> self.in_hard_bounds(),
            self.in_hard_bounds() ==> self.faults(prefix, found) == found,
    {
        let e = found;
        checked_shows_range(
            e,
            prefix,
            "goalkeeper_neutral_score",
            self.goalkeeper_neutral_score,
            D0,
            D1,
        );
        let e = checked(
            e,
            prefix,
            "goalkeeper_neutral_score",
            self.goalkeeper_neutral_score,
            D0,
            D1,
        );
        checked_shows_range(
            e,
            prefix,
            "goalkeeper_home_lane_weight",
            self.goalkeeper_home_lane_weight,
            D0,
            D1,
        );
        let e = checked(
            e,
            prefix,
            "goalkeeper_home_lane_weight",
            self.goalkeeper_home_lane_weight,
            D0,
            D1,
        );
        let e = checked_count(
            e,
            prefix,
            "defender_lane_radius_possession",
            self.defender_lane_radius_possession,
            0,
            6,
        );
        let e = checked_count(
            e,
            prefix,
            "defender_lane_radius_defense",
            self.defender_lane_radius_defense,
            0,
            6,
        );
        let e = checked_count(
            e,
            prefix,
            "midfielder_lane_radius_possession",
            self.midfielder_lane_radius_possession,
            0,
            6,
        );
        let e = checked_count(
            e,
            prefix,
            "midfielder_lane_radius_defense",
            self.midfielder_lane_radius_defense,
            0,
            6,
        );
        let e = checked_count(e, prefix, "forward_lane_radius", self.forward_lane_radius, 0, 6);
        checked_shows_range(
            e,
            prefix,
            "defender_commitment_possession",
            self.defender_commitment_possession,
            D0,
            D1,
        );
        let e = checked(
            e,
            prefix,
            "defender_commitment_possession",
            self.defender_commitment_possession,
            D0,
            D1,
        );
        checked_shows_range(
            e,
            prefix,
            "defender_commitment_defense",
            self.defender_commitment_defense,
            D0,
            D1,
        );
        let e = checked(
            e,
            prefix,
            "defender_commitment_defense",
            self.defender_commitment_defense,
            D0,
            D1,
        );
        checked_shows_range(
            e,
            prefix,
            "midfielder_commitment_possession",
            self.midfielder_commitment_possession,
            D0,
            D1,
        );
        let e = checked(
            e,
            prefix,
            "midfielder_commitment_possession",
            self.midfielder_commitment_possession,
            D0,
            D1,
        );
        checked_shows_range(
            e,
            prefix,
            "midfielder_commitment_defense",
            self.midfielder_commitment_defense,
            D0,
            D1,
        );
        let e = checked(
            e,
            prefix,
            "midfielder_commitment_defense",
            self.midfielder_commitment_defense,
            D0,
            D1,
        );
        checked_shows_range(
            e,
            prefix,
            "forward_commitment_possession",
            self.forward_commitment_possession,
            D0,
            D1,
        );
        let e = checked(
            e,
            prefix,
            "forward_commitment_possession",
            self.forward_commitment_possession,
            D0,
            D1,
        );
        checked_shows_range(
            e,
            prefix,
            "forward_commitment_defense",
            self.forward_commitment_defense,
            D0,
            D1,
        );
        let e = checked(
            e,
            prefix,
            "forward_commitment_defense",
            self.forward_commitment_defense,
            D0,
            D1,
        );
        checked_shows_range(e, prefix, "commitment_relief_max", self.commitment_relief_max, D0, D1);
        let e = checked(e, prefix, "commitment_relief_max", self.commitment_relief_max, D0, D1);
        checked_shows_range(e, prefix, "lane_gap_base_penalty", self.lane_gap_base_penalty, D0, D2);
        let e = checked(e, prefix, "lane_gap_base_penalty", self.lane_gap_base_penalty, D0, D2);
        checked_shows_range(e, prefix, "lane_gap_step_penalty", self.lane_gap_step_penalty, D0, D1);
        let e = checked(e, prefix, "lane_gap_step_penalty", self.lane_gap_step_penalty, D0, D1);
        checked_shows_range(e, prefix, "possession_factor", self.possession_factor, D0, D1);
        let e = checked(e, prefix, "possession_factor", self.possession_factor, D0, D1);
        checked_shows_range(e, prefix, "markov_relief_max", self.markov_relief_max, D0, D1);
        let e = checked(e, prefix, "markov_relief_max", self.markov_relief_max, D0, D1);
        checked_shows_range(e, prefix, "ball_speed_clamp_yps", self.ball_speed_clamp_yps, D1, D80);
        let e = checked(e, prefix, "ball_speed_clamp_yps", self.ball_speed_clamp_yps, D1, D80);
        checked_shows_range(
            e,
            prefix,
            "ball_acceleration_clamp_yps2",
            self.ball_acceleration_clamp_yps2,
            D1,
            D160,
        );
        let e = checked(
            e,
            prefix,
            "ball_acceleration_clamp_yps2",
            self.ball_acceleration_clamp_yps2,
            D1,
            D160,
        );
        checked_shows_range(
            e,
            prefix,
            "lookahead_base_seconds",
            self.lookahead_base_seconds,
            D0,
            D5,
        );
        let e = checked(e, prefix, "lookahead_base_seconds", self.lookahead_base_seconds, D0, D5);
        checked_shows_range(
            e,
            prefix,
            "lookahead_speed_scale_yps",
            self.lookahead_speed_scale_yps,
            D1,
            D120,
        );
        let e = checked(
            e,
            prefix,
            "lookahead_speed_scale_yps",
            self.lookahead_speed_scale_yps,
            D1,
            D120,
        );
        checked_shows_range(
            e,
            prefix,
            "lookahead_acceleration_scale_yps2",
            self.lookahead_acceleration_scale_yps2,
            D1,
            D220,
        );
        let e = checked(
            e,
            prefix,
            "lookahead_acceleration_scale_yps2",
            self.lookahead_acceleration_scale_yps2,
            D1,
            D220,
        );
        checked_shows_range(e, prefix, "lookahead_min_seconds", self.lookahead_min_seconds, D0, D5);
        let e = checked(e, prefix, "lookahead_min_seconds", self.lookahead_min_seconds, D0, D5);
        checked_shows_range(e, prefix, "lookahead_max_seconds", self.lookahead_max_seconds, D0, D5);
        let e = checked(e, prefix, "lookahead_max_seconds", self.lookahead_max_seconds, D0, D5);
        checked_shows_range(
            e,
            prefix,
            "lane_match_span_lanes",
            self.lane_match_span_lanes,
            D1,
            D12,
        );
        let e = checked(e, prefix, "lane_match_span_lanes", self.lane_match_span_lanes, D1, D12);
        checked_shows_range(e, prefix, "row_match_span_rows", self.row_match_span_rows, D1, D24);
        let e = checked(e, prefix, "row_match_span_rows", self.row_match_span_rows, D1, D24);
        checked_shows_range(
            e,
            prefix,
            "home_lane_match_span_lanes",
            self.home_lane_match_span_lanes,
            D1,
            D12,
        );
        let e = checked(
            e,
            prefix,
            "home_lane_match_span_lanes",
            self.home_lane_match_span_lanes,
            D1,
            D12,
        );
        checked_shows_range(
            e,
            prefix,
            "player_predicted_lane_weight",
            self.player_predicted_lane_weight,
            D0,
            D5,
        );
        let e = checked(
            e,
            prefix,
            "player_predicted_lane_weight",
            self.player_predicted_lane_weight,
            D0,
            D5,
        );
        checked_shows_range(
            e,
            prefix,
            "home_predicted_lane_weight",
            self.home_predicted_lane_weight,
            D0,
            D5,
        );
        let e = checked(
            e,
            prefix,
            "home_predicted_lane_weight",
            self.home_predicted_lane_weight,
            D0,
            D5,
        );
        checked_shows_range(
            e,
            prefix,
            "player_current_lane_weight",
            self.player_current_lane_weight,
            D0,
            D5,
        );
        let e = checked(
            e,
            prefix,
            "player_current_lane_weight",
            self.player_current_lane_weight,
            D0,
            D5,
        );
        checked_shows_range(
            e,
            prefix,
            "target_predicted_lane_weight",
            self.target_predicted_lane_weight,
            D0,
            D5,
        );
        let e = checked(
            e,
            prefix,
            "target_predicted_lane_weight",
            self.target_predicted_lane_weight,
            D0,
            D5,
        );
        checked_shows_range(
            e,
            prefix,
            "target_current_lane_weight",
            self.target_current_lane_weight,
            D0,
            D5,
        );
        let e = checked(
            e,
            prefix,
            "target_current_lane_weight",
            self.target_current_lane_weight,
            D0,
            D5,
        );
        checked_shows_range(
            e,
            prefix,
            "player_predicted_row_weight",
            self.player_predicted_row_weight,
            D0,
            D5,
        );
        let e = checked(
            e,
            prefix,
            "player_predicted_row_weight",
            self.player_predicted_row_weight,
            D0,
            D5,
        );
        checked_shows_range(
            e,
            prefix,
            "home_predicted_row_weight",
            self.home_predicted_row_weight,
            D0,
            D5,
        );
        let e = checked(
            e,
            prefix,
            "home_predicted_row_weight",
            self.home_predicted_row_weight,
            D0,
            D5,
        );
        checked_shows_range(
            e,
            prefix,
            "target_predicted_row_weight",
            self.target_predicted_row_weight,
            D0,
            D5,
        );
        let e = checked(
            e,
            prefix,
            "target_predicted_row_weight",
            self.target_predicted_row_weight,
            D0,
            D5,
        );
        checked_shows_range(
            e,
            prefix,
            "target_current_row_weight",
            self.target_current_row_weight,
            D0,
            D5,
        );
        let e = checked(
            e,
            prefix,
            "target_current_row_weight",
            self.target_current_row_weight,
            D0,
            D5,
        );
        checked_shows_range(e, prefix, "flow_base_score", self.flow_base_score, D0, D1);
        let e = checked(e, prefix, "flow_base_score", self.flow_base_score, D0, D1);
        checked_shows_range(e, prefix, "flow_gap_weight", self.flow_gap_weight, D0, D1);
        let e = checked(e, prefix, "flow_gap_weight", self.flow_gap_weight, D0, D1);
        checked_shows_range(e, prefix, "flow_min_score", self.flow_min_score, D0, D1);
        let e = checked(e, prefix, "flow_min_score", self.flow_min_score, D0, D1);
        checked_shows_range(e, prefix, "flow_max_score", self.flow_max_score, D0, D1);
        let e = checked(e, prefix, "flow_max_score", self.flow_max_score, D0, D1);
        checked_shows_range(
            e,
            prefix,
            "field_teammate_space_weight",
            self.field_teammate_space_weight,
            D0,
            D5,
        );
        let e = checked(
            e,
            prefix,
            "field_teammate_space_weight",
            self.field_teammate_space_weight,
            D0,
            D5,
        );
        checked_shows_range(
            e,
            prefix,
            "field_open_space_weight",
            self.field_open_space_weight,
            D0,
            D5,
        );
        let e = checked(e, prefix, "field_open_space_weight", self.field_open_space_weight, D0, D5);
        checked_shows_range(
            e,
            prefix,
            "field_open_space_normalizer_yards",
            self.field_open_space_normalizer_yards,
            D1,
            D80,
        );
        let e = checked(
            e,
            prefix,
            "field_open_space_normalizer_yards",
            self.field_open_space_normalizer_yards,
            D1,
            D80,
        );
        checked_shows_range(
            e,
            prefix,
            "forward_static_fit_weight",
            self.forward_static_fit_weight,
            D0,
            D5,
        );
        let e = checked(
            e,
            prefix,
            "forward_static_fit_weight",
            self.forward_static_fit_weight,
            D0,
            D5,
        );
        checked_shows_range(
            e,
            prefix,
            "forward_player_ball_weight",
            self.forward_player_ball_weight,
            D0,
            D5,
        );
        let e = checked(
            e,
            prefix,
            "forward_player_ball_weight",
            self.forward_player_ball_weight,
            D0,
            D5,
        );
        checked_shows_range(
            e,
            prefix,
            "forward_target_ball_weight",
            self.forward_target_ball_weight,
            D0,
            D5,
        );
        let e = checked(
            e,
            prefix,
            "forward_target_ball_weight",
            self.forward_target_ball_weight,
            D0,
            D5,
        );
        checked_shows_range(
            e,
            prefix,
            "forward_row_coherence_weight",
            self.forward_row_coherence_weight,
            D0,
            D5,
        );
        let e = checked(
            e,
            prefix,
            "forward_row_coherence_weight",
            self.forward_row_coherence_weight,
            D0,
            D5,
        );
        checked_shows_range(e, prefix, "forward_flow_weight", self.forward_flow_weight, D0, D5);
        let e = checked(e, prefix, "forward_flow_weight", self.forward_flow_weight, D0, D5);
        checked_shows_range(
            e,
            prefix,
            "forward_field_config_weight",
            self.forward_field_config_weight,
            D0,
            D5,
        );
        let e = checked(
            e,
            prefix,
            "forward_field_config_weight",
            self.forward_field_config_weight,
            D0,
            D5,
        );
        checked_shows_range(
            e,
            prefix,
            "forward_home_lane_weight",
            self.forward_home_lane_weight,
            D0,
            D1,
        );
        let e = checked(
            e,
            prefix,
            "forward_home_lane_weight",
            self.forward_home_lane_weight,
            D0,
            D1,
        );
        checked_shows_range(e, prefix, "role_markov_weight", self.role_markov_weight, D0, D5);
        let e = checked(e, prefix, "role_markov_weight", self.role_markov_weight, D0, D5);
        checked_shows_range(
            e,
            prefix,
            "role_static_fit_weight",
            self.role_static_fit_weight,
            D0,
            D5,
        );
        let e = checked(e, prefix, "role_static_fit_weight", self.role_static_fit_weight, D0, D5);
        checked_shows_range(
            e,
            prefix,
            "role_player_ball_weight",
            self.role_player_ball_weight,
            D0,
            D5,
        );
        let e = checked(e, prefix, "role_player_ball_weight", self.role_player_ball_weight, D0, D5);
        checked_shows_range(
            e,
            prefix,
            "role_target_ball_weight",
            self.role_target_ball_weight,
            D0,
            D5,
        );
        let e = checked(e, prefix, "role_target_ball_weight", self.role_target_ball_weight, D0, D5);
        checked_shows_range(
            e,
            prefix,
            "role_row_coherence_weight",
            self.role_row_coherence_weight,
            D0,
            D5,
        );
        let e = checked(
            e,
            prefix,
            "role_row_coherence_weight",
            self.role_row_coherence_weight,
            D0,
            D5,
        );
        checked_shows_range(e, prefix, "role_flow_weight", self.role_flow_weight, D0, D5);
        let e = checked(e, prefix, "role_flow_weight", self.role_flow_weight, D0, D5);
        checked_shows_range(
            e,
            prefix,
            "role_field_config_weight",
            self.role_field_config_weight,
            D0,
            D5,
        );
        let e = checked(
            e,
            prefix,
            "role_field_config_weight",
            self.role_field_config_weight,
            D0,
            D5,
        );
        checked_shows_range(e, prefix, "role_home_lane_weight", self.role_home_lane_weight, D0, D1);
        let e = checked(e, prefix, "role_home_lane_weight", self.role_home_lane_weight, D0, D1);
        checked_shows_range(
            e,
            prefix,
            "open_space_dynamic_lane_bonus_weight",
            self.open_space_dynamic_lane_bonus_weight,
            D0,
            D5,
        );
        let e = checked(
            e,
            prefix,
            "open_space_dynamic_lane_bonus_weight",
            self.open_space_dynamic_lane_bonus_weight,
            D0,
            D5,
        );
        checked_shows_range(
            e,
            prefix,
            "movement_shape_dynamic_lane_weight",
            self.movement_shape_dynamic_lane_weight,
            D0,
            D5,
        );
        let e = checked(
            e,
            prefix,
            "movement_shape_dynamic_lane_weight",
            self.movement_shape_dynamic_lane_weight,
            D0,
            D5,
        );
    }
}

} // verus!
