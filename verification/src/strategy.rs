//! Team-level strategy modes: short attacking and defensive maneuvers and their shapes.
use crate::decimals::{
    D0, D0_06, D0_1, D0_18, D0_2, D0_22, D0_25, D0_3, D0_35, D0_4, D0_45, D0_5, D0_52, D0_55, D0_58,
    D0_6, D0_62, D0_7, D0_75, D0_78, D0_8, D0_82, D0_85, D0_88, D0_9, D0_92, D0_95, D0_98, D1, D3,
    D4, D5, D6, D7, D8, D10, D12, D20,
};
use crate::number::Real64;
use crate::tunables::within;
use vstd::prelude::*;

verus! {

/// How the attack uses the flanks.
#[derive(Clone, Copy, Debug, PartialEq, Eq, Hash, Structural)]
pub enum FlankAttackPolicy {
    NoFlank,
    PlayDownFlankLowCross,
    PlayDownFlankHighCross,
}

impl Default for FlankAttackPolicy {
    fn default() -> (r: Self)
        ensures
            r == FlankAttackPolicy::NoFlank,
    {
        FlankAttackPolicy::NoFlank
    }
}

impl FlankAttackPolicy {
    pub fn is_flank(self) -> (b: bool)
        ensures
            b == (self != FlankAttackPolicy::NoFlank),
    {
        !matches!(self, FlankAttackPolicy::NoFlank)
    }

    pub fn prefers_low_cross(self) -> (b: bool)
        ensures
            b == (self == FlankAttackPolicy::PlayDownFlankLowCross),
    {
        matches!(self, FlankAttackPolicy::PlayDownFlankLowCross)
    }

    pub fn prefers_high_cross(self) -> (b: bool)
        ensures
            b == (self == FlankAttackPolicy::PlayDownFlankHighCross),
    {
        matches!(self, FlankAttackPolicy::PlayDownFlankHighCross)
    }
}

/// Coarse horizontal lane that a maneuver pulls the ball into or resolves through.
#[derive(Clone, Copy, Debug, PartialEq, Eq, Hash, Structural)]
pub enum StrategyLane {
    Left,
    Center,
    Right,
}

impl Default for StrategyLane {
    fn default() -> (r: Self)
        ensures
            r == StrategyLane::Center,
    {
        StrategyLane::Center
    }
}

impl StrategyLane {
    /// -1 left, 0 central, 1 right.
    pub open spec fn side(self) -> int {
        match self {
            StrategyLane::Left => -1,
            StrategyLane::Center => 0,
            StrategyLane::Right => 1,
        }
    }

    pub fn bias(self) -> (b: i8)
        ensures
            b == self.side(),
    {
        match self {
            StrategyLane::Left => -1,
            StrategyLane::Center => 0,
            StrategyLane::Right => 1,
        }
    }
}

/// Where an attacking maneuver baits the defense first, where it resolves the opening, how
/// patient it is, and how direct.
#[derive(Clone, Copy, Debug)]
pub struct AttackStrategyShape {
    pub start_lane: StrategyLane,
    pub resolve_lane: StrategyLane,
    pub max_passes: u8,
    pub directness: Real64,
}

impl AttackStrategyShape {
    /// A maneuver that finishes in another lane than it started in is a switch.
    pub fn switches_lane(&self) -> (b: bool)
        ensures
            b == (self.start_lane != self.resolve_lane),
    {
        self.start_lane != self.resolve_lane
    }
}

pub open spec fn attack_shape(
    start_lane: StrategyLane,
    resolve_lane: StrategyLane,
    max_passes: u8,
    directness: u64,
) -> AttackStrategyShape {
    AttackStrategyShape {
        start_lane,
        resolve_lane,
        max_passes,
        directness: Real64 { bits: directness },
    }
}

/// The shape of a defensive maneuver.
#[derive(Clone, Copy, Debug)]
pub struct DefenseStrategyShape {
    /// 0 for a deep low block, 1 for a high line.
    pub block_height: Real64,
    /// 0 for zonal marking, 1 for tight man-marking.
    pub man_orientation: Real64,
    /// 0 for passive containing, 1 for an aggressive press.
    pub press: Real64,
    /// Lane the maneuver tries to herd the ball into, if any.
    pub force_lane: Option<StrategyLane>,
    /// Intended lifetime in seconds.
    pub max_seconds: Real64,
}

pub open spec fn defense_shape(
    block_height: u64,
    man_orientation: u64,
    press: u64,
    force_lane: Option<StrategyLane>,
    max_seconds: u64,
) -> DefenseStrategyShape {
    DefenseStrategyShape {
        block_height: Real64 { bits: block_height },
        man_orientation: Real64 { bits: man_orientation },
        press: Real64 { bits: press },
        force_lane,
        max_seconds: Real64 { bits: max_seconds },
    }
}

/// Team-level attacking maneuvers. Short and interruptible.
#[derive(Clone, Copy, Debug, PartialEq, Eq, Hash, Structural)]
pub enum TeamAttackStrategy {
    PullWideLeftThenCenter,
    PullWideRightThenCenter,
    PullWideLeftSwitchRight,
    PullWideRightSwitchLeft,
    HoldUpfieldUntilOpening,
    GiveAndGoCentral,
    OneTwoLeftRelease,
    OneTwoRightRelease,
    OverloadLeftIsolateRight,
    OverloadRightIsolateLeft,
    ThirdManRunCentral,
    QuickVerticalThroughBall,
    DrawPressThenPlayThrough,
    BaitOffsideThenThroughBall,
    WingOverlapLeftCross,
    WingOverlapRightCross,
    UnderlapLeftCutback,
    UnderlapRightCutback,
    SwitchPlayDiagonalLeftRight,
    SwitchPlayDiagonalRightLeft,
    RecycleViaKeeperReset,
    DragDefenderOpenChannelLeft,
    DragDefenderOpenChannelRight,
    DecoyFarSideCutbackLeft,
    DecoyFarSideCutbackRight,
    CentralDoubleOneTwo,
    DirectLongDiagonalLeft,
    DirectLongDiagonalRight,
    PatientPossessionProbe,
    CounterTransitionVertical,
    HalfSpaceComboLeft,
    HalfSpaceComboRight,
    PlayBackwardsToGoad,
}

impl Default for TeamAttackStrategy {
    fn default() -> (r: Self)
        ensures
            r == TeamAttackStrategy::PullWideLeftThenCenter,
    {
        TeamAttackStrategy::PullWideLeftThenCenter
    }
}

impl TeamAttackStrategy {
    /// Every attacking maneuver, once.
    pub const ALL: [TeamAttackStrategy; 33] = [
        TeamAttackStrategy::PullWideLeftThenCenter,
        TeamAttackStrategy::PullWideRightThenCenter,
        TeamAttackStrategy::PullWideLeftSwitchRight,
        TeamAttackStrategy::PullWideRightSwitchLeft,
        TeamAttackStrategy::HoldUpfieldUntilOpening,
        TeamAttackStrategy::GiveAndGoCentral,
        TeamAttackStrategy::OneTwoLeftRelease,
        TeamAttackStrategy::OneTwoRightRelease,
        TeamAttackStrategy::OverloadLeftIsolateRight,
        TeamAttackStrategy::OverloadRightIsolateLeft,
        TeamAttackStrategy::ThirdManRunCentral,
        TeamAttackStrategy::QuickVerticalThroughBall,
        TeamAttackStrategy::DrawPressThenPlayThrough,
        TeamAttackStrategy::BaitOffsideThenThroughBall,
        TeamAttackStrategy::WingOverlapLeftCross,
        TeamAttackStrategy::WingOverlapRightCross,
        TeamAttackStrategy::UnderlapLeftCutback,
        TeamAttackStrategy::UnderlapRightCutback,
        TeamAttackStrategy::SwitchPlayDiagonalLeftRight,
        TeamAttackStrategy::SwitchPlayDiagonalRightLeft,
        TeamAttackStrategy::RecycleViaKeeperReset,
        TeamAttackStrategy::DragDefenderOpenChannelLeft,
        TeamAttackStrategy::DragDefenderOpenChannelRight,
        TeamAttackStrategy::DecoyFarSideCutbackLeft,
        TeamAttackStrategy::DecoyFarSideCutbackRight,
        TeamAttackStrategy::CentralDoubleOneTwo,
        TeamAttackStrategy::DirectLongDiagonalLeft,
        TeamAttackStrategy::DirectLongDiagonalRight,
        TeamAttackStrategy::PatientPossessionProbe,
        TeamAttackStrategy::CounterTransitionVertical,
        TeamAttackStrategy::HalfSpaceComboLeft,
        TeamAttackStrategy::HalfSpaceComboRight,
        TeamAttackStrategy::PlayBackwardsToGoad,
    ];

    /// The label of the maneuver.
    pub open spec fn label(self) -> Seq<char> {
        match self {
            TeamAttackStrategy::PullWideLeftThenCenter => "pull-wide-left-then-center"@,
            TeamAttackStrategy::PullWideRightThenCenter => "pull-wide-right-then-center"@,
            TeamAttackStrategy::PullWideLeftSwitchRight => "pull-wide-left-switch-right"@,
            TeamAttackStrategy::PullWideRightSwitchLeft => "pull-wide-right-switch-left"@,
            TeamAttackStrategy::HoldUpfieldUntilOpening => "hold-upfield-until-opening"@,
            TeamAttackStrategy::GiveAndGoCentral => "give-and-go-central"@,
            TeamAttackStrategy::OneTwoLeftRelease => "one-two-left-release"@,
            TeamAttackStrategy::OneTwoRightRelease => "one-two-right-release"@,
            TeamAttackStrategy::OverloadLeftIsolateRight => "overload-left-isolate-right"@,
            TeamAttackStrategy::OverloadRightIsolateLeft => "overload-right-isolate-left"@,
            TeamAttackStrategy::ThirdManRunCentral => "third-man-run-central"@,
            TeamAttackStrategy::QuickVerticalThroughBall => "quick-vertical-through-ball"@,
            TeamAttackStrategy::DrawPressThenPlayThrough => "draw-press-then-play-through"@,
            TeamAttackStrategy::BaitOffsideThenThroughBall => "bait-offside-then-through-ball"@,
            TeamAttackStrategy::WingOverlapLeftCross => "wing-overlap-left-cross"@,
            TeamAttackStrategy::WingOverlapRightCross => "wing-overlap-right-cross"@,
            TeamAttackStrategy::UnderlapLeftCutback => "underlap-left-cutback"@,
            TeamAttackStrategy::UnderlapRightCutback => "underlap-right-cutback"@,
            TeamAttackStrategy::SwitchPlayDiagonalLeftRight => "switch-play-diagonal-left-right"@,
            TeamAttackStrategy::SwitchPlayDiagonalRightLeft => "switch-play-diagonal-right-left"@,
            TeamAttackStrategy::RecycleViaKeeperReset => "recycle-via-keeper-reset"@,
            TeamAttackStrategy::DragDefenderOpenChannelLeft => "drag-defender-open-channel-left"@,
            TeamAttackStrategy::DragDefenderOpenChannelRight => "drag-defender-open-channel-right"@,
            TeamAttackStrategy::DecoyFarSideCutbackLeft => "decoy-far-side-cutback-left"@,
            TeamAttackStrategy::DecoyFarSideCutbackRight => "decoy-far-side-cutback-right"@,
            TeamAttackStrategy::CentralDoubleOneTwo => "central-double-one-two"@,
            TeamAttackStrategy::DirectLongDiagonalLeft => "direct-long-diagonal-left"@,
            TeamAttackStrategy::DirectLongDiagonalRight => "direct-long-diagonal-right"@,
            TeamAttackStrategy::PatientPossessionProbe => "patient-possession-probe"@,
            TeamAttackStrategy::CounterTransitionVertical => "counter-transition-vertical"@,
            TeamAttackStrategy::HalfSpaceComboLeft => "half-space-combo-left"@,
            TeamAttackStrategy::HalfSpaceComboRight => "half-space-combo-right"@,
            TeamAttackStrategy::PlayBackwardsToGoad => "play-backwards-to-goad"@,
        }
    }

    /// The place of the maneuver in `ALL`.
    pub open spec fn ordinal(self) -> int {
        match self {
            TeamAttackStrategy::PullWideLeftThenCenter => 0,
            TeamAttackStrategy::PullWideRightThenCenter => 1,
            TeamAttackStrategy::PullWideLeftSwitchRight => 2,
            TeamAttackStrategy::PullWideRightSwitchLeft => 3,
            TeamAttackStrategy::HoldUpfieldUntilOpening => 4,
            TeamAttackStrategy::GiveAndGoCentral => 5,
            TeamAttackStrategy::OneTwoLeftRelease => 6,
            TeamAttackStrategy::OneTwoRightRelease => 7,
            TeamAttackStrategy::OverloadLeftIsolateRight => 8,
            TeamAttackStrategy::OverloadRightIsolateLeft => 9,
            TeamAttackStrategy::ThirdManRunCentral => 10,
            TeamAttackStrategy::QuickVerticalThroughBall => 11,
            TeamAttackStrategy::DrawPressThenPlayThrough => 12,
            TeamAttackStrategy::BaitOffsideThenThroughBall => 13,
            TeamAttackStrategy::WingOverlapLeftCross => 14,
            TeamAttackStrategy::WingOverlapRightCross => 15,
            TeamAttackStrategy::UnderlapLeftCutback => 16,
            TeamAttackStrategy::UnderlapRightCutback => 17,
            TeamAttackStrategy::SwitchPlayDiagonalLeftRight => 18,
            TeamAttackStrategy::SwitchPlayDiagonalRightLeft => 19,
            TeamAttackStrategy::RecycleViaKeeperReset => 20,
            TeamAttackStrategy::DragDefenderOpenChannelLeft => 21,
            TeamAttackStrategy::DragDefenderOpenChannelRight => 22,
            TeamAttackStrategy::DecoyFarSideCutbackLeft => 23,
            TeamAttackStrategy::DecoyFarSideCutbackRight => 24,
            TeamAttackStrategy::CentralDoubleOneTwo => 25,
            TeamAttackStrategy::DirectLongDiagonalLeft => 26,
            TeamAttackStrategy::DirectLongDiagonalRight => 27,
            TeamAttackStrategy::PatientPossessionProbe => 28,
            TeamAttackStrategy::CounterTransitionVertical => 29,
            TeamAttackStrategy::HalfSpaceComboLeft => 30,
            TeamAttackStrategy::HalfSpaceComboRight => 31,
            TeamAttackStrategy::PlayBackwardsToGoad => 32,
        }
    }

    /// The lanes, patience and directness of the maneuver.
    pub open spec fn shape_value(self) -> AttackStrategyShape {
        match self {
            TeamAttackStrategy::PullWideLeftThenCenter => attack_shape(
                StrategyLane::Left,
                StrategyLane::Center,
                3,
                D0_3,
            ),
            TeamAttackStrategy::PullWideRightThenCenter => attack_shape(
                StrategyLane::Right,
                StrategyLane::Center,
                3,
                D0_3,
            ),
            TeamAttackStrategy::PullWideLeftSwitchRight => attack_shape(
                StrategyLane::Left,
                StrategyLane::Right,
                3,
                D0_4,
            ),
            TeamAttackStrategy::PullWideRightSwitchLeft => attack_shape(
                StrategyLane::Right,
                StrategyLane::Left,
                3,
                D0_4,
            ),
            TeamAttackStrategy::HoldUpfieldUntilOpening => attack_shape(
                StrategyLane::Center,
                StrategyLane::Center,
                7,
                D0_2,
            ),
            TeamAttackStrategy::GiveAndGoCentral => attack_shape(
                StrategyLane::Center,
                StrategyLane::Center,
                2,
                D0_55,
            ),
            TeamAttackStrategy::OneTwoLeftRelease => attack_shape(
                StrategyLane::Left,
                StrategyLane::Left,
                2,
                D0_55,
            ),
            TeamAttackStrategy::OneTwoRightRelease => attack_shape(
                StrategyLane::Right,
                StrategyLane::Right,
                2,
                D0_55,
            ),
            TeamAttackStrategy::OverloadLeftIsolateRight => attack_shape(
                StrategyLane::Left,
                StrategyLane::Right,
                4,
                D0_35,
            ),
            TeamAttackStrategy::OverloadRightIsolateLeft => attack_shape(
                StrategyLane::Right,
                StrategyLane::Left,
                4,
                D0_35,
            ),
            TeamAttackStrategy::ThirdManRunCentral => attack_shape(
                StrategyLane::Center,
                StrategyLane::Center,
                3,
                D0_5,
            ),
            TeamAttackStrategy::QuickVerticalThroughBall => attack_shape(
                StrategyLane::Center,
                StrategyLane::Center,
                2,
                D0_8,
            ),
            TeamAttackStrategy::DrawPressThenPlayThrough => attack_shape(
                StrategyLane::Center,
                StrategyLane::Center,
                3,
                D0_45,
            ),
            TeamAttackStrategy::BaitOffsideThenThroughBall => attack_shape(
                StrategyLane::Center,
                StrategyLane::Center,
                2,
                D0_78,
            ),
            TeamAttackStrategy::WingOverlapLeftCross => attack_shape(
                StrategyLane::Left,
                StrategyLane::Left,
                3,
                D0_45,
            ),
            TeamAttackStrategy::WingOverlapRightCross => attack_shape(
                StrategyLane::Right,
                StrategyLane::Right,
                3,
                D0_45,
            ),
            TeamAttackStrategy::UnderlapLeftCutback => attack_shape(
                StrategyLane::Left,
                StrategyLane::Center,
                3,
                D0_4,
            ),
            TeamAttackStrategy::UnderlapRightCutback => attack_shape(
                StrategyLane::Right,
                StrategyLane::Center,
                3,
                D0_4,
            ),
            TeamAttackStrategy::SwitchPlayDiagonalLeftRight => attack_shape(
                StrategyLane::Left,
                StrategyLane::Right,
                2,
                D0_6,
            ),
            TeamAttackStrategy::SwitchPlayDiagonalRightLeft => attack_shape(
                StrategyLane::Right,
                StrategyLane::Left,
                2,
                D0_6,
            ),
            TeamAttackStrategy::RecycleViaKeeperReset => attack_shape(
                StrategyLane::Center,
                StrategyLane::Center,
                4,
                D0_1,
            ),
            TeamAttackStrategy::DragDefenderOpenChannelLeft => attack_shape(
                StrategyLane::Left,
                StrategyLane::Center,
                3,
                D0_4,
            ),
            TeamAttackStrategy::DragDefenderOpenChannelRight => attack_shape(
                StrategyLane::Right,
                StrategyLane::Center,
                3,
                D0_4,
            ),
            TeamAttackStrategy::DecoyFarSideCutbackLeft => attack_shape(
                StrategyLane::Left,
                StrategyLane::Center,
                3,
                D0_45,
            ),
            TeamAttackStrategy::DecoyFarSideCutbackRight => attack_shape(
                StrategyLane::Right,
                StrategyLane::Center,
                3,
                D0_45,
            ),
            TeamAttackStrategy::CentralDoubleOneTwo => attack_shape(
                StrategyLane::Center,
                StrategyLane::Center,
                3,
                D0_58,
            ),
            TeamAttackStrategy::DirectLongDiagonalLeft => attack_shape(
                StrategyLane::Center,
                StrategyLane::Left,
                1,
                D0_9,
            ),
            TeamAttackStrategy::DirectLongDiagonalRight => attack_shape(
                StrategyLane::Center,
                StrategyLane::Right,
                1,
                D0_9,
            ),
            TeamAttackStrategy::PatientPossessionProbe => attack_shape(
                StrategyLane::Center,
                StrategyLane::Center,
                6,
                D0_18,
            ),
            TeamAttackStrategy::CounterTransitionVertical => attack_shape(
                StrategyLane::Center,
                StrategyLane::Center,
                2,
                D0_85,
            ),
            TeamAttackStrategy::HalfSpaceComboLeft => attack_shape(
                StrategyLane::Left,
                StrategyLane::Center,
                3,
                D0_52,
            ),
            TeamAttackStrategy::HalfSpaceComboRight => attack_shape(
                StrategyLane::Right,
                StrategyLane::Center,
                3,
                D0_52,
            ),
            TeamAttackStrategy::PlayBackwardsToGoad => attack_shape(
                StrategyLane::Center,
                StrategyLane::Center,
                7,
                D0_06,
            ),
        }
    }

    pub fn as_str(self) -> (r: &'static str)
        ensures
            r@ == self.label(),
    {
        match self {
            TeamAttackStrategy::PullWideLeftThenCenter => "pull-wide-left-then-center",
            TeamAttackStrategy::PullWideRightThenCenter => "pull-wide-right-then-center",
            TeamAttackStrategy::PullWideLeftSwitchRight => "pull-wide-left-switch-right",
            TeamAttackStrategy::PullWideRightSwitchLeft => "pull-wide-right-switch-left",
            TeamAttackStrategy::HoldUpfieldUntilOpening => "hold-upfield-until-opening",
            TeamAttackStrategy::GiveAndGoCentral => "give-and-go-central",
            TeamAttackStrategy::OneTwoLeftRelease => "one-two-left-release",
            TeamAttackStrategy::OneTwoRightRelease => "one-two-right-release",
            TeamAttackStrategy::OverloadLeftIsolateRight => "overload-left-isolate-right",
            TeamAttackStrategy::OverloadRightIsolateLeft => "overload-right-isolate-left",
            TeamAttackStrategy::ThirdManRunCentral => "third-man-run-central",
            TeamAttackStrategy::QuickVerticalThroughBall => "quick-vertical-through-ball",
            TeamAttackStrategy::DrawPressThenPlayThrough => "draw-press-then-play-through",
            TeamAttackStrategy::BaitOffsideThenThroughBall => "bait-offside-then-through-ball",
            TeamAttackStrategy::WingOverlapLeftCross => "wing-overlap-left-cross",
            TeamAttackStrategy::WingOverlapRightCross => "wing-overlap-right-cross",
            TeamAttackStrategy::UnderlapLeftCutback => "underlap-left-cutback",
            TeamAttackStrategy::UnderlapRightCutback => "underlap-right-cutback",
            TeamAttackStrategy::SwitchPlayDiagonalLeftRight => "switch-play-diagonal-left-right",
            TeamAttackStrategy::SwitchPlayDiagonalRightLeft => "switch-play-diagonal-right-left",
            TeamAttackStrategy::RecycleViaKeeperReset => "recycle-via-keeper-reset",
            TeamAttackStrategy::DragDefenderOpenChannelLeft => "drag-defender-open-channel-left",
            TeamAttackStrategy::DragDefenderOpenChannelRight => "drag-defender-open-channel-right",
            TeamAttackStrategy::DecoyFarSideCutbackLeft => "decoy-far-side-cutback-left",
            TeamAttackStrategy::DecoyFarSideCutbackRight => "decoy-far-side-cutback-right",
            TeamAttackStrategy::CentralDoubleOneTwo => "central-double-one-two",
            TeamAttackStrategy::DirectLongDiagonalLeft => "direct-long-diagonal-left",
            TeamAttackStrategy::DirectLongDiagonalRight => "direct-long-diagonal-right",
            TeamAttackStrategy::PatientPossessionProbe => "patient-possession-probe",
            TeamAttackStrategy::CounterTransitionVertical => "counter-transition-vertical",
            TeamAttackStrategy::HalfSpaceComboLeft => "half-space-combo-left",
            TeamAttackStrategy::HalfSpaceComboRight => "half-space-combo-right",
            TeamAttackStrategy::PlayBackwardsToGoad => "play-backwards-to-goad",
        }
    }

    pub fn shape(self) -> (r: AttackStrategyShape)
        ensures
            r == self.shape_value(),
    {
        let (start_lane, resolve_lane, max_passes, directness): (
            StrategyLane,
            StrategyLane,
            u8,
            u64,
        ) = match self {
            TeamAttackStrategy::PullWideLeftThenCenter => (
                StrategyLane::Left,
                StrategyLane::Center,
                3,
                D0_3,
            ),
            TeamAttackStrategy::PullWideRightThenCenter => (
                StrategyLane::Right,
                StrategyLane::Center,
                3,
                D0_3,
            ),
            TeamAttackStrategy::PullWideLeftSwitchRight => (
                StrategyLane::Left,
                StrategyLane::Right,
                3,
                D0_4,
            ),
            TeamAttackStrategy::PullWideRightSwitchLeft => (
                StrategyLane::Right,
                StrategyLane::Left,
                3,
                D0_4,
            ),
            TeamAttackStrategy::HoldUpfieldUntilOpening => (
                StrategyLane::Center,
                StrategyLane::Center,
                7,
                D0_2,
            ),
            TeamAttackStrategy::GiveAndGoCentral => (
                StrategyLane::Center,
                StrategyLane::Center,
                2,
                D0_55,
            ),
            TeamAttackStrategy::OneTwoLeftRelease => (
                StrategyLane::Left,
                StrategyLane::Left,
                2,
                D0_55,
            ),
            TeamAttackStrategy::OneTwoRightRelease => (
                StrategyLane::Right,
                StrategyLane::Right,
                2,
                D0_55,
            ),
            TeamAttackStrategy::OverloadLeftIsolateRight => (
                StrategyLane::Left,
                StrategyLane::Right,
                4,
                D0_35,
            ),
            TeamAttackStrategy::OverloadRightIsolateLeft => (
                StrategyLane::Right,
                StrategyLane::Left,
                4,
                D0_35,
            ),
            TeamAttackStrategy::ThirdManRunCentral => (
                StrategyLane::Center,
                StrategyLane::Center,
                3,
                D0_5,
            ),
            TeamAttackStrategy::QuickVerticalThroughBall => (
                StrategyLane::Center,
                StrategyLane::Center,
                2,
                D0_8,
            ),
            TeamAttackStrategy::DrawPressThenPlayThrough => (
                StrategyLane::Center,
                StrategyLane::Center,
                3,
                D0_45,
            ),
            TeamAttackStrategy::BaitOffsideThenThroughBall => (
                StrategyLane::Center,
                StrategyLane::Center,
                2,
                D0_78,
            ),
            TeamAttackStrategy::WingOverlapLeftCross => (
                StrategyLane::Left,
                StrategyLane::Left,
                3,
                D0_45,
            ),
            TeamAttackStrategy::WingOverlapRightCross => (
                StrategyLane::Right,
                StrategyLane::Right,
                3,
                D0_45,
            ),
            TeamAttackStrategy::UnderlapLeftCutback => (
                StrategyLane::Left,
                StrategyLane::Center,
                3,
                D0_4,
            ),
            TeamAttackStrategy::UnderlapRightCutback => (
                StrategyLane::Right,
                StrategyLane::Center,
                3,
                D0_4,
            ),
            TeamAttackStrategy::SwitchPlayDiagonalLeftRight => (
                StrategyLane::Left,
                StrategyLane::Right,
                2,
                D0_6,
            ),
            TeamAttackStrategy::SwitchPlayDiagonalRightLeft => (
                StrategyLane::Right,
                StrategyLane::Left,
                2,
                D0_6,
            ),
            TeamAttackStrategy::RecycleViaKeeperReset => (
                StrategyLane::Center,
                StrategyLane::Center,
                4,
                D0_1,
            ),
            TeamAttackStrategy::DragDefenderOpenChannelLeft => (
                StrategyLane::Left,
                StrategyLane::Center,
                3,
                D0_4,
            ),
            TeamAttackStrategy::DragDefenderOpenChannelRight => (
                StrategyLane::Right,
                StrategyLane::Center,
                3,
                D0_4,
            ),
            TeamAttackStrategy::DecoyFarSideCutbackLeft => (
                StrategyLane::Left,
                StrategyLane::Center,
                3,
                D0_45,
            ),
            TeamAttackStrategy::DecoyFarSideCutbackRight => (
                StrategyLane::Right,
                StrategyLane::Center,
                3,
                D0_45,
            ),
            TeamAttackStrategy::CentralDoubleOneTwo => (
                StrategyLane::Center,
                StrategyLane::Center,
                3,
                D0_58,
            ),
            TeamAttackStrategy::DirectLongDiagonalLeft => (
                StrategyLane::Center,
                StrategyLane::Left,
                1,
                D0_9,
            ),
            TeamAttackStrategy::DirectLongDiagonalRight => (
                StrategyLane::Center,
                StrategyLane::Right,
                1,
                D0_9,
            ),
            TeamAttackStrategy::PatientPossessionProbe => (
                StrategyLane::Center,
                StrategyLane::Center,
                6,
                D0_18,
            ),
            TeamAttackStrategy::CounterTransitionVertical => (
                StrategyLane::Center,
                StrategyLane::Center,
                2,
                D0_85,
            ),
            TeamAttackStrategy::HalfSpaceComboLeft => (
                StrategyLane::Left,
                StrategyLane::Center,
                3,
                D0_52,
            ),
            TeamAttackStrategy::HalfSpaceComboRight => (
                StrategyLane::Right,
                StrategyLane::Center,
                3,
                D0_52,
            ),
            TeamAttackStrategy::PlayBackwardsToGoad => (
                StrategyLane::Center,
                StrategyLane::Center,
                7,
                D0_06,
            ),
        };
        AttackStrategyShape {
            start_lane,
            resolve_lane,
            max_passes,
            directness: Real64 { bits: directness },
        }
    }
}

/// Team-level defensive maneuvers. Short and interruptible.
#[derive(Clone, Copy, Debug, PartialEq, Eq, Hash, Structural)]
pub enum TeamDefenseStrategy {
    MidBlockZonal,
    HighPressManOriented,
    HighPressZonalTrigger,
    MidBlockManMark,
    LowBlockCompact,
    LowBlockParkBus,
    OffsideTrapStepUp,
    ForceWideLeftTrap,
    ForceWideRightTrap,
    PressTriggerOnBackPass,
    DropAndScreenCentral,
    ManMarkKeyReceiver,
    DoubleTeamBallCarrier,
    ContainAndDelayCounter,
    CounterPressGegenpress,
    RetreatRegroupHalfway,
    ShowInsideClampCentral,
    WidePressOverloadBall,
}

impl Default for TeamDefenseStrategy {
    fn default() -> (r: Self)
        ensures
            r == TeamDefenseStrategy::MidBlockZonal,
    {
        TeamDefenseStrategy::MidBlockZonal
    }
}

impl TeamDefenseStrategy {
    /// Every defensive maneuver, once.
    pub const ALL: [TeamDefenseStrategy; 18] = [
        TeamDefenseStrategy::MidBlockZonal,
        TeamDefenseStrategy::HighPressManOriented,
        TeamDefenseStrategy::HighPressZonalTrigger,
        TeamDefenseStrategy::MidBlockManMark,
        TeamDefenseStrategy::LowBlockCompact,
        TeamDefenseStrategy::LowBlockParkBus,
        TeamDefenseStrategy::OffsideTrapStepUp,
        TeamDefenseStrategy::ForceWideLeftTrap,
        TeamDefenseStrategy::ForceWideRightTrap,
        TeamDefenseStrategy::PressTriggerOnBackPass,
        TeamDefenseStrategy::DropAndScreenCentral,
        TeamDefenseStrategy::ManMarkKeyReceiver,
        TeamDefenseStrategy::DoubleTeamBallCarrier,
        TeamDefenseStrategy::ContainAndDelayCounter,
        TeamDefenseStrategy::CounterPressGegenpress,
        TeamDefenseStrategy::RetreatRegroupHalfway,
        TeamDefenseStrategy::ShowInsideClampCentral,
        TeamDefenseStrategy::WidePressOverloadBall,
    ];

    /// The label of the maneuver.
    pub open spec fn label(self) -> Seq<char> {
        match self {
            TeamDefenseStrategy::MidBlockZonal => "mid-block-zonal"@,
            TeamDefenseStrategy::HighPressManOriented => "high-press-man-oriented"@,
            TeamDefenseStrategy::HighPressZonalTrigger => "high-press-zonal-trigger"@,
            TeamDefenseStrategy::MidBlockManMark => "mid-block-man-mark"@,
            TeamDefenseStrategy::LowBlockCompact => "low-block-compact"@,
            TeamDefenseStrategy::LowBlockParkBus => "low-block-park-bus"@,
            TeamDefenseStrategy::OffsideTrapStepUp => "offside-trap-step-up"@,
            TeamDefenseStrategy::ForceWideLeftTrap => "force-wide-left-trap"@,
            TeamDefenseStrategy::ForceWideRightTrap => "force-wide-right-trap"@,
            TeamDefenseStrategy::PressTriggerOnBackPass => "press-trigger-on-back-pass"@,
            TeamDefenseStrategy::DropAndScreenCentral => "drop-and-screen-central"@,
            TeamDefenseStrategy::ManMarkKeyReceiver => "man-mark-key-receiver"@,
            TeamDefenseStrategy::DoubleTeamBallCarrier => "double-team-ball-carrier"@,
            TeamDefenseStrategy::ContainAndDelayCounter => "contain-and-delay-counter"@,
            TeamDefenseStrategy::CounterPressGegenpress => "counter-press-gegenpress"@,
            TeamDefenseStrategy::RetreatRegroupHalfway => "retreat-regroup-halfway"@,
            TeamDefenseStrategy::ShowInsideClampCentral => "show-inside-clamp-central"@,
            TeamDefenseStrategy::WidePressOverloadBall => "wide-press-overload-ball"@,
        }
    }

    /// The place of the maneuver in `ALL`.
    pub open spec fn ordinal(self) -> int {
        match self {
            TeamDefenseStrategy::MidBlockZonal => 0,
            TeamDefenseStrategy::HighPressManOriented => 1,
            TeamDefenseStrategy::HighPressZonalTrigger => 2,
            TeamDefenseStrategy::MidBlockManMark => 3,
            TeamDefenseStrategy::LowBlockCompact => 4,
            TeamDefenseStrategy::LowBlockParkBus => 5,
            TeamDefenseStrategy::OffsideTrapStepUp => 6,
            TeamDefenseStrategy::ForceWideLeftTrap => 7,
            TeamDefenseStrategy::ForceWideRightTrap => 8,
            TeamDefenseStrategy::PressTriggerOnBackPass => 9,
            TeamDefenseStrategy::DropAndScreenCentral => 10,
            TeamDefenseStrategy::ManMarkKeyReceiver => 11,
            TeamDefenseStrategy::DoubleTeamBallCarrier => 12,
            TeamDefenseStrategy::ContainAndDelayCounter => 13,
            TeamDefenseStrategy::CounterPressGegenpress => 14,
            TeamDefenseStrategy::RetreatRegroupHalfway => 15,
            TeamDefenseStrategy::ShowInsideClampCentral => 16,
            TeamDefenseStrategy::WidePressOverloadBall => 17,
        }
    }

    /// The block, marking, pressing and lifetime of the maneuver.
    pub open spec fn shape_value(self) -> DefenseStrategyShape {
        match self {
            TeamDefenseStrategy::MidBlockZonal => defense_shape(D0_5, D0_2, D0_45, None, D8),
            TeamDefenseStrategy::HighPressManOriented => defense_shape(
                D0_85,
                D0_85,
                D0_95,
                None,
                D4,
            ),
            TeamDefenseStrategy::HighPressZonalTrigger => defense_shape(
                D0_82,
                D0_3,
                D0_9,
                None,
                D4,
            ),
            TeamDefenseStrategy::MidBlockManMark => defense_shape(D0_5, D0_8, D0_55, None, D7),
            TeamDefenseStrategy::LowBlockCompact => defense_shape(D0_22, D0_35, D0_3, None, D10),
            TeamDefenseStrategy::LowBlockParkBus => defense_shape(D0_1, D0_3, D0_2, None, D12),
            TeamDefenseStrategy::OffsideTrapStepUp => defense_shape(D0_92, D0_25, D0_6, None, D3),
            TeamDefenseStrategy::ForceWideLeftTrap => defense_shape(
                D0_6,
                D0_4,
                D0_75,
                Some(StrategyLane::Left),
                D4,
            ),
            TeamDefenseStrategy::ForceWideRightTrap => defense_shape(
                D0_6,
                D0_4,
                D0_75,
                Some(StrategyLane::Right),
                D4,
            ),
            TeamDefenseStrategy::PressTriggerOnBackPass => defense_shape(
                D0_7,
                D0_45,
                D0_85,
                None,
                D3,
            ),
            TeamDefenseStrategy::DropAndScreenCentral => defense_shape(
                D0_35,
                D0_25,
                D0_35,
                None,
                D8,
            ),
            TeamDefenseStrategy::ManMarkKeyReceiver => defense_shape(D0_55, D0_95, D0_6, None, D6),
            TeamDefenseStrategy::DoubleTeamBallCarrier => defense_shape(
                D0_55,
                D0_7,
                D0_88,
                None,
                D3,
            ),
            TeamDefenseStrategy::ContainAndDelayCounter => defense_shape(
                D0_4,
                D0_3,
                D0_25,
                None,
                D6,
            ),
            TeamDefenseStrategy::CounterPressGegenpress => defense_shape(
                D0_75,
                D0_55,
                D0_98,
                None,
                D3,
            ),
            TeamDefenseStrategy::RetreatRegroupHalfway => defense_shape(
                D0_45,
                D0_2,
                D0_2,
                None,
                D5,
            ),
            TeamDefenseStrategy::ShowInsideClampCentral => defense_shape(
                D0_58,
                D0_4,
                D0_7,
                None,
                D4,
            ),
            TeamDefenseStrategy::WidePressOverloadBall => defense_shape(
                D0_62,
                D0_5,
                D0_82,
                None,
                D4,
            ),
        }
    }

    pub fn as_str(self) -> (r: &'static str)
        ensures
            r@ == self.label(),
    {
        match self {
            TeamDefenseStrategy::MidBlockZonal => "mid-block-zonal",
            TeamDefenseStrategy::HighPressManOriented => "high-press-man-oriented",
            TeamDefenseStrategy::HighPressZonalTrigger => "high-press-zonal-trigger",
            TeamDefenseStrategy::MidBlockManMark => "mid-block-man-mark",
            TeamDefenseStrategy::LowBlockCompact => "low-block-compact",
            TeamDefenseStrategy::LowBlockParkBus => "low-block-park-bus",
            TeamDefenseStrategy::OffsideTrapStepUp => "offside-trap-step-up",
            TeamDefenseStrategy::ForceWideLeftTrap => "force-wide-left-trap",
            TeamDefenseStrategy::ForceWideRightTrap => "force-wide-right-trap",
            TeamDefenseStrategy::PressTriggerOnBackPass => "press-trigger-on-back-pass",
            TeamDefenseStrategy::DropAndScreenCentral => "drop-and-screen-central",
            TeamDefenseStrategy::ManMarkKeyReceiver => "man-mark-key-receiver",
            TeamDefenseStrategy::DoubleTeamBallCarrier => "double-team-ball-carrier",
            TeamDefenseStrategy::ContainAndDelayCounter => "contain-and-delay-counter",
            TeamDefenseStrategy::CounterPressGegenpress => "counter-press-gegenpress",
            TeamDefenseStrategy::RetreatRegroupHalfway => "retreat-regroup-halfway",
            TeamDefenseStrategy::ShowInsideClampCentral => "show-inside-clamp-central",
            TeamDefenseStrategy::WidePressOverloadBall => "wide-press-overload-ball",
        }
    }

    pub fn shape(self) -> (r: DefenseStrategyShape)
        ensures
            r == self.shape_value(),
    {
        let (block_height, man_orientation, press, force_lane, max_seconds): (
            u64,
            u64,
            u64,
            Option<StrategyLane>,
            u64,
        ) = match self {
            TeamDefenseStrategy::MidBlockZonal => (D0_5, D0_2, D0_45, None, D8),
            TeamDefenseStrategy::HighPressManOriented => (D0_85, D0_85, D0_95, None, D4),
            TeamDefenseStrategy::HighPressZonalTrigger => (D0_82, D0_3, D0_9, None, D4),
            TeamDefenseStrategy::MidBlockManMark => (D0_5, D0_8, D0_55, None, D7),
            TeamDefenseStrategy::LowBlockCompact => (D0_22, D0_35, D0_3, None, D10),
            TeamDefenseStrategy::LowBlockParkBus => (D0_1, D0_3, D0_2, None, D12),
            TeamDefenseStrategy::OffsideTrapStepUp => (D0_92, D0_25, D0_6, None, D3),
            TeamDefenseStrategy::ForceWideLeftTrap => (
                D0_6,
                D0_4,
                D0_75,
                Some(StrategyLane::Left),
                D4,
            ),
            TeamDefenseStrategy::ForceWideRightTrap => (
                D0_6,
                D0_4,
                D0_75,
                Some(StrategyLane::Right),
                D4,
            ),
            TeamDefenseStrategy::PressTriggerOnBackPass => (D0_7, D0_45, D0_85, None, D3),
            TeamDefenseStrategy::DropAndScreenCentral => (D0_35, D0_25, D0_35, None, D8),
            TeamDefenseStrategy::ManMarkKeyReceiver => (D0_55, D0_95, D0_6, None, D6),
            TeamDefenseStrategy::DoubleTeamBallCarrier => (D0_55, D0_7, D0_88, None, D3),
            TeamDefenseStrategy::ContainAndDelayCounter => (D0_4, D0_3, D0_25, None, D6),
            TeamDefenseStrategy::CounterPressGegenpress => (D0_75, D0_55, D0_98, None, D3),
            TeamDefenseStrategy::RetreatRegroupHalfway => (D0_45, D0_2, D0_2, None, D5),
            TeamDefenseStrategy::ShowInsideClampCentral => (D0_58, D0_4, D0_7, None, D4),
            TeamDefenseStrategy::WidePressOverloadBall => (D0_62, D0_5, D0_82, None, D4),
        };
        DefenseStrategyShape {
            block_height: Real64 { bits: block_height },
            man_orientation: Real64 { bits: man_orientation },
            press: Real64 { bits: press },
            force_lane,
            max_seconds: Real64 { bits: max_seconds },
        }
    }
}

/// `ALL` lists the maneuver at its ordinal, so it lists every maneuver exactly once.
pub proof fn attack_catalogue_is_complete(s: TeamAttackStrategy)
    ensures
        0 <= s.ordinal() < TeamAttackStrategy::ALL@.len(),
        TeamAttackStrategy::ALL@[s.ordinal()] == s,
        forall|i: int|
            0 <= i < TeamAttackStrategy::ALL@.len() ==> (#[trigger] TeamAttackStrategy::ALL@[i]).ordinal() == i,
{
}

/// `ALL` lists the maneuver at its ordinal, so it lists every maneuver exactly once.
pub proof fn defense_catalogue_is_complete(s: TeamDefenseStrategy)
    ensures
        0 <= s.ordinal() < TeamDefenseStrategy::ALL@.len(),
        TeamDefenseStrategy::ALL@[s.ordinal()] == s,
        forall|i: int|
            0 <= i < TeamDefenseStrategy::ALL@.len() ==> (#[trigger] TeamDefenseStrategy::ALL@[i]).ordinal() == i,
{
}

/// Attacking maneuvers last one to seven passes, and their directness lies between 0 and 1.
pub proof fn attack_shapes_are_sane(s: TeamAttackStrategy)
    ensures
        1 <= s.shape_value().max_passes <= 7,
        within(s.shape_value().directness, D0, D1),
{
    reveal(within);
}

/// The shares of a defensive maneuver lie between 0 and 1, and it lasts more than 0 and at
/// most 20 seconds.
pub proof fn defense_shapes_are_sane(s: TeamDefenseStrategy)
    ensures
        within(s.shape_value().block_height, D0, D1),
        within(s.shape_value().man_orientation, D0, D1),
        within(s.shape_value().press, D0, D1),
        (Real64 { bits: D0 }).less(s.shape_value().max_seconds),
        within(s.shape_value().max_seconds, D0, D20),
{
    reveal(within);
}

/// No two maneuvers of a kind share a label, and no attacking maneuver has the label of a
/// defensive one.
pub proof fn labels_are_unique(
    a: TeamAttackStrategy,
    b: TeamAttackStrategy,
    c: TeamDefenseStrategy,
    d: TeamDefenseStrategy,
)
    ensures
        a.label() == b.label() ==> a == b,
        c.label() == d.label() ==> c == d,
        a.label() != c.label(),
{
    attack_label_marks(a);
    attack_label_marks(b);
    defense_label_marks(c);
    defense_label_marks(d);
}

/// The length of a label and the characters that tell the labels apart.
spec fn marks(label: Seq<char>) -> (int, char, char) {
    (label.len() as int, label[label.len() - 10], label[label.len() - 8])
}

spec fn attack_marks(s: TeamAttackStrategy) -> (int, char, char) {
    match s {
        TeamAttackStrategy::PullWideLeftThenCenter => (26, 'h', 'n'),
        TeamAttackStrategy::PullWideRightThenCenter => (27, 'h', 'n'),
        TeamAttackStrategy::PullWideLeftSwitchRight => (27, 'i', 'c'),
        TeamAttackStrategy::PullWideRightSwitchLeft => (27, 'w', 't'),
        TeamAttackStrategy::HoldUpfieldUntilOpening => (26, 'i', '-'),
        TeamAttackStrategy::GiveAndGoCentral => (19, 'g', '-'),
        TeamAttackStrategy::OneTwoLeftRelease => (20, 'f', '-'),
        TeamAttackStrategy::OneTwoRightRelease => (21, 'h', '-'),
        TeamAttackStrategy::OverloadLeftIsolateRight => (27, 'l', 't'),
        TeamAttackStrategy::OverloadRightIsolateLeft => (27, 'o', 'a'),
        TeamAttackStrategy::ThirdManRunCentral => (21, 'u', '-'),
        TeamAttackStrategy::QuickVerticalThroughBall => (27, 'r', 'u'),
        TeamAttackStrategy::DrawPressThenPlayThrough => (28, 'a', '-'),
        TeamAttackStrategy::BaitOffsideThenThroughBall => (30, 'r', 'u'),
        TeamAttackStrategy::WingOverlapLeftCross => (23, 'l', 'f'),
        TeamAttackStrategy::WingOverlapRightCross => (24, 'i', 'h'),
        TeamAttackStrategy::UnderlapLeftCutback => (21, 'f', '-'),
        TeamAttackStrategy::UnderlapRightCutback => (22, 'h', '-'),
        TeamAttackStrategy::SwitchPlayDiagonalLeftRight => (31, 'l', 'f'),
        TeamAttackStrategy::SwitchPlayDiagonalRightLeft => (31, 'r', 'g'),
        TeamAttackStrategy::RecycleViaKeeperReset => (24, 'e', 'e'),
        TeamAttackStrategy::DragDefenderOpenChannelLeft => (31, 'a', 'n'),
        TeamAttackStrategy::DragDefenderOpenChannelRight => (32, 'n', 'e'),
        TeamAttackStrategy::DecoyFarSideCutbackLeft => (27, 't', 'a'),
        TeamAttackStrategy::DecoyFarSideCutbackRight => (28, 'b', 'c'),
        TeamAttackStrategy::CentralDoubleOneTwo => (22, 'l', '-'),
        TeamAttackStrategy::DirectLongDiagonalLeft => (25, 'g', 'n'),
        TeamAttackStrategy::DirectLongDiagonalRight => (26, 'o', 'a'),
        TeamAttackStrategy::PatientPossessionProbe => (24, 's', 'o'),
        TeamAttackStrategy::CounterTransitionVertical => (27, 'n', 'v'),
        TeamAttackStrategy::HalfSpaceComboLeft => (21, 'c', 'm'),
        TeamAttackStrategy::HalfSpaceComboRight => (22, 'o', 'b'),
        TeamAttackStrategy::PlayBackwardsToGoad => (22, 'd', '-'),
    }
}

spec fn defense_marks(s: TeamDefenseStrategy) -> (int, char, char) {
    match s {
        TeamDefenseStrategy::MidBlockZonal => (15, 'l', 'c'),
        TeamDefenseStrategy::HighPressManOriented => (23, 'n', 'o'),
        TeamDefenseStrategy::HighPressZonalTrigger => (24, 'a', '-'),
        TeamDefenseStrategy::MidBlockManMark => (18, 'k', 'm'),
        TeamDefenseStrategy::LowBlockCompact => (17, 'c', '-'),
        TeamDefenseStrategy::LowBlockParkBus => (18, 'k', 'p'),
        TeamDefenseStrategy::OffsideTrapStepUp => (20, 'a', '-'),
        TeamDefenseStrategy::ForceWideLeftTrap => (20, '-', 'e'),
        TeamDefenseStrategy::ForceWideRightTrap => (21, 'r', 'g'),
        TeamDefenseStrategy::PressTriggerOnBackPass => (26, '-', 'a'),
        TeamDefenseStrategy::DropAndScreenCentral => (23, 'e', '-'),
        TeamDefenseStrategy::ManMarkKeyReceiver => (21, 'y', 'r'),
        TeamDefenseStrategy::DoubleTeamBallCarrier => (24, 'l', '-'),
        TeamDefenseStrategy::ContainAndDelayCounter => (25, 'a', '-'),
        TeamDefenseStrategy::CounterPressGegenpress => (24, 'g', 'g'),
        TeamDefenseStrategy::RetreatRegroupHalfway => (23, 'u', '-'),
        TeamDefenseStrategy::ShowInsideClampCentral => (25, 'm', '-'),
        TeamDefenseStrategy::WidePressOverloadBall => (24, 'r', 'o'),
    }
}

proof fn attack_label_marks(s: TeamAttackStrategy)
    ensures
        marks(s.label()) == attack_marks(s),
{
    match s {
        TeamAttackStrategy::PullWideLeftThenCenter => {
            reveal_strlit("pull-wide-left-then-center");
            assert("pull-wide-left-then-center"@.len() == 26);
            assert("pull-wide-left-then-center"@[16] == 'h');
            assert("pull-wide-left-then-center"@[18] == 'n');
        },
        TeamAttackStrategy::PullWideRightThenCenter => {
            reveal_strlit("pull-wide-right-then-center");
            assert("pull-wide-right-then-center"@.len() == 27);
            assert("pull-wide-right-then-center"@[17] == 'h');
            assert("pull-wide-right-then-center"@[19] == 'n');
        },
        TeamAttackStrategy::PullWideLeftSwitchRight => {
            reveal_strlit("pull-wide-left-switch-right");
            assert("pull-wide-left-switch-right"@.len() == 27);
            assert("pull-wide-left-switch-right"@[17] == 'i');
            assert("pull-wide-left-switch-right"@[19] == 'c');
        },
        TeamAttackStrategy::PullWideRightSwitchLeft => {
            reveal_strlit("pull-wide-right-switch-left");
            assert("pull-wide-right-switch-left"@.len() == 27);
            assert("pull-wide-right-switch-left"@[17] == 'w');
            assert("pull-wide-right-switch-left"@[19] == 't');
        },
        TeamAttackStrategy::HoldUpfieldUntilOpening => {
            reveal_strlit("hold-upfield-until-opening");
            assert("hold-upfield-until-opening"@.len() == 26);
            assert("hold-upfield-until-opening"@[16] == 'i');
            assert("hold-upfield-until-opening"@[18] == '-');
        },
        TeamAttackStrategy::GiveAndGoCentral => {
            reveal_strlit("give-and-go-central");
            assert("give-and-go-central"@.len() == 19);
            assert("give-and-go-central"@[9] == 'g');
            assert("give-and-go-central"@[11] == '-');
        },
        TeamAttackStrategy::OneTwoLeftRelease => {
            reveal_strlit("one-two-left-release");
            assert("one-two-left-release"@.len() == 20);
            assert("one-two-left-release"@[10] == 'f');
            assert("one-two-left-release"@[12] == '-');
        },
        TeamAttackStrategy::OneTwoRightRelease => {
            reveal_strlit("one-two-right-release");
            assert("one-two-right-release"@.len() == 21);
            assert("one-two-right-release"@[11] == 'h');
            assert("one-two-right-release"@[13] == '-');
        },
        TeamAttackStrategy::OverloadLeftIsolateRight => {
            reveal_strlit("overload-left-isolate-right");
            assert("overload-left-isolate-right"@.len() == 27);
            assert("overload-left-isolate-right"@[17] == 'l');
            assert("overload-left-isolate-right"@[19] == 't');
        },
        TeamAttackStrategy::OverloadRightIsolateLeft => {
            reveal_strlit("overload-right-isolate-left");
            assert("overload-right-isolate-left"@.len() == 27);
            assert("overload-right-isolate-left"@[17] == 'o');
            assert("overload-right-isolate-left"@[19] == 'a');
        },
        TeamAttackStrategy::ThirdManRunCentral => {
            reveal_strlit("third-man-run-central");
            assert("third-man-run-central"@.len() == 21);
            assert("third-man-run-central"@[11] == 'u');
            assert("third-man-run-central"@[13] == '-');
        },
        TeamAttackStrategy::QuickVerticalThroughBall => {
            reveal_strlit("quick-vertical-through-ball");
            assert("quick-vertical-through-ball"@.len() == 27);
            assert("quick-vertical-through-ball"@[17] == 'r');
            assert("quick-vertical-through-ball"@[19] == 'u');
        },
        TeamAttackStrategy::DrawPressThenPlayThrough => {
            reveal_strlit("draw-press-then-play-through");
            assert("draw-press-then-play-through"@.len() == 28);
            assert("draw-press-then-play-through"@[18] == 'a');
            assert("draw-press-then-play-through"@[20] == '-');
        },
        TeamAttackStrategy::BaitOffsideThenThroughBall => {
            reveal_strlit("bait-offside-then-through-ball");
            assert("bait-offside-then-through-ball"@.len() == 30);
            assert("bait-offside-then-through-ball"@[20] == 'r');
            assert("bait-offside-then-through-ball"@[22] == 'u');
        },
        TeamAttackStrategy::WingOverlapLeftCross => {
            reveal_strlit("wing-overlap-left-cross");
            assert("wing-overlap-left-cross"@.len() == 23);
            assert("wing-overlap-left-cross"@[13] == 'l');
            assert("wing-overlap-left-cross"@[15] == 'f');
        },
        TeamAttackStrategy::WingOverlapRightCross => {
            reveal_strlit("wing-overlap-right-cross");
            assert("wing-overlap-right-cross"@.len() == 24);
            assert("wing-overlap-right-cross"@[14] == 'i');
            assert("wing-overlap-right-cross"@[16] == 'h');
        },
        TeamAttackStrategy::UnderlapLeftCutback => {
            reveal_strlit("underlap-left-cutback");
            assert("underlap-left-cutback"@.len() == 21);
            assert("underlap-left-cutback"@[11] == 'f');
            assert("underlap-left-cutback"@[13] == '-');
        },
        TeamAttackStrategy::UnderlapRightCutback => {
            reveal_strlit("underlap-right-cutback");
            assert("underlap-right-cutback"@.len() == 22);
            assert("underlap-right-cutback"@[12] == 'h');
            assert("underlap-right-cutback"@[14] == '-');
        },
        TeamAttackStrategy::SwitchPlayDiagonalLeftRight => {
            reveal_strlit("switch-play-diagonal-left-right");
            assert("switch-play-diagonal-left-right"@.len() == 31);
            assert("switch-play-diagonal-left-right"@[21] == 'l');
            assert("switch-play-diagonal-left-right"@[23] == 'f');
        },
        TeamAttackStrategy::SwitchPlayDiagonalRightLeft => {
            reveal_strlit("switch-play-diagonal-right-left");
            assert("switch-play-diagonal-right-left"@.len() == 31);
            assert("switch-play-diagonal-right-left"@[21] == 'r');
            assert("switch-play-diagonal-right-left"@[23] == 'g');
        },
        TeamAttackStrategy::RecycleViaKeeperReset => {
            reveal_strlit("recycle-via-keeper-reset");
            assert("recycle-via-keeper-reset"@.len() == 24);
            assert("recycle-via-keeper-reset"@[14] == 'e');
            assert("recycle-via-keeper-reset"@[16] == 'e');
        },
        TeamAttackStrategy::DragDefenderOpenChannelLeft => {
            reveal_strlit("drag-defender-open-channel-left");
            assert("drag-defender-open-channel-left"@.len() == 31);
            assert("drag-defender-open-channel-left"@[21] == 'a');
            assert("drag-defender-open-channel-left"@[23] == 'n');
        },
        TeamAttackStrategy::DragDefenderOpenChannelRight => {
            reveal_strlit("drag-defender-open-channel-right");
            assert("drag-defender-open-channel-right"@.len() == 32);
            assert("drag-defender-open-channel-right"@[22] == 'n');
            assert("drag-defender-open-channel-right"@[24] == 'e');
        },
        TeamAttackStrategy::DecoyFarSideCutbackLeft => {
            reveal_strlit("decoy-far-side-cutback-left");
            assert("decoy-far-side-cutback-left"@.len() == 27);
            assert("decoy-far-side-cutback-left"@[17] == 't');
            assert("decoy-far-side-cutback-left"@[19] == 'a');
        },
        TeamAttackStrategy::DecoyFarSideCutbackRight => {
            reveal_strlit("decoy-far-side-cutback-right");
            assert("decoy-far-side-cutback-right"@.len() == 28);
            assert("decoy-far-side-cutback-right"@[18] == 'b');
            assert("decoy-far-side-cutback-right"@[20] == 'c');
        },
        TeamAttackStrategy::CentralDoubleOneTwo => {
            reveal_strlit("central-double-one-two");
            assert("central-double-one-two"@.len() == 22);
            assert("central-double-one-two"@[12] == 'l');
            assert("central-double-one-two"@[14] == '-');
        },
        TeamAttackStrategy::DirectLongDiagonalLeft => {
            reveal_strlit("direct-long-diagonal-left");
            assert("direct-long-diagonal-left"@.len() == 25);
            assert("direct-long-diagonal-left"@[15] == 'g');
            assert("direct-long-diagonal-left"@[17] == 'n');
        },
        TeamAttackStrategy::DirectLongDiagonalRight => {
            reveal_strlit("direct-long-diagonal-right");
            assert("direct-long-diagonal-right"@.len() == 26);
            assert("direct-long-diagonal-right"@[16] == 'o');
            assert("direct-long-diagonal-right"@[18] == 'a');
        },
        TeamAttackStrategy::PatientPossessionProbe => {
            reveal_strlit("patient-possession-probe");
            assert("patient-possession-probe"@.len() == 24);
            assert("patient-possession-probe"@[14] == 's');
            assert("patient-possession-probe"@[16] == 'o');
        },
        TeamAttackStrategy::CounterTransitionVertical => {
            reveal_strlit("counter-transition-vertical");
            assert("counter-transition-vertical"@.len() == 27);
            assert("counter-transition-vertical"@[17] == 'n');
            assert("counter-transition-vertical"@[19] == 'v');
        },
        TeamAttackStrategy::HalfSpaceComboLeft => {
            reveal_strlit("half-space-combo-left");
            assert("half-space-combo-left"@.len() == 21);
            assert("half-space-combo-left"@[11] == 'c');
            assert("half-space-combo-left"@[13] == 'm');
        },
        TeamAttackStrategy::HalfSpaceComboRight => {
            reveal_strlit("half-space-combo-right");
            assert("half-space-combo-right"@.len() == 22);
            assert("half-space-combo-right"@[12] == 'o');
            assert("half-space-combo-right"@[14] == 'b');
        },
        TeamAttackStrategy::PlayBackwardsToGoad => {
            reveal_strlit("play-backwards-to-goad");
            assert("play-backwards-to-goad"@.len() == 22);
            assert("play-backwards-to-goad"@[12] == 'd');
            assert("play-backwards-to-goad"@[14] == '-');
        },
    }
}

proof fn defense_label_marks(s: TeamDefenseStrategy)
    ensures
        marks(s.label()) == defense_marks(s),
{
    match s {
        TeamDefenseStrategy::MidBlockZonal => {
            reveal_strlit("mid-block-zonal");
            assert("mid-block-zonal"@.len() == 15);
            assert("mid-block-zonal"@[5] == 'l');
            assert("mid-block-zonal"@[7] == 'c');
        },
        TeamDefenseStrategy::HighPressManOriented => {
            reveal_strlit("high-press-man-oriented");
            assert("high-press-man-oriented"@.len() == 23);
            assert("high-press-man-oriented"@[13] == 'n');
            assert("high-press-man-oriented"@[15] == 'o');
        },
        TeamDefenseStrategy::HighPressZonalTrigger => {
            reveal_strlit("high-press-zonal-trigger");
            assert("high-press-zonal-trigger"@.len() == 24);
            assert("high-press-zonal-trigger"@[14] == 'a');
            assert("high-press-zonal-trigger"@[16] == '-');
        },
        TeamDefenseStrategy::MidBlockManMark => {
            reveal_strlit("mid-block-man-mark");
            assert("mid-block-man-mark"@.len() == 18);
            assert("mid-block-man-mark"@[8] == 'k');
            assert("mid-block-man-mark"@[10] == 'm');
        },
        TeamDefenseStrategy::LowBlockCompact => {
            reveal_strlit("low-block-compact");
            assert("low-block-compact"@.len() == 17);
            assert("low-block-compact"@[7] == 'c');
            assert("low-block-compact"@[9] == '-');
        },
        TeamDefenseStrategy::LowBlockParkBus => {
            reveal_strlit("low-block-park-bus");
            assert("low-block-park-bus"@.len() == 18);
            assert("low-block-park-bus"@[8] == 'k');
            assert("low-block-park-bus"@[10] == 'p');
        },
        TeamDefenseStrategy::OffsideTrapStepUp => {
            reveal_strlit("offside-trap-step-up");
            assert("offside-trap-step-up"@.len() == 20);
            assert("offside-trap-step-up"@[10] == 'a');
            assert("offside-trap-step-up"@[12] == '-');
        },
        TeamDefenseStrategy::ForceWideLeftTrap => {
            reveal_strlit("force-wide-left-trap");
            assert("force-wide-left-trap"@.len() == 20);
            assert("force-wide-left-trap"@[10] == '-');
            assert("force-wide-left-trap"@[12] == 'e');
        },
        TeamDefenseStrategy::ForceWideRightTrap => {
            reveal_strlit("force-wide-right-trap");
            assert("force-wide-right-trap"@.len() == 21);
            assert("force-wide-right-trap"@[11] == 'r');
            assert("force-wide-right-trap"@[13] == 'g');
        },
        TeamDefenseStrategy::PressTriggerOnBackPass => {
            reveal_strlit("press-trigger-on-back-pass");
            assert("press-trigger-on-back-pass"@.len() == 26);
            assert("press-trigger-on-back-pass"@[16] == '-');
            assert("press-trigger-on-back-pass"@[18] == 'a');
        },
        TeamDefenseStrategy::DropAndScreenCentral => {
            reveal_strlit("drop-and-screen-central");
            assert("drop-and-screen-central"@.len() == 23);
            assert("drop-and-screen-central"@[13] == 'e');
            assert("drop-and-screen-central"@[15] == '-');
        },
        TeamDefenseStrategy::ManMarkKeyReceiver => {
            reveal_strlit("man-mark-key-receiver");
            assert("man-mark-key-receiver"@.len() == 21);
            assert("man-mark-key-receiver"@[11] == 'y');
            assert("man-mark-key-receiver"@[13] == 'r');
        },
        TeamDefenseStrategy::DoubleTeamBallCarrier => {
            reveal_strlit("double-team-ball-carrier");
            assert("double-team-ball-carrier"@.len() == 24);
            assert("double-team-ball-carrier"@[14] == 'l');
            assert("double-team-ball-carrier"@[16] == '-');
        },
        TeamDefenseStrategy::ContainAndDelayCounter => {
            reveal_strlit("contain-and-delay-counter");
            assert("contain-and-delay-counter"@.len() == 25);
            assert("contain-and-delay-counter"@[15] == 'a');
            assert("contain-and-delay-counter"@[17] == '-');
        },
        TeamDefenseStrategy::CounterPressGegenpress => {
            reveal_strlit("counter-press-gegenpress");
            assert("counter-press-gegenpress"@.len() == 24);
            assert("counter-press-gegenpress"@[14] == 'g');
            assert("counter-press-gegenpress"@[16] == 'g');
        },
        TeamDefenseStrategy::RetreatRegroupHalfway => {
            reveal_strlit("retreat-regroup-halfway");
            assert("retreat-regroup-halfway"@.len() == 23);
            assert("retreat-regroup-halfway"@[13] == 'u');
            assert("retreat-regroup-halfway"@[15] == '-');
        },
        TeamDefenseStrategy::ShowInsideClampCentral => {
            reveal_strlit("show-inside-clamp-central");
            assert("show-inside-clamp-central"@.len() == 25);
            assert("show-inside-clamp-central"@[15] == 'm');
            assert("show-inside-clamp-central"@[17] == '-');
        },
        TeamDefenseStrategy::WidePressOverloadBall => {
            reveal_strlit("wide-press-overload-ball");
            assert("wide-press-overload-ball"@.len() == 24);
            assert("wide-press-overload-ball"@[14] == 'r');
            assert("wide-press-overload-ball"@[16] == 'o');
        },
    }
}

/// The maneuver with left and right exchanged.
pub open spec fn mirrored(s: TeamAttackStrategy) -> TeamAttackStrategy {
    match s {
        TeamAttackStrategy::PullWideLeftThenCenter => TeamAttackStrategy::PullWideRightThenCenter,
        TeamAttackStrategy::PullWideRightThenCenter => TeamAttackStrategy::PullWideLeftThenCenter,
        TeamAttackStrategy::PullWideLeftSwitchRight => TeamAttackStrategy::PullWideRightSwitchLeft,
        TeamAttackStrategy::PullWideRightSwitchLeft => TeamAttackStrategy::PullWideLeftSwitchRight,
        TeamAttackStrategy::OneTwoLeftRelease => TeamAttackStrategy::OneTwoRightRelease,
        TeamAttackStrategy::OneTwoRightRelease => TeamAttackStrategy::OneTwoLeftRelease,
        TeamAttackStrategy::OverloadLeftIsolateRight => {
            TeamAttackStrategy::OverloadRightIsolateLeft
        },
        TeamAttackStrategy::OverloadRightIsolateLeft => {
            TeamAttackStrategy::OverloadLeftIsolateRight
        },
        TeamAttackStrategy::WingOverlapLeftCross => TeamAttackStrategy::WingOverlapRightCross,
        TeamAttackStrategy::WingOverlapRightCross => TeamAttackStrategy::WingOverlapLeftCross,
        TeamAttackStrategy::UnderlapLeftCutback => TeamAttackStrategy::UnderlapRightCutback,
        TeamAttackStrategy::UnderlapRightCutback => TeamAttackStrategy::UnderlapLeftCutback,
        TeamAttackStrategy::SwitchPlayDiagonalLeftRight => {
            TeamAttackStrategy::SwitchPlayDiagonalRightLeft
        },
        TeamAttackStrategy::SwitchPlayDiagonalRightLeft => {
            TeamAttackStrategy::SwitchPlayDiagonalLeftRight
        },
        TeamAttackStrategy::DragDefenderOpenChannelLeft => {
            TeamAttackStrategy::DragDefenderOpenChannelRight
        },
        TeamAttackStrategy::DragDefenderOpenChannelRight => {
            TeamAttackStrategy::DragDefenderOpenChannelLeft
        },
        TeamAttackStrategy::DecoyFarSideCutbackLeft => TeamAttackStrategy::DecoyFarSideCutbackRight,
        TeamAttackStrategy::DecoyFarSideCutbackRight => TeamAttackStrategy::DecoyFarSideCutbackLeft,
        TeamAttackStrategy::DirectLongDiagonalLeft => TeamAttackStrategy::DirectLongDiagonalRight,
        TeamAttackStrategy::DirectLongDiagonalRight => TeamAttackStrategy::DirectLongDiagonalLeft,
        TeamAttackStrategy::HalfSpaceComboLeft => TeamAttackStrategy::HalfSpaceComboRight,
        TeamAttackStrategy::HalfSpaceComboRight => TeamAttackStrategy::HalfSpaceComboLeft,
        _ => s,
    }
}

/// The maneuver is named for a start on the left.
pub open spec fn begins_left(s: TeamAttackStrategy) -> bool {
    ||| s == TeamAttackStrategy::PullWideLeftThenCenter
    ||| s == TeamAttackStrategy::PullWideLeftSwitchRight
    ||| s == TeamAttackStrategy::OneTwoLeftRelease
    ||| s == TeamAttackStrategy::OverloadLeftIsolateRight
    ||| s == TeamAttackStrategy::WingOverlapLeftCross
    ||| s == TeamAttackStrategy::UnderlapLeftCutback
    ||| s == TeamAttackStrategy::SwitchPlayDiagonalLeftRight
    ||| s == TeamAttackStrategy::DragDefenderOpenChannelLeft
    ||| s == TeamAttackStrategy::DecoyFarSideCutbackLeft
    ||| s == TeamAttackStrategy::HalfSpaceComboLeft
}

/// Exchanging left and right exchanges the lanes of a maneuver and nothing else. What is named for
/// a start on the left starts there.
pub proof fn maneuvers_are_mirrored(s: TeamAttackStrategy)
    ensures
        mirrored(mirrored(s)) == s,
        mirrored(s).shape_value().start_lane.side() == -s.shape_value().start_lane.side(),
        mirrored(s).shape_value().resolve_lane.side() == -s.shape_value().resolve_lane.side(),
        mirrored(s).shape_value().max_passes == s.shape_value().max_passes,
        mirrored(s).shape_value().directness == s.shape_value().directness,
        begins_left(s) ==> s.shape_value().start_lane.side() < 0,
        mirrored(s) == s ==> s.shape_value().start_lane.side() == 0,
        StrategyLane::Left.side() < StrategyLane::Center.side() < StrategyLane::Right.side(),
{
}

/// Patient maneuvers are less direct: one of six passes or more is less direct than any of two or
/// fewer.
pub proof fn patient_maneuvers_are_less_direct(s: TeamAttackStrategy, t: TeamAttackStrategy)
    requires
        s.shape_value().max_passes >= 6,
        t.shape_value().max_passes <= 2,
    ensures
        s.shape_value().directness.less(t.shape_value().directness),
{
}

/// High presses stand higher and press harder than low blocks, and last less long; man-marking is
/// tighter than zonal play; and a trap forces the ball to the side that it is named for.
pub proof fn presses_stand_higher_than_blocks(
    press: TeamDefenseStrategy,
    block: TeamDefenseStrategy,
)
    requires
        press == TeamDefenseStrategy::HighPressManOriented || press
            == TeamDefenseStrategy::HighPressZonalTrigger || press
            == TeamDefenseStrategy::CounterPressGegenpress,
        block == TeamDefenseStrategy::LowBlockCompact || block
            == TeamDefenseStrategy::LowBlockParkBus || block
            == TeamDefenseStrategy::DropAndScreenCentral,
    ensures
        block.shape_value().block_height.less(press.shape_value().block_height),
        block.shape_value().press.less(press.shape_value().press),
        press.shape_value().max_seconds.less(block.shape_value().max_seconds),
        TeamDefenseStrategy::HighPressZonalTrigger.shape_value().man_orientation.less(
            TeamDefenseStrategy::HighPressManOriented.shape_value().man_orientation,
        ),
        TeamDefenseStrategy::MidBlockZonal.shape_value().man_orientation.less(
            TeamDefenseStrategy::MidBlockManMark.shape_value().man_orientation,
        ),
        TeamDefenseStrategy::ForceWideLeftTrap.shape_value().force_lane == Some(StrategyLane::Left),
        TeamDefenseStrategy::ForceWideRightTrap.shape_value().force_lane == Some(
            StrategyLane::Right,
        ),
{
}

} // verus!
