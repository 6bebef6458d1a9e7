//! Where the variables and rows of the formation program stand, and what its rows hold.
use crate::decimals::{D0, D2, D20, D30, DM2, DM20, DM30};
use crate::number::{Real64, MINUS_ONE_BITS, ONE_BITS};
use crate::pitch::Team;
use crate::text::{decimal, decimal_text};
use vstd::prelude::*;
use vstd::string::*;

verus! {

/// Player slots of one team.
pub const SOCCER_FORMATION_LP_PLAYER_CAPACITY: usize = 11;

/// Players of both teams whose motion enters the program.
pub const SOCCER_FORMATION_LP_WORLD_PLAYER_CAPACITY: usize = 22;

/// Context features that enter the program.
pub const SOCCER_FORMATION_LP_CONTEXT_FEATURES: usize = 64;

/// Variables of one slot.
pub const SLOT_VARS: usize = 19;

/// Rows of one slot: an upper and a lower row for each of its bands.
pub const SLOT_ROWS: usize = 30;

/// Unordered pairs of slots.
pub const PAIR_COUNT: usize = 55;

/// First variable of the pairs, behind those of the slots.
pub const PAIR_VAR_START: usize = 209;

/// First state variable, behind those of the pairs.
pub const STATE_START: usize = 319;

/// First state variable of the ball.
pub const BALL_START: usize = 451;

/// First context variable.
pub const CONTEXT_START: usize = 457;

/// All variables.
pub const VARIABLES: usize = 521;

/// State variables.
pub const STATE_COUNT: usize = 202;

/// First row of the pairs, behind those of the slots.
pub const PAIR_ROW_START: usize = 330;

/// All upper-bound rows.
pub const UPPER_ROWS: usize = 550;

/// All rows.
pub const CONSTRAINTS: usize = 752;

/// The variables of one slot.
#[derive(Clone, Copy, Debug, PartialEq, Eq, Structural)]
pub struct SoccerFormationLpPlayerVars {
    pub target_x: usize,
    pub target_y: usize,
    pub target_vx: usize,
    pub target_vy: usize,
    pub target_ax: usize,
    pub target_ay: usize,
    pub dynamics_slack_x: usize,
    pub dynamics_slack_y: usize,
    pub dynamics_slack_vx: usize,
    pub dynamics_slack_vy: usize,
    pub anchor_slack_x: usize,
    pub anchor_slack_y: usize,
    pub movement_slack_x: usize,
    pub movement_slack_y: usize,
    pub pressure_slack_x: usize,
    pub pressure_slack_y: usize,
    pub speed_match_slack_y: usize,
    pub acceleration_slack_x: usize,
    pub acceleration_slack_y: usize,
}

/// The rows of one slot.
#[derive(Clone, Copy, Debug, PartialEq, Eq, Structural)]
pub struct SoccerFormationLpPlayerRows {
    pub anchor_x_upper: usize,
    pub anchor_x_lower: usize,
    pub anchor_y_upper: usize,
    pub anchor_y_lower: usize,
    pub movement_x_upper: usize,
    pub movement_x_lower: usize,
    pub movement_y_upper: usize,
    pub movement_y_lower: usize,
    pub reach_x_upper: usize,
    pub reach_x_lower: usize,
    pub reach_y_upper: usize,
    pub reach_y_lower: usize,
    pub pressure_x_upper: usize,
    pub pressure_x_lower: usize,
    pub pressure_y_upper: usize,
    pub pressure_y_lower: usize,
    pub speed_y_upper: usize,
    pub speed_y_lower: usize,
    pub dynamics_x_upper: usize,
    pub dynamics_x_lower: usize,
    pub dynamics_y_upper: usize,
    pub dynamics_y_lower: usize,
    pub dynamics_vx_upper: usize,
    pub dynamics_vx_lower: usize,
    pub dynamics_vy_upper: usize,
    pub dynamics_vy_lower: usize,
    pub acceleration_x_upper: usize,
    pub acceleration_x_lower: usize,
    pub acceleration_y_upper: usize,
    pub acceleration_y_lower: usize,
}

/// The slots and variables of one pair.
#[derive(Clone, Copy, Debug, PartialEq, Eq, Structural)]
pub struct SoccerFormationLpPairVars {
    pub a: usize,
    pub b: usize,
    pub separation_slack_x: usize,
    pub separation_slack_y: usize,
}

/// The rows of one pair.
#[derive(Clone, Copy, Debug, PartialEq, Eq, Structural)]
pub struct SoccerFormationLpPairRows {
    pub separation_x_upper: usize,
    pub separation_x_lower: usize,
    pub separation_y_upper: usize,
    pub separation_y_lower: usize,
}

/// Where the state variables start, and how many there are.
#[derive(Clone, Copy, Debug, PartialEq, Eq, Structural)]
pub struct SoccerFormationLpStateVars {
    pub players_start: usize,
    pub ball_start: usize,
    pub context_start: usize,
    pub count: usize,
}

/// A band holds one variable of a slot within a slack of a value, from above and from below.
#[derive(Clone, Copy, Debug, PartialEq, Eq, Structural)]
pub struct Band {
    /// The variable held.
    pub target: usize,
    /// The variable that widens the band.
    pub slack: Option<usize>,
    /// The variable whose product with the tick length shifts the band.
    pub drift: Option<usize>,
}

/// The variables of a slot, in order.
pub open spec fn slot_vars(slot: int) -> SoccerFormationLpPlayerVars {
    SoccerFormationLpPlayerVars {
        target_x: (SLOT_VARS * slot + 0) as usize,
        target_y: (SLOT_VARS * slot + 1) as usize,
        target_vx: (SLOT_VARS * slot + 2) as usize,
        target_vy: (SLOT_VARS * slot + 3) as usize,
        target_ax: (SLOT_VARS * slot + 4) as usize,
        target_ay: (SLOT_VARS * slot + 5) as usize,
        dynamics_slack_x: (SLOT_VARS * slot + 6) as usize,
        dynamics_slack_y: (SLOT_VARS * slot + 7) as usize,
        dynamics_slack_vx: (SLOT_VARS * slot + 8) as usize,
        dynamics_slack_vy: (SLOT_VARS * slot + 9) as usize,
        anchor_slack_x: (SLOT_VARS * slot + 10) as usize,
        anchor_slack_y: (SLOT_VARS * slot + 11) as usize,
        movement_slack_x: (SLOT_VARS * slot + 12) as usize,
        movement_slack_y: (SLOT_VARS * slot + 13) as usize,
        pressure_slack_x: (SLOT_VARS * slot + 14) as usize,
        pressure_slack_y: (SLOT_VARS * slot + 15) as usize,
        speed_match_slack_y: (SLOT_VARS * slot + 16) as usize,
        acceleration_slack_x: (SLOT_VARS * slot + 17) as usize,
        acceleration_slack_y: (SLOT_VARS * slot + 18) as usize,
    }
}

/// The rows of a slot, in order.
pub open spec fn slot_rows(slot: int) -> SoccerFormationLpPlayerRows {
    SoccerFormationLpPlayerRows {
        anchor_x_upper: (SLOT_ROWS * slot + 0) as usize,
        anchor_x_lower: (SLOT_ROWS * slot + 1) as usize,
        anchor_y_upper: (SLOT_ROWS * slot + 2) as usize,
        anchor_y_lower: (SLOT_ROWS * slot + 3) as usize,
        movement_x_upper: (SLOT_ROWS * slot + 4) as usize,
        movement_x_lower: (SLOT_ROWS * slot + 5) as usize,
        movement_y_upper: (SLOT_ROWS * slot + 6) as usize,
        movement_y_lower: (SLOT_ROWS * slot + 7) as usize,
        reach_x_upper: (SLOT_ROWS * slot + 8) as usize,
        reach_x_lower: (SLOT_ROWS * slot + 9) as usize,
        reach_y_upper: (SLOT_ROWS * slot + 10) as usize,
        reach_y_lower: (SLOT_ROWS * slot + 11) as usize,
        pressure_x_upper: (SLOT_ROWS * slot + 12) as usize,
        pressure_x_lower: (SLOT_ROWS * slot + 13) as usize,
        pressure_y_upper: (SLOT_ROWS * slot + 14) as usize,
        pressure_y_lower: (SLOT_ROWS * slot + 15) as usize,
        speed_y_upper: (SLOT_ROWS * slot + 16) as usize,
        speed_y_lower: (SLOT_ROWS * slot + 17) as usize,
        dynamics_x_upper: (SLOT_ROWS * slot + 18) as usize,
        dynamics_x_lower: (SLOT_ROWS * slot + 19) as usize,
        dynamics_y_upper: (SLOT_ROWS * slot + 20) as usize,
        dynamics_y_lower: (SLOT_ROWS * slot + 21) as usize,
        dynamics_vx_upper: (SLOT_ROWS * slot + 22) as usize,
        dynamics_vx_lower: (SLOT_ROWS * slot + 23) as usize,
        dynamics_vy_upper: (SLOT_ROWS * slot + 24) as usize,
        dynamics_vy_lower: (SLOT_ROWS * slot + 25) as usize,
        acceleration_x_upper: (SLOT_ROWS * slot + 26) as usize,
        acceleration_x_lower: (SLOT_ROWS * slot + 27) as usize,
        acceleration_y_upper: (SLOT_ROWS * slot + 28) as usize,
        acceleration_y_lower: (SLOT_ROWS * slot + 29) as usize,
    }
}

/// The rows of a pair, in order.
pub open spec fn rows_of_pair(p: int) -> SoccerFormationLpPairRows {
    SoccerFormationLpPairRows {
        separation_x_upper: (PAIR_ROW_START + 4 * p) as usize,
        separation_x_lower: (PAIR_ROW_START + 4 * p + 1) as usize,
        separation_y_upper: (PAIR_ROW_START + 4 * p + 2) as usize,
        separation_y_lower: (PAIR_ROW_START + 4 * p + 3) as usize,
    }
}

/// How many pairs have a first slot before `a`.
pub open spec fn pairs_before(a: int) -> int
    decreases a,
{
    if a <= 0 {
        0
    } else {
        pairs_before(a - 1) + (SOCCER_FORMATION_LP_PLAYER_CAPACITY - a)
    }
}

/// The place of a pair among all pairs, ordered by first and then second slot.
pub open spec fn pair_index(a: int, b: int) -> int {
    pairs_before(a) + (b - a - 1)
}

/// Every pair of different slots stands at its place, with its two slack variables.
pub open spec fn pairs_laid_out(pairs: Seq<SoccerFormationLpPairVars>) -> bool {
    &&& pairs.len() == PAIR_COUNT
    &&& forall|p: int|
        0 <= p < pairs.len() ==> {
            let pair = #[trigger] pairs[p];
            &&& pair.a < pair.b < SOCCER_FORMATION_LP_PLAYER_CAPACITY
            &&& pair_index(pair.a as int, pair.b as int) == p
            &&& pair.separation_slack_x == PAIR_VAR_START + 2 * p
            &&& pair.separation_slack_y == PAIR_VAR_START + 2 * p + 1
        }
    &&& forall|a: int, b: int|
        0 <= a < b < SOCCER_FORMATION_LP_PLAYER_CAPACITY ==> {
            let p = #[trigger] pair_index(a, b);
            0 <= p < pairs.len() && pairs[p].a == a && pairs[p].b == b
        }
}

/// The band with the given number.
pub open spec fn band_of(k: int) -> Band {
    if k == 0 {
        Band { target: 0, slack: Some(10), drift: None }
    } else if k == 1 {
        Band { target: 1, slack: Some(11), drift: None }
    } else if k == 2 {
        Band { target: 0, slack: Some(12), drift: None }
    } else if k == 3 {
        Band { target: 1, slack: Some(13), drift: None }
    } else if k == 4 {
        Band { target: 0, slack: None, drift: None }
    } else if k == 5 {
        Band { target: 1, slack: None, drift: None }
    } else if k == 6 {
        Band { target: 0, slack: Some(14), drift: None }
    } else if k == 7 {
        Band { target: 1, slack: Some(15), drift: None }
    } else if k == 8 {
        Band { target: 1, slack: Some(16), drift: None }
    } else if k == 9 {
        Band { target: 0, slack: Some(6), drift: Some(2) }
    } else if k == 10 {
        Band { target: 1, slack: Some(7), drift: Some(3) }
    } else if k == 11 {
        Band { target: 2, slack: Some(8), drift: Some(4) }
    } else if k == 12 {
        Band { target: 3, slack: Some(9), drift: Some(5) }
    } else if k == 13 {
        Band { target: 4, slack: Some(17), drift: None }
    } else {
        Band { target: 5, slack: Some(18), drift: None }
    }
}

pub fn band(k: usize) -> (r: Band)
    requires
        k < 15,
    ensures
        r == band_of(k as int),
{
    if k == 0 {
        Band { target: 0, slack: Some(10), drift: None }
    } else if k == 1 {
        Band { target: 1, slack: Some(11), drift: None }
    } else if k == 2 {
        Band { target: 0, slack: Some(12), drift: None }
    } else if k == 3 {
        Band { target: 1, slack: Some(13), drift: None }
    } else if k == 4 {
        Band { target: 0, slack: None, drift: None }
    } else if k == 5 {
        Band { target: 1, slack: None, drift: None }
    } else if k == 6 {
        Band { target: 0, slack: Some(14), drift: None }
    } else if k == 7 {
        Band { target: 1, slack: Some(15), drift: None }
    } else if k == 8 {
        Band { target: 1, slack: Some(16), drift: None }
    } else if k == 9 {
        Band { target: 0, slack: Some(6), drift: Some(2) }
    } else if k == 10 {
        Band { target: 1, slack: Some(7), drift: Some(3) }
    } else if k == 11 {
        Band { target: 2, slack: Some(8), drift: Some(4) }
    } else if k == 12 {
        Band { target: 3, slack: Some(9), drift: Some(5) }
    } else if k == 13 {
        Band { target: 4, slack: Some(17), drift: None }
    } else {
        Band { target: 5, slack: Some(18), drift: None }
    }
}

/// The name of a variable within its slot.
pub open spec fn component_label(k: int) -> Seq<char> {
    if k == 0 {
        "target_x"@
    } else if k == 1 {
        "target_y"@
    } else if k == 2 {
        "target_vx"@
    } else if k == 3 {
        "target_vy"@
    } else if k == 4 {
        "target_ax"@
    } else if k == 5 {
        "target_ay"@
    } else if k == 6 {
        "dynamics_slack_x"@
    } else if k == 7 {
        "dynamics_slack_y"@
    } else if k == 8 {
        "dynamics_slack_vx"@
    } else if k == 9 {
        "dynamics_slack_vy"@
    } else if k == 10 {
        "anchor_slack_x"@
    } else if k == 11 {
        "anchor_slack_y"@
    } else if k == 12 {
        "movement_slack_x"@
    } else if k == 13 {
        "movement_slack_y"@
    } else if k == 14 {
        "pressure_slack_x"@
    } else if k == 15 {
        "pressure_slack_y"@
    } else if k == 16 {
        "speed_match_slack_y"@
    } else if k == 17 {
        "acceleration_slack_x"@
    } else {
        "acceleration_slack_y"@
    }
}

fn component_text(k: usize) -> (r: &'static str)
    requires
        k < SLOT_VARS,
    ensures
        r@ == component_label(k as int),
{
    if k == 0 {
        "target_x"
    } else if k == 1 {
        "target_y"
    } else if k == 2 {
        "target_vx"
    } else if k == 3 {
        "target_vy"
    } else if k == 4 {
        "target_ax"
    } else if k == 5 {
        "target_ay"
    } else if k == 6 {
        "dynamics_slack_x"
    } else if k == 7 {
        "dynamics_slack_y"
    } else if k == 8 {
        "dynamics_slack_vx"
    } else if k == 9 {
        "dynamics_slack_vy"
    } else if k == 10 {
        "anchor_slack_x"
    } else if k == 11 {
        "anchor_slack_y"
    } else if k == 12 {
        "movement_slack_x"
    } else if k == 13 {
        "movement_slack_y"
    } else if k == 14 {
        "pressure_slack_x"
    } else if k == 15 {
        "pressure_slack_y"
    } else if k == 16 {
        "speed_match_slack_y"
    } else if k == 17 {
        "acceleration_slack_x"
    } else {
        "acceleration_slack_y"
    }
}

/// The name of a band within its slot.
pub open spec fn band_label(k: int) -> Seq<char> {
    if k == 0 {
        "anchor_x"@
    } else if k == 1 {
        "anchor_y"@
    } else if k == 2 {
        "movement_x"@
    } else if k == 3 {
        "movement_y"@
    } else if k == 4 {
        "reach_x"@
    } else if k == 5 {
        "reach_y"@
    } else if k == 6 {
        "pressure_x"@
    } else if k == 7 {
        "pressure_y"@
    } else if k == 8 {
        "speed_y"@
    } else if k == 9 {
        "dynamics_x"@
    } else if k == 10 {
        "dynamics_y"@
    } else if k == 11 {
        "dynamics_vx"@
    } else if k == 12 {
        "dynamics_vy"@
    } else if k == 13 {
        "acceleration_x"@
    } else {
        "acceleration_y"@
    }
}

fn band_text(k: usize) -> (r: &'static str)
    requires
        k < 15,
    ensures
        r@ == band_label(k as int),
{
    if k == 0 {
        "anchor_x"
    } else if k == 1 {
        "anchor_y"
    } else if k == 2 {
        "movement_x"
    } else if k == 3 {
        "movement_y"
    } else if k == 4 {
        "reach_x"
    } else if k == 5 {
        "reach_y"
    } else if k == 6 {
        "pressure_x"
    } else if k == 7 {
        "pressure_y"
    } else if k == 8 {
        "speed_y"
    } else if k == 9 {
        "dynamics_x"
    } else if k == 10 {
        "dynamics_y"
    } else if k == 11 {
        "dynamics_vx"
    } else if k == 12 {
        "dynamics_vy"
    } else if k == 13 {
        "acceleration_x"
    } else {
        "acceleration_y"
    }
}

/// The name of one number of a motion.
pub open spec fn motion_label(k: int) -> Seq<char> {
    if k == 0 {
        "pos_x"@
    } else if k == 1 {
        "pos_y"@
    } else if k == 2 {
        "vel_x"@
    } else if k == 3 {
        "vel_y"@
    } else if k == 4 {
        "acc_x"@
    } else {
        "acc_y"@
    }
}

fn motion_text(k: usize) -> (r: &'static str)
    requires
        k < 6,
    ensures
        r@ == motion_label(k as int),
{
    if k == 0 {
        "pos_x"
    } else if k == 1 {
        "pos_y"
    } else if k == 2 {
        "vel_x"
    } else if k == 3 {
        "vel_y"
    } else if k == 4 {
        "acc_x"
    } else {
        "acc_y"
    }
}

/// The name of a variable.
pub open spec fn var_name(team: Team, pairs: Seq<SoccerFormationLpPairVars>, v: int) -> Seq<char> {
    if v < PAIR_VAR_START {
        team.lower_name() + ":slot"@ + decimal((v / 19) as nat) + ":"@ + component_label(v % 19)
    } else if v < STATE_START {
        let pair = pairs[(v - PAIR_VAR_START) / 2];
        team.lower_name() + ":pair"@ + decimal(pair.a as nat) + "_"@ + decimal(pair.b as nat)
            + ":separation_slack_"@ + (if (v - PAIR_VAR_START) % 2 == 0 {
            "x"@
        } else {
            "y"@
        })
    } else if v < BALL_START {
        "world:player"@ + decimal(((v - STATE_START) / 6) as nat) + ":"@ + motion_label(
            (v - STATE_START) % 6,
        )
    } else if v < CONTEXT_START {
        "world:ball:"@ + motion_label(v - BALL_START)
    } else {
        "context:feature"@ + decimal((v - CONTEXT_START) as nat)
    }
}

/// The name of a row: the slot rows, the pair rows, then one row for each state variable.
pub open spec fn con_name(team: Team, pairs: Seq<SoccerFormationLpPairVars>, r: int) -> Seq<char> {
    if r < PAIR_ROW_START {
        team.lower_name() + ":slot"@ + decimal((r / 30) as nat) + ":"@ + band_label(r % 30 / 2) + (
        if r % 2 == 0 {
            "_upper"@
        } else {
            "_lower"@
        })
    } else if r < UPPER_ROWS {
        let pair = pairs[(r - PAIR_ROW_START) / 4];
        team.lower_name() + ":pair"@ + decimal(pair.a as nat) + "_"@ + decimal(pair.b as nat)
            + ":separation_"@ + (if (r - PAIR_ROW_START) % 4 < 2 {
            "x"@
        } else {
            "y"@
        }) + (if r % 2 == 0 {
            "_upper"@
        } else {
            "_lower"@
        })
    } else {
        "state:"@ + var_name(team, pairs, STATE_START + (r - UPPER_ROWS)) + ":fixed"@
    }
}

/// The bound of a variable from below before the first tick.
pub open spec fn first_lower(v: int) -> Option<Real64> {
    if v < PAIR_VAR_START && (v % 19 == 2 || v % 19 == 3) {
        Some(Real64 { bits: DM20 })
    } else if v < PAIR_VAR_START && (v % 19 == 4 || v % 19 == 5) {
        Some(Real64 { bits: DM30 })
    } else if v < STATE_START {
        Some(Real64 { bits: D0 })
    } else {
        Some(Real64 { bits: DM2 })
    }
}

/// The bound of a variable from above before the first tick.
pub open spec fn first_upper(width: Real64, length: Real64, v: int) -> Option<Real64> {
    if v < PAIR_VAR_START {
        if v % 19 == 0 {
            Some(width)
        } else if v % 19 == 1 {
            Some(length)
        } else if v % 19 < 4 {
            Some(Real64 { bits: D20 })
        } else if v % 19 < 6 {
            Some(Real64 { bits: D30 })
        } else {
            None
        }
    } else if v < STATE_START {
        None
    } else {
        Some(Real64 { bits: D2 })
    }
}

pub open spec fn one() -> Real64 {
    Real64 { bits: ONE_BITS }
}

pub open spec fn minus_one() -> Real64 {
    Real64 { bits: MINUS_ONE_BITS }
}

pub open spec fn zero() -> Real64 {
    Real64 { bits: 0 }
}

/// The coefficient of the drifting variable: nothing before the first tick, afterwards the
/// tick length, subtracted from above and added from below.
pub open spec fn drift_coefficient(dt: Option<Real64>, upper: bool) -> Real64 {
    match dt {
        None => zero(),
        Some(seconds) => if upper {
            seconds.negated()
        } else {
            seconds
        },
    }
}

/// The coefficient that row `k` of a slot gives to variable `j` of the same slot.
pub open spec fn slot_coefficient(dt: Option<Real64>, k: int, j: int) -> Real64 {
    let b = band_of(k / 2);
    let upper = k % 2 == 0;
    if j == b.target {
        if upper {
            one()
        } else {
            minus_one()
        }
    } else if b.slack is Some && j == b.slack->0 {
        minus_one()
    } else if b.drift is Some && j == b.drift->0 {
        drift_coefficient(dt, upper)
    } else {
        zero()
    }
}

/// The coefficient that row `q` of a pair gives to variable `v`: the two slots' coordinates
/// with opposite signs, less the pair's slack.
pub open spec fn pair_coefficient(pair: SoccerFormationLpPairVars, q: int, v: int) -> Real64 {
    let axis = q / 2;
    let upper = q % 2 == 0;
    if v == SLOT_VARS * pair.a + axis {
        if upper {
            one()
        } else {
            minus_one()
        }
    } else if v == SLOT_VARS * pair.b + axis {
        if upper {
            minus_one()
        } else {
            one()
        }
    } else if v == pair.separation_slack_x + axis {
        minus_one()
    } else {
        zero()
    }
}

/// The coefficient of variable `v` in upper-bound row `r`.
pub open spec fn coefficient(
    pairs: Seq<SoccerFormationLpPairVars>,
    dt: Option<Real64>,
    r: int,
    v: int,
) -> Real64 {
    if r < PAIR_ROW_START {
        if v < PAIR_VAR_START && v / 19 == r / 30 {
            slot_coefficient(dt, r % 30, v % 19)
        } else {
            zero()
        }
    } else {
        pair_coefficient(pairs[(r - PAIR_ROW_START) / 4], (r - PAIR_ROW_START) % 4, v)
    }
}

/// The coefficient of variable `v` in the row that fixes state variable `i`.
pub open spec fn state_coefficient(i: int, v: int) -> Real64 {
    if v == STATE_START + i {
        one()
    } else {
        zero()
    }
}

/// The upper-bound rows hold their coefficients.
pub open spec fn rows_laid_out(
    rows: Seq<Vec<Real64>>,
    pairs: Seq<SoccerFormationLpPairVars>,
    dt: Option<Real64>,
) -> bool {
    &&& rows.len() == UPPER_ROWS
    &&& forall|r: int| 0 <= r < rows.len() ==> (#[trigger] rows[r])@.len() == VARIABLES
    &&& forall|r: int, v: int|
        0 <= r < rows.len() && 0 <= v < VARIABLES ==> #[trigger] rows[r]@[v] == coefficient(
            pairs,
            dt,
            r,
            v,
        )
}

/// Names a variable.
pub fn variable_name(team: Team, pairs: &Vec<SoccerFormationLpPairVars>, v: usize) -> (r: String)
    requires
        pairs_laid_out(pairs@),
        v < VARIABLES,
    ensures
        r@ == var_name(team, pairs@, v as int),
{
    if v < PAIR_VAR_START {
        let mut s: String = team.lower_label().to_owned();
        s.append(":slot");
        s.append(decimal_text(v / 19).as_str());
        s.append(":");
        s.append(component_text(v % 19));
        s
    } else if v < STATE_START {
        let pair: SoccerFormationLpPairVars = pairs[(v - PAIR_VAR_START) / 2];
        let mut s: String = team.lower_label().to_owned();
        s.append(":pair");
        s.append(decimal_text(pair.a).as_str());
        s.append("_");
        s.append(decimal_text(pair.b).as_str());
        s.append(":separation_slack_");
        s.append(if (v - PAIR_VAR_START) % 2 == 0 { "x" } else { "y" });
        s
    } else if v < BALL_START {
        let mut s: String = "world:player".to_owned();
        s.append(decimal_text((v - STATE_START) / 6).as_str());
        s.append(":");
        s.append(motion_text((v - STATE_START) % 6));
        s
    } else if v < CONTEXT_START {
        let mut s: String = "world:ball:".to_owned();
        s.append(motion_text(v - BALL_START));
        s
    } else {
        let mut s: String = "context:feature".to_owned();
        s.append(decimal_text(v - CONTEXT_START).as_str());
        s
    }
}

/// Names a row.
pub fn constraint_name(team: Team, pairs: &Vec<SoccerFormationLpPairVars>, r: usize) -> (s: String)
    requires
        pairs_laid_out(pairs@),
        r < CONSTRAINTS,
    ensures
        s@ == con_name(team, pairs@, r as int),
{
    if r < PAIR_ROW_START {
        let mut s: String = team.lower_label().to_owned();
        s.append(":slot");
        s.append(decimal_text(r / 30).as_str());
        s.append(":");
        s.append(band_text(r % 30 / 2));
        s.append(if r % 2 == 0 { "_upper" } else { "_lower" });
        s
    } else if r < UPPER_ROWS {
        let pair: SoccerFormationLpPairVars = pairs[(r - PAIR_ROW_START) / 4];
        let mut s: String = team.lower_label().to_owned();
        s.append(":pair");
        s.append(decimal_text(pair.a).as_str());
        s.append("_");
        s.append(decimal_text(pair.b).as_str());
        s.append(":separation_");
        s.append(if (r - PAIR_ROW_START) % 4 < 2 { "x" } else { "y" });
        s.append(if r % 2 == 0 { "_upper" } else { "_lower" });
        s
    } else {
        let mut s: String = "state:".to_owned();
        s.append(variable_name(team, pairs, STATE_START + (r - UPPER_ROWS)).as_str());
        s.append(":fixed");
        s
    }
}

/// The bound of a variable from below before the first tick.
pub fn initial_lower(v: usize) -> (r: Option<Real64>)
    requires
        v < VARIABLES,
    ensures
        r == first_lower(v as int),
{
    if v < PAIR_VAR_START && (v % 19 == 2 || v % 19 == 3) {
        Some(Real64 { bits: DM20 })
    } else if v < PAIR_VAR_START && (v % 19 == 4 || v % 19 == 5) {
        Some(Real64 { bits: DM30 })
    } else if v < STATE_START {
        Some(Real64 { bits: D0 })
    } else {
        Some(Real64 { bits: DM2 })
    }
}

/// The bound of a variable from above before the first tick.
pub fn initial_upper(width: Real64, length: Real64, v: usize) -> (r: Option<Real64>)
    requires
        v < VARIABLES,
    ensures
        r == first_upper(width, length, v as int),
{
    if v < PAIR_VAR_START {
        if v % 19 == 0 {
            Some(width)
        } else if v % 19 == 1 {
            Some(length)
        } else if v % 19 < 4 {
            Some(Real64 { bits: D20 })
        } else if v % 19 < 6 {
            Some(Real64 { bits: D30 })
        } else {
            None
        }
    } else if v < STATE_START {
        None
    } else {
        Some(Real64 { bits: D2 })
    }
}

fn zero_row() -> (row: Vec<Real64>)
    ensures
        row@ == Seq::new(VARIABLES as nat, |v: int| zero()),
{
    let mut row: Vec<Real64> = Vec::new();
    let mut v: usize = 0;
    while v < VARIABLES
        invariant
            v <= VARIABLES,
            row@ == Seq::new(v as nat, |v: int| zero()),
        decreases VARIABLES - v,
    {
        row.push(Real64 { bits: 0 });
        v += 1;
        assert(row@ =~= Seq::new(v as nat, |v: int| zero()));
    }
    row
}

/// Builds an upper-bound row.
pub fn upper_row(
    pairs: &Vec<SoccerFormationLpPairVars>,
    dt: Option<Real64>,
    r: usize,
) -> (row: Vec<Real64>)
    requires
        pairs_laid_out(pairs@),
        r < UPPER_ROWS,
    ensures
        row@ == Seq::new(VARIABLES as nat, |v: int| coefficient(pairs@, dt, r as int, v)),
{
    let mut row: Vec<Real64> = zero_row();
    let plus: Real64 = Real64 { bits: ONE_BITS };
    let minus: Real64 = Real64 { bits: MINUS_ONE_BITS };
    if r < PAIR_ROW_START {
        let base: usize = 19 * (r / 30);
        let shape: Band = band(r % 30 / 2);
        let upper: bool = r % 2 == 0;
        if let Some(j) = shape.drift {
            if let Some(seconds) = dt {
                row.set(base + j, if upper { seconds.negate() } else { seconds });
            }
        }
        if let Some(j) = shape.slack {
            row.set(base + j, minus);
        }
        row.set(base + shape.target, if upper { plus } else { minus });
    } else {
        let pair: SoccerFormationLpPairVars = pairs[(r - PAIR_ROW_START) / 4];
        let axis: usize = (r - PAIR_ROW_START) % 4 / 2;
        let upper: bool = r % 2 == 0;
        row.set(pair.separation_slack_x + axis, minus);
        row.set(19 * pair.b + axis, if upper { minus } else { plus });
        row.set(19 * pair.a + axis, if upper { plus } else { minus });
    }
    assert(row@ =~= Seq::new(VARIABLES as nat, |v: int| coefficient(pairs@, dt, r as int, v)));
    row
}

/// Builds the row that fixes a state variable.
pub fn state_row(i: usize) -> (row: Vec<Real64>)
    requires
        i < STATE_COUNT,
    ensures
        row@ == Seq::new(VARIABLES as nat, |v: int| state_coefficient(i as int, v)),
{
    let mut row: Vec<Real64> = zero_row();
    row.set(STATE_START + i, Real64 { bits: ONE_BITS });
    assert(row@ =~= Seq::new(VARIABLES as nat, |v: int| state_coefficient(i as int, v)));
    row
}

proof fn pairs_before_all()
    ensures
        pairs_before(0) == 0,
        pairs_before(10) == PAIR_COUNT,
        pairs_before(11) == PAIR_COUNT,
{
    reveal_with_fuel(pairs_before, 12);
}

proof fn pairs_before_grows(a: int)
    requires
        0 <= a < SOCCER_FORMATION_LP_PLAYER_CAPACITY,
    ensures
        0 <= pairs_before(a),
        pairs_before(a + 1) == pairs_before(a) + (SOCCER_FORMATION_LP_PLAYER_CAPACITY - a - 1),
        pairs_before(a + 1) <= PAIR_COUNT,
{
    reveal_with_fuel(pairs_before, 13);
}

/// Lists every pair of slots.
pub fn all_pairs() -> (pairs: Vec<SoccerFormationLpPairVars>)
    ensures
        pairs_laid_out(pairs@),
{
    let mut pairs: Vec<SoccerFormationLpPairVars> = Vec::new();
    let mut a: usize = 0;
    while a < 11
        invariant
            a <= 11,
            pairs@.len() == pairs_before(a as int),
            forall|p: int|
                0 <= p < pairs@.len() ==> {
                    let pair = #[trigger] pairs@[p];
                    &&& pair.a < pair.b < SOCCER_FORMATION_LP_PLAYER_CAPACITY
                    &&& pair_index(pair.a as int, pair.b as int) == p
                    &&& pair.separation_slack_x == PAIR_VAR_START + 2 * p
                    &&& pair.separation_slack_y == PAIR_VAR_START + 2 * p + 1
                },
            forall|c: int, d: int|
                0 <= c < d < SOCCER_FORMATION_LP_PLAYER_CAPACITY && c < a ==> {
                    let p = #[trigger] pair_index(c, d);
                    0 <= p < pairs@.len() && pairs@[p].a == c && pairs@[p].b == d
                },
        decreases 11 - a,
    {
        proof {
            pairs_before_grows(a as int);
        }
        let mut b: usize = a + 1;
        while b < 11
            invariant
                a < b <= 11,
                0 <= pairs_before(a as int),
                pairs_before(a as int) + (10 - a) <= PAIR_COUNT,
                pairs@.len() == pairs_before(a as int) + (b - a - 1),
                forall|p: int|
                    0 <= p < pairs@.len() ==> {
                        let pair = #[trigger] pairs@[p];
                        &&& pair.a < pair.b < SOCCER_FORMATION_LP_PLAYER_CAPACITY
                        &&& pair_index(pair.a as int, pair.b as int) == p
                        &&& pair.separation_slack_x == PAIR_VAR_START + 2 * p
                        &&& pair.separation_slack_y == PAIR_VAR_START + 2 * p + 1
                    },
                forall|c: int, d: int|
                    0 <= c < d < SOCCER_FORMATION_LP_PLAYER_CAPACITY && (c < a || (c == a && d
                        < b)) ==> {
                        let p = #[trigger] pair_index(c, d);
                        0 <= p < pairs@.len() && pairs@[p].a == c && pairs@[p].b == d
                    },
            decreases 11 - b,
        {
            let slack: usize = PAIR_VAR_START + 2 * pairs.len();
            pairs.push(
                SoccerFormationLpPairVars {
                    a,
                    b,
                    separation_slack_x: slack,
                    separation_slack_y: slack + 1,
                },
            );
            b += 1;
        }
        a += 1;
    }
    proof {
        pairs_before_all();
    }
    pairs
}

/// The named variables and rows of a slot stand where its own block stands: blocks of
/// different slots share no variable and no row.
pub proof fn slots_do_not_overlap(s: int, t: int, j: int, k: int)
    requires
        0 <= s < SOCCER_FORMATION_LP_PLAYER_CAPACITY,
        0 <= t < SOCCER_FORMATION_LP_PLAYER_CAPACITY,
    ensures
        0 <= j < SLOT_VARS && 0 <= k < SLOT_VARS && SLOT_VARS * s + j == SLOT_VARS * t + k ==> s
            == t && j == k,
        0 <= j < SLOT_ROWS && 0 <= k < SLOT_ROWS && SLOT_ROWS * s + j == SLOT_ROWS * t + k ==> s
            == t && j == k,
        0 <= j < SLOT_VARS ==> SLOT_VARS * s + j < PAIR_VAR_START,
        0 <= j < SLOT_ROWS ==> SLOT_ROWS * s + j < PAIR_ROW_START,
{
}

/// The upper and the lower row of a band are mirror images but for the slack, which both
/// subtract: together they hold the band's target within the slack of one value.
pub proof fn bands_are_mirrored(dt: Option<Real64>, band_number: int, j: int)
    requires
        0 <= band_number < 15,
        0 <= j < SLOT_VARS,
    ensures
        ({
            let b = band_of(band_number);
            let upper = slot_coefficient(dt, 2 * band_number, j);
            let lower = slot_coefficient(dt, 2 * band_number + 1, j);
            if b.slack is Some && j == b.slack->0 {
                upper == minus_one() && lower == minus_one()
            } else {
                lower.key() == -upper.key()
            }
        }),
{
}

} // verus!
