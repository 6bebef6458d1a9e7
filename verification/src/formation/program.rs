//! What the formation program says of a point: which distances its slacks bound, and what its
//! bounds and its objective hold and charge.
use crate::formation::brain::{tick_lower, tick_objective, tick_rhs, tick_upper, TickInputs};
use crate::formation::layout::{
    band_of, coefficient, minus_one, one, pair_coefficient, pair_index, pairs_laid_out,
    rows_of_pair, slot_coefficient, slot_rows, slot_vars, zero, SoccerFormationLpPairVars,
    PAIR_COUNT, PAIR_ROW_START, PAIR_VAR_START, SLOT_ROWS, SLOT_VARS,
    SOCCER_FORMATION_LP_PLAYER_CAPACITY, STATE_START, VARIABLES,
};
use crate::meaning::size;
use crate::number::Real64;
use vstd::prelude::*;

verus! {

/// The sum of the first `n` values of a function.
pub open spec fn total_of(f: spec_fn(int) -> real, n: int) -> real
    decreases n,
{
    if n <= 0 {
        0real
    } else {
        total_of(f, n - 1) + f(n - 1)
    }
}

/// A reading of numbers as reals that takes signs, nought, one and the tick length at their
/// word.
pub open spec fn reads_entries(read: spec_fn(Real64) -> real, dt: Real64, seconds: real) -> bool {
    &&& read(zero()) == 0real
    &&& read(one()) == 1real
    &&& read(minus_one()) == -1real
    &&& read(dt) == seconds
    &&& forall|a: Real64| read(#[trigger] a.negated()) == -read(a)
}

/// What a row adds up to at a point: every variable times its coefficient.
pub open spec fn row_value(
    read: spec_fn(Real64) -> real,
    pairs: Seq<SoccerFormationLpPairVars>,
    dt: Real64,
    r: int,
    point: Seq<real>,
) -> real {
    total_of(
        |v: int| read(coefficient(pairs, Some(dt), r, v)) * point[v],
        VARIABLES as int,
    )
}

/// A point keeps a row where the row adds up to no more than its right-hand side.
pub open spec fn keeps_row(
    read: spec_fn(Real64) -> real,
    pairs: Seq<SoccerFormationLpPairVars>,
    tick: TickInputs,
    r: int,
    point: Seq<real>,
) -> bool {
    row_value(read, pairs, tick.dt, r, point) <= read(tick_rhs(tick, r))
}

/// A point keeps two rows.
pub open spec fn keeps_rows(
    read: spec_fn(Real64) -> real,
    pairs: Seq<SoccerFormationLpPairVars>,
    tick: TickInputs,
    upper: usize,
    lower: usize,
    point: Seq<real>,
) -> bool {
    &&& keeps_row(read, pairs, tick, upper as int, point)
    &&& keeps_row(read, pairs, tick, lower as int, point)
}

spec fn at(f: spec_fn(int) -> real, i: int, n: int) -> real {
    if i < n {
        f(i)
    } else {
        0real
    }
}

proof fn three_make_the_total(f: spec_fn(int) -> real, n: int, i: int, j: int, k: int)
    requires
        0 <= i,
        0 <= j,
        0 <= k,
        i != j,
        i != k,
        j != k,
        forall|v: int| 0 <= v < n && v != i && v != j && v != k ==> #[trigger] f(v) == 0real,
    ensures
        n >= 0 ==> total_of(f, n) == at(f, i, n) + at(f, j, n) + at(f, k, n),
    decreases n,
{
    if n > 0 {
        three_make_the_total(f, n - 1, i, j, k);
        let last = f(n - 1);
    }
}

proof fn weighted(w: real, x: real)
    ensures
        w == 0real ==> w * x == 0real,
        w == 1real ==> w * x == x,
        w == -1real ==> w * x == -x,
{
    assert(0real * x == 0real) by (nonlinear_arith);
    assert(1real * x == x) by (nonlinear_arith);
    assert((-1real) * x == -x) by (nonlinear_arith);
}

proof fn drifted(w: real, seconds: real, x: real)
    ensures
        w == -seconds ==> w * x == -(seconds * x),
{
    assert((-seconds) * x == -(seconds * x)) by (nonlinear_arith);
}

/// What the band of a slot's row adds at a point.
spec fn band_sum(seconds: real, k: int, base: int, point: Seq<real>) -> real {
    let b = band_of(k / 2);
    let held = point[base + b.target];
    let drift = if b.drift is Some {
        seconds * point[base + b.drift->0]
    } else {
        0real
    };
    let slack = if b.slack is Some {
        point[base + b.slack->0]
    } else {
        0real
    };
    if k % 2 == 0 {
        held - drift - slack
    } else {
        drift - held - slack
    }
}

#[verifier::spinoff_prover]
#[verifier::rlimit(60)]
proof fn slot_rows_add_up(
    read: spec_fn(Real64) -> real,
    pairs: Seq<SoccerFormationLpPairVars>,
    dt: Real64,
    seconds: real,
    slot: int,
    k: int,
    point: Seq<real>,
)
    requires
        reads_entries(read, dt, seconds),
        0 <= slot < SOCCER_FORMATION_LP_PLAYER_CAPACITY,
        0 <= k < SLOT_ROWS,
    ensures
        row_value(read, pairs, dt, SLOT_ROWS * slot + k, point) == band_sum(
            seconds,
            k,
            SLOT_VARS * slot,
            point,
        ),
{
    let r = SLOT_ROWS * slot + k;
    let base = SLOT_VARS * slot;
    let b = band_of(k / 2);
    let f = |v: int| read(coefficient(pairs, Some(dt), r, v)) * point[v];
    let held = base + b.target;
    let slack = if b.slack is Some {
        base + b.slack->0
    } else {
        base + 18
    };
    let drift = if b.drift is Some {
        base + b.drift->0
    } else {
        base + 3
    };
    assert(r / 30 == slot && r % 30 == k);
    assert forall|v: int|
        0 <= v < VARIABLES && v != held && v != slack && v != drift implies #[trigger] f(v)
        == 0real by {
        if v < PAIR_VAR_START && v / 19 == slot {
            assert(v == base + v % 19);
        }
        assert(coefficient(pairs, Some(dt), r, v) == zero());
        weighted(read(zero()), point[v]);
    }
    three_make_the_total(f, VARIABLES as int, held, slack, drift);
    assert(held / 19 == slot && held % 19 == b.target);
    assert(slack / 19 == slot && slack % 19 == slack - base);
    assert(drift / 19 == slot && drift % 19 == drift - base);
    weighted(read(slot_coefficient(Some(dt), k, b.target as int)), point[held]);
    weighted(read(slot_coefficient(Some(dt), k, slack - base)), point[slack]);
    weighted(read(slot_coefficient(Some(dt), k, drift - base)), point[drift]);
    drifted(read(dt.negated()), seconds, point[drift]);
}

/// The slacks of a slot bound what its targets are off. Where a point keeps both rows of a
/// band, and only there, the slack is at least as large as the distance of the target from the
/// anchor, from where the player stands, from the place to press at, or from the depth to match.
#[verifier::spinoff_prover]
#[verifier::rlimit(60)]
pub proof fn slacks_bound_the_distances(
    read: spec_fn(Real64) -> real,
    pairs: Seq<SoccerFormationLpPairVars>,
    tick: TickInputs,
    seconds: real,
    slot: int,
    point: Seq<real>,
)
    requires
        reads_entries(read, tick.dt, seconds),
        0 <= slot < SOCCER_FORMATION_LP_PLAYER_CAPACITY,
    ensures
        ({
            let vars = slot_vars(slot);
            let rows = slot_rows(slot);
            let s = tick.slots@[slot];
            let x = point[vars.target_x as int];
            let y = point[vars.target_y as int];
            &&& keeps_rows(read, pairs, tick, rows.anchor_x_upper, rows.anchor_x_lower, point)
                <==> size(x - read(s.anchor.x)) <= point[vars.anchor_slack_x as int]
            &&& keeps_rows(read, pairs, tick, rows.anchor_y_upper, rows.anchor_y_lower, point)
                <==> size(y - read(s.anchor.y)) <= point[vars.anchor_slack_y as int]
            &&& keeps_rows(read, pairs, tick, rows.movement_x_upper, rows.movement_x_lower, point)
                <==> size(x - read(s.current.x)) <= point[vars.movement_slack_x as int]
            &&& keeps_rows(read, pairs, tick, rows.movement_y_upper, rows.movement_y_lower, point)
                <==> size(y - read(s.current.y)) <= point[vars.movement_slack_y as int]
            &&& keeps_rows(read, pairs, tick, rows.pressure_x_upper, rows.pressure_x_lower, point)
                <==> size(x - read(s.pressure.x)) <= point[vars.pressure_slack_x as int]
            &&& keeps_rows(read, pairs, tick, rows.pressure_y_upper, rows.pressure_y_lower, point)
                <==> size(y - read(s.pressure.y)) <= point[vars.pressure_slack_y as int]
            &&& keeps_rows(read, pairs, tick, rows.speed_y_upper, rows.speed_y_lower, point)
                <==> size(y - read(s.speed_match_y)) <= point[vars.speed_match_slack_y as int]
        }),
{
    slot_rows_add_up(read, pairs, tick.dt, seconds, slot, 0, point);
    slot_rows_add_up(read, pairs, tick.dt, seconds, slot, 1, point);
    slot_rows_add_up(read, pairs, tick.dt, seconds, slot, 2, point);
    slot_rows_add_up(read, pairs, tick.dt, seconds, slot, 3, point);
    slot_rows_add_up(read, pairs, tick.dt, seconds, slot, 4, point);
    slot_rows_add_up(read, pairs, tick.dt, seconds, slot, 5, point);
    slot_rows_add_up(read, pairs, tick.dt, seconds, slot, 6, point);
    slot_rows_add_up(read, pairs, tick.dt, seconds, slot, 7, point);
    slot_rows_add_up(read, pairs, tick.dt, seconds, slot, 12, point);
    slot_rows_add_up(read, pairs, tick.dt, seconds, slot, 13, point);
    slot_rows_add_up(read, pairs, tick.dt, seconds, slot, 14, point);
    slot_rows_add_up(read, pairs, tick.dt, seconds, slot, 15, point);
    slot_rows_add_up(read, pairs, tick.dt, seconds, slot, 16, point);
    slot_rows_add_up(read, pairs, tick.dt, seconds, slot, 17, point);
}

/// The motion rows tie place, speed and acceleration over one tick. Where a point keeps them,
/// and only there, the slack is at least as large as what the target is off the place reached
/// from where the player stands at the target speed, and the target speed off the speed reached
/// from the present one at the target acceleration; the acceleration slack is at least as large
/// as the acceleration.
#[verifier::spinoff_prover]
#[verifier::rlimit(60)]
pub proof fn motion_carries_the_player(
    read: spec_fn(Real64) -> real,
    pairs: Seq<SoccerFormationLpPairVars>,
    tick: TickInputs,
    seconds: real,
    slot: int,
    point: Seq<real>,
)
    requires
        reads_entries(read, tick.dt, seconds),
        0 <= slot < SOCCER_FORMATION_LP_PLAYER_CAPACITY,
    ensures
        ({
            let vars = slot_vars(slot);
            let rows = slot_rows(slot);
            let s = tick.slots@[slot];
            let x = point[vars.target_x as int];
            let y = point[vars.target_y as int];
            let vx = point[vars.target_vx as int];
            let vy = point[vars.target_vy as int];
            let ax = point[vars.target_ax as int];
            let ay = point[vars.target_ay as int];
            &&& keeps_rows(read, pairs, tick, rows.dynamics_x_upper, rows.dynamics_x_lower, point)
                <==> size(x - (read(s.current.x) + seconds * vx))
                <= point[vars.dynamics_slack_x as int]
            &&& keeps_rows(read, pairs, tick, rows.dynamics_y_upper, rows.dynamics_y_lower, point)
                <==> size(y - (read(s.current.y) + seconds * vy))
                <= point[vars.dynamics_slack_y as int]
            &&& keeps_rows(read, pairs, tick, rows.dynamics_vx_upper, rows.dynamics_vx_lower, point)
                <==> size(vx - (read(s.velocity.x) + seconds * ax))
                <= point[vars.dynamics_slack_vx as int]
            &&& keeps_rows(read, pairs, tick, rows.dynamics_vy_upper, rows.dynamics_vy_lower, point)
                <==> size(vy - (read(s.velocity.y) + seconds * ay))
                <= point[vars.dynamics_slack_vy as int]
            &&& keeps_rows(
                read,
                pairs,
                tick,
                rows.acceleration_x_upper,
                rows.acceleration_x_lower,
                point,
            ) <==> size(ax) <= point[vars.acceleration_slack_x as int]
            &&& keeps_rows(
                read,
                pairs,
                tick,
                rows.acceleration_y_upper,
                rows.acceleration_y_lower,
                point,
            ) <==> size(ay) <= point[vars.acceleration_slack_y as int]
        }),
{
    slot_rows_add_up(read, pairs, tick.dt, seconds, slot, 18, point);
    slot_rows_add_up(read, pairs, tick.dt, seconds, slot, 19, point);
    slot_rows_add_up(read, pairs, tick.dt, seconds, slot, 20, point);
    slot_rows_add_up(read, pairs, tick.dt, seconds, slot, 21, point);
    slot_rows_add_up(read, pairs, tick.dt, seconds, slot, 22, point);
    slot_rows_add_up(read, pairs, tick.dt, seconds, slot, 23, point);
    slot_rows_add_up(read, pairs, tick.dt, seconds, slot, 24, point);
    slot_rows_add_up(read, pairs, tick.dt, seconds, slot, 25, point);
    slot_rows_add_up(read, pairs, tick.dt, seconds, slot, 26, point);
    slot_rows_add_up(read, pairs, tick.dt, seconds, slot, 27, point);
    slot_rows_add_up(read, pairs, tick.dt, seconds, slot, 28, point);
    slot_rows_add_up(read, pairs, tick.dt, seconds, slot, 29, point);
}

/// The reach rows leave no slack: where a point keeps them, and only there, the target lies
/// between the ends of the reach, of which the lower ones enter with their sign turned.
#[verifier::spinoff_prover]
#[verifier::rlimit(60)]
pub proof fn reach_holds_the_target(
    read: spec_fn(Real64) -> real,
    pairs: Seq<SoccerFormationLpPairVars>,
    tick: TickInputs,
    seconds: real,
    slot: int,
    point: Seq<real>,
)
    requires
        reads_entries(read, tick.dt, seconds),
        0 <= slot < SOCCER_FORMATION_LP_PLAYER_CAPACITY,
    ensures
        ({
            let vars = slot_vars(slot);
            let rows = slot_rows(slot);
            let s = tick.slots@[slot];
            let x = point[vars.target_x as int];
            let y = point[vars.target_y as int];
            &&& keeps_rows(read, pairs, tick, rows.reach_x_upper, rows.reach_x_lower, point)
                <==> -read(s.reach_lower.x) <= x <= read(s.reach_upper.x)
            &&& keeps_rows(read, pairs, tick, rows.reach_y_upper, rows.reach_y_lower, point)
                <==> -read(s.reach_lower.y) <= y <= read(s.reach_upper.y)
        }),
{
    slot_rows_add_up(read, pairs, tick.dt, seconds, slot, 8, point);
    slot_rows_add_up(read, pairs, tick.dt, seconds, slot, 9, point);
    slot_rows_add_up(read, pairs, tick.dt, seconds, slot, 10, point);
    slot_rows_add_up(read, pairs, tick.dt, seconds, slot, 11, point);
}

#[verifier::spinoff_prover]
#[verifier::rlimit(60)]
proof fn pair_rows_add_up(
    read: spec_fn(Real64) -> real,
    pairs: Seq<SoccerFormationLpPairVars>,
    dt: Real64,
    seconds: real,
    p: int,
    q: int,
    point: Seq<real>,
)
    requires
        reads_entries(read, dt, seconds),
        pairs_laid_out(pairs),
        0 <= p < PAIR_COUNT,
        0 <= q < 4,
    ensures
        ({
            let first = point[SLOT_VARS * pairs[p].a + q / 2];
            let second = point[SLOT_VARS * pairs[p].b + q / 2];
            let slack = point[pairs[p].separation_slack_x + q / 2];
            row_value(read, pairs, dt, PAIR_ROW_START + 4 * p + q, point) == if q % 2 == 0 {
                first - second - slack
            } else {
                second - first - slack
            }
        }),
{
    let r = PAIR_ROW_START + 4 * p + q;
    let f = |v: int| read(coefficient(pairs, Some(dt), r, v)) * point[v];
    let pair = pairs[p];
    let first = SLOT_VARS * pair.a + q / 2;
    let second = SLOT_VARS * pair.b + q / 2;
    let slack = pair.separation_slack_x + q / 2;
    assert((r - PAIR_ROW_START) / 4 == p && (r - PAIR_ROW_START) % 4 == q);
    assert forall|v: int|
        0 <= v < VARIABLES && v != first && v != second && v != slack implies #[trigger] f(v)
        == 0real by {
        assert(coefficient(pairs, Some(dt), r, v) == zero());
        weighted(read(zero()), point[v]);
    }
    assert(first < second < PAIR_VAR_START <= slack < VARIABLES);
    three_make_the_total(f, VARIABLES as int, first, second, slack);
    weighted(read(pair_coefficient(pair, q, first)), point[first]);
    weighted(read(pair_coefficient(pair, q, second)), point[second]);
    weighted(read(pair_coefficient(pair, q, slack)), point[slack]);
}

/// The slacks of two slots bound how far their targets are off the separation wanted: where a
/// point keeps both rows of an axis, and only there, the slack is at least as large as what the
/// first target lies beyond the second, less the separation.
#[verifier::spinoff_prover]
#[verifier::rlimit(60)]
pub proof fn slacks_bound_the_separation(
    read: spec_fn(Real64) -> real,
    pairs: Seq<SoccerFormationLpPairVars>,
    tick: TickInputs,
    seconds: real,
    a: int,
    b: int,
    point: Seq<real>,
)
    requires
        reads_entries(read, tick.dt, seconds),
        pairs_laid_out(pairs),
        0 <= a < b < SOCCER_FORMATION_LP_PLAYER_CAPACITY,
    ensures
        ({
            let p = pair_index(a, b);
            let first = slot_vars(a);
            let second = slot_vars(b);
            let rows = rows_of_pair(p);
            let apart = tick.pairs@[p].separation;
            &&& keeps_rows(
                read,
                pairs,
                tick,
                rows.separation_x_upper,
                rows.separation_x_lower,
                point,
            )
                <==> size(
                point[first.target_x as int] - point[second.target_x as int] - read(apart.x),
            ) <= point[pairs[p].separation_slack_x as int]
            &&& keeps_rows(
                read,
                pairs,
                tick,
                rows.separation_y_upper,
                rows.separation_y_lower,
                point,
            )
                <==> size(
                point[first.target_y as int] - point[second.target_y as int] - read(apart.y),
            ) <= point[pairs[p].separation_slack_y as int]
        }),
{
    let p = pair_index(a, b);
    assert(0 <= p < PAIR_COUNT && pairs[p].a == a && pairs[p].b == b);
    pair_rows_add_up(read, pairs, tick.dt, seconds, p, 0, point);
    pair_rows_add_up(read, pairs, tick.dt, seconds, p, 1, point);
    pair_rows_add_up(read, pairs, tick.dt, seconds, p, 2, point);
    pair_rows_add_up(read, pairs, tick.dt, seconds, p, 3, point);
}

/// Every slack of an occupied slot is charged at the price of its band, and the depth of the
/// target at the forward price; nothing else of a slot is, and nothing of an empty one.
pub proof fn slacks_are_charged_by_their_band(
    tick: TickInputs,
    pairs: Seq<SoccerFormationLpPairVars>,
    slot: int,
)
    requires
        0 <= slot < SOCCER_FORMATION_LP_PLAYER_CAPACITY,
    ensures
        ({
            let vars = slot_vars(slot);
            let s = tick.slots@[slot];
            let charge = |v: usize| tick_objective(tick, pairs, v as int);
            &&& s.active ==> charge(vars.anchor_slack_x) == s.anchor_entry
            &&& s.active ==> charge(vars.anchor_slack_y) == s.anchor_entry
            &&& s.active ==> charge(vars.movement_slack_x) == s.movement_entry
            &&& s.active ==> charge(vars.movement_slack_y) == s.movement_entry
            &&& s.active ==> charge(vars.pressure_slack_x) == s.pressure_entry
            &&& s.active ==> charge(vars.pressure_slack_y) == s.pressure_entry
            &&& s.active ==> charge(vars.speed_match_slack_y) == s.speed_entry
            &&& s.active ==> charge(vars.acceleration_slack_x) == s.acceleration_entry
            &&& s.active ==> charge(vars.acceleration_slack_y) == s.acceleration_entry
            &&& s.active ==> charge(vars.dynamics_slack_x) == s.dynamics_entry
            &&& s.active ==> charge(vars.dynamics_slack_y) == s.dynamics_entry
            &&& s.active ==> charge(vars.dynamics_slack_vx) == s.dynamics_entry
            &&& s.active ==> charge(vars.dynamics_slack_vy) == s.dynamics_entry
            &&& s.active ==> charge(vars.target_y) == s.forward_entry
            &&& charge(vars.target_x) == zero()
            &&& charge(vars.target_vx) == zero()
            &&& charge(vars.target_vy) == zero()
            &&& charge(vars.target_ax) == zero()
            &&& charge(vars.target_ay) == zero()
            &&& !s.active ==> forall|v: int|
                vars.target_x <= v <= vars.acceleration_slack_y ==> #[trigger] tick_objective(
                    tick,
                    pairs,
                    v,
                ) == zero()
        }),
{
}

/// A pair is charged for its separation on each axis at the pair's price for that axis, where
/// both players are there, and not at all otherwise; the state is free.
pub proof fn separations_are_charged_by_axis(
    tick: TickInputs,
    pairs: Seq<SoccerFormationLpPairVars>,
    a: int,
    b: int,
    v: int,
)
    requires
        pairs_laid_out(pairs),
        0 <= a < b < SOCCER_FORMATION_LP_PLAYER_CAPACITY,
        STATE_START <= v,
    ensures
        ({
            let p = pair_index(a, b);
            let both = tick.slots@[a].active && tick.slots@[b].active;
            let x = tick_objective(tick, pairs, pairs[p].separation_slack_x as int);
            let y = tick_objective(tick, pairs, pairs[p].separation_slack_y as int);
            &&& both ==> x == tick.pairs@[p].entry.x && y == tick.pairs@[p].entry.y
            &&& !both ==> x == zero() && y == zero()
        }),
        tick_objective(tick, pairs, v) == zero(),
{
    let p = pair_index(a, b);
    assert(0 <= p < PAIR_COUNT && pairs[p].a == a && pairs[p].b == b);
}

/// Speeds are held within the player's greatest speed both ways, accelerations within the
/// greatest acceleration, and targets within the pitch; who is not there does not move.
pub proof fn players_are_held_to_their_limits(
    tick: TickInputs,
    below: Option<Real64>,
    above: Option<Real64>,
    slot: int,
)
    requires
        0 <= slot < SOCCER_FORMATION_LP_PLAYER_CAPACITY,
    ensures
        ({
            let vars = slot_vars(slot);
            let s = tick.slots@[slot];
            let low = |v: usize| tick_lower(tick, below, v as int);
            let high = |v: usize| tick_upper(tick, above, v as int);
            &&& high(vars.target_x) == Some(tick.width) && low(vars.target_x) == below
            &&& high(vars.target_y) == Some(tick.length) && low(vars.target_y) == below
            &&& s.active ==> high(vars.target_vx) == Some(s.max_speed)
            &&& s.active ==> high(vars.target_vy) == Some(s.max_speed)
            &&& s.active ==> low(vars.target_vx) == Some(s.max_speed.negated())
            &&& s.active ==> low(vars.target_vy) == Some(s.max_speed.negated())
            &&& s.active ==> high(vars.target_ax) == Some(s.max_acceleration)
            &&& s.active ==> high(vars.target_ay) == Some(s.max_acceleration)
            &&& s.active ==> low(vars.target_ax) == Some(s.max_acceleration.negated())
            &&& s.active ==> low(vars.target_ay) == Some(s.max_acceleration.negated())
            &&& !s.active ==> high(vars.target_vx) == Some(zero())
            &&& !s.active ==> high(vars.target_vy) == Some(zero())
            &&& !s.active ==> high(vars.target_ax) == Some(zero())
            &&& !s.active ==> high(vars.target_ay) == Some(zero())
        }),
{
}

} // verus!
