//! How a team stands on the pitch: its centroid, its spread, and who is near the ball.
use crate::central::{
    players_within, wider_rings_hold_more, within_radius, CentralBrainTeamShapeTrace,
};
use crate::decimals::D0;
use crate::formation::tick::TickFrame;
use crate::geometry::{
    distance_of, divide, divided, find_middle, finite_or, is_distance, join, joined, measure,
    middle, origin, place_or, take_finite, take_place,
};
use crate::meaning::{
    decimals_are_read, is_faithful, reads_counts, reads_decimals, reads_quotients, reads_sums,
    real_sum, stands_at,
};
use crate::number::{
    add_up, apply, at_bits, is_conversion, is_operation, num, number_of, outcome, sum_up, to_number,
    Real64,
};
use crate::pitch::{Team, Vec2};
use vstd::prelude::*;

verus! {

/// A player as observed.
#[derive(Clone, Copy, Debug, PartialEq, Eq, Structural)]
pub struct Observed {
    pub team: Team,
    pub position: Vec2,
    pub velocity: Vec2,
}

/// The players of a team among the first `n`.
pub open spec fn own_players(players: Seq<Observed>, team: Team, n: int) -> Seq<Observed>
    decreases n,
{
    if n <= 0 {
        Seq::empty()
    } else if players[n - 1].team == team {
        own_players(players, team, n - 1).push(players[n - 1])
    } else {
        own_players(players, team, n - 1)
    }
}

fn take_own(players: &Vec<Observed>, team: Team) -> (own: Vec<Observed>)
    ensures
        own@ == own_players(players@, team, players@.len() as int),
{
    let mut own: Vec<Observed> = Vec::new();
    let mut i: usize = 0;
    while i < players.len()
        invariant
            i <= players@.len(),
            own@ == own_players(players@, team, i as int),
        decreases players@.len() - i,
    {
        if players[i].team == team {
            own.push(players[i]);
        }
        i += 1;
    }
    own
}

/// The first `n` positions, one after the other.
pub open spec fn position_sum<P: Fn(Real64, Real64) -> Real64>(
    plus: P,
    own: Seq<Observed>,
    n: int,
) -> Vec2
    decreases n,
{
    if n <= 0 {
        origin()
    } else {
        joined(plus, position_sum(plus, own, n - 1), own[n - 1].position)
    }
}

/// The first `n` velocities, one after the other.
pub open spec fn velocity_sum<P: Fn(Real64, Real64) -> Real64>(
    plus: P,
    own: Seq<Observed>,
    n: int,
) -> Vec2
    decreases n,
{
    if n <= 0 {
        origin()
    } else {
        joined(plus, velocity_sum(plus, own, n - 1), own[n - 1].velocity)
    }
}

/// The distances of the players to a point.
pub open spec fn distances_to<D: Fn(Vec2, Vec2) -> Real64>(
    distance: D,
    own: Seq<Observed>,
    point: Vec2,
) -> Seq<Real64> {
    own.map_values(|o: Observed| distance_of(distance, o.position, point))
}

fn measure_all<D: Fn(Vec2, Vec2) -> Real64>(
    own: &Vec<Observed>,
    point: Vec2,
    distance: &D,
) -> (r: Vec<Real64>)
    requires
        is_distance(*distance),
    ensures
        r@ == distances_to(*distance, own@, point),
{
    let mut r: Vec<Real64> = Vec::new();
    let mut i: usize = 0;
    while i < own.len()
        invariant
            i <= own@.len(),
            is_distance(*distance),
            r@ == distances_to(*distance, own@, point).take(i as int),
        decreases own@.len() - i,
    {
        r.push(measure(distance, own[i].position, point));
        i += 1;
        assert(r@ =~= distances_to(*distance, own@, point).take(i as int));
    }
    assert(r@ =~= distances_to(*distance, own@, point));
    r
}

/// The mean position of a team.
pub open spec fn centroid_of<
    P: Fn(Real64, Real64) -> Real64,
    Q: Fn(Real64, Real64) -> Real64,
    C: Fn(usize) -> Real64,
>(plus: P, over: Q, count: C, own: Seq<Observed>) -> Vec2 {
    divided(
        over,
        position_sum(plus, own, own.len() as int),
        number_of(count, own.len() as usize),
    )
}

/// The mean velocity of a team.
pub open spec fn drift_of<
    P: Fn(Real64, Real64) -> Real64,
    Q: Fn(Real64, Real64) -> Real64,
    C: Fn(usize) -> Real64,
>(plus: P, over: Q, count: C, own: Seq<Observed>) -> Vec2 {
    divided(
        over,
        velocity_sum(plus, own, own.len() as int),
        number_of(count, own.len() as usize),
    )
}

/// How far the players of a team are from their mean position, on average.
pub open spec fn spread_of<
    P: Fn(Real64, Real64) -> Real64,
    Q: Fn(Real64, Real64) -> Real64,
    C: Fn(usize) -> Real64,
    D: Fn(Vec2, Vec2) -> Real64,
>(plus: P, over: Q, count: C, distance: D, own: Seq<Observed>) -> Real64 {
    outcome(
        over,
        sum_up(
            plus,
            distances_to(distance, own, centroid_of(plus, over, count, own)),
            own.len() as int,
        ),
        number_of(count, own.len() as usize),
    )
}

/// Finds the mean position, the mean velocity and the spread of a team.
fn find_shape<
    P: Fn(Real64, Real64) -> Real64,
    Q: Fn(Real64, Real64) -> Real64,
    C: Fn(usize) -> Real64,
    D: Fn(Vec2, Vec2) -> Real64,
>(own: &Vec<Observed>, plus: &P, over: &Q, count: &C, distance: &D) -> (r: (Vec2, Vec2, Real64))
    requires
        is_operation(*plus),
        is_operation(*over),
        is_conversion(*count),
        is_distance(*distance),
    ensures
        r.0 == centroid_of(*plus, *over, *count, own@),
        r.1 == drift_of(*plus, *over, *count, own@),
        r.2 == spread_of(*plus, *over, *count, *distance, own@),
{
    let zero_vector: Vec2 = Vec2 { x: at_bits(D0), y: at_bits(D0) };
    let mut places: Vec2 = zero_vector;
    let mut speeds: Vec2 = zero_vector;
    let mut i: usize = 0;
    while i < own.len()
        invariant
            i <= own@.len(),
            is_operation(*plus),
            places == position_sum(*plus, own@, i as int),
            speeds == velocity_sum(*plus, own@, i as int),
        decreases own@.len() - i,
    {
        places = join(places, own[i].position, plus);
        speeds = join(speeds, own[i].velocity, plus);
        i += 1;
    }
    let n: Real64 = to_number(count, own.len());
    let centroid: Vec2 = divide(places, n, over);
    let distances: Vec<Real64> = measure_all(own, centroid, distance);
    (centroid, divide(speeds, n, over), apply(over, add_up(&distances, plus), n))
}

/// Finds the mean position and velocity of a team, its spread, and how many are near the ball;
/// nothing for a team of nobody.
pub fn team_brain_shape_from_awareness<
    P: Fn(Real64, Real64) -> Real64,
    Q: Fn(Real64, Real64) -> Real64,
    C: Fn(usize) -> Real64,
    D: Fn(Vec2, Vec2) -> Real64,
>(
    players: &Vec<Observed>,
    team: Team,
    ball: Vec2,
    near_radius: Real64,
    plus: &P,
    over: &Q,
    count: &C,
    distance: &D,
) -> (r: (Vec2, Vec2, Real64, usize))
    requires
        is_operation(*plus),
        is_operation(*over),
        is_conversion(*count),
        is_distance(*distance),
    ensures
        ({
            let own = own_players(players@, team, players@.len() as int);
            let n = own.len() as int;
            r == if n > 0 {
                (
                    centroid_of(*plus, *over, *count, own),
                    drift_of(*plus, *over, *count, own),
                    spread_of(*plus, *over, *count, *distance, own),
                    within_radius(distances_to(*distance, own, ball), near_radius, n) as usize,
                )
            } else {
                (origin(), origin(), num(D0), 0usize)
            }
        }),
{
    let own: Vec<Observed> = take_own(players, team);
    if own.len() == 0 {
        let zero_vector: Vec2 = Vec2 { x: at_bits(D0), y: at_bits(D0) };
        return (zero_vector, zero_vector, at_bits(D0), 0);
    }
    let (centroid, drift, spread): (Vec2, Vec2, Real64) = find_shape(
        &own,
        plus,
        over,
        count,
        distance,
    );
    let distances: Vec<Real64> = measure_all(&own, ball, distance);
    let near: usize = players_within(&distances, near_radius);
    (centroid, drift, spread, near)
}

/// What the observation of a team reads of a player.
#[derive(Clone, Copy, Debug, PartialEq, Eq, Structural)]
pub struct SeenPlayer {
    pub team: Team,
    /// Where the player was last seen.
    pub seen: Vec2,
    pub home_position: Vec2,
    pub velocity: Vec2,
}

/// The players as observed on the pitch.
pub open spec fn observed_on(players: Seq<SeenPlayer>, frame: TickFrame) -> Seq<Observed> {
    players.map_values(
        |p: SeenPlayer|
            Observed {
                team: p.team,
                position: place_or(p.seen, frame.width, frame.length, p.home_position),
                velocity: finite_or(p.velocity, origin()),
            },
    )
}

/// The radii around the ball within which players are counted, in yards.
#[derive(Clone, Copy, Debug, PartialEq, Eq, Structural)]
pub struct BallRings {
    pub near_ball: Real64,
    pub tight: Real64,
    pub close: Real64,
    pub near: Real64,
}

/// The shape of a team around the ball; an empty one for a team of nobody.
pub open spec fn team_shape<
    P: Fn(Real64, Real64) -> Real64,
    M: Fn(Real64, Real64) -> Real64,
    Q: Fn(Real64, Real64) -> Real64,
    C: Fn(usize) -> Real64,
    D: Fn(Vec2, Vec2) -> Real64,
>(
    plus: P,
    times: M,
    over: Q,
    count: C,
    distance: D,
    own: Seq<Observed>,
    ball: Vec2,
    attack_dir: Real64,
    rings: BallRings,
) -> CentralBrainTeamShapeTrace {
    let n = own.len() as int;
    let away = distances_to(distance, own, ball);
    if n > 0 {
        CentralBrainTeamShapeTrace {
            centroid_to_ball_yards: distance_of(
                distance,
                centroid_of(plus, over, count, own),
                ball,
            ),
            spread_yards: spread_of(plus, over, count, distance, own),
            players_near_ball: within_radius(away, rings.near_ball, n) as usize,
            players_within_1yd: within_radius(away, rings.tight, n) as usize,
            players_within_3yd: within_radius(away, rings.close, n) as usize,
            players_within_5yd: within_radius(away, rings.near, n) as usize,
            forward_velocity_yps: outcome(
                times,
                drift_of(plus, over, count, own).y,
                attack_dir,
            ),
        }
    } else {
        CentralBrainTeamShapeTrace::empty()
    }
}

/// Observes the shape of a team around the ball.
pub fn team_shape_observation_from_snapshot<
    P: Fn(Real64, Real64) -> Real64,
    M: Fn(Real64, Real64) -> Real64,
    Q: Fn(Real64, Real64) -> Real64,
    C: Fn(usize) -> Real64,
    D: Fn(Vec2, Vec2) -> Real64,
>(
    players: &Vec<SeenPlayer>,
    team: Team,
    ball_position: Vec2,
    frame: &TickFrame,
    rings: &BallRings,
    plus: &P,
    times: &M,
    over: &Q,
    count: &C,
    distance: &D,
) -> (r: CentralBrainTeamShapeTrace)
    requires
        is_operation(*plus),
        is_operation(*times),
        is_operation(*over),
        is_conversion(*count),
        is_distance(*distance),
    ensures
        r == team_shape(
            *plus,
            *times,
            *over,
            *count,
            *distance,
            own_players(observed_on(players@, *frame), team, players@.len() as int),
            place_or(
                ball_position,
                frame.width,
                frame.length,
                middle(*times, frame.width, frame.length),
            ),
            frame.attack_dir,
            *rings,
        ),
{
    let zero_vector: Vec2 = Vec2 { x: at_bits(D0), y: at_bits(D0) };
    let mut all: Vec<Observed> = Vec::new();
    let mut i: usize = 0;
    while i < players.len()
        invariant
            i <= players@.len(),
            zero_vector == origin(),
            all@ == observed_on(players@, *frame).take(i as int),
        decreases players@.len() - i,
    {
        let p: SeenPlayer = players[i];
        all.push(
            Observed {
                team: p.team,
                position: take_place(p.seen, frame.width, frame.length, p.home_position),
                velocity: take_finite(p.velocity, zero_vector),
            },
        );
        i += 1;
        assert(all@ =~= observed_on(players@, *frame).take(i as int));
    }
    assert(all@ =~= observed_on(players@, *frame));
    let own: Vec<Observed> = take_own(&all, team);
    if own.len() == 0 {
        return CentralBrainTeamShapeTrace::default();
    }
    let center: Vec2 = find_middle(frame.width, frame.length, times);
    let ball: Vec2 = take_place(ball_position, frame.width, frame.length, center);
    let (centroid, drift, spread): (Vec2, Vec2, Real64) = find_shape(
        &own,
        plus,
        over,
        count,
        distance,
    );
    let away: Vec<Real64> = measure_all(&own, ball, distance);
    CentralBrainTeamShapeTrace {
        centroid_to_ball_yards: measure(distance, centroid, ball),
        spread_yards: spread,
        players_near_ball: players_within(&away, rings.near_ball),
        players_within_1yd: players_within(&away, rings.tight),
        players_within_3yd: players_within(&away, rings.close),
        players_within_5yd: players_within(&away, rings.near),
        forward_velocity_yps: apply(times, drift.y, frame.attack_dir),
    }
}

/// A tighter ring around the ball never holds more players, and none holds more than the team has.
pub proof fn rings_are_nested<
    P: Fn(Real64, Real64) -> Real64,
    M: Fn(Real64, Real64) -> Real64,
    Q: Fn(Real64, Real64) -> Real64,
    C: Fn(usize) -> Real64,
    D: Fn(Vec2, Vec2) -> Real64,
>(
    plus: P,
    times: M,
    over: Q,
    count: C,
    distance: D,
    own: Seq<Observed>,
    ball: Vec2,
    attack_dir: Real64,
    rings: BallRings,
)
    requires
        own.len() <= usize::MAX,
        !rings.tight.nan() && !rings.close.nan() && !rings.near.nan() && !rings.near_ball.nan(),
        rings.tight.key() <= rings.close.key() <= rings.near.key() <= rings.near_ball.key(),
    ensures
        ({
            let shape = team_shape(
                plus,
                times,
                over,
                count,
                distance,
                own,
                ball,
                attack_dir,
                rings,
            );
            shape.players_within_1yd <= shape.players_within_3yd <= shape.players_within_5yd
                <= shape.players_near_ball <= own.len()
        }),
{
    let n = own.len() as int;
    let away = distances_to(distance, own, ball);
    wider_rings_hold_more(away, rings.tight, rings.close, n);
    wider_rings_hold_more(away, rings.close, rings.near, n);
    wider_rings_hold_more(away, rings.near, rings.near_ball, n);
    counts_are_not_negative(away, rings.tight, n);
}

proof fn counts_are_not_negative(distances: Seq<Real64>, radius: Real64, n: int)
    ensures
        0 <= within_radius(distances, radius, n),
    decreases n,
{
    if n > 0 {
        counts_are_not_negative(distances, radius, n - 1);
    }
}

/// The sum of places or velocities stands for the sums along both axes.
proof fn places_add_up<P: Fn(Real64, Real64) -> Real64>(
    means: spec_fn(Real64, real) -> bool,
    plus: P,
    own: Seq<Observed>,
    x: Seq<real>,
    y: Seq<real>,
    vx: Seq<real>,
    vy: Seq<real>,
    n: int,
)
    requires
        reads_sums(means, plus),
        reads_decimals(means),
        0 <= n <= own.len(),
        x.len() == own.len(),
        y.len() == own.len(),
        vx.len() == own.len(),
        vy.len() == own.len(),
        forall|i: int|
            0 <= i < own.len() ==> stands_at(means, (#[trigger] own[i]).position, x[i], y[i])
                && stands_at(means, own[i].velocity, vx[i], vy[i]),
    ensures
        stands_at(means, position_sum(plus, own, n), real_sum(x, n), real_sum(y, n)),
        stands_at(means, velocity_sum(plus, own, n), real_sum(vx, n), real_sum(vy, n)),
    decreases n,
{
    decimals_are_read(means);
    if n > 0 {
        places_add_up(means, plus, own, x, y, vx, vy, n - 1);
        assert(stands_at(means, own[n - 1].position, x[n - 1], y[n - 1]));
    }
}

/// The middle of a team is the mean of where its players are, and its drift the mean of how they
/// move; forwards is along the attack.
pub proof fn the_centroid_is_the_mean_place<
    P: Fn(Real64, Real64) -> Real64,
    M: Fn(Real64, Real64) -> Real64,
    Q: Fn(Real64, Real64) -> Real64,
    C: Fn(usize) -> Real64,
    D: Fn(Vec2, Vec2) -> Real64,
>(
    means: spec_fn(Real64, real) -> bool,
    plus: P,
    times: M,
    over: Q,
    count: C,
    distance: D,
    own: Seq<Observed>,
    ball: Vec2,
    attack_dir: Real64,
    rings: BallRings,
    x: Seq<real>,
    y: Seq<real>,
    vx: Seq<real>,
    vy: Seq<real>,
    dir: real,
)
    requires
        is_faithful(means, plus, times),
        reads_quotients(means, over),
        reads_counts(means, count),
        0 < own.len() <= usize::MAX,
        x.len() == own.len(),
        y.len() == own.len(),
        vx.len() == own.len(),
        vy.len() == own.len(),
        forall|i: int|
            0 <= i < own.len() ==> stands_at(means, (#[trigger] own[i]).position, x[i], y[i])
                && stands_at(means, own[i].velocity, vx[i], vy[i]),
        means(attack_dir, dir),
    ensures
        ({
            let n = own.len() as int;
            let k = own.len() as real;
            let shape = team_shape(
                plus,
                times,
                over,
                count,
                distance,
                own,
                ball,
                attack_dir,
                rings,
            );
            &&& stands_at(
                means,
                centroid_of(plus, over, count, own),
                real_sum(x, n) / k,
                real_sum(y, n) / k,
            )
            &&& shape.centroid_to_ball_yards == distance_of(
                distance,
                centroid_of(plus, over, count, own),
                ball,
            )
            &&& means(shape.forward_velocity_yps, real_sum(vy, n) / k * dir)
        }),
{
    decimals_are_read(means);
    places_add_up(means, plus, own, x, y, vx, vy, own.len() as int);
}

} // verus!
