//! The place that the formation gives a player.
use crate::central::TeamTacticalDirective;
use crate::decimals::{D0, D0_28, D0_4, D0_5, D0_6, D0_62, D1, D11, D14, D2, DM1};
use crate::formation::anchor::{
    anchor_depth, ball_side_pull, blend, blended, blends_lie_between, depth_for, pull_for,
    relational_pull, restoring_weight, DepthMeasures, PullMeasures,
};
use crate::formation::guidance::SoccerFormationLpObjectiveWeights;
use crate::formation::inputs::PlayerReading;
use crate::formation::shape::{
    cohesion_is_unique, cohesion_of, error_beyond, relational_shape_cohesion_target,
    relational_shape_error_yards, RosterEntry,
};
use crate::formation::state::{soccer_lp_unit, unit_value};
use crate::formation::tick::TickFrame;
use crate::geometry::{
    find_middle, is_distance, is_heading, join, joined, keep_in, kept_in, middle, place_or, stretch,
    stretched, take_place,
};
use crate::meaning::{
    bounded, decimals_are_read, is_faithful, reads_counts, reads_decimals, reads_order,
    reads_products, reads_quotients, reads_signs, stands_at,
};
use crate::number::{
    apply, at_bits, clamp_to, clamped_to, is_conversion, is_operation, num, outcome, Real64,
};
use crate::marking::cover::{
    find_marked_place, is_clearance, is_flank_reading, marked_place, MarkSituation, SeenOpponent,
};
use crate::pitch::{PlayerRole, Team, Vec2};
use crate::strategy::FlankAttackPolicy;
use vstd::prelude::*;

verus! {

/// A number put between two bounds; what stands for it where it is not finite.
pub open spec fn fitted_between(
    value: Real64,
    low: Real64,
    high: Real64,
    fallback: Real64,
) -> Real64 {
    clamped_to(
        if value.finite() {
            value
        } else {
            fallback
        },
        low,
        high,
    )
}

pub fn fit_between(value: Real64, low: Real64, high: Real64, fallback: Real64) -> (r: Real64)
    ensures
        r == fitted_between(value, low, high, fallback),
{
    if value.is_finite() {
        clamp_to(value, low, high)
    } else {
        clamp_to(fallback, low, high)
    }
}

/// What is asked of the pitch for a formation place.
pub struct FieldSense<
    N: Fn(PlayerRole, Real64, Real64, Real64, bool) -> Real64,
    G: Fn(PlayerRole, bool) -> Real64,
    K: Fn(Team, Vec2, Vec2, Real64) -> bool,
    F: Fn(Vec2) -> Real64,
> {
    /// Where a role with a home keeps its lane, asked of a place across a pitch of a width, with
    /// the ball or without it.
    pub lane: N,
    /// How strictly a role keeps its lane, with the ball or without it.
    pub commitment: G,
    /// Whether a line of a half-width is free of a team.
    pub clear: K,
    /// How far out on the flank a place is.
    pub flank: F,
}

/// Where a role keeps its lane.
pub open spec fn lane_for<N: Fn(PlayerRole, Real64, Real64, Real64, bool) -> Real64>(
    lane: N,
    role: PlayerRole,
    home_x: Real64,
    x: Real64,
    width: Real64,
    in_possession: bool,
) -> Real64 {
    choose|r: Real64| call_ensures(lane, (role, home_x, x, width, in_possession), r)
}

/// How strictly a role keeps its lane.
pub open spec fn commitment_for<G: Fn(PlayerRole, bool) -> Real64>(
    commitment: G,
    role: PlayerRole,
    in_possession: bool,
) -> Real64 {
    choose|r: Real64| call_ensures(commitment, (role, in_possession), r)
}

impl<
    N: Fn(PlayerRole, Real64, Real64, Real64, bool) -> Real64,
    G: Fn(PlayerRole, bool) -> Real64,
    K: Fn(Team, Vec2, Vec2, Real64) -> bool,
    F: Fn(Vec2) -> Real64,
> FieldSense<N, G, K, F> {
    /// Everything can be asked, and the answers depend on nothing else.
    pub open spec fn answers(self) -> bool {
        &&& forall|role: PlayerRole, home_x: Real64, x: Real64, width: Real64, own: bool| #[trigger]
            call_requires(self.lane, (role, home_x, x, width, own))
        &&& forall|
            role: PlayerRole,
            home_x: Real64,
            x: Real64,
            width: Real64,
            own: bool,
            r: Real64,
        | #[trigger]
            call_ensures(self.lane, (role, home_x, x, width, own), r) ==> r == lane_for(
                self.lane,
                role,
                home_x,
                x,
                width,
                own,
            )
        &&& forall|role: PlayerRole, own: bool| #[trigger]
            call_requires(self.commitment, (role, own))
        &&& forall|role: PlayerRole, own: bool, r: Real64| #[trigger]
            call_ensures(self.commitment, (role, own), r) ==> r == commitment_for(
                self.commitment,
                role,
                own,
            )
        &&& is_clearance(self.clear)
        &&& is_flank_reading(self.flank)
    }

    fn ask_lane(
        &self,
        role: PlayerRole,
        home_x: Real64,
        x: Real64,
        width: Real64,
        in_possession: bool,
    ) -> (r: Real64)
        requires
            self.answers(),
        ensures
            r == lane_for(self.lane, role, home_x, x, width, in_possession),
    {
        let lane: &N = &self.lane;
        let r: Real64 = lane(role, home_x, x, width, in_possession);
        assert(call_ensures(self.lane, (role, home_x, x, width, in_possession), r));
        r
    }

    fn ask_commitment(&self, role: PlayerRole, in_possession: bool) -> (r: Real64)
        requires
            self.answers(),
        ensures
            r == commitment_for(self.commitment, role, in_possession),
    {
        let commitment: &G = &self.commitment;
        let r: Real64 = commitment(role, in_possession);
        assert(call_ensures(self.commitment, (role, in_possession), r));
        r
    }
}

/// By which rules the formation places players.
#[derive(Clone, Copy, Debug)]
pub struct AnchorRules {
    /// How much more a wide defender is pulled towards the ball's side.
    pub wingback_bonus: Real64,
    /// How much more a central defender is pulled towards the ball's side.
    pub defender_bonus: Real64,
    pub shape: ShapePull,
    /// Who has the ball under control.
    pub controlled: Option<Team>,
    /// How the opponents attack along the flanks.
    pub policy: FlankAttackPolicy,
    /// How far from a midfielder a defender presses.
    pub press_midfielder: Real64,
}

/// What a formation place follows from.
#[derive(Clone, Copy, Debug)]
pub struct ZoneSituation {
    pub team: Team,
    pub frame: TickFrame,
    pub own_goal_y: Real64,
    pub ball: Vec2,
    pub possession: Option<Team>,
    pub holder: Option<usize>,
    pub directive: TeamTacticalDirective,
    pub weights: SoccerFormationLpObjectiveWeights,
    pub rules: AnchorRules,
}

impl ZoneSituation {
    /// There is room for every width and depth that a directive may ask for.
    pub open spec fn has_room<M: Fn(Real64, Real64) -> Real64>(self, times: M) -> bool {
        &&& !self.frame.width.nan()
        &&& !self.frame.length.nan()
        &&& num(D14).key() <= self.frame.width.key()
        &&& 0 <= self.frame.length.key()
        &&& !outcome(times, self.frame.length, num(D0_5)).nan()
        &&& num(D2).key() <= outcome(times, self.frame.length, num(D0_5)).key()
    }

    /// The situation as a marking decision sees it.
    pub open spec fn marking(self) -> MarkSituation {
        MarkSituation {
            team: self.team,
            frame: self.frame,
            own_goal_y: self.own_goal_y,
            holder: self.holder,
            ball: self.ball,
            controlled: self.rules.controlled,
            policy: self.rules.policy,
            press_midfielder: self.rules.press_midfielder,
        }
    }
}

/// How a player is drawn back into the relative shape.
#[derive(Clone, Copy, Debug, PartialEq, Eq, Structural)]
pub struct ShapePull {
    /// From how many neighbours the offsets are kept.
    pub neighbours: usize,
    pub tolerance: Real64,
    pub deadzone: Real64,
    pub full_error: Real64,
    pub weight: Real64,
}

/// What a formation place reads of a player.
#[derive(Clone, Copy, Debug, PartialEq, Eq, Structural)]
pub struct ZonePlayer {
    pub id: usize,
    pub role: PlayerRole,
    pub home_position: Vec2,
    pub current: Vec2,
}

/// How far a place is from the middle of the pitch, from -1 on one side to 1 on the other.
pub open spec fn side_of<
    P: Fn(Real64, Real64) -> Real64,
    M: Fn(Real64, Real64) -> Real64,
    Q: Fn(Real64, Real64) -> Real64,
>(plus: P, times: M, over: Q, x: Real64, width: Real64) -> Real64 {
    let half = outcome(times, width, num(D0_5));
    clamped_to(outcome(over, outcome(plus, x, half.negated()), half), num(DM1), num(D1))
}

fn find_side<
    P: Fn(Real64, Real64) -> Real64,
    M: Fn(Real64, Real64) -> Real64,
    Q: Fn(Real64, Real64) -> Real64,
>(x: Real64, width: Real64, plus: &P, times: &M, over: &Q) -> (r: Real64)
    requires
        is_operation(*plus),
        is_operation(*times),
        is_operation(*over),
    ensures
        r == side_of(*plus, *times, *over, x, width),
{
    let half: Real64 = apply(times, width, at_bits(D0_5));
    clamp_to(
        apply(over, apply(plus, x, half.negate()), half),
        at_bits(DM1),
        at_bits(D1),
    )
}

/// The player's home on the pitch.
pub open spec fn home_of<M: Fn(Real64, Real64) -> Real64>(
    times: M,
    s: ZoneSituation,
    player: ZonePlayer,
) -> Vec2 {
    place_or(
        player.home_position,
        s.frame.width,
        s.frame.length,
        middle(times, s.frame.width, s.frame.length),
    )
}

/// The ball's place on the pitch.
pub open spec fn ball_of<M: Fn(Real64, Real64) -> Real64>(times: M, s: ZoneSituation) -> Vec2 {
    place_or(s.ball, s.frame.width, s.frame.length, middle(times, s.frame.width, s.frame.length))
}

/// What decides how far up the pitch the player belongs.
pub open spec fn depth_measures<M: Fn(Real64, Real64) -> Real64>(
    times: M,
    s: ZoneSituation,
    player: ZonePlayer,
) -> DepthMeasures {
    let length = s.frame.length;
    DepthMeasures {
        attack_dir: s.frame.attack_dir,
        own_goal_y: s.own_goal_y,
        defensive_line_y: fitted_between(
            s.directive.defensive_line_y,
            num(D0),
            length,
            outcome(
                times,
                length,
                num(
                    match s.team {
                        Team::Home => D0_4,
                        Team::Away => D0_6,
                    },
                ),
            ),
        ),
        support_depth_yards: fitted_between(
            s.directive.support_depth_yards,
            num(D2),
            outcome(times, length, num(D0_5)),
            num(D11),
        ),
        press_intensity: unit_value(s.directive.press_intensity),
        ball_y: ball_of(times, s).y,
        home_y: home_of(times, s, player).y,
    }
}

/// Where across the pitch the player belongs before the ball and the lane pull.
pub open spec fn plain_x<
    P: Fn(Real64, Real64) -> Real64,
    M: Fn(Real64, Real64) -> Real64,
    Q: Fn(Real64, Real64) -> Real64,
>(plus: P, times: M, over: Q, s: ZoneSituation, player: ZonePlayer) -> Real64 {
    let width = s.frame.width;
    let asked = fitted_between(
        s.directive.width_yards,
        num(D14),
        width,
        outcome(times, width, num(D0_62)),
    );
    let lane = side_of(plus, times, over, home_of(times, s, player).x, width);
    outcome(
        plus,
        outcome(times, width, num(D0_5)),
        outcome(times, outcome(times, lane, asked), num(D0_5)),
    )
}

/// What decides how strongly the player is pulled towards the ball's side.
pub open spec fn pull_measures<
    P: Fn(Real64, Real64) -> Real64,
    M: Fn(Real64, Real64) -> Real64,
    Q: Fn(Real64, Real64) -> Real64,
>(
    plus: P,
    times: M,
    over: Q,
    s: ZoneSituation,
    player: ZonePlayer,
    commitment: Real64,
) -> PullMeasures {
    PullMeasures {
        lane_commitment: commitment,
        progression: s.weights.progression,
        defensive_compactness: s.weights.defensive_compactness,
        home_lane: side_of(plus, times, over, home_of(times, s, player).x, s.frame.width),
        wingback_bonus: s.rules.wingback_bonus,
        defender_bonus: s.rules.defender_bonus,
    }
}

/// Where across the pitch the player belongs: pulled towards the ball's side, then back into the
/// lane by a part of the lane's commitment; the goalkeeper is not pulled.
pub open spec fn zone_x<
    P: Fn(Real64, Real64) -> Real64,
    M: Fn(Real64, Real64) -> Real64,
    Q: Fn(Real64, Real64) -> Real64,
    N: Fn(PlayerRole, Real64, Real64, Real64, bool) -> Real64,
    G: Fn(PlayerRole, bool) -> Real64,
    K: Fn(Team, Vec2, Vec2, Real64) -> bool,
    F: Fn(Vec2) -> Real64,
>(
    plus: P,
    times: M,
    over: Q,
    sense: FieldSense<N, G, K, F>,
    s: ZoneSituation,
    player: ZonePlayer,
) -> Real64 {
    let x = plain_x(plus, times, over, s, player);
    if player.role == PlayerRole::Goalkeeper {
        x
    } else {
        let width = s.frame.width;
        let own = s.possession == Some(s.team);
        let commitment = commitment_for(sense.commitment, player.role, own);
        let ball_side = outcome(
            plus,
            outcome(times, width, num(D0_5)),
            outcome(
                times,
                outcome(
                    times,
                    side_of(plus, times, over, ball_of(times, s).x, width),
                    width,
                ),
                num(D0_28),
            ),
        );
        let pull = pull_for(
            plus,
            times,
            pull_measures(plus, times, over, s, player, commitment),
            player.role,
            own,
        );
        let pulled = blended(plus, times, x, ball_side, pull);
        blended(
            plus,
            times,
            pulled,
            lane_for(
                sense.lane,
                player.role,
                home_of(times, s, player).x,
                pulled,
                width,
                own,
            ),
            outcome(times, commitment, num(D0_28)),
        )
    }
}

/// The place that role, ball and directive give the player.
pub open spec fn first_zone<
    P: Fn(Real64, Real64) -> Real64,
    M: Fn(Real64, Real64) -> Real64,
    Q: Fn(Real64, Real64) -> Real64,
    N: Fn(PlayerRole, Real64, Real64, Real64, bool) -> Real64,
    G: Fn(PlayerRole, bool) -> Real64,
    K: Fn(Team, Vec2, Vec2, Real64) -> bool,
    F: Fn(Vec2) -> Real64,
>(
    plus: P,
    times: M,
    over: Q,
    sense: FieldSense<N, G, K, F>,
    s: ZoneSituation,
    player: ZonePlayer,
) -> Vec2 {
    kept_in(
        Vec2 {
            x: zone_x(plus, times, over, sense, s, player),
            y: depth_for(
                plus,
                times,
                depth_measures(times, s, player),
                player.role,
                s.possession,
                s.team,
            ),
        },
        s.frame.width,
        s.frame.length,
    )
}

/// Two places mixed, by the second one's share.
pub open spec fn mixed_place<P: Fn(Real64, Real64) -> Real64, M: Fn(Real64, Real64) -> Real64>(
    plus: P,
    times: M,
    a: Vec2,
    b: Vec2,
    share: Real64,
) -> Vec2 {
    joined(
        plus,
        stretched(times, a, outcome(plus, num(D1), share.negated())),
        stretched(times, b, share),
    )
}

fn mix_places<P: Fn(Real64, Real64) -> Real64, M: Fn(Real64, Real64) -> Real64>(
    a: Vec2,
    b: Vec2,
    share: Real64,
    plus: &P,
    times: &M,
) -> (r: Vec2)
    requires
        is_operation(*plus),
        is_operation(*times),
    ensures
        r == mixed_place(*plus, *times, a, b, share),
{
    let rest: Real64 = apply(plus, at_bits(D1), share.negate());
    join(stretch(a, rest, times), stretch(b, share, times), plus)
}

/// The place with a player out of shape drawn back; the goalkeeper and one in shape are left alone.
pub open spec fn drawn_back<
    P: Fn(Real64, Real64) -> Real64,
    M: Fn(Real64, Real64) -> Real64,
    Q: Fn(Real64, Real64) -> Real64,
    D: Fn(Vec2, Vec2) -> Real64,
>(
    plus: P,
    times: M,
    over: Q,
    distance: D,
    s: ZoneSituation,
    player: ZonePlayer,
    cohesion: Option<Vec2>,
    zone: Vec2,
) -> Vec2 {
    let shape = s.rules.shape;
    if player.role == PlayerRole::Goalkeeper || cohesion is None {
        zone
    } else {
        let error = error_beyond(plus, distance, cohesion, player.current, shape.tolerance);
        match restoring_weight(
            plus,
            times,
            over,
            error,
            shape.deadzone,
            shape.full_error,
            shape.weight,
        ) {
            Some(weight) => kept_in(
                mixed_place(plus, times, zone, cohesion->0, weight),
                s.frame.width,
                s.frame.length,
            ),
            None => zone,
        }
    }
}

/// The players as their offsets are kept.
pub open spec fn roster_of(players: Seq<PlayerReading>) -> Seq<RosterEntry> {
    players.map_values(
        |p: PlayerReading|
            RosterEntry {
                id: p.id,
                team: p.team,
                role: p.role,
                current: p.seen,
                home: p.home_position,
            },
    )
}

/// The players as they are marked.
pub open spec fn marks_of(players: Seq<PlayerReading>) -> Seq<SeenOpponent> {
    players.map_values(
        |p: PlayerReading|
            SeenOpponent {
                id: p.id,
                team: p.team,
                role: p.role,
                seen: p.seen,
                position: p.position,
                arrival: p.arrival,
            },
    )
}

/// The place that the formation gives a player: by role, ball and directive, drawn back towards the
/// offsets from the neighbours, and against the ball half way to whom the player marks.
pub open spec fn anchor_of<
    P: Fn(Real64, Real64) -> Real64,
    M: Fn(Real64, Real64) -> Real64,
    Q: Fn(Real64, Real64) -> Real64,
    C: Fn(usize) -> Real64,
    D: Fn(Vec2, Vec2) -> Real64,
    U: Fn(Vec2) -> Vec2,
    N: Fn(PlayerRole, Real64, Real64, Real64, bool) -> Real64,
    G: Fn(PlayerRole, bool) -> Real64,
    K: Fn(Team, Vec2, Vec2, Real64) -> bool,
    F: Fn(Vec2) -> Real64,
>(
    plus: P,
    times: M,
    over: Q,
    count: C,
    distance: D,
    unit: U,
    sense: FieldSense<N, G, K, F>,
    s: ZoneSituation,
    player: ZonePlayer,
    roster: Seq<RosterEntry>,
    opponents: Seq<SeenOpponent>,
) -> Vec2 {
    let cohesion = cohesion_of(
        plus,
        over,
        count,
        distance,
        roster,
        player.id,
        s.team,
        home_of(times, s, player),
        s.rules.shape.neighbours,
    );
    let zone = drawn_back(
        plus,
        times,
        over,
        distance,
        s,
        player,
        cohesion,
        first_zone(plus, times, over, sense, s, player),
    );
    if s.possession == Some(s.team.opponent()) && player.role != PlayerRole::Goalkeeper {
        match marked_place(
            plus,
            times,
            over,
            distance,
            unit,
            sense.clear,
            sense.flank,
            s.marking(),
            player.role,
            zone,
            opponents,
        ) {
            Some(place) => kept_in(
                joined(
                    plus,
                    stretched(times, place, num(D0_5)),
                    stretched(times, zone, num(D0_5)),
                ),
                s.frame.width,
                s.frame.length,
            ),
            None => zone,
        }
    } else {
        zone
    }
}

fn find_first_zone<
    P: Fn(Real64, Real64) -> Real64,
    M: Fn(Real64, Real64) -> Real64,
    Q: Fn(Real64, Real64) -> Real64,
    N: Fn(PlayerRole, Real64, Real64, Real64, bool) -> Real64,
    G: Fn(PlayerRole, bool) -> Real64,
    K: Fn(Team, Vec2, Vec2, Real64) -> bool,
    F: Fn(Vec2) -> Real64,
>(
    s: &ZoneSituation,
    player: &ZonePlayer,
    plus: &P,
    times: &M,
    over: &Q,
    sense: &FieldSense<N, G, K, F>,
) -> (r: Vec2)
    requires
        is_operation(*plus),
        is_operation(*times),
        is_operation(*over),
        sense.answers(),
    ensures
        r == first_zone(*plus, *times, *over, *sense, *s, *player),
{
    let width: Real64 = s.frame.width;
    let length: Real64 = s.frame.length;
    let center: Vec2 = find_middle(width, length, times);
    let home: Vec2 = take_place(player.home_position, width, length, center);
    let ball: Vec2 = take_place(s.ball, width, length, center);
    let home_lane: Real64 = find_side(home.x, width, plus, times, over);
    let half: Real64 = apply(times, width, at_bits(D0_5));
    let asked: Real64 = fit_between(
        s.directive.width_yards,
        at_bits(D14),
        width,
        apply(times, width, at_bits(D0_62)),
    );
    let usual: u64 = match s.team {
        Team::Home => D0_4,
        Team::Away => D0_6,
    };
    let depth: DepthMeasures = DepthMeasures {
        attack_dir: s.frame.attack_dir,
        own_goal_y: s.own_goal_y,
        defensive_line_y: fit_between(
            s.directive.defensive_line_y,
            at_bits(D0),
            length,
            apply(times, length, at_bits(usual)),
        ),
        support_depth_yards: fit_between(
            s.directive.support_depth_yards,
            at_bits(D2),
            apply(times, length, at_bits(D0_5)),
            at_bits(D11),
        ),
        press_intensity: soccer_lp_unit(s.directive.press_intensity),
        ball_y: ball.y,
        home_y: home.y,
    };
    let y: Real64 = anchor_depth(&depth, player.role, s.possession, s.team, plus, times);
    let mut x: Real64 = apply(
        plus,
        half,
        apply(times, apply(times, home_lane, asked), at_bits(D0_5)),
    );
    if player.role != PlayerRole::Goalkeeper {
        let in_possession: bool = match s.possession {
            Some(t) => t == s.team,
            None => false,
        };
        let commitment: Real64 = sense.ask_commitment(player.role, in_possession);
        let m: PullMeasures = PullMeasures {
            lane_commitment: commitment,
            progression: s.weights.progression,
            defensive_compactness: s.weights.defensive_compactness,
            home_lane,
            wingback_bonus: s.rules.wingback_bonus,
            defender_bonus: s.rules.defender_bonus,
        };
        let pull: Real64 = ball_side_pull(&m, player.role, in_possession, plus, times);
        let side: Real64 = find_side(ball.x, width, plus, times, over);
        let ball_side: Real64 = apply(
            plus,
            half,
            apply(times, apply(times, side, width), at_bits(D0_28)),
        );
        let pulled: Real64 = blend(x, ball_side, pull, plus, times);
        let lane_x: Real64 = sense.ask_lane(player.role, home.x, pulled, width, in_possession);
        let share: Real64 = apply(times, commitment, at_bits(D0_28));
        x = blend(pulled, lane_x, share, plus, times);
    }
    keep_in(Vec2 { x, y }, width, length)
}

/// Finds the place that the formation gives a player.
pub fn soccer_formation_lp_anchor<
    P: Fn(Real64, Real64) -> Real64,
    M: Fn(Real64, Real64) -> Real64,
    Q: Fn(Real64, Real64) -> Real64,
    C: Fn(usize) -> Real64,
    D: Fn(Vec2, Vec2) -> Real64,
    U: Fn(Vec2) -> Vec2,
    N: Fn(PlayerRole, Real64, Real64, Real64, bool) -> Real64,
    G: Fn(PlayerRole, bool) -> Real64,
    K: Fn(Team, Vec2, Vec2, Real64) -> bool,
    F: Fn(Vec2) -> Real64,
>(
    s: &ZoneSituation,
    player: &ZonePlayer,
    roster: &Vec<RosterEntry>,
    opponents: &Vec<SeenOpponent>,
    plus: &P,
    times: &M,
    over: &Q,
    count: &C,
    distance: &D,
    unit: &U,
    sense: &FieldSense<N, G, K, F>,
) -> (r: Vec2)
    requires
        is_operation(*plus),
        is_operation(*times),
        is_operation(*over),
        is_conversion(*count),
        is_distance(*distance),
        is_heading(*unit),
        sense.answers(),
        s.has_room(*times),
    ensures
        r == anchor_of(
            *plus,
            *times,
            *over,
            *count,
            *distance,
            *unit,
            *sense,
            *s,
            *player,
            roster@,
            opponents@,
        ),
{
    let width: Real64 = s.frame.width;
    let length: Real64 = s.frame.length;
    let mut zone: Vec2 = find_first_zone(s, player, plus, times, over, sense);
    if player.role == PlayerRole::Goalkeeper {
        return zone;
    }
    let shape: ShapePull = s.rules.shape;
    let center: Vec2 = find_middle(width, length, times);
    let home: Vec2 = take_place(player.home_position, width, length, center);
    let cohesion: Option<Vec2> = relational_shape_cohesion_target(
        roster,
        player.id,
        s.team,
        home,
        shape.neighbours,
        plus,
        over,
        count,
        distance,
    );
    proof {
        assert(roster@.len() == roster.len());
        cohesion_is_unique(
            *plus,
            *over,
            *count,
            *distance,
            roster@,
            player.id,
            s.team,
            home,
            shape.neighbours,
            cohesion,
        );
    }
    if let Some(offset) = cohesion {
        let error: Real64 = relational_shape_error_yards(
            cohesion,
            player.current,
            shape.tolerance,
            plus,
            distance,
        );
        if let Some(weight) = relational_pull(
            error,
            shape.deadzone,
            shape.full_error,
            shape.weight,
            plus,
            times,
            over,
        ) {
            zone = keep_in(mix_places(zone, offset, weight, plus, times), width, length);
        }
    }
    let against: bool = match s.possession {
        Some(t) => t == s.team.other(),
        None => false,
    };
    if against {
        let marking: MarkSituation = MarkSituation {
            team: s.team,
            frame: s.frame,
            own_goal_y: s.own_goal_y,
            holder: s.holder,
            ball: s.ball,
            controlled: s.rules.controlled,
            policy: s.rules.policy,
            press_midfielder: s.rules.press_midfielder,
        };
        let found: Option<Vec2> = find_marked_place(
            &marking,
            player.role,
            zone,
            opponents,
            plus,
            times,
            over,
            distance,
            unit,
            &sense.clear,
            &sense.flank,
        );
        if let Some(place) = found {
            let half: Real64 = at_bits(D0_5);
            return keep_in(
                join(stretch(place, half, times), stretch(zone, half, times), plus),
                width,
                length,
            );
        }
    }
    zone
}

/// The place that the formation gives a player lies on the pitch, wherever the arithmetic gives
/// numbers.
pub proof fn anchors_stay_on_the_pitch<
    P: Fn(Real64, Real64) -> Real64,
    M: Fn(Real64, Real64) -> Real64,
    Q: Fn(Real64, Real64) -> Real64,
    C: Fn(usize) -> Real64,
    D: Fn(Vec2, Vec2) -> Real64,
    U: Fn(Vec2) -> Vec2,
    N: Fn(PlayerRole, Real64, Real64, Real64, bool) -> Real64,
    G: Fn(PlayerRole, bool) -> Real64,
    K: Fn(Team, Vec2, Vec2, Real64) -> bool,
    F: Fn(Vec2) -> Real64,
>(
    plus: P,
    times: M,
    over: Q,
    count: C,
    distance: D,
    unit: U,
    sense: FieldSense<N, G, K, F>,
    s: ZoneSituation,
    player: ZonePlayer,
    roster: Seq<RosterEntry>,
    opponents: Seq<SeenOpponent>,
)
    requires
        s.has_room(times),
    ensures
        ({
            let r = anchor_of(
                plus,
                times,
                over,
                count,
                distance,
                unit,
                sense,
                s,
                player,
                roster,
                opponents,
            );
            &&& !r.x.nan() ==> 0 <= r.x.key() <= s.frame.width.key()
            &&& !r.y.nan() ==> 0 <= r.y.key() <= s.frame.length.key()
        }),
{
}

/// The goalkeeper is neither drawn into the shape nor sent to mark.
pub proof fn keepers_stay_back<
    P: Fn(Real64, Real64) -> Real64,
    M: Fn(Real64, Real64) -> Real64,
    Q: Fn(Real64, Real64) -> Real64,
    C: Fn(usize) -> Real64,
    D: Fn(Vec2, Vec2) -> Real64,
    U: Fn(Vec2) -> Vec2,
    N: Fn(PlayerRole, Real64, Real64, Real64, bool) -> Real64,
    G: Fn(PlayerRole, bool) -> Real64,
    K: Fn(Team, Vec2, Vec2, Real64) -> bool,
    F: Fn(Vec2) -> Real64,
>(
    plus: P,
    times: M,
    over: Q,
    count: C,
    distance: D,
    unit: U,
    sense: FieldSense<N, G, K, F>,
    s: ZoneSituation,
    player: ZonePlayer,
    roster: Seq<RosterEntry>,
    opponents: Seq<SeenOpponent>,
)
    requires
        player.role == PlayerRole::Goalkeeper,
    ensures
        anchor_of(
                plus,
                times,
                over,
                count,
                distance,
                unit,
                sense,
                s,
                player,
                roster,
                opponents,
            ) == first_zone(
            plus,
            times,
            over,
            sense,
            s,
            player,
        ),
{
}

/// Which side of the pitch a place is on: -1 at the left edge, 0 in the middle, 1 at the right.
pub proof fn sides_run_from_minus_one_to_one<
    P: Fn(Real64, Real64) -> Real64,
    M: Fn(Real64, Real64) -> Real64,
    Q: Fn(Real64, Real64) -> Real64,
>(
    means: spec_fn(Real64, real) -> bool,
    plus: P,
    times: M,
    over: Q,
    x: Real64,
    width: Real64,
    a: real,
    w: real,
)
    requires
        is_faithful(means, plus, times),
        reads_quotients(means, over),
        means(x, a),
        means(width, w),
        w != 0real,
    ensures
        means(
            side_of(plus, times, over, x, width),
            bounded((a - w / 2real) / (w / 2real), -1real, 1real),
        ),
{
    decimals_are_read(means);
    assert(w * (1real / 2real) == w / 2real);
    let h = w / 2real;
    assert(h != 0real);
    assert(a + -h == a - h);
}

/// Across the pitch a player belongs half of the width asked for off the middle, by the side of the
/// own home.
pub proof fn lanes_are_spread_over_the_width<
    P: Fn(Real64, Real64) -> Real64,
    M: Fn(Real64, Real64) -> Real64,
    Q: Fn(Real64, Real64) -> Real64,
>(
    means: spec_fn(Real64, real) -> bool,
    plus: P,
    times: M,
    over: Q,
    s: ZoneSituation,
    player: ZonePlayer,
    width: real,
    asked: real,
    lane: real,
)
    requires
        is_faithful(means, plus, times),
        reads_quotients(means, over),
        means(s.frame.width, width),
        s.directive.width_yards.finite() && means(s.directive.width_yards, asked),
        means(side_of(plus, times, over, home_of(times, s, player).x, s.frame.width), lane),
    ensures
        means(
            plain_x(plus, times, over, s, player),
            width / 2real + lane * bounded(asked, 14real, width) / 2real,
        ),
{
    decimals_are_read(means);
    assert(width * (1real / 2real) == width / 2real);
    let v = bounded(asked, 14real, width);
    assert(lane * v * (1real / 2real) == lane * v / 2real);
}

/// Across the pitch, players but the keeper are pulled to the ball's side, 0.28 of the width off
/// the middle at most, and then back to their lane by 0.28 of how strictly they keep it.
pub proof fn zones_shift_to_the_ball<
    P: Fn(Real64, Real64) -> Real64,
    M: Fn(Real64, Real64) -> Real64,
    Q: Fn(Real64, Real64) -> Real64,
>(
    means: spec_fn(Real64, real) -> bool,
    plus: P,
    times: M,
    over: Q,
    lane_x: Real64,
    plain: Real64,
    ball_side: Real64,
    pull: Real64,
    commitment: Real64,
    width: Real64,
    x: real,
    l: real,
    b: real,
    p: real,
    c: real,
    w: real,
)
    requires
        is_faithful(means, plus, times),
        reads_quotients(means, over),
        means(plain, x),
        means(lane_x, l),
        means(ball_side, b),
        means(pull, p),
        means(commitment, c),
        means(width, w),
    ensures
        ({
            let shifted = x + p * (w / 2real + b * w * (7real / 25real) - x);
            means(
                blended(
                    plus,
                    times,
                    blended(
                        plus,
                        times,
                        plain,
                        outcome(
                            plus,
                            outcome(times, width, num(D0_5)),
                            outcome(times, outcome(times, ball_side, width), num(D0_28)),
                        ),
                        pull,
                    ),
                    lane_x,
                    outcome(times, commitment, num(D0_28)),
                ),
                shifted + c * (7real / 25real) * (l - shifted),
            )
        }),
{
    decimals_are_read(means);
    assert(w * (1real / 2real) == w / 2real);
    let at = w / 2real + b * w * (7real / 25real);
    let place = outcome(
        plus,
        outcome(times, width, num(D0_5)),
        outcome(times, outcome(times, ball_side, width), num(D0_28)),
    );
    assert(means(place, at));
    blends_lie_between(means, plus, times, plain, place, pull, x, at, p);
    let pulled = blended(plus, times, plain, place, pull);
    let shifted = x + p * (at - x);
    let keep = outcome(times, commitment, num(D0_28));
    blends_lie_between(means, plus, times, pulled, lane_x, keep, shifted, l, c * (7real / 25real));
}

/// What the depth of a player is measured by: the line kept on the pitch and four tenths in front
/// of the own goal where none is given, the support between 2 yards and half of the pitch and 11
/// where none is given.
pub proof fn measures_fit_the_pitch<
    M: Fn(Real64, Real64) -> Real64,
>(
    means: spec_fn(Real64, real) -> bool,
    times: M,
    s: ZoneSituation,
    player: ZonePlayer,
    length: real,
    line: real,
    support: real,
    press: real,
)
    requires
        reads_products(means, times),
        reads_signs(means),
        reads_order(means),
        reads_decimals(means),
        means(s.frame.length, length),
        means(s.directive.defensive_line_y, line),
        means(s.directive.support_depth_yards, support),
        means(s.directive.press_intensity, press),
    ensures
        ({
            let m = depth_measures(times, s, player);
            let d = s.directive;
            &&& means(
                m.defensive_line_y,
                bounded(
                    if d.defensive_line_y.finite() {
                        line
                    } else if s.team == Team::Home {
                        length * (2real / 5real)
                    } else {
                        length * (3real / 5real)
                    },
                    0real,
                    length,
                ),
            )
            &&& means(
                m.support_depth_yards,
                bounded(
                    if d.support_depth_yards.finite() {
                        support
                    } else {
                        11real
                    },
                    2real,
                    length / 2real,
                ),
            )
            &&& d.press_intensity.finite() ==> means(
                m.press_intensity,
                bounded(press, 0real, 1real),
            )
            &&& m.attack_dir == s.frame.attack_dir && m.own_goal_y == s.own_goal_y
        }),
{
    decimals_are_read(means);
    assert(length * (1real / 2real) == length / 2real);
}

/// A place between two others: the share of the way from the first to the second.
pub proof fn mixed_places_lie_between<
    P: Fn(Real64, Real64) -> Real64,
    M: Fn(Real64, Real64) -> Real64,
>(
    means: spec_fn(Real64, real) -> bool,
    plus: P,
    times: M,
    a: Vec2,
    b: Vec2,
    share: Real64,
    ax: real,
    ay: real,
    bx: real,
    by: real,
    s: real,
)
    requires
        is_faithful(means, plus, times),
        stands_at(means, a, ax, ay),
        stands_at(means, b, bx, by),
        means(share, s),
    ensures
        stands_at(
            means,
            mixed_place(plus, times, a, b, share),
            ax + s * (bx - ax),
            ay + s * (by - ay),
        ),
{
    decimals_are_read(means);
    assert(1real + -s == 1real - s);
    assert(ax * (1real - s) + bx * s == ax + s * (bx - ax)) by (nonlinear_arith);
    assert(ay * (1real - s) + by * s == ay + s * (by - ay)) by (nonlinear_arith);
}

/// Against the ball everybody but the goalkeeper who has somebody to mark goes halfway between the
/// zone and the mark; with the ball nobody does.
pub proof fn marks_are_met_halfway<
    P: Fn(Real64, Real64) -> Real64,
    M: Fn(Real64, Real64) -> Real64,
    Q: Fn(Real64, Real64) -> Real64,
    C: Fn(usize) -> Real64,
    D: Fn(Vec2, Vec2) -> Real64,
    U: Fn(Vec2) -> Vec2,
    N: Fn(PlayerRole, Real64, Real64, Real64, bool) -> Real64,
    G: Fn(PlayerRole, bool) -> Real64,
    K: Fn(Team, Vec2, Vec2, Real64) -> bool,
    F: Fn(Vec2) -> Real64,
>(
    means: spec_fn(Real64, real) -> bool,
    plus: P,
    times: M,
    over: Q,
    count: C,
    distance: D,
    unit: U,
    sense: FieldSense<N, G, K, F>,
    s: ZoneSituation,
    player: ZonePlayer,
    roster: Seq<RosterEntry>,
    opponents: Seq<SeenOpponent>,
    place: Vec2,
    zx: real,
    zy: real,
    px: real,
    py: real,
    wide: real,
    long: real,
)
    requires
        is_faithful(means, plus, times),
        reads_quotients(means, over),
        reads_counts(means, count),
        ({
            let cohesion = cohesion_of(
                plus,
                over,
                count,
                distance,
                roster,
                player.id,
                s.team,
                home_of(times, s, player),
                s.rules.shape.neighbours,
            );
            let zone = drawn_back(
                plus,
                times,
                over,
                distance,
                s,
                player,
                cohesion,
                first_zone(plus, times, over, sense, s, player),
            );
            &&& stands_at(means, zone, zx, zy)
            &&& marked_place(
                plus,
                times,
                over,
                distance,
                unit,
                sense.clear,
                sense.flank,
                s.marking(),
                player.role,
                zone,
                opponents,
            ) == Some(place)
        }),
        stands_at(means, place, px, py),
        means(s.frame.width, wide),
        means(s.frame.length, long),
    ensures
        ({
            let anchor = anchor_of(
                plus,
                times,
                over,
                count,
                distance,
                unit,
                sense,
                s,
                player,
                roster,
                opponents,
            );
            let marks = s.possession == Some(s.team.opponent()) && player.role
                != PlayerRole::Goalkeeper;
            &&& marks ==> stands_at(
                means,
                anchor,
                bounded((zx + px) / 2real, 0real, wide),
                bounded((zy + py) / 2real, 0real, long),
            )
            &&& !marks ==> stands_at(means, anchor, zx, zy)
        }),
{
    decimals_are_read(means);
    assert(px * (1real / 2real) + zx * (1real / 2real) == (zx + px) / 2real);
    assert(py * (1real / 2real) + zy * (1real / 2real) == (zy + py) / 2real);
}

} // verus!
