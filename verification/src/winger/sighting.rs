//! What a winger sees of the situation when weighing whether to pinch in.
use crate::decimals::{D0, D0_5, D1, D12, D4, D40};
use crate::geometry::{distance_of, is_distance, measure};
use crate::meaning::{
    bounded, decimals_are_read, reads_decimals, reads_order, reads_quotients, reads_signs,
};
use crate::number::{
    apply, at_bits, clamp_to, clamped_to, is_conversion, is_operation, num, number_of, outcome,
    to_number, Real64,
};
use crate::pitch::{Team, Vec2};
use crate::winger::appetite::{
    box_congestion, runners, weighs_pinching, winger_pinch_applies, BoxRunner, WingerPinchInputs,
    WingerSighting,
};
use crate::winger::{
    depth_of, final_third_depth_frac, target_of, winger_pinch_target, WingerPinchChoice,
};
use vstd::prelude::*;

verus! {

/// What a question about a team and a place is answered.
pub open spec fn verdict_on<B: Fn(Team, Vec2) -> bool>(ask: B, team: Team, place: Vec2) -> bool {
    choose|r: bool| call_ensures(ask, (team, place), r)
}

/// The question can be asked of all teams and places and its answer depends on nothing else.
pub open spec fn is_question<B: Fn(Team, Vec2) -> bool>(ask: B) -> bool {
    &&& forall|team: Team, place: Vec2| #[trigger] call_requires(ask, (team, place))
    &&& forall|team: Team, place: Vec2, r: bool| #[trigger]
        call_ensures(ask, (team, place), r) ==> r == verdict_on(ask, team, place)
}

fn put<B: Fn(Team, Vec2) -> bool>(ask: &B, team: Team, place: Vec2) -> (r: bool)
    requires
        is_question(*ask),
    ensures
        r == verdict_on(*ask, team, place),
{
    let r: bool = ask(team, place);
    assert(call_ensures(*ask, (team, place), r));
    r
}

/// How much room a team has around a place.
pub open spec fn room_at<S: Fn(Team, Vec2) -> Real64>(space: S, team: Team, place: Vec2) -> Real64 {
    choose|r: Real64| call_ensures(space, (team, place), r)
}

/// The room can be measured for all teams and places and depends on nothing else.
pub open spec fn is_room<S: Fn(Team, Vec2) -> Real64>(space: S) -> bool {
    &&& forall|team: Team, place: Vec2| #[trigger] call_requires(space, (team, place))
    &&& forall|team: Team, place: Vec2, r: Real64| #[trigger]
        call_ensures(space, (team, place), r) ==> r == room_at(space, team, place)
}

/// What a winger weighs pinching in by.
#[derive(Clone, Copy, Debug)]
pub struct WingerSituation {
    pub team: Team,
    pub player_id: usize,
    pub home_x: Real64,
    pub position: Vec2,
    pub controlled: bool,
    pub wide_attacker: bool,
    pub set_play: bool,
    pub possession: Option<Team>,
    pub holder: Option<usize>,
    pub ball: Vec2,
    /// The ball is in the attacking third.
    pub final_third: bool,
    pub attacked_goal_y: Real64,
    pub attack_dir: Real64,
    pub field_width: Real64,
    pub field_length: Real64,
}

/// The first of the players from `i` on with an id.
pub open spec fn runner_with_id(players: Seq<BoxRunner>, id: usize, i: int) -> Option<BoxRunner>
    decreases players.len() - i,
{
    if i < 0 || i >= players.len() {
        None
    } else if players[i].id == id {
        Some(players[i])
    } else {
        runner_with_id(players, id, i + 1)
    }
}

/// From where a cross would come: the holder of the own team, else the ball.
pub open spec fn crosser_of(s: WingerSituation, players: Seq<BoxRunner>) -> Vec2 {
    match s.holder {
        Some(id) => match runner_with_id(players, id, 0) {
            Some(p) => if p.team == s.team {
                p.position
            } else {
                s.ball
            },
            None => s.ball,
        },
        None => s.ball,
    }
}

fn find_crosser(s: &WingerSituation, players: &Vec<BoxRunner>) -> (r: Vec2)
    ensures
        r == crosser_of(*s, players@),
{
    let id: usize = match s.holder {
        Some(id) => id,
        None => {
            return s.ball;
        },
    };
    let mut i: usize = 0;
    while i < players.len()
        invariant
            i <= players@.len(),
            s.holder == Some(id),
            runner_with_id(players@, id, 0) == runner_with_id(players@, id, i as int),
        decreases players@.len() - i,
    {
        let p: BoxRunner = players[i];
        if p.id == id {
            return if p.team == s.team {
                p.position
            } else {
                s.ball
            };
        }
        i += 1;
    }
    s.ball
}

/// A yes or no as a number.
pub open spec fn flag_number(b: bool) -> Real64 {
    if b {
        num(D1)
    } else {
        num(D0)
    }
}

fn to_flag_number(b: bool) -> (r: Real64)
    ensures
        r == flag_number(b),
{
    if b {
        at_bits(D1)
    } else {
        at_bits(D0)
    }
}

/// A measure as a part of a whole, between 0 and 1.
pub open spec fn part_of<Q: Fn(Real64, Real64) -> Real64>(
    over: Q,
    x: Real64,
    whole: u64,
) -> Real64 {
    clamped_to(outcome(over, x, num(whole)), num(D0), num(D1))
}

fn take_part<Q: Fn(Real64, Real64) -> Real64>(x: Real64, whole: u64, over: &Q) -> (r: Real64)
    requires
        is_operation(*over),
    ensures
        r == part_of(*over, x, whole),
{
    clamp_to(apply(over, x, at_bits(whole)), at_bits(D0), at_bits(D1))
}

/// Two places are on the same flank.
pub open spec fn same_flank<P: Fn(Real64, Real64) -> Real64, M: Fn(Real64, Real64) -> Real64>(
    plus: P,
    times: M,
    a: Real64,
    b: Real64,
    width: Real64,
) -> bool {
    let center = outcome(times, width, num(D0_5));
    let side_a = outcome(plus, a, center.negated()).sign();
    let side_b = outcome(plus, b, center.negated()).sign();
    !side_a.nan() && !side_b.nan() && side_a.key() == side_b.key()
}

/// The place that a choice would lead to.
pub open spec fn probe_of<P: Fn(Real64, Real64) -> Real64, M: Fn(Real64, Real64) -> Real64>(
    plus: P,
    times: M,
    s: WingerSituation,
    choice: WingerPinchChoice,
) -> Option<Vec2> {
    target_of(
        plus,
        times,
        choice,
        s.home_x,
        s.attacked_goal_y,
        s.attack_dir,
        s.field_width,
        s.field_length,
    )
}

/// How open a place is, between 0 and 1; not at all where there is none.
pub open spec fn openness_of<Q: Fn(Real64, Real64) -> Real64, S: Fn(Team, Vec2) -> Real64>(
    over: Q,
    space: S,
    team: Team,
    probe: Option<Vec2>,
) -> Real64 {
    match probe {
        Some(place) => part_of(over, room_at(space, team, place), D12),
        None => num(D0),
    }
}

fn find_openness<Q: Fn(Real64, Real64) -> Real64, S: Fn(Team, Vec2) -> Real64>(
    team: Team,
    probe: Option<Vec2>,
    over: &Q,
    space: &S,
) -> (r: Real64)
    requires
        is_operation(*over),
        is_room(*space),
    ensures
        r == openness_of(*over, *space, team, probe),
{
    match probe {
        Some(place) => {
            let room: Real64 = space(team, place);
            assert(call_ensures(*space, (team, place), room));
            take_part(room, D12, over)
        },
        None => at_bits(D0),
    }
}

/// What a winger sees.
pub open spec fn sighted<
    P: Fn(Real64, Real64) -> Real64,
    M: Fn(Real64, Real64) -> Real64,
    Q: Fn(Real64, Real64) -> Real64,
    C: Fn(usize) -> Real64,
    D: Fn(Vec2, Vec2) -> Real64,
    X: Fn(Team, Vec2) -> bool,
    O: Fn(Team, Vec2) -> bool,
    S: Fn(Team, Vec2) -> Real64,
>(
    plus: P,
    times: M,
    over: Q,
    count: C,
    distance: D,
    crossing: X,
    offside: O,
    space: S,
    s: WingerSituation,
    players: Seq<BoxRunner>,
) -> WingerPinchInputs {
    let crosser = crosser_of(s, players);
    let back_post = probe_of(plus, times, s, WingerPinchChoice::PinchBackPost);
    let half_space = probe_of(plus, times, s, WingerPinchChoice::PinchHalfSpace);
    let crowd = runners(players, s.team, s.player_id, s.holder, players.len() as int);
    WingerPinchInputs {
        ball_on_my_flank: flag_number(
            same_flank(plus, times, s.home_x, crosser.x, s.field_width),
        ),
        crossing_position_on: flag_number(verdict_on(crossing, s.team, crosser)),
        depth_frac: depth_of(
            plus,
            times,
            over,
            s.ball.y,
            s.attacked_goal_y,
            s.field_length,
        ),
        box_congestion: part_of(over, number_of(count, crowd as usize), D4),
        back_post_offside: flag_number(
            match back_post {
                Some(place) => verdict_on(offside, s.team, place),
                None => true,
            },
        ),
        back_post_space: openness_of(over, space, s.team, back_post),
        half_space_space: openness_of(over, space, s.team, half_space),
        dist_to_ball: part_of(over, distance_of(distance, s.position, s.ball), D40),
    }
}

/// What a winger sees where the winger weighs pinching in, else nothing.
pub open spec fn inputs_of<
    P: Fn(Real64, Real64) -> Real64,
    M: Fn(Real64, Real64) -> Real64,
    Q: Fn(Real64, Real64) -> Real64,
    C: Fn(usize) -> Real64,
    D: Fn(Vec2, Vec2) -> Real64,
    X: Fn(Team, Vec2) -> bool,
    O: Fn(Team, Vec2) -> bool,
    S: Fn(Team, Vec2) -> Real64,
>(
    plus: P,
    times: M,
    over: Q,
    count: C,
    distance: D,
    crossing: X,
    offside: O,
    space: S,
    s: WingerSituation,
    players: Seq<BoxRunner>,
) -> Option<WingerPinchInputs> {
    if weighs_pinching(
        s.possession,
        s.team,
        s.holder,
        s.player_id,
        s.controlled,
        s.wide_attacker,
        s.set_play,
        s.final_third,
    ) {
        Some(
            sighted(
                plus,
                times,
                over,
                count,
                distance,
                crossing,
                offside,
                space,
                s,
                players,
            ),
        )
    } else {
        None
    }
}

/// The field that a winger plays on has numbers for its sides.
pub open spec fn is_measured(s: WingerSituation) -> bool {
    &&& !s.field_width.nan()
    &&& !s.field_length.nan()
    &&& 0 <= s.field_length.key()
}

/// Says what a winger sees where the winger weighs pinching in. `crossing` tells whether a cross
/// of a team can come from a place, `offside` whether a place would be offside for a team, `space`
/// how far a team's nearest opponent is.
pub fn build_winger_pinch_inputs<
    P: Fn(Real64, Real64) -> Real64,
    M: Fn(Real64, Real64) -> Real64,
    Q: Fn(Real64, Real64) -> Real64,
    C: Fn(usize) -> Real64,
    D: Fn(Vec2, Vec2) -> Real64,
    X: Fn(Team, Vec2) -> bool,
    O: Fn(Team, Vec2) -> bool,
    S: Fn(Team, Vec2) -> Real64,
>(
    s: &WingerSituation,
    players: &Vec<BoxRunner>,
    plus: &P,
    times: &M,
    over: &Q,
    count: &C,
    distance: &D,
    crossing: &X,
    offside: &O,
    space: &S,
) -> (r: Option<WingerPinchInputs>)
    requires
        is_operation(*plus),
        is_operation(*times),
        is_operation(*over),
        is_conversion(*count),
        is_distance(*distance),
        is_question(*crossing),
        is_question(*offside),
        is_room(*space),
        is_measured(*s),
    ensures
        r == inputs_of(
            *plus,
            *times,
            *over,
            *count,
            *distance,
            *crossing,
            *offside,
            *space,
            *s,
            players@,
        ),
{
    if !winger_pinch_applies(
        s.possession,
        s.team,
        s.holder,
        s.player_id,
        s.controlled,
        s.wide_attacker,
        s.set_play,
        s.final_third,
    ) {
        return None;
    }
    let center: Real64 = apply(times, s.field_width, at_bits(D0_5));
    let crosser: Vec2 = find_crosser(s, players);
    let my_side: Real64 = apply(plus, s.home_x, center.negate()).signum();
    let ball_side: Real64 = apply(plus, crosser.x, center.negate()).signum();
    let flank: bool = !my_side.is_nan() && !ball_side.is_nan() && my_side.order_key()
        == ball_side.order_key();
    let crowd: usize = box_congestion(players, s.team, s.player_id, s.holder);
    let back_post: Option<Vec2> = winger_pinch_target(
        WingerPinchChoice::PinchBackPost,
        s.home_x,
        s.attacked_goal_y,
        s.attack_dir,
        s.field_width,
        s.field_length,
        plus,
        times,
    );
    let half_space: Option<Vec2> = winger_pinch_target(
        WingerPinchChoice::PinchHalfSpace,
        s.home_x,
        s.attacked_goal_y,
        s.attack_dir,
        s.field_width,
        s.field_length,
        plus,
        times,
    );
    let back_post_offside: bool = match back_post {
        Some(place) => put(offside, s.team, place),
        None => true,
    };
    let depth: Real64 = final_third_depth_frac(
        s.ball.y,
        s.attacked_goal_y,
        s.field_length,
        plus,
        times,
        over,
    );
    Some(
        WingerPinchInputs {
            ball_on_my_flank: to_flag_number(flank),
            crossing_position_on: to_flag_number(put(crossing, s.team, crosser)),
            depth_frac: depth,
            box_congestion: take_part(to_number(count, crowd), D4, over),
            back_post_offside: to_flag_number(back_post_offside),
            back_post_space: find_openness(s.team, back_post, over, space),
            half_space_space: find_openness(s.team, half_space, over, space),
            dist_to_ball: take_part(measure(distance, s.position, s.ball), D40, over),
        },
    )
}

/// What the wingers see, each where it weighs pinching in.
pub open spec fn sightings_of<
    P: Fn(Real64, Real64) -> Real64,
    M: Fn(Real64, Real64) -> Real64,
    Q: Fn(Real64, Real64) -> Real64,
    C: Fn(usize) -> Real64,
    D: Fn(Vec2, Vec2) -> Real64,
    X: Fn(Team, Vec2) -> bool,
    O: Fn(Team, Vec2) -> bool,
    S: Fn(Team, Vec2) -> Real64,
>(
    plus: P,
    times: M,
    over: Q,
    count: C,
    distance: D,
    crossing: X,
    offside: O,
    space: S,
    wingers: Seq<WingerSituation>,
    players: Seq<BoxRunner>,
) -> Seq<WingerSighting> {
    wingers.map_values(
        |s: WingerSituation|
            WingerSighting {
                player_id: s.player_id,
                team: s.team,
                inputs: inputs_of(
                    plus,
                    times,
                    over,
                    count,
                    distance,
                    crossing,
                    offside,
                    space,
                    s,
                    players,
                ),
            },
    )
}

/// Says what the wingers see.
pub fn find_sightings<
    P: Fn(Real64, Real64) -> Real64,
    M: Fn(Real64, Real64) -> Real64,
    Q: Fn(Real64, Real64) -> Real64,
    C: Fn(usize) -> Real64,
    D: Fn(Vec2, Vec2) -> Real64,
    X: Fn(Team, Vec2) -> bool,
    O: Fn(Team, Vec2) -> bool,
    S: Fn(Team, Vec2) -> Real64,
>(
    wingers: &Vec<WingerSituation>,
    players: &Vec<BoxRunner>,
    plus: &P,
    times: &M,
    over: &Q,
    count: &C,
    distance: &D,
    crossing: &X,
    offside: &O,
    space: &S,
) -> (r: Vec<WingerSighting>)
    requires
        is_operation(*plus),
        is_operation(*times),
        is_operation(*over),
        is_conversion(*count),
        is_distance(*distance),
        is_question(*crossing),
        is_question(*offside),
        is_room(*space),
        forall|i: int| 0 <= i < wingers@.len() ==> is_measured(#[trigger] wingers@[i]),
    ensures
        r@ == sightings_of(
            *plus,
            *times,
            *over,
            *count,
            *distance,
            *crossing,
            *offside,
            *space,
            wingers@,
            players@,
        ),
{
    let ghost all = sightings_of(
        *plus,
        *times,
        *over,
        *count,
        *distance,
        *crossing,
        *offside,
        *space,
        wingers@,
        players@,
    );
    let mut r: Vec<WingerSighting> = Vec::new();
    let mut i: usize = 0;
    while i < wingers.len()
        invariant
            i <= wingers@.len(),
            is_operation(*plus),
            is_operation(*times),
            is_operation(*over),
            is_conversion(*count),
            is_distance(*distance),
            is_question(*crossing),
            is_question(*offside),
            is_room(*space),
            forall|i: int| 0 <= i < wingers@.len() ==> is_measured(#[trigger] wingers@[i]),
            all == sightings_of(
                *plus,
                *times,
                *over,
                *count,
                *distance,
                *crossing,
                *offside,
                *space,
                wingers@,
                players@,
            ),
            r@ == all.take(i as int),
        decreases wingers@.len() - i,
    {
        let s: WingerSituation = wingers[i];
        let inputs: Option<WingerPinchInputs> = build_winger_pinch_inputs(
            &s,
            players,
            plus,
            times,
            over,
            count,
            distance,
            crossing,
            offside,
            space,
        );
        r.push(WingerSighting { player_id: s.player_id, team: s.team, inputs });
        i += 1;
        assert(r@ =~= all.take(i as int));
    }
    assert(r@ =~= all);
    r
}

/// What a winger sees lies between 0 and 1, wherever the arithmetic gives numbers, and the flags
/// are one or the other.
pub proof fn sightings_are_bounded<
    P: Fn(Real64, Real64) -> Real64,
    M: Fn(Real64, Real64) -> Real64,
    Q: Fn(Real64, Real64) -> Real64,
    C: Fn(usize) -> Real64,
    D: Fn(Vec2, Vec2) -> Real64,
    X: Fn(Team, Vec2) -> bool,
    O: Fn(Team, Vec2) -> bool,
    S: Fn(Team, Vec2) -> Real64,
>(
    plus: P,
    times: M,
    over: Q,
    count: C,
    distance: D,
    crossing: X,
    offside: O,
    space: S,
    s: WingerSituation,
    players: Seq<BoxRunner>,
)
    ensures
        ({
            let seen = sighted(
                plus,
                times,
                over,
                count,
                distance,
                crossing,
                offside,
                space,
                s,
                players,
            );
            &&& seen.ball_on_my_flank == num(D0) || seen.ball_on_my_flank == num(D1)
            &&& seen.crossing_position_on == num(D0) || seen.crossing_position_on == num(D1)
            &&& seen.back_post_offside == num(D0) || seen.back_post_offside == num(D1)
            &&& is_part(seen.depth_frac)
            &&& is_part(seen.box_congestion)
            &&& is_part(seen.back_post_space)
            &&& is_part(seen.half_space_space)
            &&& is_part(seen.dist_to_ball)
        }),
{
}

/// The number lies between 0 and 1, or is none.
pub open spec fn is_part(x: Real64) -> bool {
    x.nan() || 0 <= x.key() <= num(D1).key()
}

/// What a winger sees, as parts: the runners in the box of four, the room around a target of twelve
/// yards and the distance to the ball of forty.
pub proof fn sightings_are_parts_of_a_whole<
    Q: Fn(Real64, Real64) -> Real64,
>(
    means: spec_fn(Real64, real) -> bool,
    over: Q,
    x: Real64,
    y: real,
)
    requires
        reads_signs(means),
        reads_order(means),
        reads_decimals(means),
        reads_quotients(means, over),
        means(x, y),
    ensures
        means(part_of(over, x, D4), bounded(y / 4real, 0real, 1real)),
        means(part_of(over, x, D12), bounded(y / 12real, 0real, 1real)),
        means(part_of(over, x, D40), bounded(y / 40real, 0real, 1real)),
{
    decimals_are_read(means);
}

} // verus!
