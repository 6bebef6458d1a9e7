//! The inputs of the slots: who stands there, where the player belongs, and whom the player
//! presses.
use crate::central::TeamTacticalDirective;
use crate::decimals::{
    D0, D0_04, D0_08, D0_12, D0_16, D0_2, D0_22, D0_24, D0_28, D0_34, D0_36, D0_38, D0_42, D0_45,
    D0_46, D0_5, D0_9, D1, D1EM09, D1_2, D1_4, D1_6, D14, D2, D20, D30,
};
use crate::formation::brain::soccer_lp_clamped;
use crate::formation::guidance::SoccerFormationLpObjectiveWeights;
use crate::formation::layout::SOCCER_FORMATION_LP_PLAYER_CAPACITY;
use crate::formation::objective::{weigh, weighed, weighing_adds_the_terms, weighted_sum};
use crate::formation::shape::{
    is_staggered, soccer_formation_lp_stagger_role_layers, RosterEntry, ShapeSlot, StaggerBands,
};
use crate::formation::slots::{
    is_line_up, line_up, press_keys, presses_hard, pressure_ranks, PlayerHead, PressHead,
};
use crate::formation::state::{soccer_lp_unit, unit_value};
use crate::formation::tick::{SoccerFormationLpSlotInput, TickFrame};
use crate::formation::zone::{
    anchor_of, marks_of, roster_of, soccer_formation_lp_anchor, AnchorRules, FieldSense, ZonePlayer,
    ZoneSituation,
};
use crate::geometry::{
    distance_of, find_middle, find_way, finite_or, head_for, heading_of, is_distance,
    is_finite_point, is_heading, join, joined, keep_in, kept_in, measure, measure_size, middle,
    origin, place_or, size_of, stretch, stretched, take_finite, take_place, way,
};
use crate::marking::cover::SeenOpponent;
use crate::meaning::{
    bounded, decimals_are_read, is_faithful, most, reads_counts, reads_decimals, reads_order,
    reads_quotients, reads_signs, reads_sums, stands_at,
};
use crate::number::{
    apply, at_bits, is_conversion, is_operation, larger, larger_of, num, number_of, outcome,
    to_number, Real64,
};
use crate::order::is_ranking;
use crate::pitch::{PlayerRole, Team, Vec2};
use crate::tunables::fitted;
use vstd::prelude::*;

verus! {

/// What the slots read of a player.
#[derive(Clone, Copy, Debug, PartialEq, Eq, Structural)]
pub struct PlayerReading {
    pub id: usize,
    pub team: Team,
    pub role: PlayerRole,
    /// Where the player was last seen.
    pub seen: Vec2,
    pub position: Vec2,
    pub velocity: Vec2,
    pub acceleration: Vec2,
    pub home_position: Vec2,
    pub top_speed: Real64,
    pub max_acceleration: Real64,
    pub fatigue: Real64,
    /// Where a cross would reach the player.
    pub arrival: Option<Vec2>,
}

impl PlayerReading {
    pub open spec fn head(self) -> PlayerHead {
        PlayerHead { id: self.id, team: self.team, role: self.role }
    }

    /// Where the player stands on the pitch.
    pub open spec fn place(self, frame: TickFrame) -> Vec2 {
        place_or(self.seen, frame.width, frame.length, self.position)
    }

    fn find_place(&self, frame: &TickFrame) -> (r: Vec2)
        ensures
            r == self.place(*frame),
    {
        take_place(self.seen, frame.width, frame.length, self.position)
    }
}

/// The players as they line up.
pub open spec fn reading_heads(players: Seq<PlayerReading>) -> Seq<PlayerHead> {
    players.map_values(|p: PlayerReading| p.head())
}

/// The frame is a pitch: finite, with a middle, and with room for every width and depth that a
/// directive may ask for.
pub open spec fn is_pitch<M: Fn(Real64, Real64) -> Real64>(times: M, frame: TickFrame) -> bool {
    &&& frame.width.finite()
    &&& frame.length.finite()
    &&& num(D14).key() <= frame.width.key()
    &&& 0 <= frame.length.key()
    &&& num(D2).key() <= outcome(times, frame.length, num(D0_5)).key()
    &&& is_finite_point(middle(times, frame.width, frame.length))
}

/// The readings place every player.
pub open spec fn are_placed(players: Seq<PlayerReading>) -> bool {
    forall|i: int| 0 <= i < players.len() ==> is_finite_point((#[trigger] players[i]).position)
}

/// The first of the players from `i` on with an id.
pub open spec fn first_with_id(players: Seq<PlayerReading>, id: usize, i: int) -> Option<int>
    decreases players.len() - i,
{
    if i < 0 || i >= players.len() {
        None
    } else if players[i].id == id {
        Some(i)
    } else {
        first_with_id(players, id, i + 1)
    }
}

/// The place and velocity of the ball holder, where an opponent holds the ball.
pub open spec fn opposing_holder(
    players: Seq<PlayerReading>,
    holder_id: Option<usize>,
    team: Team,
    frame: TickFrame,
) -> Option<(Vec2, Vec2)> {
    match holder_id {
        Some(id) => match first_with_id(players, id, 0) {
            Some(i) => if players[i].team == team.opponent() {
                Some((players[i].place(frame), finite_or(players[i].velocity, origin())))
            } else {
                None
            },
            None => None,
        },
        None => None,
    }
}

fn find_opposing_holder(
    players: &Vec<PlayerReading>,
    holder_id: Option<usize>,
    team: Team,
    frame: &TickFrame,
) -> (r: Option<(Vec2, Vec2)>)
    ensures
        r == opposing_holder(players@, holder_id, team, *frame),
{
    let id: usize = match holder_id {
        Some(id) => id,
        None => {
            return None;
        },
    };
    let mut i: usize = 0;
    while i < players.len()
        invariant
            i <= players@.len(),
            holder_id == Some(id),
            first_with_id(players@, id, 0) == first_with_id(players@, id, i as int),
        decreases players@.len() - i,
    {
        if players[i].id == id {
            let holder: PlayerReading = players[i];
            return if holder.team == team.other() {
                let velocity: Vec2 = take_finite(
                    holder.velocity,
                    Vec2 { x: at_bits(D0), y: at_bits(D0) },
                );
                Some((holder.find_place(frame), velocity))
            } else {
                None
            };
        }
        i += 1;
    }
    None
}

/// The lined-up players as they rank for pressing.
pub open spec fn press_heads<D: Fn(Vec2, Vec2) -> Real64>(
    distance: D,
    frame: TickFrame,
    players: Seq<PlayerReading>,
    order: Seq<usize>,
    holder: Vec2,
) -> Seq<PressHead> {
    order.map_values(
        |i: usize|
            PressHead {
                role: players[i as int].role,
                distance: distance_of(distance, players[i as int].place(frame), holder),
            },
    )
}

/// `ranked` ranks the lined-up players for pressing; nobody ranks without a holder to press.
pub open spec fn ranks_pressing<D: Fn(Vec2, Vec2) -> Real64>(
    distance: D,
    frame: TickFrame,
    players: Seq<PlayerReading>,
    order: Seq<usize>,
    holder: Option<(Vec2, Vec2)>,
    ranked: Seq<usize>,
) -> bool {
    match holder {
        Some(h) => is_ranking(
            press_keys(press_heads(distance, frame, players, order, h.0)),
            ranked,
        ),
        None => ranked.len() == 0,
    }
}

fn rank_pressing<D: Fn(Vec2, Vec2) -> Real64>(
    frame: &TickFrame,
    players: &Vec<PlayerReading>,
    order: &Vec<usize>,
    holder: Option<(Vec2, Vec2)>,
    distance: &D,
) -> (ranked: Vec<usize>)
    requires
        is_distance(*distance),
        are_placed(players@),
        frame.width.finite(),
        frame.length.finite(),
        forall|i: int| 0 <= i < order@.len() ==> (#[trigger] order@[i]) < players@.len(),
        holder is Some ==> is_finite_point((holder->0).0),
    ensures
        ranks_pressing(*distance, *frame, players@, order@, holder, ranked@),
        forall|i: int| 0 <= i < ranked@.len() ==> (#[trigger] ranked@[i]) < order@.len(),
{
    let place: Vec2 = match holder {
        Some(h) => h.0,
        None => {
            return Vec::new();
        },
    };
    let mut heads: Vec<PressHead> = Vec::new();
    let mut i: usize = 0;
    while i < order.len()
        invariant
            i <= order@.len(),
            is_distance(*distance),
            are_placed(players@),
            frame.width.finite(),
            frame.length.finite(),
            is_finite_point(place),
            forall|k: int| 0 <= k < order@.len() ==> (#[trigger] order@[k]) < players@.len(),
            heads@ == press_heads(*distance, *frame, players@, order@, place).take(i as int),
            forall|k: int| 0 <= k < heads@.len() ==> !(#[trigger] heads@[k]).distance.nan(),
        decreases order@.len() - i,
    {
        assert(order@[i as int] < players@.len());
        let player: PlayerReading = players[order[i]];
        assert(is_finite_point(players@[order@[i as int] as int].position));
        heads.push(
            PressHead {
                role: player.role,
                distance: measure(distance, player.find_place(frame), place),
            },
        );
        i += 1;
        assert(heads@ =~= press_heads(*distance, *frame, players@, order@, place).take(i as int));
    }
    assert(heads@ =~= press_heads(*distance, *frame, players@, order@, place));
    let ranked: Vec<usize> = pressure_ranks(&heads);
    assert forall|k: int| 0 <= k < ranked@.len() implies (#[trigger] ranked@[k]) < order@.len() by {
        assert(ranked@[k] < press_keys(heads@).len());
    }
    ranked
}

/// The rank of a player among the first `n`: the last one under the player's id.
pub open spec fn rank_of(
    players: Seq<PlayerReading>,
    order: Seq<usize>,
    ranked: Seq<usize>,
    id: usize,
    n: int,
) -> Option<int>
    decreases n,
{
    if n <= 0 {
        None
    } else if players[order[ranked[n - 1] as int] as int].id == id {
        Some(n - 1)
    } else {
        rank_of(players, order, ranked, id, n - 1)
    }
}

fn find_rank(
    players: &Vec<PlayerReading>,
    order: &Vec<usize>,
    ranked: &Vec<usize>,
    id: usize,
) -> (r: Option<usize>)
    requires
        forall|i: int| 0 <= i < order@.len() ==> (#[trigger] order@[i]) < players@.len(),
        forall|i: int| 0 <= i < ranked@.len() ==> (#[trigger] ranked@[i]) < order@.len(),
    ensures
        match rank_of(players@, order@, ranked@, id, ranked@.len() as int) {
            Some(k) => r == Some(k as usize) && 0 <= k < ranked@.len(),
            None => r is None,
        },
{
    let mut n: usize = ranked.len();
    while n > 0
        invariant
            n <= ranked@.len(),
            forall|i: int| 0 <= i < order@.len() ==> (#[trigger] order@[i]) < players@.len(),
            forall|i: int| 0 <= i < ranked@.len() ==> (#[trigger] ranked@[i]) < order@.len(),
            rank_of(players@, order@, ranked@, id, ranked@.len() as int) == rank_of(
                players@,
                order@,
                ranked@,
                id,
                n as int,
            ),
        decreases n,
    {
        assert(ranked@[n - 1] < order@.len());
        assert(order@[ranked@[n - 1] as int] < players@.len());
        if players[order[ranked[n - 1]]].id == id {
            return Some(n - 1);
        }
        n -= 1;
    }
    None
}

/// How many press hard: one to four, as the cover target asks.
pub open spec fn pressers(defensive_cover_target: usize) -> usize {
    if defensive_cover_target < 1 {
        1
    } else if defensive_cover_target > 4 {
        4
    } else {
        defensive_cover_target
    }
}

/// How much a role presses.
pub open spec fn role_press(role: PlayerRole) -> u64 {
    match role {
        PlayerRole::Goalkeeper => D0,
        PlayerRole::Defender => D1,
        PlayerRole::Midfielder => D0_9,
        PlayerRole::Forward => D0_46,
    }
}

/// How much a rank presses: the nearest most, those behind the pressers hardly.
pub open spec fn rank_press<
    P: Fn(Real64, Real64) -> Real64,
    Q: Fn(Real64, Real64) -> Real64,
    C: Fn(usize) -> Real64,
>(plus: P, over: Q, count: C, rank: usize, target: usize) -> Real64 {
    if rank < target {
        outcome(
            plus,
            num(D1),
            outcome(
                over,
                number_of(count, rank),
                outcome(plus, number_of(count, target), num(D1)),
            ).negated(),
        )
    } else {
        outcome(over, num(D0_12), outcome(plus, number_of(count, rank), num(D1)))
    }
}

/// How much pressing is needed.
pub open spec fn press_need<P: Fn(Real64, Real64) -> Real64, M: Fn(Real64, Real64) -> Real64>(
    plus: P,
    times: M,
    w: SoccerFormationLpObjectiveWeights,
    press_intensity: Real64,
) -> Real64 {
    let terms = seq![
        (unit_value(w.expected_goals_against), D0_34),
        (unit_value(w.opponent_progression), D0_22),
        (unit_value(press_intensity), D0_24),
    ];
    fitted(weighed(plus, times, num(D0_36), terms, 3), D0, D0, D1_2)
}

/// A pressing task: where, how much, and how much the speed is to be matched.
#[derive(Clone, Copy, Debug, PartialEq, Eq, Structural)]
pub struct PressTask {
    pub target: Vec2,
    pub weight: Real64,
    pub speed_match_weight: Real64,
    pub speed_match_velocity_yps: Real64,
}

/// The side from which a player approaches the holder: the player's own, or from behind.
pub open spec fn approach_of<
    P: Fn(Real64, Real64) -> Real64,
    D: Fn(Vec2, Vec2) -> Real64,
    U: Fn(Vec2) -> Vec2,
>(plus: P, distance: D, unit: U, attack_dir: Real64, holder: Vec2, current: Vec2) -> Vec2 {
    let side = heading_of(unit, way(plus, holder, current));
    if num(D1EM09).less(size_of(distance, side)) {
        side
    } else {
        Vec2 { x: num(D0), y: attack_dir.negated() }
    }
}

/// The pressing task of a player with a rank.
pub open spec fn press_task<
    P: Fn(Real64, Real64) -> Real64,
    M: Fn(Real64, Real64) -> Real64,
    Q: Fn(Real64, Real64) -> Real64,
    C: Fn(usize) -> Real64,
    D: Fn(Vec2, Vec2) -> Real64,
    U: Fn(Vec2) -> Vec2,
>(
    plus: P,
    times: M,
    over: Q,
    count: C,
    distance: D,
    unit: U,
    frame: TickFrame,
    w: SoccerFormationLpObjectiveWeights,
    directive: TeamTacticalDirective,
    press_distance: Real64,
    role: PlayerRole,
    current: Vec2,
    rank: usize,
    holder: (Vec2, Vec2),
) -> PressTask {
    let factor = rank_press(
        plus,
        over,
        count,
        rank,
        pressers(directive.defensive_cover_target),
    );
    let weight = fitted(
        outcome(
            times,
            outcome(times, factor, num(role_press(role))),
            press_need(plus, times, w, directive.press_intensity),
        ),
        D0,
        D0,
        D1_4,
    );
    let approach = approach_of(plus, distance, unit, frame.attack_dir, holder.0, current);
    PressTask {
        target: kept_in(
            joined(
                plus,
                joined(plus, holder.0, stretched(times, approach, press_distance)),
                stretched(
                    times,
                    holder.1,
                    outcome(times, larger(frame.dt_seconds, num(D0)), num(D0_45)),
                ),
            ),
            frame.width,
            frame.length,
        ),
        weight,
        speed_match_weight: unit_value(
            outcome(
                times,
                weight,
                outcome(
                    plus,
                    num(D0_42),
                    outcome(times, unit_value(w.transition_risk), num(D0_28)),
                ),
            ),
        ),
        speed_match_velocity_yps: holder.1.y,
    }
}

fn find_press_task<
    P: Fn(Real64, Real64) -> Real64,
    M: Fn(Real64, Real64) -> Real64,
    Q: Fn(Real64, Real64) -> Real64,
    C: Fn(usize) -> Real64,
    D: Fn(Vec2, Vec2) -> Real64,
    U: Fn(Vec2) -> Vec2,
>(
    frame: &TickFrame,
    w: &SoccerFormationLpObjectiveWeights,
    directive: &TeamTacticalDirective,
    press_distance: Real64,
    role: PlayerRole,
    current: Vec2,
    rank: usize,
    holder: (Vec2, Vec2),
    plus: &P,
    times: &M,
    over: &Q,
    count: &C,
    distance: &D,
    unit: &U,
) -> (r: PressTask)
    requires
        is_operation(*plus),
        is_operation(*times),
        is_operation(*over),
        is_conversion(*count),
        is_distance(*distance),
        is_heading(*unit),
    ensures
        r == press_task(
            *plus,
            *times,
            *over,
            *count,
            *distance,
            *unit,
            *frame,
            *w,
            *directive,
            press_distance,
            role,
            current,
            rank,
            holder,
        ),
{
    let target_count: usize = if directive.defensive_cover_target < 1 {
        1
    } else if directive.defensive_cover_target > 4 {
        4
    } else {
        directive.defensive_cover_target
    };
    let factor: Real64 = if presses_hard(rank, directive.defensive_cover_target) {
        let after: Real64 = apply(plus, to_number(count, target_count), at_bits(D1));
        let lost: Real64 = apply(over, to_number(count, rank), after);
        apply(plus, at_bits(D1), lost.negate())
    } else {
        apply(over, at_bits(D0_12), apply(plus, to_number(count, rank), at_bits(D1)))
    };
    let role_factor: Real64 = match role {
        PlayerRole::Goalkeeper => at_bits(D0),
        PlayerRole::Defender => at_bits(D1),
        PlayerRole::Midfielder => at_bits(D0_9),
        PlayerRole::Forward => at_bits(D0_46),
    };
    let terms: Vec<(Real64, u64)> = vec![
        (soccer_lp_unit(w.expected_goals_against), D0_34),
        (soccer_lp_unit(w.opponent_progression), D0_22),
        (soccer_lp_unit(directive.press_intensity), D0_24),
    ];
    assert(terms@ =~= seq![
        (unit_value(w.expected_goals_against), D0_34),
        (unit_value(w.opponent_progression), D0_22),
        (unit_value(directive.press_intensity), D0_24),
    ]);
    let need: Real64 = soccer_lp_clamped(
        weigh(at_bits(D0_36), terms, plus, times),
        D0,
        D1_2,
        D0,
    );
    let weight: Real64 = soccer_lp_clamped(
        apply(times, apply(times, factor, role_factor), need),
        D0,
        D1_4,
        D0,
    );
    let risk: Real64 = apply(times, soccer_lp_unit(w.transition_risk), at_bits(D0_28));
    let side: Vec2 = head_for(unit, find_way(holder.0, current, plus));
    let approach: Vec2 = if at_bits(D1EM09).is_below(measure_size(distance, side)) {
        side
    } else {
        Vec2 { x: at_bits(D0), y: frame.attack_dir.negate() }
    };
    let ahead: Real64 = apply(times, larger_of(frame.dt_seconds, at_bits(D0)), at_bits(D0_45));
    let beside: Vec2 = join(holder.0, stretch(approach, press_distance, times), plus);
    PressTask {
        target: keep_in(
            join(beside, stretch(holder.1, ahead, times), plus),
            frame.width,
            frame.length,
        ),
        weight,
        speed_match_weight: soccer_lp_unit(
            apply(times, weight, apply(plus, at_bits(D0_42), risk)),
        ),
        speed_match_velocity_yps: holder.1.y,
    }
}

/// How much a player keeps to the offsets from the others.
pub open spec fn pair_weight<P: Fn(Real64, Real64) -> Real64, M: Fn(Real64, Real64) -> Real64>(
    plus: P,
    times: M,
    w: SoccerFormationLpObjectiveWeights,
) -> Real64 {
    let terms = seq![
        (unit_value(w.space_occupation), D0_12),
        (unit_value(w.defensive_compactness), D0_16),
        (unit_value(w.transition_risk), D0_08),
    ];
    fitted(weighed(plus, times, num(D0_08), terms, 3), D0_08, D0_04, D0_42)
}

fn find_pair_weight<P: Fn(Real64, Real64) -> Real64, M: Fn(Real64, Real64) -> Real64>(
    w: &SoccerFormationLpObjectiveWeights,
    plus: &P,
    times: &M,
) -> (r: Real64)
    requires
        is_operation(*plus),
        is_operation(*times),
    ensures
        r == pair_weight(*plus, *times, *w),
{
    let terms: Vec<(Real64, u64)> = vec![
        (soccer_lp_unit(w.space_occupation), D0_12),
        (soccer_lp_unit(w.defensive_compactness), D0_16),
        (soccer_lp_unit(w.transition_risk), D0_08),
    ];
    assert(terms@ =~= seq![
        (unit_value(w.space_occupation), D0_12),
        (unit_value(w.defensive_compactness), D0_16),
        (unit_value(w.transition_risk), D0_08),
    ]);
    soccer_lp_clamped(weigh(at_bits(D0_08), terms, plus, times), D0_04, D0_42, D0_08)
}

/// How much a player aligns with the plan.
pub open spec fn alignment_weight<
    P: Fn(Real64, Real64) -> Real64,
    M: Fn(Real64, Real64) -> Real64,
>(plus: P, times: M, pressure: Real64, pairs: Real64) -> Real64 {
    fitted(
        weighed(plus, times, num(D0_46), seq![(pressure, D0_42), (pairs, D0_38)], 2),
        D0_46,
        D0_2,
        D1_6,
    )
}

/// The input of a slot with a player.
pub open spec fn occupied_slot<P: Fn(Real64, Real64) -> Real64, M: Fn(Real64, Real64) -> Real64>(
    plus: P,
    times: M,
    frame: TickFrame,
    w: SoccerFormationLpObjectiveWeights,
    player: PlayerReading,
    anchor: Vec2,
    task: Option<PressTask>,
) -> SoccerFormationLpSlotInput {
    let pressure = match task {
        Some(t) => t.weight,
        None => num(D0),
    };
    let pairs = pair_weight(plus, times, w);
    let velocity = finite_or(player.velocity, origin());
    SoccerFormationLpSlotInput {
        active: true,
        player_id: player.id,
        role: player.role,
        current: player.place(frame),
        velocity,
        acceleration: finite_or(player.acceleration, origin()),
        home_position: place_or(
            player.home_position,
            frame.width,
            frame.length,
            middle(times, frame.width, frame.length),
        ),
        top_speed: fitted(player.top_speed, D0, D0, D20),
        max_acceleration: fitted(player.max_acceleration, D0, D0, D30),
        fatigue: unit_value(player.fatigue),
        anchor,
        pressure_target: match task {
            Some(t) => Some(t.target),
            None => None,
        },
        speed_match_velocity_yps: match task {
            Some(t) => t.speed_match_velocity_yps,
            None => velocity.y,
        },
        pressure_weight: pressure,
        speed_match_weight: match task {
            Some(t) => t.speed_match_weight,
            None => num(D0),
        },
        pair_weight: pairs,
        alignment_weight: alignment_weight(plus, times, pressure, pairs),
    }
}

fn occupy_slot<P: Fn(Real64, Real64) -> Real64, M: Fn(Real64, Real64) -> Real64>(
    frame: &TickFrame,
    w: &SoccerFormationLpObjectiveWeights,
    player: &PlayerReading,
    anchor: Vec2,
    task: Option<PressTask>,
    plus: &P,
    times: &M,
) -> (r: SoccerFormationLpSlotInput)
    requires
        is_operation(*plus),
        is_operation(*times),
    ensures
        r == occupied_slot(*plus, *times, *frame, *w, *player, anchor, task),
{
    let zero_vector: Vec2 = Vec2 { x: at_bits(D0), y: at_bits(D0) };
    let center: Vec2 = find_middle(frame.width, frame.length, times);
    let velocity: Vec2 = take_finite(player.velocity, zero_vector);
    let pairs: Real64 = find_pair_weight(w, plus, times);
    let (target, pressure, speed_weight, speed): (Option<Vec2>, Real64, Real64, Real64) =
        match task {
        Some(t) => (
            Some(t.target),
            t.weight,
            t.speed_match_weight,
            t.speed_match_velocity_yps,
        ),
        None => (None, at_bits(D0), at_bits(D0), velocity.y),
    };
    let terms: Vec<(Real64, u64)> = vec![(pressure, D0_42), (pairs, D0_38)];
    assert(terms@ =~= seq![(pressure, D0_42), (pairs, D0_38)]);
    let alignment: Real64 = soccer_lp_clamped(
        weigh(at_bits(D0_46), terms, plus, times),
        D0_2,
        D1_6,
        D0_46,
    );
    SoccerFormationLpSlotInput {
        active: true,
        player_id: player.id,
        role: player.role,
        current: player.find_place(frame),
        velocity,
        acceleration: take_finite(player.acceleration, zero_vector),
        home_position: take_place(player.home_position, frame.width, frame.length, center),
        top_speed: soccer_lp_clamped(player.top_speed, D0, D20, D0),
        max_acceleration: soccer_lp_clamped(player.max_acceleration, D0, D30, D0),
        fatigue: soccer_lp_unit(player.fatigue),
        anchor,
        pressure_target: target,
        speed_match_velocity_yps: speed,
        pressure_weight: pressure,
        speed_match_weight: speed_weight,
        pair_weight: pairs,
        alignment_weight: alignment,
    }
}

/// The input of an empty slot: nobody in the middle of the pitch.
pub open spec fn empty_slot<M: Fn(Real64, Real64) -> Real64>(
    times: M,
    frame: TickFrame,
    s: int,
) -> SoccerFormationLpSlotInput {
    let center = middle(times, frame.width, frame.length);
    SoccerFormationLpSlotInput {
        active: false,
        player_id: (usize::MAX - s) as usize,
        role: PlayerRole::Midfielder,
        current: center,
        velocity: origin(),
        acceleration: origin(),
        home_position: center,
        top_speed: num(D0),
        max_acceleration: num(D0),
        fatigue: num(D0),
        anchor: center,
        pressure_target: None,
        speed_match_velocity_yps: num(D0),
        pressure_weight: num(D0),
        speed_match_weight: num(D0),
        pair_weight: num(D0),
        alignment_weight: num(D0),
    }
}

fn leave_slot<M: Fn(Real64, Real64) -> Real64>(
    frame: &TickFrame,
    s: usize,
    times: &M,
) -> (r: SoccerFormationLpSlotInput)
    requires
        is_operation(*times),
    ensures
        r == empty_slot(*times, *frame, s as int),
{
    let nothing: Real64 = at_bits(D0);
    let zero_vector: Vec2 = Vec2 { x: nothing, y: nothing };
    let center: Vec2 = find_middle(frame.width, frame.length, times);
    SoccerFormationLpSlotInput {
        active: false,
        player_id: usize::MAX - s,
        role: PlayerRole::Midfielder,
        current: center,
        velocity: zero_vector,
        acceleration: zero_vector,
        home_position: center,
        top_speed: nothing,
        max_acceleration: nothing,
        fatigue: nothing,
        anchor: center,
        pressure_target: None,
        speed_match_velocity_yps: nothing,
        pressure_weight: nothing,
        speed_match_weight: nothing,
        pair_weight: nothing,
        alignment_weight: nothing,
    }
}

/// What the slots are filled from.
#[derive(Clone, Copy, Debug)]
pub struct SlotSituation {
    pub team: Team,
    pub holder_id: Option<usize>,
    pub frame: TickFrame,
    pub weights: SoccerFormationLpObjectiveWeights,
    pub directive: TeamTacticalDirective,
    /// How far from the holder a presser stands, in yards.
    pub press_distance: Real64,
    pub own_goal_y: Real64,
    pub ball: Vec2,
    pub possession: Option<Team>,
    pub rules: AnchorRules,
}

impl SlotSituation {
    /// The situation as the formation places players in it.
    pub open spec fn zone(self) -> ZoneSituation {
        ZoneSituation {
            team: self.team,
            frame: self.frame,
            own_goal_y: self.own_goal_y,
            ball: self.ball,
            possession: self.possession,
            holder: self.holder_id,
            directive: self.directive,
            weights: self.weights,
            rules: self.rules,
        }
    }
}

/// Where the formation places each player.
pub open spec fn anchors_of<
    P: Fn(Real64, Real64) -> Real64,
    M: Fn(Real64, Real64) -> Real64,
    Q: Fn(Real64, Real64) -> Real64,
    C: Fn(usize) -> Real64,
    D: Fn(Vec2, Vec2) -> Real64,
    U: Fn(Vec2) -> Vec2,
    N: Fn(PlayerRole, Real64, Real64, Real64, bool) -> Real64,
    G: Fn(PlayerRole, bool) -> Real64,
    K: Fn(Team, Vec2, Vec2, Real64) -> bool,
    F: Fn(Vec2) -> Real64,
>(
    plus: P,
    times: M,
    over: Q,
    count: C,
    distance: D,
    unit: U,
    sense: FieldSense<N, G, K, F>,
    players: Seq<PlayerReading>,
    situation: SlotSituation,
) -> Seq<Vec2> {
    players.map_values(
        |p: PlayerReading|
            anchor_of(
                plus,
                times,
                over,
                count,
                distance,
                unit,
                sense,
                situation.zone(),
                ZonePlayer {
                    id: p.id,
                    role: p.role,
                    home_position: p.home_position,
                    current: p.seen,
                },
                roster_of(players),
                marks_of(players),
            ),
    )
}

/// Finds where the formation places each player.
fn find_anchors<
    P: Fn(Real64, Real64) -> Real64,
    M: Fn(Real64, Real64) -> Real64,
    Q: Fn(Real64, Real64) -> Real64,
    C: Fn(usize) -> Real64,
    D: Fn(Vec2, Vec2) -> Real64,
    U: Fn(Vec2) -> Vec2,
    N: Fn(PlayerRole, Real64, Real64, Real64, bool) -> Real64,
    G: Fn(PlayerRole, bool) -> Real64,
    K: Fn(Team, Vec2, Vec2, Real64) -> bool,
    F: Fn(Vec2) -> Real64,
>(
    players: &Vec<PlayerReading>,
    situation: &SlotSituation,
    plus: &P,
    times: &M,
    over: &Q,
    count: &C,
    distance: &D,
    unit: &U,
    sense: &FieldSense<N, G, K, F>,
) -> (r: Vec<Vec2>)
    requires
        is_operation(*plus),
        is_operation(*times),
        is_operation(*over),
        is_conversion(*count),
        is_distance(*distance),
        is_heading(*unit),
        sense.answers(),
        is_pitch(*times, situation.frame),
    ensures
        r@ == anchors_of(
            *plus,
            *times,
            *over,
            *count,
            *distance,
            *unit,
            *sense,
            players@,
            *situation,
        ),
{
    let zone: ZoneSituation = ZoneSituation {
        team: situation.team,
        frame: situation.frame,
        own_goal_y: situation.own_goal_y,
        ball: situation.ball,
        possession: situation.possession,
        holder: situation.holder_id,
        directive: situation.directive,
        weights: situation.weights,
        rules: situation.rules,
    };
    let mut roster: Vec<RosterEntry> = Vec::new();
    let mut marks: Vec<SeenOpponent> = Vec::new();
    let mut i: usize = 0;
    while i < players.len()
        invariant
            i <= players@.len(),
            roster@ == roster_of(players@).take(i as int),
            marks@ == marks_of(players@).take(i as int),
        decreases players@.len() - i,
    {
        let p: PlayerReading = players[i];
        roster.push(
            RosterEntry {
                id: p.id,
                team: p.team,
                role: p.role,
                current: p.seen,
                home: p.home_position,
            },
        );
        marks.push(
            SeenOpponent {
                id: p.id,
                team: p.team,
                role: p.role,
                seen: p.seen,
                position: p.position,
                arrival: p.arrival,
            },
        );
        i += 1;
        assert(roster@ =~= roster_of(players@).take(i as int));
        assert(marks@ =~= marks_of(players@).take(i as int));
    }
    assert(roster@ =~= roster_of(players@));
    assert(marks@ =~= marks_of(players@));
    let ghost goal = anchors_of(
        *plus,
        *times,
        *over,
        *count,
        *distance,
        *unit,
        *sense,
        players@,
        *situation,
    );
    let mut r: Vec<Vec2> = Vec::new();
    let mut j: usize = 0;
    while j < players.len()
        invariant
            j <= players@.len(),
            is_operation(*plus),
            is_operation(*times),
            is_operation(*over),
            is_conversion(*count),
            is_distance(*distance),
            is_heading(*unit),
            sense.answers(),
            zone.has_room(*times),
            zone == situation.zone(),
            roster@ == roster_of(players@),
            marks@ == marks_of(players@),
            goal == anchors_of(
                *plus,
                *times,
                *over,
                *count,
                *distance,
                *unit,
                *sense,
                players@,
                *situation,
            ),
            r@ == goal.take(j as int),
        decreases players@.len() - j,
    {
        let p: PlayerReading = players[j];
        let player: ZonePlayer = ZonePlayer {
            id: p.id,
            role: p.role,
            home_position: p.home_position,
            current: p.seen,
        };
        let place: Vec2 = soccer_formation_lp_anchor(
            &zone,
            &player,
            &roster,
            &marks,
            plus,
            times,
            over,
            count,
            distance,
            unit,
            sense,
        );
        r.push(place);
        j += 1;
        assert(r@ =~= goal.take(j as int));
    }
    assert(r@ =~= goal);
    r
}

/// The input of slot `s` before the lines are staggered: the player who lines up there with the
/// pressing task of the player's rank, or nobody.
pub open spec fn unstaggered_slot<
    P: Fn(Real64, Real64) -> Real64,
    M: Fn(Real64, Real64) -> Real64,
    Q: Fn(Real64, Real64) -> Real64,
    C: Fn(usize) -> Real64,
    D: Fn(Vec2, Vec2) -> Real64,
    U: Fn(Vec2) -> Vec2,
>(
    plus: P,
    times: M,
    over: Q,
    count: C,
    distance: D,
    unit: U,
    players: Seq<PlayerReading>,
    situation: SlotSituation,
    anchors: Seq<Vec2>,
    order: Seq<usize>,
    ranked: Seq<usize>,
    s: int,
) -> SoccerFormationLpSlotInput {
    let frame = situation.frame;
    if s < order.len() {
        let player = players[order[s] as int];
        let holder = opposing_holder(players, situation.holder_id, situation.team, frame);
        let rank = rank_of(players, order, ranked, player.id, ranked.len() as int);
        let task = match (holder, rank) {
            (Some(h), Some(k)) => Some(
                press_task(
                    plus,
                    times,
                    over,
                    count,
                    distance,
                    unit,
                    frame,
                    situation.weights,
                    situation.directive,
                    situation.press_distance,
                    player.role,
                    player.place(frame),
                    k as usize,
                    h,
                ),
            ),
            _ => None,
        };
        occupied_slot(
            plus,
            times,
            frame,
            situation.weights,
            player,
            anchors[order[s] as int],
            task,
        )
    } else {
        empty_slot(times, frame, s)
    }
}

/// The slots are filled from a line-up and a ranking of the pressers.
pub open spec fn slots_filled<
    P: Fn(Real64, Real64) -> Real64,
    M: Fn(Real64, Real64) -> Real64,
    Q: Fn(Real64, Real64) -> Real64,
    C: Fn(usize) -> Real64,
    D: Fn(Vec2, Vec2) -> Real64,
    U: Fn(Vec2) -> Vec2,
>(
    plus: P,
    times: M,
    over: Q,
    count: C,
    distance: D,
    unit: U,
    players: Seq<PlayerReading>,
    situation: SlotSituation,
    anchors: Seq<Vec2>,
    slots: Seq<SoccerFormationLpSlotInput>,
) -> bool {
    exists|order: Seq<usize>, ranked: Seq<usize>|
        {
            &&& #[trigger] is_line_up(reading_heads(players), situation.team, order)
            &&& #[trigger] ranks_pressing(
                distance,
                situation.frame,
                players,
                order,
                opposing_holder(players, situation.holder_id, situation.team, situation.frame),
                ranked,
            )
            &&& slots == Seq::new(
                SOCCER_FORMATION_LP_PLAYER_CAPACITY as nat,
                |s: int|
                    unstaggered_slot(
                        plus,
                        times,
                        over,
                        count,
                        distance,
                        unit,
                        players,
                        situation,
                        anchors,
                        order,
                        ranked,
                        s,
                    ),
            )
        }
}

/// Fills the slots from the players, before the lines are staggered.
pub fn fill_slots<
    P: Fn(Real64, Real64) -> Real64,
    M: Fn(Real64, Real64) -> Real64,
    Q: Fn(Real64, Real64) -> Real64,
    C: Fn(usize) -> Real64,
    D: Fn(Vec2, Vec2) -> Real64,
    U: Fn(Vec2) -> Vec2,
>(
    players: &Vec<PlayerReading>,
    situation: &SlotSituation,
    anchors: &Vec<Vec2>,
    plus: &P,
    times: &M,
    over: &Q,
    count: &C,
    distance: &D,
    unit: &U,
) -> (slots: Vec<SoccerFormationLpSlotInput>)
    requires
        is_operation(*plus),
        is_operation(*times),
        is_operation(*over),
        is_conversion(*count),
        is_distance(*distance),
        is_heading(*unit),
        is_pitch(*times, situation.frame),
        are_placed(players@),
        anchors@.len() == players@.len(),
    ensures
        slots_filled(
            *plus,
            *times,
            *over,
            *count,
            *distance,
            *unit,
            players@,
            *situation,
            anchors@,
            slots@,
        ),
        slots@.len() == SOCCER_FORMATION_LP_PLAYER_CAPACITY,
        forall|s: int| 0 <= s < slots@.len() ==> !(#[trigger] slots@[s]).home_position.x.nan(),
{
    let frame: TickFrame = situation.frame;
    let mut heads: Vec<PlayerHead> = Vec::new();
    let mut i: usize = 0;
    while i < players.len()
        invariant
            i <= players@.len(),
            heads@ == reading_heads(players@).take(i as int),
        decreases players@.len() - i,
    {
        let player: PlayerReading = players[i];
        heads.push(PlayerHead { id: player.id, team: player.team, role: player.role });
        i += 1;
        assert(heads@ =~= reading_heads(players@).take(i as int));
    }
    assert(heads@ =~= reading_heads(players@));
    let order: Vec<usize> = line_up(&heads, situation.team);
    let holder: Option<(Vec2, Vec2)> = find_opposing_holder(
        players,
        situation.holder_id,
        situation.team,
        &frame,
    );
    assert forall|k: int| 0 <= k < order@.len() implies (#[trigger] order@[k]) < players@.len() by {
        assert(order@[k] < heads@.len());
    }
    proof {
        if let Some(id) = situation.holder_id {
            first_is_a_player(players@, id, 0);
        }
    }
    let ranked: Vec<usize> = rank_pressing(&frame, players, &order, holder, distance);
    let mut slots: Vec<SoccerFormationLpSlotInput> = Vec::new();
    let ghost goal = Seq::new(
        SOCCER_FORMATION_LP_PLAYER_CAPACITY as nat,
        |s: int|
            unstaggered_slot(
                *plus,
                *times,
                *over,
                *count,
                *distance,
                *unit,
                players@,
                *situation,
                anchors@,
                order@,
                ranked@,
                s,
            ),
    );
    let mut s: usize = 0;
    while s < SOCCER_FORMATION_LP_PLAYER_CAPACITY
        invariant
            s <= SOCCER_FORMATION_LP_PLAYER_CAPACITY,
            frame == situation.frame,
            is_operation(*plus),
            is_operation(*times),
            is_operation(*over),
            is_conversion(*count),
            is_distance(*distance),
            is_heading(*unit),
            is_pitch(*times, frame),
            anchors@.len() == players@.len(),
            holder == opposing_holder(
                players@,
                situation.holder_id,
                situation.team,
                situation.frame,
            ),
            forall|k: int| 0 <= k < order@.len() ==> (#[trigger] order@[k]) < players@.len(),
            forall|k: int| 0 <= k < ranked@.len() ==> (#[trigger] ranked@[k]) < order@.len(),
            goal == Seq::new(
                SOCCER_FORMATION_LP_PLAYER_CAPACITY as nat,
                |s: int|
                    unstaggered_slot(
                        *plus,
                        *times,
                        *over,
                        *count,
                        *distance,
                        *unit,
                        players@,
                        *situation,
                        anchors@,
                        order@,
                        ranked@,
                        s,
                    ),
            ),
            slots@ == goal.take(s as int),
            forall|t: int| 0 <= t < slots@.len() ==> !(#[trigger] slots@[t]).home_position.x.nan(),
        decreases SOCCER_FORMATION_LP_PLAYER_CAPACITY - s,
    {
        let slot: SoccerFormationLpSlotInput = if s < order.len() {
            assert(order@[s as int] < players@.len());
            let player: PlayerReading = players[order[s]];
            let rank: Option<usize> = find_rank(players, &order, &ranked, player.id);
            let task: Option<PressTask> = match (holder, rank) {
                (Some(h), Some(k)) => Some(
                    find_press_task(
                        &frame,
                        &situation.weights,
                        &situation.directive,
                        situation.press_distance,
                        player.role,
                        player.find_place(&frame),
                        k,
                        h,
                        plus,
                        times,
                        over,
                        count,
                        distance,
                        unit,
                    ),
                ),
                _ => None,
            };
            occupy_slot(
                &frame,
                &situation.weights,
                &player,
                anchors[order[s]],
                task,
                plus,
                times,
            )
        } else {
            leave_slot(&frame, s, times)
        };
        assert(slot == goal[s as int]);
        slots.push(slot);
        s += 1;
        assert(slots@ =~= goal.take(s as int));
    }
    assert(slots@ =~= goal);
    assert(is_line_up(reading_heads(players@), situation.team, order@));
    assert(ranks_pressing(
        *distance,
        situation.frame,
        players@,
        order@,
        opposing_holder(players@, situation.holder_id, situation.team, situation.frame),
        ranked@,
    ));
    slots
}

proof fn first_is_a_player(players: Seq<PlayerReading>, id: usize, i: int)
    ensures
        first_with_id(players, id, i) matches Some(k) ==> 0 <= k < players.len(),
    decreases players.len() - i,
{
    if 0 <= i < players.len() && players[i].id != id {
        first_is_a_player(players, id, i + 1);
    }
}

/// The slots as their shape is looked at.
pub open spec fn shapes_of(slots: Seq<SoccerFormationLpSlotInput>) -> Seq<ShapeSlot> {
    slots.map_values(
        |s: SoccerFormationLpSlotInput|
            ShapeSlot {
                active: s.active,
                role: s.role,
                home_x: s.home_position.x,
                anchor: s.anchor,
            },
    )
}

/// The slots with other anchors.
pub open spec fn anchored(
    slots: Seq<SoccerFormationLpSlotInput>,
    shapes: Seq<ShapeSlot>,
) -> Seq<SoccerFormationLpSlotInput> {
    Seq::new(
        slots.len(),
        |s: int| SoccerFormationLpSlotInput { anchor: shapes[s].anchor, ..slots[s] },
    )
}

/// The slots follow from filled ones: as they are, or with the anchors of staggered lines.
pub open spec fn slots_settled<
    P: Fn(Real64, Real64) -> Real64,
    M: Fn(Real64, Real64) -> Real64,
    Q: Fn(Real64, Real64) -> Real64,
    C: Fn(usize) -> Real64,
>(
    plus: P,
    times: M,
    over: Q,
    count: C,
    frame: TickFrame,
    bands: Option<StaggerBands>,
    filled: Seq<SoccerFormationLpSlotInput>,
    slots: Seq<SoccerFormationLpSlotInput>,
) -> bool {
    match bands {
        Some(b) => exists|shapes: Seq<ShapeSlot>| #[trigger]
            is_staggered(
                plus,
                times,
                over,
                count,
                shapes_of(filled),
                frame.attack_dir,
                b,
                frame.width,
                frame.length,
                shapes,
            ) && slots == anchored(filled, shapes),
        None => slots == filled,
    }
}

/// Places the players in the formation, fills the slots from them and, where bands are given,
/// staggers the lines.
pub fn soccer_formation_lp_slot_inputs<
    P: Fn(Real64, Real64) -> Real64,
    M: Fn(Real64, Real64) -> Real64,
    Q: Fn(Real64, Real64) -> Real64,
    C: Fn(usize) -> Real64,
    D: Fn(Vec2, Vec2) -> Real64,
    U: Fn(Vec2) -> Vec2,
    N: Fn(PlayerRole, Real64, Real64, Real64, bool) -> Real64,
    G: Fn(PlayerRole, bool) -> Real64,
    K: Fn(Team, Vec2, Vec2, Real64) -> bool,
    F: Fn(Vec2) -> Real64,
>(
    players: &Vec<PlayerReading>,
    situation: &SlotSituation,
    bands: Option<StaggerBands>,
    plus: &P,
    times: &M,
    over: &Q,
    count: &C,
    distance: &D,
    unit: &U,
    sense: &FieldSense<N, G, K, F>,
) -> (slots: Vec<SoccerFormationLpSlotInput>)
    requires
        is_operation(*plus),
        is_operation(*times),
        is_operation(*over),
        is_conversion(*count),
        is_distance(*distance),
        is_heading(*unit),
        sense.answers(),
        is_pitch(*times, situation.frame),
        are_placed(players@),
    ensures
        slots@.len() == SOCCER_FORMATION_LP_PLAYER_CAPACITY,
        exists|filled: Seq<SoccerFormationLpSlotInput>| #[trigger]
            slots_filled(
                *plus,
                *times,
                *over,
                *count,
                *distance,
                *unit,
                players@,
                *situation,
                anchors_of(
                    *plus,
                    *times,
                    *over,
                    *count,
                    *distance,
                    *unit,
                    *sense,
                    players@,
                    *situation,
                ),
                filled,
            ) && slots_settled(
                *plus,
                *times,
                *over,
                *count,
                situation.frame,
                bands,
                filled,
                slots@,
            ),
{
    let anchors: Vec<Vec2> = find_anchors(
        players,
        situation,
        plus,
        times,
        over,
        count,
        distance,
        unit,
        sense,
    );
    let filled: Vec<SoccerFormationLpSlotInput> = fill_slots(
        players,
        situation,
        &anchors,
        plus,
        times,
        over,
        count,
        distance,
        unit,
    );
    let b: StaggerBands = match bands {
        Some(b) => b,
        None => {
            return filled;
        },
    };
    let mut shapes: Vec<ShapeSlot> = Vec::new();
    let mut s: usize = 0;
    while s < filled.len()
        invariant
            s <= filled@.len(),
            shapes@ == shapes_of(filled@).take(s as int),
        decreases filled@.len() - s,
    {
        let slot: SoccerFormationLpSlotInput = filled[s];
        shapes.push(
            ShapeSlot {
                active: slot.active,
                role: slot.role,
                home_x: slot.home_position.x,
                anchor: slot.anchor,
            },
        );
        s += 1;
        assert(shapes@ =~= shapes_of(filled@).take(s as int));
    }
    assert(shapes@ =~= shapes_of(filled@));
    let frame: TickFrame = situation.frame;
    soccer_formation_lp_stagger_role_layers(
        &mut shapes,
        frame.attack_dir,
        &b,
        frame.width,
        frame.length,
        plus,
        times,
        over,
        count,
    );
    let mut slots: Vec<SoccerFormationLpSlotInput> = Vec::new();
    let mut s: usize = 0;
    while s < filled.len()
        invariant
            s <= filled@.len(),
            shapes@.len() == filled@.len(),
            slots@ == anchored(filled@, shapes@).take(s as int),
        decreases filled@.len() - s,
    {
        let mut slot: SoccerFormationLpSlotInput = filled[s];
        slot.anchor = shapes[s].anchor;
        slots.push(slot);
        s += 1;
        assert(slots@ =~= anchored(filled@, shapes@).take(s as int));
    }
    assert(slots@ =~= anchored(filled@, shapes@));
    slots
}

/// How much a player presses lies between nothing and the most there is, and the goalkeeper's part
/// in it is none.
pub proof fn pressing_is_bounded<
    P: Fn(Real64, Real64) -> Real64,
    M: Fn(Real64, Real64) -> Real64,
    Q: Fn(Real64, Real64) -> Real64,
    C: Fn(usize) -> Real64,
    D: Fn(Vec2, Vec2) -> Real64,
    U: Fn(Vec2) -> Vec2,
>(
    plus: P,
    times: M,
    over: Q,
    count: C,
    distance: D,
    unit: U,
    frame: TickFrame,
    w: SoccerFormationLpObjectiveWeights,
    directive: TeamTacticalDirective,
    press_distance: Real64,
    role: PlayerRole,
    current: Vec2,
    rank: usize,
    holder: (Vec2, Vec2),
)
    ensures
        ({
            let task = press_task(
                plus,
                times,
                over,
                count,
                distance,
                unit,
                frame,
                w,
                directive,
                press_distance,
                role,
                current,
                rank,
                holder,
            );
            &&& task.weight.finite()
            &&& 0 <= task.weight.key() <= num(D1_4).key()
            &&& task.speed_match_weight.finite()
            &&& 0 <= task.speed_match_weight.key() <= num(D1).key()
        }),
        1 <= pressers(directive.defensive_cover_target) <= 4,
        role_press(PlayerRole::Goalkeeper) == D0,
{
}

/// How hard a player presses by rank: of those who are to press, the first fully and the next ones
/// by less, one part for each of them and one more; of the others only 0.12 and ever less.
pub proof fn pressers_press_by_their_rank<
    P: Fn(Real64, Real64) -> Real64,
    Q: Fn(Real64, Real64) -> Real64,
    C: Fn(usize) -> Real64,
>(
    means: spec_fn(Real64, real) -> bool,
    plus: P,
    over: Q,
    count: C,
    rank: usize,
    target: usize,
)
    requires
        reads_sums(means, plus),
        reads_signs(means),
        reads_order(means),
        reads_decimals(means),
        reads_quotients(means, over),
        reads_counts(means, count),
        rank < usize::MAX,
        target < usize::MAX,
    ensures
        ({
            let r = rank as int as real;
            let n = target as int as real;
            means(
                rank_press(plus, over, count, rank, target),
                if rank < target {
                    1real - r / (n + 1real)
                } else {
                    (3real / 25real) / (r + 1real)
                },
            )
        }),
{
    decimals_are_read(means);
    let r = rank as int as real;
    let n = target as int as real;
    let s = r / (n + 1real);
    assert(n + 1real != 0real && r + 1real != 0real);
    assert(1real + -s == 1real - s);
}

/// How strongly pairs hold, how strongly a slot keeps its line, and how much pressing is needed,
/// each by the objectives and kept in its range.
pub proof fn pairs_hold_by_the_objectives<
    P: Fn(Real64, Real64) -> Real64,
    M: Fn(Real64, Real64) -> Real64,
>(
    means: spec_fn(Real64, real) -> bool,
    plus: P,
    times: M,
    w: SoccerFormationLpObjectiveWeights,
    press_intensity: Real64,
    pressure: Real64,
    pairs: Real64,
    space: real,
    compact: real,
    risk: real,
    against: real,
    theirs: real,
    press: real,
    p: real,
    q: real,
)
    requires
        is_faithful(means, plus, times),
        w.space_occupation.finite() && means(w.space_occupation, space),
        w.defensive_compactness.finite() && means(w.defensive_compactness, compact),
        w.transition_risk.finite() && means(w.transition_risk, risk),
        w.expected_goals_against.finite() && means(w.expected_goals_against, against),
        w.opponent_progression.finite() && means(w.opponent_progression, theirs),
        press_intensity.finite() && means(press_intensity, press),
        means(pressure, p),
        means(pairs, q),
    ensures
        exists|a: Real64, b: Real64, c: Real64|
            {
                &&& #[trigger] means(
                    a,
                    (2real / 25real) + bounded(space, 0real, 1real) * (3real / 25real) + bounded(
                        compact,
                        0real,
                        1real,
                    )
                        * (4real / 25real) + bounded(risk, 0real, 1real) * (2real / 25real),
                )
                &&& #[trigger] means(
                    b,
                    (23real / 50real) + p * (21real / 50real) + q * (19real / 50real),
                )
                &&& #[trigger] means(
                    c,
                    (9real / 25real) + bounded(against, 0real, 1real) * (17real / 50real) + bounded(
                        theirs,
                        0real,
                        1real,
                    )
                        * (11real / 50real) + bounded(press, 0real, 1real) * (6real / 25real),
                )
                &&& pair_weight(plus, times, w) == fitted(a, D0_08, D0_04, D0_42)
                &&& alignment_weight(plus, times, pressure, pairs) == fitted(b, D0_46, D0_2, D1_6)
                &&& press_need(plus, times, w, press_intensity) == fitted(c, D0, D0, D1_2)
            },
{
    decimals_are_read(means);
    reveal_with_fuel(weighted_sum, 4);
    let terms = seq![
        (unit_value(w.space_occupation), D0_12),
        (unit_value(w.defensive_compactness), D0_16),
        (unit_value(w.transition_risk), D0_08),
    ];
    let x = seq![
        bounded(space, 0real, 1real),
        bounded(compact, 0real, 1real),
        bounded(risk, 0real, 1real),
    ];
    assert(means(unit_value(w.space_occupation), bounded(space, 0real, 1real)));
    assert(means(unit_value(w.defensive_compactness), bounded(compact, 0real, 1real)));
    assert(means(unit_value(w.transition_risk), bounded(risk, 0real, 1real)));
    let c = seq![(3real / 25real), (4real / 25real), (2real / 25real)];
    weighing_adds_the_terms(means, plus, times, num(D0_08), terms, (2real / 25real), x, c, 3);
    let a = weighed(plus, times, num(D0_08), terms, 3);
    assert(means(
        a,
        (2real / 25real) + bounded(space, 0real, 1real) * (3real / 25real)
            + bounded(compact, 0real, 1real) * (4real / 25real)
            + bounded(risk, 0real, 1real) * (2real / 25real),
    ));
    let terms = seq![(pressure, D0_42), (pairs, D0_38)];
    weighing_adds_the_terms(
        means,
        plus,
        times,
        num(D0_46),
        terms,
        (23real / 50real),
        seq![p, q],
        seq![(21real / 50real), (19real / 50real)],
        2,
    );
    let b = weighed(plus, times, num(D0_46), terms, 2);
    assert(means(b, (23real / 50real) + p * (21real / 50real) + q * (19real / 50real)));
    let terms = seq![
        (unit_value(w.expected_goals_against), D0_34),
        (unit_value(w.opponent_progression), D0_22),
        (unit_value(press_intensity), D0_24),
    ];
    let y = seq![
        bounded(against, 0real, 1real),
        bounded(theirs, 0real, 1real),
        bounded(press, 0real, 1real),
    ];
    assert(means(unit_value(w.expected_goals_against), bounded(against, 0real, 1real)));
    assert(means(unit_value(w.opponent_progression), bounded(theirs, 0real, 1real)));
    assert(means(unit_value(press_intensity), bounded(press, 0real, 1real)));
    let d = seq![(17real / 50real), (11real / 50real), (6real / 25real)];
    weighing_adds_the_terms(means, plus, times, num(D0_36), terms, (9real / 25real), y, d, 3);
    let e = weighed(plus, times, num(D0_36), terms, 3);
    assert(means(
        e,
        (9real / 25real) + bounded(against, 0real, 1real) * (17real / 50real)
            + bounded(theirs, 0real, 1real) * (11real / 50real)
            + bounded(press, 0real, 1real) * (6real / 25real),
    ));
}

/// How hard the roles press.
pub proof fn roles_press_as_they_can(
    means: spec_fn(Real64, real) -> bool,
    role: PlayerRole,
)
    requires
        reads_signs(means),
        reads_order(means),
        reads_decimals(means),
    ensures
        means(
            num(role_press(role)),
            match role {
                PlayerRole::Goalkeeper => 0real,
                PlayerRole::Defender => 1real,
                PlayerRole::Midfielder => (9real / 10real),
                PlayerRole::Forward => (23real / 50real),
            },
        ),
{
    decimals_are_read(means);
}

/// A presser goes to the pressing distance from the holder, on the side of the approach, and ahead
/// by 0.45 of how far the holder goes in a tick; the speed to match is the holder's.
pub proof fn pressers_meet_the_holder_on_the_way<
    D: Fn(Vec2, Vec2) -> Real64,
    U: Fn(Vec2) -> Vec2,
    P: Fn(Real64, Real64) -> Real64,
    M: Fn(Real64, Real64) -> Real64,
    Q: Fn(Real64, Real64) -> Real64,
    C: Fn(usize) -> Real64,
>(
    means: spec_fn(Real64, real) -> bool,
    plus: P,
    times: M,
    over: Q,
    count: C,
    distance: D,
    unit: U,
    frame: TickFrame,
    w: SoccerFormationLpObjectiveWeights,
    directive: TeamTacticalDirective,
    press_distance: Real64,
    role: PlayerRole,
    current: Vec2,
    rank: usize,
    holder: (Vec2, Vec2),
    hx: real,
    hy: real,
    vx: real,
    vy: real,
    ux: real,
    uy: real,
    d: real,
    dt: real,
    wide: real,
    long: real,
)
    requires
        is_faithful(means, plus, times),
        reads_quotients(means, over),
        reads_counts(means, count),
        stands_at(means, holder.0, hx, hy),
        stands_at(means, holder.1, vx, vy),
        stands_at(
            means,
            approach_of(plus, distance, unit, frame.attack_dir, holder.0, current),
            ux,
            uy,
        ),
        means(press_distance, d),
        means(frame.dt_seconds, dt),
        means(frame.width, wide),
        means(frame.length, long),
    ensures
        ({
            let task = press_task(
                plus,
                times,
                over,
                count,
                distance,
                unit,
                frame,
                w,
                directive,
                press_distance,
                role,
                current,
                rank,
                holder,
            );
            let ahead = most(dt, 0real) * (9real / 20real);
            &&& stands_at(
                means,
                task.target,
                bounded(hx + ux * d + vx * ahead, 0real, wide),
                bounded(hy + uy * d + vy * ahead, 0real, long),
            )
            &&& task.speed_match_velocity_yps == holder.1.y
        }),
{
    decimals_are_read(means);
}

} // verus!
