//! Who stands in which slot, who presses, who is refined, who shares a line.
use crate::decimals::D0_12;
use crate::formation::guidance::{SlotHead, SoccerFormationLpPlayerGuidance};
use crate::number::Real64;
use crate::order::{is_ranking, precedes, ranking};
use crate::pitch::{PlayerRole, Team};
use crate::text::same_text;
use vstd::prelude::*;

verus! {

/// What the slot assignment reads of a player.
#[derive(Clone, Copy, Debug, PartialEq, Eq, Structural)]
pub struct PlayerHead {
    pub id: usize,
    pub team: Team,
    pub role: PlayerRole,
}

/// Player `i` lines up before player `j`: further back, or on the same line with the smaller
/// id, or with the same id and listed earlier.
pub open spec fn lines_up_before(players: Seq<PlayerHead>, i: int, j: int) -> bool {
    let a = players[i];
    let b = players[j];
    ||| a.role.depth() < b.role.depth()
    ||| a.role.depth() == b.role.depth() && a.id < b.id
    ||| a.role.depth() == b.role.depth() && a.id == b.id && i < j
}

/// `order` lists the players of a team, each once, in the order in which they line up.
pub open spec fn is_line_up(players: Seq<PlayerHead>, team: Team, order: Seq<usize>) -> bool {
    &&& forall|i: int|
        0 <= i < order.len() ==> (#[trigger] order[i]) < players.len() && players[order[i] as int].team
            == team
    &&& forall|i: int, j: int|
        0 <= i < j < order.len() ==> lines_up_before(
            players,
            #[trigger] order[i] as int,
            #[trigger] order[j] as int,
        )
    &&& forall|p: int|
        0 <= p < players.len() && players[p].team == team ==> #[trigger] order.contains(p as usize)
}

/// Lines up a team.
pub fn line_up(players: &Vec<PlayerHead>, team: Team) -> (order: Vec<usize>)
    ensures
        is_line_up(players@, team, order@),
        order@.no_duplicates(),
{
    let mut keys: Vec<Option<i128>> = Vec::new();
    let mut p: usize = 0;
    while p < players.len()
        invariant
            p <= players@.len(),
            keys@.len() == p,
            forall|i: int|
                0 <= i < p ==> #[trigger] keys@[i] == if players@[i].team == team {
                    Some(
                        (
                            players@[i].role.depth() * 0x1_0000_0000_0000_0000 + players@[i].id
                        ) as i128,
                    )
                } else {
                    None
                },
        decreases players@.len() - p,
    {
        let player: PlayerHead = players[p];
        if player.team == team {
            let depth: i128 = player.role.rank() as i128;
            keys.push(Some(depth * 0x1_0000_0000_0000_0000 + player.id as i128));
        } else {
            keys.push(None);
        }
        p += 1;
    }
    let order: Vec<usize> = ranking(&keys);
    proof {
        assert forall|i: int, j: int| 0 <= i < j < order@.len() implies lines_up_before(
            players@,
            #[trigger] order@[i] as int,
            #[trigger] order@[j] as int,
        ) by {
            let a = order@[i] as int;
            let b = order@[j] as int;
            assert(precedes(keys@, a, b));
            assert(keys@[a] is Some && keys@[b] is Some);
        }
        assert forall|i: int| 0 <= i < order@.len() implies (#[trigger] order@[i])
            < players@.len() && players@[order@[i] as int].team == team by {
            assert(keys@[order@[i] as int] is Some);
        }
        assert forall|q: int|
            0 <= q < players@.len() && players@[q].team == team implies #[trigger] order@.contains(
            q as usize,
        ) by {
            assert(keys@[q] is Some);
        }
    }
    order
}

/// A team lines up in one way only.
pub proof fn line_up_is_unique(players: Seq<PlayerHead>, team: Team, a: Seq<usize>, b: Seq<usize>)
    requires
        is_line_up(players, team, a),
        is_line_up(players, team, b),
        players.len() <= usize::MAX,
    ensures
        a == b,
{
    let keys = Seq::new(
        players.len(),
        |i: int|
            if players[i].team == team {
                Some(
                    (players[i].role.depth() * 0x1_0000_0000_0000_0000 + players[i].id) as i128,
                )
            } else {
                None::<i128>
            },
    );
    line_up_is_ranking(players, team, keys, a);
    line_up_is_ranking(players, team, keys, b);
    crate::order::ranking_is_unique(keys, a, b);
}

proof fn line_up_is_ranking(
    players: Seq<PlayerHead>,
    team: Team,
    keys: Seq<Option<i128>>,
    order: Seq<usize>,
)
    requires
        is_line_up(players, team, order),
        keys.len() == players.len(),
        forall|i: int|
            0 <= i < players.len() ==> #[trigger] keys[i] == if players[i].team == team {
                Some(
                    (players[i].role.depth() * 0x1_0000_0000_0000_0000 + players[i].id) as i128,
                )
            } else {
                None
            },
    ensures
        is_ranking(keys, order),
{
    assert forall|i: int, j: int| 0 <= i < j < order.len() implies precedes(
        keys,
        #[trigger] order[i] as int,
        #[trigger] order[j] as int,
    ) by {
        assert(lines_up_before(players, order[i] as int, order[j] as int));
    }
    assert forall|k: int|
        0 <= k < keys.len() && keys[k] is Some implies #[trigger] order.contains(k as usize) by {
        assert(players[k].team == team);
    }
}

/// What pressing reads of a slot: its player's role and distance to the ball holder.
#[derive(Clone, Copy, Debug)]
pub struct PressHead {
    pub role: PlayerRole,
    pub distance: Real64,
}

/// The keys by which a team presses: the distance of every player but the goalkeeper.
pub open spec fn press_keys(heads: Seq<PressHead>) -> Seq<Option<i128>> {
    Seq::new(
        heads.len(),
        |i: int|
            if heads[i].role == PlayerRole::Goalkeeper {
                None
            } else {
                Some(heads[i].distance.key() as i128)
            },
    )
}

/// Ranks the outfield players by their distance to the ball holder, nearest first and ties in
/// the order given.
pub fn pressure_ranks(heads: &Vec<PressHead>) -> (order: Vec<usize>)
    requires
        forall|i: int| 0 <= i < heads@.len() ==> !(#[trigger] heads@[i]).distance.nan(),
    ensures
        is_ranking(press_keys(heads@), order@),
{
    let mut keys: Vec<Option<i128>> = Vec::new();
    let mut i: usize = 0;
    while i < heads.len()
        invariant
            i <= heads@.len(),
            keys@.len() == i,
            forall|j: int| 0 <= j < i ==> #[trigger] keys@[j] == press_keys(heads@)[j],
        decreases heads@.len() - i,
    {
        let head: PressHead = heads[i];
        if head.role == PlayerRole::Goalkeeper {
            keys.push(None);
        } else {
            keys.push(Some(head.distance.order_key() as i128));
        }
        i += 1;
    }
    assert(keys@ =~= press_keys(heads@));
    ranking(&keys)
}

/// Whether the player of a rank presses hard: one to four do, as the cover target asks.
pub fn presses_hard(rank: usize, defensive_cover_target: usize) -> (b: bool)
    ensures
        b == (rank < if defensive_cover_target < 1 {
            1int
        } else if defensive_cover_target > 4 {
            4
        } else {
            defensive_cover_target as int
        }),
{
    let count: usize = if defensive_cover_target < 1 {
        1
    } else if defensive_cover_target > 4 {
        4
    } else {
        defensive_cover_target
    };
    rank < count
}

/// The keys by which players are refined: the most urgent first.
pub open spec fn urgency_keys(priorities: Seq<Option<Real64>>) -> Seq<Option<i128>> {
    priorities.map_values(
        |p: Option<Real64>|
            match p {
                Some(urgency) => Some((-urgency.key()) as i128),
                None => None,
            },
    )
}

/// `picks` are the most urgent players, at most `max_players`.
pub open spec fn are_picks(
    priorities: Seq<Option<Real64>>,
    max_players: usize,
    picks: Seq<usize>,
) -> bool {
    exists|order: Seq<usize>| #[trigger]
        is_ranking(urgency_keys(priorities), order) && picks == order.take(
            if order.len() < max_players {
                order.len() as int
            } else {
                max_players as int
            },
        )
}

/// Picks the players to refine.
pub fn local_mpc_picks(priorities: &Vec<Option<Real64>>, max_players: usize) -> (picks: Vec<usize>)
    requires
        forall|i: int|
            0 <= i < priorities@.len() ==> ((#[trigger] priorities@[i]) matches Some(p)
                ==> !p.nan()),
    ensures
        are_picks(priorities@, max_players, picks@),
        picks@.no_duplicates(),
        picks@.len() <= max_players,
        forall|i: int|
            0 <= i < picks@.len() ==> (#[trigger] picks@[i]) < priorities@.len()
                && priorities@[picks@[i] as int] is Some,
{
    let mut keys: Vec<Option<i128>> = Vec::new();
    let mut i: usize = 0;
    while i < priorities.len()
        invariant
            i <= priorities@.len(),
            keys@.len() == i,
            forall|j: int| 0 <= j < i ==> #[trigger] keys@[j] == urgency_keys(priorities@)[j],
        decreases priorities@.len() - i,
    {
        match priorities[i] {
            Some(urgency) => keys.push(Some(-(urgency.order_key() as i128))),
            None => keys.push(None),
        }
        i += 1;
    }
    assert(keys@ =~= urgency_keys(priorities@));
    let mut picks: Vec<usize> = ranking(&keys);
    let ghost order = picks@;
    if picks.len() > max_players {
        picks.truncate(max_players);
    }
    proof {
        let n = if order.len() < max_players {
            order.len() as int
        } else {
            max_players as int
        };
        assert(picks@ =~= order.take(n));
        assert(is_ranking(urgency_keys(priorities@), order));
        assert forall|i: int| 0 <= i < picks@.len() implies (#[trigger] picks@[i])
            < priorities@.len() && priorities@[picks@[i] as int] is Some by {
            assert(picks@[i] == order[i]);
            assert(urgency_keys(priorities@)[order[i] as int] is Some);
        }
    }
    picks
}

/// Where the last occupied slot of a player stands among the first `n`.
pub open spec fn last_slot_of(slots: Seq<SlotHead>, player_id: usize, n: int) -> Option<int>
    decreases n,
{
    if n <= 0 {
        None
    } else if slots[n - 1].active && slots[n - 1].player_id == player_id {
        Some(n - 1)
    } else {
        last_slot_of(slots, player_id, n - 1)
    }
}

/// The line a player holds together with others: defenders and midfielders hold one.
pub open spec fn held_line(slots: Seq<SlotHead>, player_id: usize) -> Option<PlayerRole> {
    match last_slot_of(slots, player_id, slots.len() as int) {
        Some(s) => if slots[s].role == PlayerRole::Defender || slots[s].role
            == PlayerRole::Midfielder {
            Some(slots[s].role)
        } else {
            None
        },
        None => None,
    }
}

/// Slot `s` holds another guided player of the line.
pub open spec fn is_line_peer(
    slots: Seq<SlotHead>,
    guided: Seq<usize>,
    player_id: usize,
    line: PlayerRole,
    s: int,
) -> bool {
    &&& slots[s].active
    &&& slots[s].player_id != player_id
    &&& slots[s].role == line
    &&& guided.contains(slots[s].player_id)
}

/// The slots of the peers among the first `n`.
pub open spec fn line_peers(
    slots: Seq<SlotHead>,
    guided: Seq<usize>,
    player_id: usize,
    line: PlayerRole,
    n: int,
) -> Seq<usize>
    decreases n,
{
    if n <= 0 {
        Seq::empty()
    } else if is_line_peer(slots, guided, player_id, line, n - 1) {
        line_peers(slots, guided, player_id, line, n - 1).push((n - 1) as usize)
    } else {
        line_peers(slots, guided, player_id, line, n - 1)
    }
}

fn holds(ids: &Vec<usize>, id: usize) -> (b: bool)
    ensures
        b == ids@.contains(id),
{
    let mut i: usize = 0;
    while i < ids.len()
        invariant
            i <= ids@.len(),
            forall|j: int| 0 <= j < i ==> ids@[j] != id,
        decreases ids@.len() - i,
    {
        if ids[i] == id {
            return true;
        }
        i += 1;
    }
    false
}

/// Finds the line of a guided player and the slots of the other guided players on it. There is
/// no line error to measure where fewer than two peers stand on it.
pub fn role_line_peers(
    slots: &Vec<SlotHead>,
    guided: &Vec<usize>,
    player_id: usize,
) -> (r: Option<(PlayerRole, Vec<usize>)>)
    ensures
        r is Some <==> {
            &&& held_line(slots@, player_id) is Some
            &&& line_peers(
                slots@,
                guided@,
                player_id,
                held_line(slots@, player_id)->0,
                slots@.len() as int,
            ).len() >= 2
        },
        r is Some ==> (r->0).0 == held_line(slots@, player_id)->0 && (r->0).1@ == line_peers(
            slots@,
            guided@,
            player_id,
            held_line(slots@, player_id)->0,
            slots@.len() as int,
        ),
{
    let mut at: usize = slots.len();
    let mut found: Option<PlayerRole> = None;
    while at > 0 && found.is_none()
        invariant
            at <= slots@.len(),
            found is None ==> last_slot_of(slots@, player_id, slots@.len() as int) == last_slot_of(
                slots@,
                player_id,
                at as int,
            ),
            found is Some ==> at < slots@.len() && last_slot_of(
                slots@,
                player_id,
                slots@.len() as int,
            ) == Some(at as int) && found->0 == slots@[at as int].role,
        decreases at,
    {
        at -= 1;
        let head: SlotHead = slots[at];
        if head.active && head.player_id == player_id {
            found = Some(head.role);
        }
    }
    let line: PlayerRole = match found {
        Some(role) => role,
        None => {
            return None;
        },
    };
    if line != PlayerRole::Defender && line != PlayerRole::Midfielder {
        return None;
    }
    let mut peers: Vec<usize> = Vec::new();
    let mut s: usize = 0;
    while s < slots.len()
        invariant
            s <= slots@.len(),
            peers@ == line_peers(slots@, guided@, player_id, line, s as int),
        decreases slots@.len() - s,
    {
        let head: SlotHead = slots[s];
        if head.active && head.player_id != player_id && head.role == line && holds(
            guided,
            head.player_id,
        ) {
            peers.push(s);
        }
        s += 1;
    }
    if peers.len() < 2 {
        None
    } else {
        Some((line, peers))
    }
}

/// The measures of a guided player that feed back into the directive are finite.
pub open spec fn has_finite_measures(g: SoccerFormationLpPlayerGuidance) -> bool {
    &&& g.motion.pressure_weight.finite()
    &&& g.motion.pair_error_yards.finite()
    &&& g.motion.role_line_error_yards.finite()
}

/// The guided players with finite measures among the first `n`.
pub open spec fn measured(guidance: Seq<SoccerFormationLpPlayerGuidance>, n: int) -> Seq<usize>
    decreases n,
{
    if n <= 0 {
        Seq::empty()
    } else if has_finite_measures(guidance[n - 1]) {
        measured(guidance, n - 1).push((n - 1) as usize)
    } else {
        measured(guidance, n - 1)
    }
}

/// How many of the first `n` guided players have finite measures and press.
pub open spec fn pressing(guidance: Seq<SoccerFormationLpPlayerGuidance>, n: int) -> int
    decreases n,
{
    if n <= 0 {
        0
    } else {
        pressing(guidance, n - 1) + if has_finite_measures(guidance[n - 1]) && (Real64 {
            bits: D0_12,
        }).less(guidance[n - 1].motion.pressure_weight) {
            1int
        } else {
            0
        }
    }
}

/// What solved guidance feeds back: the guided players whose measures count, and how many of
/// them press. Nothing unless the status is `optimal` and some measures are finite.
pub fn formation_lp_feedback(
    status: &str,
    guidance: &Vec<SoccerFormationLpPlayerGuidance>,
) -> (r: Option<(Vec<usize>, usize)>)
    ensures
        r is Some <==> status@ == "optimal"@ && measured(
            guidance@,
            guidance@.len() as int,
        ).len() > 0,
        r is Some ==> (r->0).0@ == measured(guidance@, guidance@.len() as int) && (r->0).1 == pressing(
            guidance@,
            guidance@.len() as int,
        ),
{
    if !same_text(status, "optimal") {
        return None;
    }
    let edge: Real64 = Real64 { bits: D0_12 };
    let mut indices: Vec<usize> = Vec::new();
    let mut count: usize = 0;
    let mut i: usize = 0;
    while i < guidance.len()
        invariant
            i <= guidance@.len(),
            count <= i,
            edge == (Real64 { bits: D0_12 }),
            indices@ == measured(guidance@, i as int),
            count == pressing(guidance@, i as int),
        decreases guidance@.len() - i,
    {
        let g: &SoccerFormationLpPlayerGuidance = &guidance[i];
        if g.motion.pressure_weight.is_finite() && g.motion.pair_error_yards.is_finite()
            && g.motion.role_line_error_yards.is_finite() {
            indices.push(i);
            if edge.is_below(g.motion.pressure_weight) {
                count += 1;
            }
        }
        i += 1;
    }
    if indices.len() == 0 {
        None
    } else {
        Some((indices, count))
    }
}

} // verus!
