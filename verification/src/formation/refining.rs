//! A tick of local refinement: the most urgent players, each refined by its own plan.
use crate::formation::brain::{count_refinements, refined, SoccerFormationLpBrain};
use crate::formation::guidance::{MpcRefinement, SoccerFormationLpPlayerGuidance};
use crate::formation::local::{FieldBall, FieldPlayer, PlanarObstacle};
use crate::formation::plan::{
    find_on_team, is_refinement, look_up, soccer_local_mpc_refined_guidance, PlanarPlan,
};
use crate::formation::refine::{
    refining_priority, soccer_local_mpc_candidate_priority, UrgencyMeasures,
};
use crate::formation::slots::{are_picks, local_mpc_picks};
use crate::formation::tick::TickFrame;
use crate::geometry::{is_distance, is_heading, is_limit};
use crate::number::{is_counting, is_function, is_operation, Real64};
use crate::pitch::{PlayerRole, Vec2};
use vstd::prelude::*;

verus! {

/// How urgent it is to refine a guided player, where the player can be refined.
pub open spec fn priority_of<P: Fn(Real64, Real64) -> Real64, M: Fn(Real64, Real64) -> Real64>(
    plus: P,
    times: M,
    ball: FieldBall,
    players: Seq<FieldPlayer>,
    has_ball: bool,
    g: SoccerFormationLpPlayerGuidance,
) -> Option<Real64> {
    refining_priority(
        plus,
        times,
        match find_on_team(players, g.player_id, g.team, 0) {
            Some(p) => Some(p.role),
            None => None,
        },
        ball.holder == Some(g.player_id),
        has_ball,
        UrgencyMeasures {
            recommended_move_yards: g.motion.recommended_move_yards,
            pressure_weight: g.motion.pressure_weight,
            speed_match_weight: g.motion.speed_match_weight,
            pair_error_yards: g.motion.pair_error_yards,
        },
    )
}

/// How urgent it is to refine each guided player.
pub open spec fn priorities_of<P: Fn(Real64, Real64) -> Real64, M: Fn(Real64, Real64) -> Real64>(
    plus: P,
    times: M,
    ball: FieldBall,
    players: Seq<FieldPlayer>,
    has_ball: bool,
    guidance: Seq<SoccerFormationLpPlayerGuidance>,
) -> Seq<Option<Real64>> {
    guidance.map_values(
        |g: SoccerFormationLpPlayerGuidance|
            priority_of(plus, times, ball, players, has_ball, g),
    )
}

fn find_priorities<P: Fn(Real64, Real64) -> Real64, M: Fn(Real64, Real64) -> Real64>(
    guidance: &Vec<SoccerFormationLpPlayerGuidance>,
    ball: &FieldBall,
    players: &Vec<FieldPlayer>,
    has_ball: bool,
    plus: &P,
    times: &M,
) -> (r: Vec<Option<Real64>>)
    requires
        is_operation(*plus),
        is_operation(*times),
    ensures
        r@ == priorities_of(*plus, *times, *ball, players@, has_ball, guidance@),
{
    let ghost goal = priorities_of(*plus, *times, *ball, players@, has_ball, guidance@);
    let mut r: Vec<Option<Real64>> = Vec::new();
    let mut i: usize = 0;
    while i < guidance.len()
        invariant
            i <= guidance@.len(),
            is_operation(*plus),
            is_operation(*times),
            goal == priorities_of(*plus, *times, *ball, players@, has_ball, guidance@),
            r@ == goal.take(i as int),
        decreases guidance@.len() - i,
    {
        let g: &SoccerFormationLpPlayerGuidance = &guidance[i];
        let role: Option<PlayerRole> = match look_up(players, g.player_id, g.team) {
            Some(p) => Some(p.role),
            None => None,
        };
        let holder: bool = match ball.holder {
            Some(id) => id == g.player_id,
            None => false,
        };
        let m: UrgencyMeasures = UrgencyMeasures {
            recommended_move_yards: g.motion.recommended_move_yards,
            pressure_weight: g.motion.pressure_weight,
            speed_match_weight: g.motion.speed_match_weight,
            pair_error_yards: g.motion.pair_error_yards,
        };
        r.push(soccer_local_mpc_candidate_priority(role, holder, has_ball, &m, plus, times));
        i += 1;
        assert(r@ =~= goal.take(i as int));
    }
    assert(goal.take(i as int) =~= goal);
    r
}

impl SoccerFormationLpBrain {
    /// What a tick of local refinement leaves: the picked players' guidance refined, the others'
    /// as it was.
    pub open spec fn refined_from(
        self,
        before: Self,
        picks: Seq<usize>,
        refinements: Seq<Option<MpcRefinement>>,
    ) -> bool {
        &&& self.last_guidance@.len() == before.last_guidance@.len()
        &&& forall|i: int|
            #![trigger picks[i]]
            0 <= i < picks.len() ==> self.last_guidance@[picks[i] as int] == refined(
                before.last_guidance@[picks[i] as int],
                refinements[i],
            )
        &&& forall|g: int|
            #![trigger self.last_guidance@[g]]
            0 <= g < before.last_guidance@.len() && !picks.contains(g as usize)
                ==> self.last_guidance@[g] == before.last_guidance@[g]
        &&& self == (SoccerFormationLpBrain { last_guidance: self.last_guidance, ..before })
    }

    /// After the most urgent players were refined, so many of them with success.
    #[verifier::opaque]
    pub open spec fn refreshed_from<
        P: Fn(Real64, Real64) -> Real64,
        M: Fn(Real64, Real64) -> Real64,
        Q: Fn(Real64, Real64) -> Real64,
        D: Fn(Vec2, Vec2) -> Real64,
        U: Fn(Vec2) -> Vec2,
        L: Fn(Vec2, Real64) -> Vec2,
        W: Fn(Real64) -> usize,
        H: Fn(Real64) -> Real64,
        K: Fn(&PlanarPlan, &Vec<PlanarObstacle>) -> Option<Vec2>,
    >(
        self,
        before: Self,
        plus: P,
        times: M,
        over: Q,
        distance: D,
        unit: U,
        limit: L,
        whole: W,
        halving: H,
        control: K,
        max_players: usize,
        has_ball: bool,
        frame: TickFrame,
        ball: FieldBall,
        players: Seq<FieldPlayer>,
        solved: usize,
    ) -> bool {
        exists|picks: Seq<usize>, refinements: Seq<Option<MpcRefinement>>|
            {
                &&& #[trigger] are_picks(
                    priorities_of(plus, times, ball, players, has_ball, before.last_guidance@),
                    max_players,
                    picks,
                )
                &&& refinements.len() == picks.len()
                &&& forall|i: int|
                    #![trigger refinements[i]]
                    0 <= i < picks.len() ==> is_refinement(
                        plus,
                        times,
                        over,
                        distance,
                        unit,
                        limit,
                        whole,
                        halving,
                        control,
                        frame,
                        before.last_guidance@[picks[i] as int].player_id,
                        before.last_guidance@[picks[i] as int].team,
                        before.last_guidance@[picks[i] as int].motion,
                        ball,
                        players,
                        refinements[i],
                    )
                &&& #[trigger] self.refined_from(before, picks, refinements)
                &&& solved == count_refinements(refinements, refinements.len() as int)
            }
    }

    /// Refines the most urgent players' motions and says how many were refined.
    pub fn run_local_mpc_tick<
        P: Fn(Real64, Real64) -> Real64,
        M: Fn(Real64, Real64) -> Real64,
        Q: Fn(Real64, Real64) -> Real64,
        D: Fn(Vec2, Vec2) -> Real64,
        U: Fn(Vec2) -> Vec2,
        L: Fn(Vec2, Real64) -> Vec2,
        W: Fn(Real64) -> usize,
        H: Fn(Real64) -> Real64,
        K: Fn(&PlanarPlan, &Vec<PlanarObstacle>) -> Option<Vec2>,
    >(
        &mut self,
        max_players: usize,
        has_ball: bool,
        frame: &TickFrame,
        ball: &FieldBall,
        players: &Vec<FieldPlayer>,
        plus: &P,
        times: &M,
        over: &Q,
        distance: &D,
        unit: &U,
        limit: &L,
        whole: &W,
        halving: &H,
        control: &K,
    ) -> (solved: usize)
        requires
            is_operation(*plus),
            is_operation(*times),
            is_operation(*over),
            is_distance(*distance),
            is_heading(*unit),
            is_limit(*limit),
            is_counting(*whole),
            is_function(*halving),
            forall|plan: &PlanarPlan, obstacles: &Vec<PlanarObstacle>| #[trigger]
                call_requires(*control, (plan, obstacles)),
        ensures
            final(self).refreshed_from(
                *old(self),
                *plus,
                *times,
                *over,
                *distance,
                *unit,
                *limit,
                *whole,
                *halving,
                *control,
                max_players,
                has_ball,
                *frame,
                *ball,
                players@,
                solved,
            ),
            *final(self) == (SoccerFormationLpBrain {
                last_guidance: final(self).last_guidance,
                ..*old(self)
            }),
    {
        let priorities: Vec<Option<Real64>> = find_priorities(
            &self.last_guidance,
            ball,
            players,
            has_ball,
            plus,
            times,
        );
        let picks: Vec<usize> = local_mpc_picks(&priorities, max_players);
        let mut refinements: Vec<Option<MpcRefinement>> = Vec::new();
        let mut i: usize = 0;
        while i < picks.len()
            invariant
                i <= picks@.len(),
                is_operation(*plus),
                is_operation(*times),
                is_operation(*over),
                is_distance(*distance),
                is_heading(*unit),
                is_limit(*limit),
                is_counting(*whole),
                is_function(*halving),
                forall|plan: &PlanarPlan, obstacles: &Vec<PlanarObstacle>| #[trigger]
                    call_requires(*control, (plan, obstacles)),
                forall|k: int|
                    0 <= k < picks@.len() ==> (#[trigger] picks@[k]) < self.last_guidance@.len(),
                refinements@.len() == i,
                forall|k: int|
                    #![trigger refinements@[k]]
                    0 <= k < i ==> is_refinement(
                        *plus,
                        *times,
                        *over,
                        *distance,
                        *unit,
                        *limit,
                        *whole,
                        *halving,
                        *control,
                        *frame,
                        self.last_guidance@[picks@[k] as int].player_id,
                        self.last_guidance@[picks@[k] as int].team,
                        self.last_guidance@[picks@[k] as int].motion,
                        *ball,
                        players@,
                        refinements@[k],
                    ),
            decreases picks@.len() - i,
        {
            assert(picks@[i as int] < self.last_guidance@.len());
            let g: &SoccerFormationLpPlayerGuidance = &self.last_guidance[picks[i]];
            refinements.push(
                soccer_local_mpc_refined_guidance(
                    frame,
                    g.player_id,
                    g.team,
                    &g.motion,
                    ball,
                    players,
                    plus,
                    times,
                    over,
                    distance,
                    unit,
                    limit,
                    whole,
                    halving,
                    control,
                ),
            );
            i += 1;
        }
        let solved: usize = self.apply_local_mpc_tick(&picks, &refinements);
        proof {
            reveal(SoccerFormationLpBrain::refreshed_from);
            assert(self.refined_from(*old(self), picks@, refinements@));
        }
        solved
    }
}

} // verus!
