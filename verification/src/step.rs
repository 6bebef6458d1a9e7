//! A tick of the match, from who has the ball to the record of what was decided.
use crate::central::{
    are_operations, central_operations, CentralOperation, ControlledPlayer,
    SoccerAdversarialEmbeddingSignal, SoccerAdversarialEmbeddingSignals, TeamTacticalDirective,
};
use crate::commitment::{
    read_situation, situation_from, CommitmentConstants, CommitmentSituation, PossessionReading,
};
use crate::coordination::{
    question_for, AttackingOverloadProfile, CentralBrain, DefensiveCoverProfile, DirectiveQuestion,
    StepClosing, StepOpening,
};
use crate::formation::brain::{FormationProblem, SoccerFormationLpBrain};
use crate::formation::guidance::LPSolution;
use crate::formation::inputs::{are_placed, is_pitch, PlayerReading};
use crate::formation::layout::SOCCER_FORMATION_LP_PLAYER_CAPACITY;
use crate::formation::local::{FieldBall, FieldPlayer, PlanarObstacle};
use crate::formation::plan::PlanarPlan;
use crate::formation::reading::{see_shape, shape_seen};
use crate::formation::solving::{FormationSituation, SolveCourse, SolveSettings};
use crate::formation::state::{HolderSample, Mover};
use crate::formation::zone::FieldSense;
use crate::geometry::{is_distance, is_heading, is_limit};
use crate::number::{
    is_conversion, is_counting, is_function, is_operation, is_signed_conversion, Real64,
};
use crate::pitch::{PlayerRole, TacticalPhase, Team, Vec2};
use vstd::prelude::*;

verus! {

/// What a team brings into a tick.
#[derive(Clone, Copy, Debug)]
pub struct TeamStep {
    pub cover: DefensiveCoverProfile,
    pub overload: AttackingOverloadProfile,
    pub possession: PossessionReading,
    pub formation: FormationSituation,
}

/// What a tick records of the ball and of those around it.
#[derive(Clone, Copy, Debug)]
pub struct BallRecord {
    pub tick: u64,
    pub holder: Option<usize>,
    pub position: Vec2,
    pub velocity: Vec2,
    pub acceleration: Vec2,
    pub jerk: Vec2,
    pub altitude_yards: Real64,
    pub scheduled_index: Option<usize>,
    pub tracked_officials: usize,
}

/// What both teams see in a tick.
#[derive(Debug)]
pub struct FieldStep {
    pub opening: StepOpening,
    pub ball: BallRecord,
    /// Who held the ball when, the oldest first.
    pub history: Vec<HolderSample>,
    pub readings: Vec<PlayerReading>,
    pub movers: Vec<Mover>,
    pub ball_mover: Mover,
    pub field_players: Vec<FieldPlayer>,
    pub field_ball: FieldBall,
    pub controlled: Vec<ControlledPlayer>,
    pub formation_lp_enabled: bool,
    pub local_mpc_enabled: bool,
    /// How many players of a team are refined at most.
    pub local_mpc_max_players: usize,
}

impl FieldStep {
    /// How many players of a team are refined at most: no more than a team has.
    pub open spec fn most_refined(self) -> usize {
        if self.local_mpc_max_players < SOCCER_FORMATION_LP_PLAYER_CAPACITY {
            self.local_mpc_max_players
        } else {
            SOCCER_FORMATION_LP_PLAYER_CAPACITY
        }
    }
}

/// What a tick ends with: the ball as it was, and both teams' shapes around it as the players show
/// them.
pub open spec fn closing_of<
    P: Fn(Real64, Real64) -> Real64,
    M: Fn(Real64, Real64) -> Real64,
    Q: Fn(Real64, Real64) -> Real64,
    C: Fn(usize) -> Real64,
    D: Fn(Vec2, Vec2) -> Real64,
>(
    plus: P,
    times: M,
    over: Q,
    count: C,
    distance: D,
    home: TeamStep,
    away: TeamStep,
    field: FieldStep,
) -> StepClosing {
    let b = field.ball;
    StepClosing {
        tick: b.tick,
        ball_holder: b.holder,
        ball_position: b.position,
        ball_velocity: b.velocity,
        ball_acceleration: b.acceleration,
        ball_jerk: b.jerk,
        ball_altitude_yards: b.altitude_yards,
        ball_scheduled_index: b.scheduled_index,
        home_shape: shape_seen(
            plus,
            times,
            over,
            count,
            distance,
            home.formation.field.frame,
            home.formation.field.rings,
            field.readings@,
            Team::Home,
            b.position,
        ),
        away_shape: shape_seen(
            plus,
            times,
            over,
            count,
            distance,
            away.formation.field.frame,
            away.formation.field.rings,
            field.readings@,
            Team::Away,
            b.position,
        ),
        tracked_players: field.readings@.len() as usize,
        tracked_officials: b.tracked_officials,
    }
}

fn find_closing<
    P: Fn(Real64, Real64) -> Real64,
    M: Fn(Real64, Real64) -> Real64,
    Q: Fn(Real64, Real64) -> Real64,
    C: Fn(usize) -> Real64,
    D: Fn(Vec2, Vec2) -> Real64,
>(
    home: &TeamStep,
    away: &TeamStep,
    field: &FieldStep,
    plus: &P,
    times: &M,
    over: &Q,
    count: &C,
    distance: &D,
) -> (r: StepClosing)
    requires
        is_operation(*plus),
        is_operation(*times),
        is_operation(*over),
        is_conversion(*count),
        is_distance(*distance),
    ensures
        r == closing_of(*plus, *times, *over, *count, *distance, *home, *away, *field),
{
    let b: BallRecord = field.ball;
    StepClosing {
        tick: b.tick,
        ball_holder: b.holder,
        ball_position: b.position,
        ball_velocity: b.velocity,
        ball_acceleration: b.acceleration,
        ball_jerk: b.jerk,
        ball_altitude_yards: b.altitude_yards,
        ball_scheduled_index: b.scheduled_index,
        home_shape: see_shape(
            &home.formation.field.frame,
            &home.formation.field.rings,
            &field.readings,
            Team::Home,
            b.position,
            plus,
            times,
            over,
            count,
            distance,
        ),
        away_shape: see_shape(
            &away.formation.field.frame,
            &away.formation.field.rings,
            &field.readings,
            Team::Away,
            b.position,
            plus,
            times,
            over,
            count,
            distance,
        ),
        tracked_players: field.readings.len(),
        tracked_officials: b.tracked_officials,
    }
}

/// Both programs can be solved: they have their shape, and their iteration caps have room.
pub open spec fn can_solve(brain: CentralBrain, settings: SolveSettings) -> bool {
    &&& brain.home_formation_lp.well_formed()
    &&& brain.away_formation_lp.well_formed()
    &&& brain.home_formation_lp.telemetry.adaptive_max_iter + settings.budget.recover_step
        <= usize::MAX
    &&& brain.away_formation_lp.telemetry.adaptive_max_iter + settings.budget.recover_step
        <= usize::MAX
}

/// The pitch of both teams has a size, and every player a place.
pub open spec fn is_placed<M: Fn(Real64, Real64) -> Real64>(
    times: M,
    home: TeamStep,
    away: TeamStep,
    field: FieldStep,
) -> bool {
    &&& is_pitch(times, home.formation.field.frame)
    &&& is_pitch(times, away.formation.field.frame)
    &&& are_placed(field.readings@)
}

impl CentralBrain {
    /// After the start of a tick: opened on the directives that the rule proposes for the phase,
    /// and both teams committed, the home team first.
    pub open spec fn begun_from<
        P: Fn(Real64, Real64) -> Real64,
        M: Fn(Real64, Real64) -> Real64,
        Q: Fn(Real64, Real64) -> Real64,
        G: Fn(DirectiveQuestion) -> TeamTacticalDirective,
    >(
        self,
        before: Self,
        plus: P,
        times: M,
        over: Q,
        home: TeamStep,
        away: TeamStep,
        opening: StepOpening,
        constants: CommitmentConstants,
        propose: G,
    ) -> bool {
        let phase = opening.phase(times);
        exists|
            first: CentralBrain,
            home_directive: TeamTacticalDirective,
            away_directive: TeamTacticalDirective,
        |
            {
                &&& call_ensures(
                    propose,
                    (question_for(opening, phase, Team::Home, home.cover, home.overload),),
                    home_directive,
                )
                &&& call_ensures(
                    propose,
                    (question_for(opening, phase, Team::Away, away.cover, away.overload),),
                    away_directive,
                )
                &&& #[trigger] first.committed_from(
                    before.opened(opening, home_directive, away_directive, times),
                    Team::Home,
                    situation_from(plus, times, over, home.possession),
                    constants,
                    plus,
                    times,
                )
                &&& self.committed_from(
                    first,
                    Team::Away,
                    situation_from(plus, times, over, away.possession),
                    constants,
                    plus,
                    times,
                )
            }
    }

    /// Starts a tick.
    pub fn begin_time_step<
        P: Fn(Real64, Real64) -> Real64,
        M: Fn(Real64, Real64) -> Real64,
        Q: Fn(Real64, Real64) -> Real64,
        G: Fn(DirectiveQuestion) -> TeamTacticalDirective,
    >(
        &mut self,
        home: &TeamStep,
        away: &TeamStep,
        opening: &StepOpening,
        constants: &CommitmentConstants,
        plus: &P,
        times: &M,
        over: &Q,
        propose: &G,
    )
        requires
            is_operation(*plus),
            is_operation(*times),
            is_operation(*over),
            !constants.overlap_run_probability.nan(),
            opening.scores_fit(),
            forall|q: DirectiveQuestion| #[trigger] call_requires(*propose, (q,)),
        ensures
            final(self).begun_from(
                *old(self),
                *plus,
                *times,
                *over,
                *home,
                *away,
                *opening,
                *constants,
                *propose,
            ),
    {
        self.open_time_step(
            opening,
            home.cover,
            home.overload,
            away.cover,
            away.overload,
            times,
            propose,
        );
        let seen: CommitmentSituation = read_situation(&home.possession, plus, times, over);
        self.apply_strategy_commitment(Team::Home, &seen, constants, plus, times);
        let seen: CommitmentSituation = read_situation(&away.possession, plus, times, over);
        self.apply_strategy_commitment(Team::Away, &seen, constants, plus, times);
    }

    /// After an embedding's signals were laid over both directives.
    pub open spec fn embedded_from<
        E: Fn(&TeamTacticalDirective, SoccerAdversarialEmbeddingSignal) -> TeamTacticalDirective,
    >(self, before: Self, embed: E, signals: SoccerAdversarialEmbeddingSignals) -> bool {
        &&& call_ensures(embed, (&before.home_directive, signals.home), self.home_directive)
        &&& call_ensures(embed, (&before.away_directive, signals.away), self.away_directive)
        &&& self == (CentralBrain {
            home_directive: self.home_directive,
            away_directive: self.away_directive,
            ..before
        })
    }

    /// Lays an embedding's signals over both directives.
    pub fn embed_signals<
        E: Fn(&TeamTacticalDirective, SoccerAdversarialEmbeddingSignal) -> TeamTacticalDirective,
    >(&mut self, signals: &SoccerAdversarialEmbeddingSignals, embed: &E)
        requires
            forall|d: &TeamTacticalDirective, signal: SoccerAdversarialEmbeddingSignal| #[trigger]
                call_requires(*embed, (d, signal)),
        ensures
            final(self).embedded_from(*old(self), *embed, *signals),
    {
        self.home_directive = embed(&self.home_directive, signals.signal_for(Team::Home));
        self.away_directive = embed(&self.away_directive, signals.signal_for(Team::Away));
    }

    /// After the programs of both teams were solved and their guidance was fed back, the home
    /// team first.
    #[verifier::opaque]
    pub open spec fn programmed_from<
        P: Fn(Real64, Real64) -> Real64,
        M: Fn(Real64, Real64) -> Real64,
        Q: Fn(Real64, Real64) -> Real64,
        C: Fn(usize) -> Real64,
        W: Fn(i64) -> Real64,
        D: Fn(Vec2, Vec2) -> Real64,
        U: Fn(Vec2) -> Vec2,
        A: Fn(PlayerRole, Real64, Real64, Real64, bool) -> Real64,
        B: Fn(PlayerRole, bool) -> Real64,
        I: Fn(Team, Vec2, Vec2, Real64) -> bool,
        J: Fn(Vec2) -> Real64,
        L: Fn(Vec2, Real64) -> Vec2,
        S: Fn(&FormationProblem) -> LPSolution,
        T: Fn() -> u128,
    >(
        self,
        before: Self,
        plus: P,
        times: M,
        over: Q,
        count: C,
        signed: W,
        distance: D,
        unit: U,
        sense: FieldSense<A, B, I, J>,
        limit: L,
        solve: S,
        clock: T,
        home: TeamStep,
        away: TeamStep,
        field: FieldStep,
        settings: SolveSettings,
        iteration_limit: Seq<char>,
    ) -> bool {
        exists|
            home_course: SolveCourse,
            away_course: SolveCourse,
            first: CentralBrain,
            second: CentralBrain,
        |
            {
                let fed = first.with_feedback(Team::Home, plus, times, over, count);
                &&& #[trigger] first.home_formation_lp.solved_from(
                    before.home_formation_lp,
                    plus,
                    times,
                    over,
                    count,
                    signed,
                    distance,
                    unit,
                    sense,
                    limit,
                    solve,
                    clock,
                    (FormationSituation { directive: before.home_directive, ..home.formation }),
                    field.history@,
                    field.readings@,
                    field.movers@,
                    field.ball_mover,
                    settings,
                    iteration_limit,
                    home_course,
                )
                &&& first == (CentralBrain {
                    home_formation_lp: first.home_formation_lp,
                    ..before
                })
                &&& #[trigger] second.away_formation_lp.solved_from(
                    before.away_formation_lp,
                    plus,
                    times,
                    over,
                    count,
                    signed,
                    distance,
                    unit,
                    sense,
                    limit,
                    solve,
                    clock,
                    (FormationSituation { directive: before.away_directive, ..away.formation }),
                    field.history@,
                    field.readings@,
                    field.movers@,
                    field.ball_mover,
                    settings,
                    iteration_limit,
                    away_course,
                )
                &&& second == (CentralBrain {
                    away_formation_lp: second.away_formation_lp,
                    ..fed
                })
                &&& self == second.with_feedback(Team::Away, plus, times, over, count)
            }
    }

    /// Solves the programs of both teams and feeds their guidance back.
    pub fn solve_formations<
        P: Fn(Real64, Real64) -> Real64,
        M: Fn(Real64, Real64) -> Real64,
        Q: Fn(Real64, Real64) -> Real64,
        C: Fn(usize) -> Real64,
        W: Fn(i64) -> Real64,
        D: Fn(Vec2, Vec2) -> Real64,
        U: Fn(Vec2) -> Vec2,
        A: Fn(PlayerRole, Real64, Real64, Real64, bool) -> Real64,
        B: Fn(PlayerRole, bool) -> Real64,
        I: Fn(Team, Vec2, Vec2, Real64) -> bool,
        J: Fn(Vec2) -> Real64,
        L: Fn(Vec2, Real64) -> Vec2,
        S: Fn(&FormationProblem) -> LPSolution,
        T: Fn() -> u128,
    >(
        &mut self,
        home: &TeamStep,
        away: &TeamStep,
        field: &FieldStep,
        settings: &SolveSettings,
        iteration_limit: &str,
        plus: &P,
        times: &M,
        over: &Q,
        count: &C,
        signed: &W,
        distance: &D,
        unit: &U,
        sense: &FieldSense<A, B, I, J>,
        limit: &L,
        solve: &S,
        clock: &T,
    )
        requires
            is_operation(*plus),
            is_operation(*times),
            is_operation(*over),
            is_conversion(*count),
            is_signed_conversion(*signed),
            is_distance(*distance),
            is_heading(*unit),
            sense.answers(),
            is_limit(*limit),
            forall|p: &FormationProblem| #[trigger] call_requires(*solve, (p,)),
            call_requires(*clock, ()),
            can_solve(*old(self), *settings),
            is_placed(*times, *home, *away, *field),
        ensures
            final(self).home_formation_lp.well_formed(),
            final(self).away_formation_lp.well_formed(),
            final(self).programmed_from(
                *old(self),
                *plus,
                *times,
                *over,
                *count,
                *signed,
                *distance,
                *unit,
                *sense,
                *limit,
                *solve,
                *clock,
                *home,
                *away,
                *field,
                *settings,
                iteration_limit@,
            ),
    {
        let own: FormationSituation = FormationSituation {
            directive: self.home_directive,
            ..home.formation
        };
        self.home_formation_lp.solve_tick(
            &own,
            &field.history,
            &field.readings,
            &field.movers,
            &field.ball_mover,
            settings,
            iteration_limit,
            plus,
            times,
            over,
            count,
            signed,
            distance,
            unit,
            sense,
            limit,
            solve,
            clock,
        );
        let ghost first = *self;
        self.feed_back_formation(Team::Home, plus, times, over, count);
        let own: FormationSituation = FormationSituation {
            directive: self.away_directive,
            ..away.formation
        };
        self.away_formation_lp.solve_tick(
            &own,
            &field.history,
            &field.readings,
            &field.movers,
            &field.ball_mover,
            settings,
            iteration_limit,
            plus,
            times,
            over,
            count,
            signed,
            distance,
            unit,
            sense,
            limit,
            solve,
            clock,
        );
        let ghost second = *self;
        self.feed_back_formation(Team::Away, plus, times, over, count);
        proof {
            reveal(CentralBrain::programmed_from);
            let home_course = choose|course: SolveCourse| #[trigger]
                first.home_formation_lp.solved_from(
                    old(self).home_formation_lp,
                    *plus,
                    *times,
                    *over,
                    *count,
                    *signed,
                    *distance,
                    *unit,
                    *sense,
                    *limit,
                    *solve,
                    *clock,
                    (FormationSituation { directive: old(self).home_directive, ..home.formation }),
                    field.history@,
                    field.readings@,
                    field.movers@,
                    field.ball_mover,
                    *settings,
                    iteration_limit@,
                    course,
                );
            let away_course = choose|course: SolveCourse| #[trigger]
                second.away_formation_lp.solved_from(
                    old(self).away_formation_lp,
                    *plus,
                    *times,
                    *over,
                    *count,
                    *signed,
                    *distance,
                    *unit,
                    *sense,
                    *limit,
                    *solve,
                    *clock,
                    (FormationSituation { directive: old(self).away_directive, ..away.formation }),
                    field.history@,
                    field.readings@,
                    field.movers@,
                    field.ball_mover,
                    *settings,
                    iteration_limit@,
                    course,
                );
            assert(first.home_formation_lp.solved_from(
                old(self).home_formation_lp,
                *plus,
                *times,
                *over,
                *count,
                *signed,
                *distance,
                *unit,
                *sense,
                *limit,
                *solve,
                *clock,
                (FormationSituation { directive: old(self).home_directive, ..home.formation }),
                field.history@,
                field.readings@,
                field.movers@,
                field.ball_mover,
                *settings,
                iteration_limit@,
                home_course,
            ));
            assert(second.away_formation_lp.solved_from(
                old(self).away_formation_lp,
                *plus,
                *times,
                *over,
                *count,
                *signed,
                *distance,
                *unit,
                *sense,
                *limit,
                *solve,
                *clock,
                (FormationSituation { directive: old(self).away_directive, ..away.formation }),
                field.history@,
                field.readings@,
                field.movers@,
                field.ball_mover,
                *settings,
                iteration_limit@,
                away_course,
            ));
        }
    }

    /// After the formation of a tick: both programs solved, and the most urgent players refined,
    /// or both programs switched off.
    pub open spec fn formed_from<
        P: Fn(Real64, Real64) -> Real64,
        M: Fn(Real64, Real64) -> Real64,
        Q: Fn(Real64, Real64) -> Real64,
        C: Fn(usize) -> Real64,
        W: Fn(i64) -> Real64,
        D: Fn(Vec2, Vec2) -> Real64,
        U: Fn(Vec2) -> Vec2,
        A: Fn(PlayerRole, Real64, Real64, Real64, bool) -> Real64,
        B: Fn(PlayerRole, bool) -> Real64,
        I: Fn(Team, Vec2, Vec2, Real64) -> bool,
        J: Fn(Vec2) -> Real64,
        L: Fn(Vec2, Real64) -> Vec2,
        N: Fn(Real64) -> usize,
        H: Fn(Real64) -> Real64,
        K: Fn(&PlanarPlan, &Vec<PlanarObstacle>) -> Option<Vec2>,
        S: Fn(&FormationProblem) -> LPSolution,
        T: Fn() -> u128,
    >(
        self,
        before: Self,
        plus: P,
        times: M,
        over: Q,
        count: C,
        signed: W,
        distance: D,
        unit: U,
        sense: FieldSense<A, B, I, J>,
        limit: L,
        whole: N,
        halving: H,
        control: K,
        solve: S,
        clock: T,
        home: TeamStep,
        away: TeamStep,
        field: FieldStep,
        settings: SolveSettings,
        iteration_limit: Seq<char>,
        solved: usize,
    ) -> bool {
        if !field.formation_lp_enabled {
            &&& self.home_formation_lp.disabled_from(before.home_formation_lp)
            &&& self.away_formation_lp.disabled_from(before.away_formation_lp)
            &&& self == (CentralBrain {
                home_formation_lp: self.home_formation_lp,
                away_formation_lp: self.away_formation_lp,
                ..before
            })
            &&& solved == 0
        } else if !field.local_mpc_enabled {
            &&& self.programmed_from(
                before,
                plus,
                times,
                over,
                count,
                signed,
                distance,
                unit,
                sense,
                limit,
                solve,
                clock,
                home,
                away,
                field,
                settings,
                iteration_limit,
            )
            &&& solved == 0
        } else {
            exists|ready: CentralBrain, at_home: usize, away_from_home: usize|
                {
                    &&& #[trigger] ready.programmed_from(
                        before,
                        plus,
                        times,
                        over,
                        count,
                        signed,
                        distance,
                        unit,
                        sense,
                        limit,
                        solve,
                        clock,
                        home,
                        away,
                        field,
                        settings,
                        iteration_limit,
                    )
                    &&& #[trigger] self.home_formation_lp.refreshed_from(
                        ready.home_formation_lp,
                        plus,
                        times,
                        over,
                        distance,
                        unit,
                        limit,
                        whole,
                        halving,
                        control,
                        field.most_refined(),
                        home.possession.has_ball,
                        home.formation.field.frame,
                        field.field_ball,
                        field.field_players@,
                        at_home,
                    )
                    &&& #[trigger] self.away_formation_lp.refreshed_from(
                        ready.away_formation_lp,
                        plus,
                        times,
                        over,
                        distance,
                        unit,
                        limit,
                        whole,
                        halving,
                        control,
                        field.most_refined(),
                        away.possession.has_ball,
                        away.formation.field.frame,
                        field.field_ball,
                        field.field_players@,
                        away_from_home,
                    )
                    &&& self == (CentralBrain {
                        home_formation_lp: self.home_formation_lp,
                        away_formation_lp: self.away_formation_lp,
                        ..ready
                    })
                    &&& solved == if at_home + away_from_home <= usize::MAX {
                        at_home + away_from_home
                    } else {
                        usize::MAX as int
                    }
                }
        }
    }

    /// Refines the most urgent players of both teams. Says how many were refined of each.
    pub fn refine_teams<
        P: Fn(Real64, Real64) -> Real64,
        M: Fn(Real64, Real64) -> Real64,
        Q: Fn(Real64, Real64) -> Real64,
        D: Fn(Vec2, Vec2) -> Real64,
        U: Fn(Vec2) -> Vec2,
        L: Fn(Vec2, Real64) -> Vec2,
        N: Fn(Real64) -> usize,
        H: Fn(Real64) -> Real64,
        K: Fn(&PlanarPlan, &Vec<PlanarObstacle>) -> Option<Vec2>,
    >(
        &mut self,
        home: &TeamStep,
        away: &TeamStep,
        field: &FieldStep,
        plus: &P,
        times: &M,
        over: &Q,
        distance: &D,
        unit: &U,
        limit: &L,
        whole: &N,
        halving: &H,
        control: &K,
    ) -> (r: (usize, usize))
        requires
            is_operation(*plus),
            is_operation(*times),
            is_operation(*over),
            is_distance(*distance),
            is_heading(*unit),
            is_limit(*limit),
            is_counting(*whole),
            is_function(*halving),
            forall|plan: &PlanarPlan, obstacles: &Vec<PlanarObstacle>| #[trigger]
                call_requires(*control, (plan, obstacles)),
        ensures
            final(self).home_formation_lp.refreshed_from(
                old(self).home_formation_lp,
                *plus,
                *times,
                *over,
                *distance,
                *unit,
                *limit,
                *whole,
                *halving,
                *control,
                field.most_refined(),
                home.possession.has_ball,
                home.formation.field.frame,
                field.field_ball,
                field.field_players@,
                r.0,
            ),
            final(self).away_formation_lp.refreshed_from(
                old(self).away_formation_lp,
                *plus,
                *times,
                *over,
                *distance,
                *unit,
                *limit,
                *whole,
                *halving,
                *control,
                field.most_refined(),
                away.possession.has_ball,
                away.formation.field.frame,
                field.field_ball,
                field.field_players@,
                r.1,
            ),
            final(self).home_formation_lp == (SoccerFormationLpBrain {
                last_guidance: final(self).home_formation_lp.last_guidance,
                ..old(self).home_formation_lp
            }),
            final(self).away_formation_lp == (SoccerFormationLpBrain {
                last_guidance: final(self).away_formation_lp.last_guidance,
                ..old(self).away_formation_lp
            }),
            *final(self) == (CentralBrain {
                home_formation_lp: final(self).home_formation_lp,
                away_formation_lp: final(self).away_formation_lp,
                ..*old(self)
            }),
    {
        let most: usize = if field.local_mpc_max_players < SOCCER_FORMATION_LP_PLAYER_CAPACITY {
            field.local_mpc_max_players
        } else {
            SOCCER_FORMATION_LP_PLAYER_CAPACITY
        };
        let at_home: usize = self.home_formation_lp.run_local_mpc_tick(
            most,
            home.possession.has_ball,
            &home.formation.field.frame,
            &field.field_ball,
            &field.field_players,
            plus,
            times,
            over,
            distance,
            unit,
            limit,
            whole,
            halving,
            control,
        );
        let away_from_home: usize = self.away_formation_lp.run_local_mpc_tick(
            most,
            away.possession.has_ball,
            &away.formation.field.frame,
            &field.field_ball,
            &field.field_players,
            plus,
            times,
            over,
            distance,
            unit,
            limit,
            whole,
            halving,
            control,
        );
        (at_home, away_from_home)
    }

    /// Forms both teams up, or switches both programs off. Says how many players were refined.
    pub fn form_up<
        P: Fn(Real64, Real64) -> Real64,
        M: Fn(Real64, Real64) -> Real64,
        Q: Fn(Real64, Real64) -> Real64,
        C: Fn(usize) -> Real64,
        W: Fn(i64) -> Real64,
        D: Fn(Vec2, Vec2) -> Real64,
        U: Fn(Vec2) -> Vec2,
        A: Fn(PlayerRole, Real64, Real64, Real64, bool) -> Real64,
        B: Fn(PlayerRole, bool) -> Real64,
        I: Fn(Team, Vec2, Vec2, Real64) -> bool,
        J: Fn(Vec2) -> Real64,
        L: Fn(Vec2, Real64) -> Vec2,
        N: Fn(Real64) -> usize,
        H: Fn(Real64) -> Real64,
        K: Fn(&PlanarPlan, &Vec<PlanarObstacle>) -> Option<Vec2>,
        S: Fn(&FormationProblem) -> LPSolution,
        T: Fn() -> u128,
    >(
        &mut self,
        home: &TeamStep,
        away: &TeamStep,
        field: &FieldStep,
        settings: &SolveSettings,
        iteration_limit: &str,
        plus: &P,
        times: &M,
        over: &Q,
        count: &C,
        signed: &W,
        distance: &D,
        unit: &U,
        sense: &FieldSense<A, B, I, J>,
        limit: &L,
        whole: &N,
        halving: &H,
        control: &K,
        solve: &S,
        clock: &T,
    ) -> (solved: usize)
        requires
            is_operation(*plus),
            is_operation(*times),
            is_operation(*over),
            is_conversion(*count),
            is_signed_conversion(*signed),
            is_distance(*distance),
            is_heading(*unit),
            sense.answers(),
            is_limit(*limit),
            is_counting(*whole),
            is_function(*halving),
            forall|plan: &PlanarPlan, obstacles: &Vec<PlanarObstacle>| #[trigger]
                call_requires(*control, (plan, obstacles)),
            forall|p: &FormationProblem| #[trigger] call_requires(*solve, (p,)),
            call_requires(*clock, ()),
            can_solve(*old(self), *settings),
            field.formation_lp_enabled ==> is_placed(*times, *home, *away, *field),
        ensures
            final(self).home_formation_lp.well_formed(),
            final(self).away_formation_lp.well_formed(),
            final(self).formed_from(
                *old(self),
                *plus,
                *times,
                *over,
                *count,
                *signed,
                *distance,
                *unit,
                *sense,
                *limit,
                *whole,
                *halving,
                *control,
                *solve,
                *clock,
                *home,
                *away,
                *field,
                *settings,
                iteration_limit@,
                solved,
            ),
    {
        if !field.formation_lp_enabled {
            self.skip_formation();
            return 0;
        }
        self.solve_formations(
            home,
            away,
            field,
            settings,
            iteration_limit,
            plus,
            times,
            over,
            count,
            signed,
            distance,
            unit,
            sense,
            limit,
            solve,
            clock,
        );
        if !field.local_mpc_enabled {
            return 0;
        }
        let (at_home, away_from_home) = self.refine_teams(
            home,
            away,
            field,
            plus,
            times,
            over,
            distance,
            unit,
            limit,
            whole,
            halving,
            control,
        );
        at_home.saturating_add(away_from_home)
    }

    /// Solves both programs before the clock starts. Nothing happens without the programs, or where
    /// the solver may not be asked: a stand-in leaves nothing to start from.
    pub fn prime_formation_lp<
        P: Fn(Real64, Real64) -> Real64,
        M: Fn(Real64, Real64) -> Real64,
        Q: Fn(Real64, Real64) -> Real64,
        C: Fn(usize) -> Real64,
        W: Fn(i64) -> Real64,
        D: Fn(Vec2, Vec2) -> Real64,
        U: Fn(Vec2) -> Vec2,
        A: Fn(PlayerRole, Real64, Real64, Real64, bool) -> Real64,
        B: Fn(PlayerRole, bool) -> Real64,
        I: Fn(Team, Vec2, Vec2, Real64) -> bool,
        J: Fn(Vec2) -> Real64,
        L: Fn(Vec2, Real64) -> Vec2,
        S: Fn(&FormationProblem) -> LPSolution,
        T: Fn() -> u128,
    >(
        &mut self,
        home: &TeamStep,
        away: &TeamStep,
        field: &FieldStep,
        settings: &SolveSettings,
        iteration_limit: &str,
        plus: &P,
        times: &M,
        over: &Q,
        count: &C,
        signed: &W,
        distance: &D,
        unit: &U,
        sense: &FieldSense<A, B, I, J>,
        limit: &L,
        solve: &S,
        clock: &T,
    )
        requires
            is_operation(*plus),
            is_operation(*times),
            is_operation(*over),
            is_conversion(*count),
            is_signed_conversion(*signed),
            is_distance(*distance),
            is_heading(*unit),
            sense.answers(),
            is_limit(*limit),
            forall|p: &FormationProblem| #[trigger] call_requires(*solve, (p,)),
            call_requires(*clock, ()),
            can_solve(*old(self), *settings),
            field.formation_lp_enabled ==> is_placed(*times, *home, *away, *field),
        ensures
            final(self).home_formation_lp.well_formed(),
            final(self).away_formation_lp.well_formed(),
            !field.formation_lp_enabled || !settings.exact_enabled ==> *final(self) == *old(self),
            field.formation_lp_enabled && settings.exact_enabled ==> {
                &&& exists|course: SolveCourse| #[trigger]
                    final(self).home_formation_lp.solved_from(
                        old(self).home_formation_lp,
                        *plus,
                        *times,
                        *over,
                        *count,
                        *signed,
                        *distance,
                        *unit,
                        *sense,
                        *limit,
                        *solve,
                        *clock,
                        (FormationSituation {
                            directive: old(self).home_directive,
                            ..home.formation
                        }),
                        field.history@,
                        field.readings@,
                        field.movers@,
                        field.ball_mover,
                        *settings,
                        iteration_limit@,
                        course,
                    )
                &&& exists|course: SolveCourse| #[trigger]
                    final(self).away_formation_lp.solved_from(
                        old(self).away_formation_lp,
                        *plus,
                        *times,
                        *over,
                        *count,
                        *signed,
                        *distance,
                        *unit,
                        *sense,
                        *limit,
                        *solve,
                        *clock,
                        (FormationSituation {
                            directive: old(self).away_directive,
                            ..away.formation
                        }),
                        field.history@,
                        field.readings@,
                        field.movers@,
                        field.ball_mover,
                        *settings,
                        iteration_limit@,
                        course,
                    )
                &&& *final(self) == (CentralBrain {
                    home_formation_lp: final(self).home_formation_lp,
                    away_formation_lp: final(self).away_formation_lp,
                    ..*old(self)
                })
            },
    {
        if !field.formation_lp_enabled || !settings.exact_enabled {
            return;
        }
        let own: FormationSituation = FormationSituation {
            directive: self.home_directive,
            ..home.formation
        };
        self.home_formation_lp.solve_tick(
            &own,
            &field.history,
            &field.readings,
            &field.movers,
            &field.ball_mover,
            settings,
            iteration_limit,
            plus,
            times,
            over,
            count,
            signed,
            distance,
            unit,
            sense,
            limit,
            solve,
            clock,
        );
        let own: FormationSituation = FormationSituation {
            directive: self.away_directive,
            ..away.formation
        };
        self.away_formation_lp.solve_tick(
            &own,
            &field.history,
            &field.readings,
            &field.movers,
            &field.ball_mover,
            settings,
            iteration_limit,
            plus,
            times,
            over,
            count,
            signed,
            distance,
            unit,
            sense,
            limit,
            solve,
            clock,
        );
    }

    /// After the rest of a tick: the network's intent written down, both teams formed up, and
    /// the decision recorded, its steps in the order that they were shuffled into.
    pub open spec fn completed_from<
        P: Fn(Real64, Real64) -> Real64,
        M: Fn(Real64, Real64) -> Real64,
        Q: Fn(Real64, Real64) -> Real64,
        C: Fn(usize) -> Real64,
        W: Fn(i64) -> Real64,
        D: Fn(Vec2, Vec2) -> Real64,
        U: Fn(Vec2) -> Vec2,
        A: Fn(PlayerRole, Real64, Real64, Real64, bool) -> Real64,
        B: Fn(PlayerRole, bool) -> Real64,
        I: Fn(Team, Vec2, Vec2, Real64) -> bool,
        J: Fn(Vec2) -> Real64,
        L: Fn(Vec2, Real64) -> Vec2,
        N: Fn(Real64) -> usize,
        H: Fn(Real64) -> Real64,
        K: Fn(&PlanarPlan, &Vec<PlanarObstacle>) -> Option<Vec2>,
        S: Fn(&FormationProblem) -> LPSolution,
        T: Fn() -> u128,
        O: Fn(Vec<CentralOperation>) -> Vec<&'static str>,
        X: Fn(TacticalPhase) -> &'static str,
    >(
        self,
        before: Self,
        plus: P,
        times: M,
        over: Q,
        count: C,
        signed: W,
        distance: D,
        unit: U,
        sense: FieldSense<A, B, I, J>,
        limit: L,
        whole: N,
        halving: H,
        control: K,
        solve: S,
        clock: T,
        shuffle: O,
        label: X,
        home: TeamStep,
        away: TeamStep,
        field: FieldStep,
        settings: SolveSettings,
        iteration_limit: Seq<char>,
    ) -> bool {
        exists|
            formed: CentralBrain,
            solved: usize,
            ops: Vec<CentralOperation>,
            order: Vec<&'static str>,
            text: &'static str,
        |
            {
                &&& #[trigger] formed.formed_from(
                    before.with_intent(),
                    plus,
                    times,
                    over,
                    count,
                    signed,
                    distance,
                    unit,
                    sense,
                    limit,
                    whole,
                    halving,
                    control,
                    solve,
                    clock,
                    home,
                    away,
                    field,
                    settings,
                    iteration_limit,
                    solved,
                )
                &&& are_operations(
                    ops@,
                    formed.possession_team is Some,
                    field.formation_lp_enabled,
                    field.local_mpc_enabled,
                    solved,
                )
                &&& #[trigger] call_ensures(shuffle, (ops,), order)
                &&& #[trigger] call_ensures(label, (formed.phase,), text)
                &&& self.closed_from(
                    formed,
                    closing_of(plus, times, over, count, distance, home, away, field),
                    text@,
                    field.controlled@,
                    order,
                )
            }
    }

    /// Completes a tick. `solve` solves a program, `control` plans an acceleration, `shuffle`
    /// puts weighted steps into an order, and `label` names a phase.
    pub fn complete_time_step<
        P: Fn(Real64, Real64) -> Real64,
        M: Fn(Real64, Real64) -> Real64,
        Q: Fn(Real64, Real64) -> Real64,
        C: Fn(usize) -> Real64,
        W: Fn(i64) -> Real64,
        D: Fn(Vec2, Vec2) -> Real64,
        U: Fn(Vec2) -> Vec2,
        A: Fn(PlayerRole, Real64, Real64, Real64, bool) -> Real64,
        B: Fn(PlayerRole, bool) -> Real64,
        I: Fn(Team, Vec2, Vec2, Real64) -> bool,
        J: Fn(Vec2) -> Real64,
        L: Fn(Vec2, Real64) -> Vec2,
        N: Fn(Real64) -> usize,
        H: Fn(Real64) -> Real64,
        K: Fn(&PlanarPlan, &Vec<PlanarObstacle>) -> Option<Vec2>,
        S: Fn(&FormationProblem) -> LPSolution,
        T: Fn() -> u128,
        O: Fn(Vec<CentralOperation>) -> Vec<&'static str>,
        X: Fn(TacticalPhase) -> &'static str,
    >(
        &mut self,
        home: &TeamStep,
        away: &TeamStep,
        field: &FieldStep,
        settings: &SolveSettings,
        iteration_limit: &str,
        plus: &P,
        times: &M,
        over: &Q,
        count: &C,
        signed: &W,
        distance: &D,
        unit: &U,
        sense: &FieldSense<A, B, I, J>,
        limit: &L,
        whole: &N,
        halving: &H,
        control: &K,
        solve: &S,
        clock: &T,
        shuffle: &O,
        label: &X,
    )
        requires
            is_operation(*plus),
            is_operation(*times),
            is_operation(*over),
            is_conversion(*count),
            is_signed_conversion(*signed),
            is_distance(*distance),
            is_heading(*unit),
            sense.answers(),
            is_limit(*limit),
            is_counting(*whole),
            is_function(*halving),
            forall|plan: &PlanarPlan, obstacles: &Vec<PlanarObstacle>| #[trigger]
                call_requires(*control, (plan, obstacles)),
            forall|p: &FormationProblem| #[trigger] call_requires(*solve, (p,)),
            call_requires(*clock, ()),
            forall|ops: Vec<CentralOperation>| #[trigger] call_requires(*shuffle, (ops,)),
            forall|phase: TacticalPhase| #[trigger] call_requires(*label, (phase,)),
            can_solve(*old(self), *settings),
            field.formation_lp_enabled ==> is_placed(*times, *home, *away, *field),
        ensures
            final(self).home_formation_lp.well_formed(),
            final(self).away_formation_lp.well_formed(),
            final(self).completed_from(
                *old(self),
                *plus,
                *times,
                *over,
                *count,
                *signed,
                *distance,
                *unit,
                *sense,
                *limit,
                *whole,
                *halving,
                *control,
                *solve,
                *clock,
                *shuffle,
                *label,
                *home,
                *away,
                *field,
                *settings,
                iteration_limit@,
            ),
    {
        self.apply_neural_intent();
        let solved: usize = self.form_up(
            home,
            away,
            field,
            settings,
            iteration_limit,
            plus,
            times,
            over,
            count,
            signed,
            distance,
            unit,
            sense,
            limit,
            whole,
            halving,
            control,
            solve,
            clock,
        );
        let ops: Vec<CentralOperation> = central_operations(
            self.possession_team.is_some(),
            field.formation_lp_enabled,
            field.local_mpc_enabled,
            solved,
        );
        let order: Vec<&'static str> = shuffle(ops);
        let text: &'static str = label(self.phase);
        let closing: StepClosing = find_closing(
            home,
            away,
            field,
            plus,
            times,
            over,
            count,
            distance,
        );
        self.close_time_step(&closing, text, &field.controlled, order);
    }

    /// Runs a tick. `propose` gives the directive that the rules propose.
    pub fn run_time_step<
        P: Fn(Real64, Real64) -> Real64,
        M: Fn(Real64, Real64) -> Real64,
        Q: Fn(Real64, Real64) -> Real64,
        C: Fn(usize) -> Real64,
        W: Fn(i64) -> Real64,
        D: Fn(Vec2, Vec2) -> Real64,
        U: Fn(Vec2) -> Vec2,
        A: Fn(PlayerRole, Real64, Real64, Real64, bool) -> Real64,
        B: Fn(PlayerRole, bool) -> Real64,
        I: Fn(Team, Vec2, Vec2, Real64) -> bool,
        J: Fn(Vec2) -> Real64,
        L: Fn(Vec2, Real64) -> Vec2,
        N: Fn(Real64) -> usize,
        H: Fn(Real64) -> Real64,
        K: Fn(&PlanarPlan, &Vec<PlanarObstacle>) -> Option<Vec2>,
        S: Fn(&FormationProblem) -> LPSolution,
        T: Fn() -> u128,
        O: Fn(Vec<CentralOperation>) -> Vec<&'static str>,
        X: Fn(TacticalPhase) -> &'static str,
        G: Fn(DirectiveQuestion) -> TeamTacticalDirective,
    >(
        &mut self,
        home: &TeamStep,
        away: &TeamStep,
        field: &FieldStep,
        constants: &CommitmentConstants,
        settings: &SolveSettings,
        iteration_limit: &str,
        plus: &P,
        times: &M,
        over: &Q,
        count: &C,
        signed: &W,
        distance: &D,
        unit: &U,
        sense: &FieldSense<A, B, I, J>,
        limit: &L,
        whole: &N,
        halving: &H,
        control: &K,
        solve: &S,
        clock: &T,
        shuffle: &O,
        label: &X,
        propose: &G,
    )
        requires
            is_operation(*plus),
            is_operation(*times),
            is_operation(*over),
            is_conversion(*count),
            is_signed_conversion(*signed),
            is_distance(*distance),
            is_heading(*unit),
            sense.answers(),
            is_limit(*limit),
            is_counting(*whole),
            is_function(*halving),
            forall|plan: &PlanarPlan, obstacles: &Vec<PlanarObstacle>| #[trigger]
                call_requires(*control, (plan, obstacles)),
            forall|p: &FormationProblem| #[trigger] call_requires(*solve, (p,)),
            call_requires(*clock, ()),
            forall|ops: Vec<CentralOperation>| #[trigger] call_requires(*shuffle, (ops,)),
            forall|phase: TacticalPhase| #[trigger] call_requires(*label, (phase,)),
            forall|q: DirectiveQuestion| #[trigger] call_requires(*propose, (q,)),
            !constants.overlap_run_probability.nan(),
            field.opening.scores_fit(),
            can_solve(*old(self), *settings),
            field.formation_lp_enabled ==> is_placed(*times, *home, *away, *field),
        ensures
            final(self).home_formation_lp.well_formed(),
            final(self).away_formation_lp.well_formed(),
            exists|begun: CentralBrain|
                {
                    &&& #[trigger] begun.begun_from(
                        *old(self),
                        *plus,
                        *times,
                        *over,
                        *home,
                        *away,
                        field.opening,
                        *constants,
                        *propose,
                    )
                    &&& final(self).completed_from(
                        begun,
                        *plus,
                        *times,
                        *over,
                        *count,
                        *signed,
                        *distance,
                        *unit,
                        *sense,
                        *limit,
                        *whole,
                        *halving,
                        *control,
                        *solve,
                        *clock,
                        *shuffle,
                        *label,
                        *home,
                        *away,
                        *field,
                        *settings,
                        iteration_limit@,
                    )
                },
    {
        self.begin_time_step(home, away, &field.opening, constants, plus, times, over, propose);
        self.complete_time_step(
            home,
            away,
            field,
            settings,
            iteration_limit,
            plus,
            times,
            over,
            count,
            signed,
            distance,
            unit,
            sense,
            limit,
            whole,
            halving,
            control,
            solve,
            clock,
            shuffle,
            label,
        );
    }

    /// Runs a tick on which an embedding's signals, where there are any, are laid over the
    /// directives: `embed` lays one over one.
    pub fn run_time_step_with_adversarial_embeddings<
        P: Fn(Real64, Real64) -> Real64,
        M: Fn(Real64, Real64) -> Real64,
        Q: Fn(Real64, Real64) -> Real64,
        C: Fn(usize) -> Real64,
        W: Fn(i64) -> Real64,
        D: Fn(Vec2, Vec2) -> Real64,
        U: Fn(Vec2) -> Vec2,
        A: Fn(PlayerRole, Real64, Real64, Real64, bool) -> Real64,
        B: Fn(PlayerRole, bool) -> Real64,
        I: Fn(Team, Vec2, Vec2, Real64) -> bool,
        J: Fn(Vec2) -> Real64,
        L: Fn(Vec2, Real64) -> Vec2,
        N: Fn(Real64) -> usize,
        H: Fn(Real64) -> Real64,
        K: Fn(&PlanarPlan, &Vec<PlanarObstacle>) -> Option<Vec2>,
        S: Fn(&FormationProblem) -> LPSolution,
        T: Fn() -> u128,
        O: Fn(Vec<CentralOperation>) -> Vec<&'static str>,
        X: Fn(TacticalPhase) -> &'static str,
        G: Fn(DirectiveQuestion) -> TeamTacticalDirective,
        E: Fn(&TeamTacticalDirective, SoccerAdversarialEmbeddingSignal) -> TeamTacticalDirective,
    >(
        &mut self,
        home: &TeamStep,
        away: &TeamStep,
        field: &FieldStep,
        constants: &CommitmentConstants,
        settings: &SolveSettings,
        iteration_limit: &str,
        signals: Option<&SoccerAdversarialEmbeddingSignals>,
        plus: &P,
        times: &M,
        over: &Q,
        count: &C,
        signed: &W,
        distance: &D,
        unit: &U,
        sense: &FieldSense<A, B, I, J>,
        limit: &L,
        whole: &N,
        halving: &H,
        control: &K,
        solve: &S,
        clock: &T,
        shuffle: &O,
        label: &X,
        propose: &G,
        embed: &E,
    )
        requires
            is_operation(*plus),
            is_operation(*times),
            is_operation(*over),
            is_conversion(*count),
            is_signed_conversion(*signed),
            is_distance(*distance),
            is_heading(*unit),
            sense.answers(),
            is_limit(*limit),
            is_counting(*whole),
            is_function(*halving),
            forall|plan: &PlanarPlan, obstacles: &Vec<PlanarObstacle>| #[trigger]
                call_requires(*control, (plan, obstacles)),
            forall|p: &FormationProblem| #[trigger] call_requires(*solve, (p,)),
            call_requires(*clock, ()),
            forall|ops: Vec<CentralOperation>| #[trigger] call_requires(*shuffle, (ops,)),
            forall|phase: TacticalPhase| #[trigger] call_requires(*label, (phase,)),
            forall|d: &TeamTacticalDirective, signal: SoccerAdversarialEmbeddingSignal| #[trigger]
                call_requires(*embed, (d, signal)),
            forall|q: DirectiveQuestion| #[trigger] call_requires(*propose, (q,)),
            !constants.overlap_run_probability.nan(),
            field.opening.scores_fit(),
            can_solve(*old(self), *settings),
            field.formation_lp_enabled ==> is_placed(*times, *home, *away, *field),
        ensures
            final(self).home_formation_lp.well_formed(),
            final(self).away_formation_lp.well_formed(),
            exists|begun: CentralBrain, embedded: CentralBrain|
                {
                    &&& #[trigger] begun.begun_from(
                        *old(self),
                        *plus,
                        *times,
                        *over,
                        *home,
                        *away,
                        field.opening,
                        *constants,
                        *propose,
                    )
                    &&& match signals {
                        Some(signals) => embedded.embedded_from(begun, *embed, *signals),
                        None => embedded == begun,
                    }
                    &&& #[trigger] final(self).completed_from(
                        embedded,
                        *plus,
                        *times,
                        *over,
                        *count,
                        *signed,
                        *distance,
                        *unit,
                        *sense,
                        *limit,
                        *whole,
                        *halving,
                        *control,
                        *solve,
                        *clock,
                        *shuffle,
                        *label,
                        *home,
                        *away,
                        *field,
                        *settings,
                        iteration_limit@,
                    )
                },
    {
        self.begin_time_step(home, away, &field.opening, constants, plus, times, over, propose);
        let ghost begun = *self;
        if let Some(signals) = signals {
            self.embed_signals(signals, embed);
        }
        self.complete_time_step(
            home,
            away,
            field,
            settings,
            iteration_limit,
            plus,
            times,
            over,
            count,
            signed,
            distance,
            unit,
            sense,
            limit,
            whole,
            halving,
            control,
            solve,
            clock,
            shuffle,
            label,
        );
    }
}

/// A tick tells its phase by who has the ball and where it is, whatever the teams commit to.
pub proof fn the_phase_follows_the_ball<
    P: Fn(Real64, Real64) -> Real64,
    M: Fn(Real64, Real64) -> Real64,
    Q: Fn(Real64, Real64) -> Real64,
    G: Fn(DirectiveQuestion) -> TeamTacticalDirective,
>(
    before: CentralBrain,
    begun: CentralBrain,
    plus: P,
    times: M,
    over: Q,
    home: TeamStep,
    away: TeamStep,
    opening: StepOpening,
    constants: CommitmentConstants,
    propose: G,
)
    requires
        begun.begun_from(before, plus, times, over, home, away, opening, constants, propose),
    ensures
        begun.possession_team == opening.possession_team,
        begun.phase == opening.phase(times),
{
}

proof fn programs_keep_the_phase<
    P: Fn(Real64, Real64) -> Real64,
    M: Fn(Real64, Real64) -> Real64,
    Q: Fn(Real64, Real64) -> Real64,
    C: Fn(usize) -> Real64,
    W: Fn(i64) -> Real64,
    D: Fn(Vec2, Vec2) -> Real64,
    U: Fn(Vec2) -> Vec2,
    A: Fn(PlayerRole, Real64, Real64, Real64, bool) -> Real64,
    B: Fn(PlayerRole, bool) -> Real64,
    I: Fn(Team, Vec2, Vec2, Real64) -> bool,
    J: Fn(Vec2) -> Real64,
    L: Fn(Vec2, Real64) -> Vec2,
    S: Fn(&FormationProblem) -> LPSolution,
    T: Fn() -> u128,
>(
    before: CentralBrain,
    after: CentralBrain,
    plus: P,
    times: M,
    over: Q,
    count: C,
    signed: W,
    distance: D,
    unit: U,
    sense: FieldSense<A, B, I, J>,
    limit: L,
    solve: S,
    clock: T,
    home: TeamStep,
    away: TeamStep,
    field: FieldStep,
    settings: SolveSettings,
    iteration_limit: Seq<char>,
)
    requires
        after.programmed_from(
            before,
            plus,
            times,
            over,
            count,
            signed,
            distance,
            unit,
            sense,
            limit,
            solve,
            clock,
            home,
            away,
            field,
            settings,
            iteration_limit,
        ),
    ensures
        after.possession_team == before.possession_team,
        after.phase == before.phase,
{
    reveal(CentralBrain::programmed_from);
}
proof fn formations_keep_the_phase<
    P: Fn(Real64, Real64) -> Real64,
    M: Fn(Real64, Real64) -> Real64,
    Q: Fn(Real64, Real64) -> Real64,
    C: Fn(usize) -> Real64,
    W: Fn(i64) -> Real64,
    D: Fn(Vec2, Vec2) -> Real64,
    U: Fn(Vec2) -> Vec2,
    A: Fn(PlayerRole, Real64, Real64, Real64, bool) -> Real64,
    B: Fn(PlayerRole, bool) -> Real64,
    I: Fn(Team, Vec2, Vec2, Real64) -> bool,
    J: Fn(Vec2) -> Real64,
    L: Fn(Vec2, Real64) -> Vec2,
    N: Fn(Real64) -> usize,
    H: Fn(Real64) -> Real64,
    K: Fn(&PlanarPlan, &Vec<PlanarObstacle>) -> Option<Vec2>,
    S: Fn(&FormationProblem) -> LPSolution,
    T: Fn() -> u128,
>(
    before: CentralBrain,
    after: CentralBrain,
    plus: P,
    times: M,
    over: Q,
    count: C,
    signed: W,
    distance: D,
    unit: U,
    sense: FieldSense<A, B, I, J>,
    limit: L,
    whole: N,
    halving: H,
    control: K,
    solve: S,
    clock: T,
    home: TeamStep,
    away: TeamStep,
    field: FieldStep,
    settings: SolveSettings,
    iteration_limit: Seq<char>,
    solved: usize,
)
    requires
        after.formed_from(
            before,
            plus,
            times,
            over,
            count,
            signed,
            distance,
            unit,
            sense,
            limit,
            whole,
            halving,
            control,
            solve,
            clock,
            home,
            away,
            field,
            settings,
            iteration_limit,
            solved,
        ),
    ensures
        after.possession_team == before.possession_team,
        after.phase == before.phase,
{
    if field.formation_lp_enabled && !field.local_mpc_enabled {
        programs_keep_the_phase(
            before,
            after,
            plus,
            times,
            over,
            count,
            signed,
            distance,
            unit,
            sense,
            limit,
            solve,
            clock,
            home,
            away,
            field,
            settings,
            iteration_limit,
        );
    } else if field.formation_lp_enabled {
        let (ready, at_home, away_from_home) = choose|
            ready: CentralBrain,
            at_home: usize,
            away_from_home: usize,
        |
            {
                &&& #[trigger] ready.programmed_from(
                    before,
                    plus,
                    times,
                    over,
                    count,
                    signed,
                    distance,
                    unit,
                    sense,
                    limit,
                    solve,
                    clock,
                    home,
                    away,
                    field,
                    settings,
                    iteration_limit,
                )
                &&& #[trigger] after.home_formation_lp.refreshed_from(
                    ready.home_formation_lp,
                    plus,
                    times,
                    over,
                    distance,
                    unit,
                    limit,
                    whole,
                    halving,
                    control,
                    field.most_refined(),
                    home.possession.has_ball,
                    home.formation.field.frame,
                    field.field_ball,
                    field.field_players@,
                    at_home,
                )
                &&& #[trigger] after.away_formation_lp.refreshed_from(
                    ready.away_formation_lp,
                    plus,
                    times,
                    over,
                    distance,
                    unit,
                    limit,
                    whole,
                    halving,
                    control,
                    field.most_refined(),
                    away.possession.has_ball,
                    away.formation.field.frame,
                    field.field_ball,
                    field.field_players@,
                    away_from_home,
                )
                &&& after == (CentralBrain {
                    home_formation_lp: after.home_formation_lp,
                    away_formation_lp: after.away_formation_lp,
                    ..ready
                })
            };
        programs_keep_the_phase(
            before,
            ready,
            plus,
            times,
            over,
            count,
            signed,
            distance,
            unit,
            sense,
            limit,
            solve,
            clock,
            home,
            away,
            field,
            settings,
            iteration_limit,
        );
    }
}

/// A tick keeps the phase that it began with and records it, and leaves the pressure lines where
/// its last directives hold the defence.
pub proof fn the_record_tells_the_phase<
    P: Fn(Real64, Real64) -> Real64,
    M: Fn(Real64, Real64) -> Real64,
    Q: Fn(Real64, Real64) -> Real64,
    C: Fn(usize) -> Real64,
    W: Fn(i64) -> Real64,
    D: Fn(Vec2, Vec2) -> Real64,
    U: Fn(Vec2) -> Vec2,
    A: Fn(PlayerRole, Real64, Real64, Real64, bool) -> Real64,
    B: Fn(PlayerRole, bool) -> Real64,
    I: Fn(Team, Vec2, Vec2, Real64) -> bool,
    J: Fn(Vec2) -> Real64,
    L: Fn(Vec2, Real64) -> Vec2,
    N: Fn(Real64) -> usize,
    H: Fn(Real64) -> Real64,
    K: Fn(&PlanarPlan, &Vec<PlanarObstacle>) -> Option<Vec2>,
    S: Fn(&FormationProblem) -> LPSolution,
    T: Fn() -> u128,
    O: Fn(Vec<CentralOperation>) -> Vec<&'static str>,
    X: Fn(TacticalPhase) -> &'static str,
>(
    begun: CentralBrain,
    after: CentralBrain,
    plus: P,
    times: M,
    over: Q,
    count: C,
    signed: W,
    distance: D,
    unit: U,
    sense: FieldSense<A, B, I, J>,
    limit: L,
    whole: N,
    halving: H,
    control: K,
    solve: S,
    clock: T,
    shuffle: O,
    label: X,
    home: TeamStep,
    away: TeamStep,
    field: FieldStep,
    settings: SolveSettings,
    iteration_limit: Seq<char>,
)
    requires
        after.completed_from(
            begun,
            plus,
            times,
            over,
            count,
            signed,
            distance,
            unit,
            sense,
            limit,
            whole,
            halving,
            control,
            solve,
            clock,
            shuffle,
            label,
            home,
            away,
            field,
            settings,
            iteration_limit,
        ),
    ensures
        after.possession_team == begun.possession_team,
        after.phase == begun.phase,
        after.last_decision is Some,
        after.last_decision->0.phase == after.phase,
        after.last_decision->0.possession_team == after.possession_team,
        after.pressure_line_home == after.home_directive.defensive_line_y,
        after.pressure_line_away == after.away_directive.defensive_line_y,
{
    let (formed, solved, ops, order, text) = choose|
        formed: CentralBrain,
        solved: usize,
        ops: Vec<CentralOperation>,
        order: Vec<&'static str>,
        text: &'static str,
    |
        {
            &&& #[trigger] formed.formed_from(
                begun.with_intent(),
                plus,
                times,
                over,
                count,
                signed,
                distance,
                unit,
                sense,
                limit,
                whole,
                halving,
                control,
                solve,
                clock,
                home,
                away,
                field,
                settings,
                iteration_limit,
                solved,
            )
            &&& #[trigger] call_ensures(shuffle, (ops,), order)
            &&& #[trigger] call_ensures(label, (formed.phase,), text)
            &&& after.closed_from(
                formed,
                closing_of(plus, times, over, count, distance, home, away, field),
                text@,
                field.controlled@,
                order,
            )
        };
    formations_keep_the_phase(
        begun.with_intent(),
        formed,
        plus,
        times,
        over,
        count,
        signed,
        distance,
        unit,
        sense,
        limit,
        whole,
        halving,
        control,
        solve,
        clock,
        home,
        away,
        field,
        settings,
        iteration_limit,
        solved,
    );
}

/// A tick with the programs switched off guides nobody and leaves the programs as they were.
pub proof fn nobody_is_guided_without_a_program<
    P: Fn(Real64, Real64) -> Real64,
    M: Fn(Real64, Real64) -> Real64,
    Q: Fn(Real64, Real64) -> Real64,
    C: Fn(usize) -> Real64,
    W: Fn(i64) -> Real64,
    D: Fn(Vec2, Vec2) -> Real64,
    U: Fn(Vec2) -> Vec2,
    A: Fn(PlayerRole, Real64, Real64, Real64, bool) -> Real64,
    B: Fn(PlayerRole, bool) -> Real64,
    I: Fn(Team, Vec2, Vec2, Real64) -> bool,
    J: Fn(Vec2) -> Real64,
    L: Fn(Vec2, Real64) -> Vec2,
    N: Fn(Real64) -> usize,
    H: Fn(Real64) -> Real64,
    K: Fn(&PlanarPlan, &Vec<PlanarObstacle>) -> Option<Vec2>,
    S: Fn(&FormationProblem) -> LPSolution,
    T: Fn() -> u128,
    O: Fn(Vec<CentralOperation>) -> Vec<&'static str>,
    X: Fn(TacticalPhase) -> &'static str,
>(
    before: CentralBrain,
    after: CentralBrain,
    plus: P,
    times: M,
    over: Q,
    count: C,
    signed: W,
    distance: D,
    unit: U,
    sense: FieldSense<A, B, I, J>,
    limit: L,
    whole: N,
    halving: H,
    control: K,
    solve: S,
    clock: T,
    shuffle: O,
    label: X,
    home: TeamStep,
    away: TeamStep,
    field: FieldStep,
    settings: SolveSettings,
    iteration_limit: Seq<char>,
)
    requires
        !field.formation_lp_enabled,
        after.completed_from(
            before,
            plus,
            times,
            over,
            count,
            signed,
            distance,
            unit,
            sense,
            limit,
            whole,
            halving,
            control,
            solve,
            clock,
            shuffle,
            label,
            home,
            away,
            field,
            settings,
            iteration_limit,
        ),
    ensures
        after.home_formation_lp.last_guidance@.len() == 0,
        after.away_formation_lp.last_guidance@.len() == 0,
        after.home_formation_lp.problem == before.home_formation_lp.problem,
        after.away_formation_lp.problem == before.away_formation_lp.problem,
        after.home_formation_lp.telemetry == before.home_formation_lp.telemetry,
        after.away_formation_lp.telemetry == before.away_formation_lp.telemetry,
{
}

} // verus!
