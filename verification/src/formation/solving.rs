//! A tick of the formation program: weights, slots, shapes and state, then the solve.
use crate::central::TeamTacticalDirective;
use crate::formation::anchor::OverlapLimits;
use crate::formation::brain::{
    FormationProblem, SoccerFormationLpBrain, SolveBudget, TickInputs,
};
use crate::formation::guidance::{
    is_stand_in, soccer_formation_lp_budgeted_fallback_solution, LPSolution, LPStatus,
    SoccerFormationLpObjectiveWeights,
};
use crate::formation::inputs::{
    anchors_of, are_placed, is_pitch, slots_filled, slots_settled, soccer_formation_lp_slot_inputs,
    PlayerReading, SlotSituation,
};
use crate::formation::layout::{SoccerFormationLpPairVars, SOCCER_FORMATION_LP_PLAYER_CAPACITY};
use crate::formation::motion::LineTolerances;
use crate::formation::objective::{
    soccer_formation_lp_objective_weights, weights_of, ObjectiveInputs,
};
use crate::formation::reading::{
    find_objective_inputs, find_readings, find_reliefs, find_state_measures, objective_inputs,
    readings_of, slot_relief, state_measures, FieldReadings, SituationReadings,
};
use crate::formation::shape::StaggerBands;
use crate::formation::state::{
    context_features, is_state, situation, soccer_formation_lp_state_values, Feature, HolderSample,
    Mover,
    StateMeasures,
};
use crate::formation::tick::{is_tick, LineWeights, SoccerFormationLpSlotInput};
use crate::formation::zone::{AnchorRules, FieldSense};
use crate::geometry::{is_distance, is_heading, is_limit};
use crate::number::{is_conversion, is_operation, is_signed_conversion, Real64};
use crate::pitch::{PlayerRole, Team, Vec2};
use vstd::prelude::*;

verus! {

/// What a tick of the formation program follows from, besides the players.
#[derive(Clone, Copy, Debug)]
pub struct FormationSituation {
    pub field: FieldReadings,
    pub possession: Option<Team>,
    pub holder_id: Option<usize>,
    pub directive: TeamTacticalDirective,
    /// How far from the holder a presser stands, in yards.
    pub press_distance: Real64,
    /// The bands by which the lines are staggered, where they are.
    pub bands: Option<StaggerBands>,
    /// How far ahead an overlapping run is looked at, in seconds.
    pub lookahead: Real64,
    pub limits: OverlapLimits,
    pub lines: LineWeights,
    pub rules: AnchorRules,
}

impl FormationSituation {
    /// The situation as the slots of a team are filled.
    pub open spec fn for_slots(
        self,
        team: Team,
        weights: SoccerFormationLpObjectiveWeights,
    ) -> SlotSituation {
        SlotSituation {
            team,
            holder_id: self.holder_id,
            frame: self.field.frame,
            weights,
            directive: self.directive,
            press_distance: self.press_distance,
            own_goal_y: self.field.own_goal_y,
            ball: self.field.ball,
            possession: self.possession,
            rules: self.rules,
        }
    }
}

/// How a tick of the formation program is solved.
#[derive(Clone, Copy, Debug)]
pub struct SolveSettings {
    /// Whether the solver may be asked at all.
    pub exact_enabled: bool,
    pub budget: SolveBudget,
    pub tolerances: LineTolerances,
}

/// What happens between the start and the end of a tick of the formation program.
pub struct SolveCourse {
    /// The program as it was prepared for the solve.
    pub prepared: SoccerFormationLpBrain,
    pub weights: SoccerFormationLpObjectiveWeights,
    pub slots: Seq<SoccerFormationLpSlotInput>,
    pub solution: LPSolution,
    /// When the solve began and when it ended, in microseconds.
    pub started: u128,
    pub ended: u128,
}

impl SolveCourse {
    /// How long the solve took.
    pub open spec fn elapsed(self) -> u128 {
        if self.started <= self.ended {
            (self.ended - self.started) as u128
        } else {
            0
        }
    }
}

/// How much the shape of every pair is loosened.
pub open spec fn reliefs_of<
    P: Fn(Real64, Real64) -> Real64,
    M: Fn(Real64, Real64) -> Real64,
    Q: Fn(Real64, Real64) -> Real64,
    D: Fn(Vec2, Vec2) -> Real64,
>(
    plus: P,
    times: M,
    over: Q,
    distance: D,
    s: FormationSituation,
    team: Team,
    inputs: Seq<SoccerFormationLpSlotInput>,
    pairs: Seq<SoccerFormationLpPairVars>,
) -> Seq<Real64> {
    pairs.map_values(
        |p: SoccerFormationLpPairVars|
            slot_relief(
                plus,
                times,
                over,
                distance,
                s.possession,
                team,
                s.field.frame.attack_dir,
                s.lookahead,
                s.limits,
                inputs[p.a as int],
                inputs[p.b as int],
            ),
    )
}

impl SoccerFormationLpBrain {
    /// What preparing a tick leaves: the weights mixed, the slots filled, the program written.
    pub open spec fn prepared_from<
        P: Fn(Real64, Real64) -> Real64,
        M: Fn(Real64, Real64) -> Real64,
        Q: Fn(Real64, Real64) -> Real64,
        C: Fn(usize) -> Real64,
        W: Fn(i64) -> Real64,
        D: Fn(Vec2, Vec2) -> Real64,
        U: Fn(Vec2) -> Vec2,
        N: Fn(PlayerRole, Real64, Real64, Real64, bool) -> Real64,
        G: Fn(PlayerRole, bool) -> Real64,
        K: Fn(Team, Vec2, Vec2, Real64) -> bool,
        F: Fn(Vec2) -> Real64,
    >(
        self,
        before: Self,
        plus: P,
        times: M,
        over: Q,
        count: C,
        signed: W,
        distance: D,
        unit: U,
        sense: FieldSense<N, G, K, F>,
        s: FormationSituation,
        history: Seq<HolderSample>,
        players: Seq<PlayerReading>,
        movers: Seq<Mover>,
        ball: Mover,
        weights: SoccerFormationLpObjectiveWeights,
        slots: Seq<SoccerFormationLpSlotInput>,
    ) -> bool {
        let readings = readings_of(
            plus,
            times,
            over,
            count,
            distance,
            s.field,
            before.team,
            s.holder_id,
            history,
            players,
        );
        &&& weights == weights_of(
            plus,
            times,
            objective_inputs(
                plus,
                times,
                over,
                count,
                signed,
                distance,
                readings,
                s.directive,
            ),
            s.possession,
            before.team,
            s.directive.defense_strategy,
            s.directive.attack_strategy,
        )
        &&& slots.len() == SOCCER_FORMATION_LP_PLAYER_CAPACITY
        &&& exists|filled: Seq<SoccerFormationLpSlotInput>| #[trigger]
            slots_filled(
                plus,
                times,
                over,
                count,
                distance,
                unit,
                players,
                s.for_slots(before.team, weights),
                anchors_of(
                    plus,
                    times,
                    over,
                    count,
                    distance,
                    unit,
                    sense,
                    players,
                    s.for_slots(before.team, weights),
                ),
                filled,
            ) && slots_settled(
                plus,
                times,
                over,
                count,
                s.field.frame,
                s.bands,
                filled,
                slots,
            )
        &&& exists|tick: TickInputs| #[trigger]
            self.holds_tick(before, tick) && is_tick(
                plus,
                times,
                distance,
                s.field.frame,
                weights,
                slots,
                before.pair_vars@,
                reliefs_of(
                    plus,
                    times,
                    over,
                    distance,
                    s,
                    before.team,
                    slots,
                    before.pair_vars@,
                ),
                s.lines,
                tick,
            ) && is_state(
                plus,
                times,
                over,
                movers,
                ball,
                s.field.frame.width,
                s.field.frame.length,
                situation(
                    state_measures(
                        plus,
                        times,
                        count,
                        signed,
                        distance,
                        readings,
                        s.directive,
                    ),
                    weights,
                    s.directive,
                    s.possession == Some(before.team),
                    s.possession == Some(before.team.opponent()),
                ),
                tick.state_values@,
            )
    }

    /// Prepares a tick: mixes the weights, fills the slots, and writes the program. The program
    /// can then be solved, and the solution be taken up with the weights and slots given back.
    pub fn prepare_tick<
        P: Fn(Real64, Real64) -> Real64,
        M: Fn(Real64, Real64) -> Real64,
        Q: Fn(Real64, Real64) -> Real64,
        C: Fn(usize) -> Real64,
        W: Fn(i64) -> Real64,
        D: Fn(Vec2, Vec2) -> Real64,
        U: Fn(Vec2) -> Vec2,
        N: Fn(PlayerRole, Real64, Real64, Real64, bool) -> Real64,
        G: Fn(PlayerRole, bool) -> Real64,
        K: Fn(Team, Vec2, Vec2, Real64) -> bool,
        F: Fn(Vec2) -> Real64,
    >(
        &mut self,
        s: &FormationSituation,
        history: &Vec<HolderSample>,
        players: &Vec<PlayerReading>,
        movers: &Vec<Mover>,
        ball: &Mover,
        plus: &P,
        times: &M,
        over: &Q,
        count: &C,
        signed: &W,
        distance: &D,
        unit: &U,
        sense: &FieldSense<N, G, K, F>,
    ) -> (r: (SoccerFormationLpObjectiveWeights, Vec<SoccerFormationLpSlotInput>))
        requires
            old(self).well_formed(),
            is_operation(*plus),
            is_operation(*times),
            is_operation(*over),
            is_conversion(*count),
            is_signed_conversion(*signed),
            is_distance(*distance),
            is_heading(*unit),
            sense.answers(),
            is_pitch(*times, s.field.frame),
            are_placed(players@),
        ensures
            final(self).prepared_from(
                *old(self),
                *plus,
                *times,
                *over,
                *count,
                *signed,
                *distance,
                *unit,
                *sense,
                *s,
                history@,
                players@,
                movers@,
                *ball,
                r.0,
                r.1@,
            ),
    {
        let team: Team = self.team;
        let readings: SituationReadings = find_readings(
            &s.field,
            team,
            s.holder_id,
            history,
            players,
            plus,
            times,
            over,
            count,
            distance,
        );
        let mixed: ObjectiveInputs = find_objective_inputs(
            &readings,
            &s.directive,
            plus,
            times,
            over,
            count,
            signed,
            distance,
        );
        let weights: SoccerFormationLpObjectiveWeights = soccer_formation_lp_objective_weights(
            &mixed,
            s.possession,
            team,
            s.directive.defense_strategy,
            s.directive.attack_strategy,
            plus,
            times,
        );
        let seen: SlotSituation = SlotSituation {
            team,
            holder_id: s.holder_id,
            frame: s.field.frame,
            weights,
            directive: s.directive,
            press_distance: s.press_distance,
            own_goal_y: s.field.own_goal_y,
            ball: s.field.ball,
            possession: s.possession,
            rules: s.rules,
        };
        let inputs: Vec<SoccerFormationLpSlotInput> = soccer_formation_lp_slot_inputs(
            players,
            &seen,
            s.bands,
            plus,
            times,
            over,
            count,
            distance,
            unit,
            sense,
        );
        let reliefs: Vec<Real64> = find_reliefs(
            s.possession,
            team,
            s.field.frame.attack_dir,
            s.lookahead,
            &s.limits,
            &inputs,
            &self.pair_vars,
            plus,
            times,
            over,
            distance,
        );
        let measures: StateMeasures = find_state_measures(
            &readings,
            &s.directive,
            plus,
            times,
            count,
            signed,
            distance,
        );
        let features: Vec<Feature> = context_features(
            &measures,
            &weights,
            &s.directive,
            s.possession,
            team,
        );
        let state_values: Vec<Real64> = soccer_formation_lp_state_values(
            movers,
            ball,
            s.field.frame.width,
            s.field.frame.length,
            &features,
            plus,
            times,
            over,
        );
        assert(reliefs@ =~= reliefs_of(
            *plus,
            *times,
            *over,
            *distance,
            *s,
            team,
            inputs@,
            self.pair_vars@,
        ));
        self.update_problem_for_tick(
            &s.field.frame,
            &weights,
            &inputs,
            &reliefs,
            &s.lines,
            state_values,
            plus,
            times,
            distance,
        );
        (weights, inputs)
    }

    /// What a tick leaves: the program prepared, solved or stood in for, and what came of it
    /// taken up.
    #[verifier::opaque]
    pub open spec fn solved_from<
        P: Fn(Real64, Real64) -> Real64,
        M: Fn(Real64, Real64) -> Real64,
        Q: Fn(Real64, Real64) -> Real64,
        C: Fn(usize) -> Real64,
        W: Fn(i64) -> Real64,
        D: Fn(Vec2, Vec2) -> Real64,
        U: Fn(Vec2) -> Vec2,
        N: Fn(PlayerRole, Real64, Real64, Real64, bool) -> Real64,
        G: Fn(PlayerRole, bool) -> Real64,
        K: Fn(Team, Vec2, Vec2, Real64) -> bool,
        F: Fn(Vec2) -> Real64,
        L: Fn(Vec2, Real64) -> Vec2,
        S: Fn(&FormationProblem) -> LPSolution,
        T: Fn() -> u128,
    >(
        self,
        before: Self,
        plus: P,
        times: M,
        over: Q,
        count: C,
        signed: W,
        distance: D,
        unit: U,
        sense: FieldSense<N, G, K, F>,
        limit: L,
        solve: S,
        clock: T,
        s: FormationSituation,
        history: Seq<HolderSample>,
        players: Seq<PlayerReading>,
        movers: Seq<Mover>,
        ball: Mover,
        settings: SolveSettings,
        iteration_limit: Seq<char>,
        course: SolveCourse,
    ) -> bool {
        let exact = settings.exact_enabled && !before.telemetry.simplex_circuit_open;
        &&& course.prepared.prepared_from(
            before,
            plus,
            times,
            over,
            count,
            signed,
            distance,
            unit,
            sense,
            s,
            history,
            players,
            movers,
            ball,
            course.weights,
            course.slots,
        )
        &&& call_ensures(clock, (), course.started)
        &&& exact ==> call_ensures(solve, (&course.prepared.problem,), course.solution)
        &&& !exact ==> is_stand_in(course.solution, iteration_limit)
        &&& call_ensures(clock, (), course.ended)
        &&& self.holds_solution(
            plus,
            times,
            over,
            count,
            distance,
            unit,
            limit,
            s.field.frame,
            course.weights,
            course.slots,
            settings.tolerances,
            course.solution,
        )
        &&& self.last_solve_status@ == course.solution.status_text@
        &&& self == (SoccerFormationLpBrain {
            last_guidance: self.last_guidance,
            last_snapshot: self.last_snapshot,
            last_solve_status: self.last_solve_status,
            telemetry: before.telemetry.after_solve(
                exact,
                course.elapsed(),
                course.solution.status == LPStatus::Optimal,
                settings.budget,
            ),
            ..course.prepared
        })
    }

    /// Runs a tick: prepares the program, has it solved where the budget allows, and takes up
    /// what came of it. `iteration_limit` is the solver's word for its limit.
    pub fn solve_tick<
        P: Fn(Real64, Real64) -> Real64,
        M: Fn(Real64, Real64) -> Real64,
        Q: Fn(Real64, Real64) -> Real64,
        C: Fn(usize) -> Real64,
        W: Fn(i64) -> Real64,
        D: Fn(Vec2, Vec2) -> Real64,
        U: Fn(Vec2) -> Vec2,
        N: Fn(PlayerRole, Real64, Real64, Real64, bool) -> Real64,
        G: Fn(PlayerRole, bool) -> Real64,
        K: Fn(Team, Vec2, Vec2, Real64) -> bool,
        F: Fn(Vec2) -> Real64,
        L: Fn(Vec2, Real64) -> Vec2,
        S: Fn(&FormationProblem) -> LPSolution,
        T: Fn() -> u128,
    >(
        &mut self,
        s: &FormationSituation,
        history: &Vec<HolderSample>,
        players: &Vec<PlayerReading>,
        movers: &Vec<Mover>,
        ball: &Mover,
        settings: &SolveSettings,
        iteration_limit: &str,
        plus: &P,
        times: &M,
        over: &Q,
        count: &C,
        signed: &W,
        distance: &D,
        unit: &U,
        sense: &FieldSense<N, G, K, F>,
        limit: &L,
        solve: &S,
        clock: &T,
    )
        requires
            old(self).well_formed(),
            is_operation(*plus),
            is_operation(*times),
            is_operation(*over),
            is_conversion(*count),
            is_signed_conversion(*signed),
            is_distance(*distance),
            is_heading(*unit),
            sense.answers(),
            is_limit(*limit),
            forall|p: &FormationProblem| #[trigger] call_requires(*solve, (p,)),
            call_requires(*clock, ()),
            is_pitch(*times, s.field.frame),
            are_placed(players@),
            old(self).telemetry.adaptive_max_iter + settings.budget.recover_step <= usize::MAX,
        ensures
            final(self).well_formed(),
            final(self).team == old(self).team,
            exists|course: SolveCourse| #[trigger]
                final(self).solved_from(
                    *old(self),
                    *plus,
                    *times,
                    *over,
                    *count,
                    *signed,
                    *distance,
                    *unit,
                    *sense,
                    *limit,
                    *solve,
                    *clock,
                    *s,
                    history@,
                    players@,
                    movers@,
                    *ball,
                    *settings,
                    iteration_limit@,
                    course,
                ),
    {
        let (weights, slots) = self.prepare_tick(
            s,
            history,
            players,
            movers,
            ball,
            plus,
            times,
            over,
            count,
            signed,
            distance,
            unit,
            sense,
        );
        let ghost prepared = *self;
        let exact: bool = self.telemetry.solves_exactly(settings.exact_enabled);
        let started: u128 = clock();
        let solution: LPSolution = if exact {
            solve(&self.problem)
        } else {
            soccer_formation_lp_budgeted_fallback_solution(iteration_limit.to_owned())
        };
        let ended: u128 = clock();
        let elapsed: u128 = if started <= ended {
            ended - started
        } else {
            0
        };
        self.finish_tick(
            exact,
            elapsed,
            &settings.budget,
            &s.field.frame,
            weights,
            &slots,
            &settings.tolerances,
            &solution,
            plus,
            times,
            over,
            count,
            distance,
            unit,
            limit,
        );
        proof {
            let course = SolveCourse {
                prepared,
                weights,
                slots: slots@,
                solution,
                started,
                ended,
            };
            reveal(SoccerFormationLpBrain::solved_from);
            assert(self.solved_from(
                *old(self),
                *plus,
                *times,
                *over,
                *count,
                *signed,
                *distance,
                *unit,
                *sense,
                *limit,
                *solve,
                *clock,
                *s,
                history@,
                players@,
                movers@,
                *ball,
                *settings,
                iteration_limit@,
                course,
            ));
        }
    }
}

} // verus!
