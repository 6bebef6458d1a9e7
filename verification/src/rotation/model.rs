//! The rotation programs: the linear relaxation and the exact 0/1 program.
use crate::number::{apply, is_operation, outcome, Real64};
use crate::rotation::problem::{
    fixed_at, max_bench, max_stint, player_fixed_position, player_max_contiguous_bench,
    player_max_contiguous_on_field, rule_count, PositionSynergyRule, SoccerProblem,
};
use crate::rotation::rows::{
    applies, bound, bound_of, column_at, column_count, column_of, columns, countable,
    field_columns, list_rows, lists_rows, rule_columns, rules_len, weight, weight_of, Column,
    Program, RowKind,
};
use crate::text::{decimal, decimal_text};
use vstd::prelude::*;
use vstd::string::*;

verus! {

/// The title of a player: their name, or a number where they have none.
pub open spec fn player_title(problem: SoccerProblem, p: int) -> Seq<char> {
    if problem.player_names is Some && p < problem.player_names->0@.len() {
        problem.player_names->0@[p]@
    } else {
        "Player"@ + decimal((p + 1) as nat)
    }
}

/// The title of a position: its name, or its number where it has none.
pub open spec fn position_title(problem: SoccerProblem, pos: int) -> Seq<char> {
    if problem.position_names is Some && pos < problem.position_names->0@.len() {
        problem.position_names->0@[pos]@
    } else {
        decimal(pos as nat)
    }
}

/// Every synergy rule speaks of players and positions that there are.
pub open spec fn rules_in_range(problem: SoccerProblem) -> bool {
    forall|i: int|
        #![trigger problem.synergy_rules->0@[i]]
        0 <= i < rule_count(problem) ==> {
            let r = problem.synergy_rules->0@[i];
            &&& r.player < problem.num_players
            &&& r.position < problem.num_positions
            &&& r.partner_player < problem.num_players
            &&& r.partner_position < problem.num_positions
        }
}

/// The column speaks of players, positions, rules and periods that there are.
pub open spec fn column_in_range(problem: SoccerProblem, column: Column) -> bool {
    match column {
        Column::Field { player, position, period } => player < problem.num_players && position
            < problem.num_positions && period < problem.num_periods,
        Column::Together { rule, period } => rule < rule_count(problem) && period
            < problem.num_periods,
        Column::On { player, period } => player < problem.num_players && period
            < problem.num_periods,
        Column::Off { player, period } => player < problem.num_players && 1 <= period
            < problem.num_periods,
    }
}

fn player_name(problem: &SoccerProblem, p: usize) -> (r: String)
    requires
        p < problem.num_players,
    ensures
        r@ == player_title(*problem, p as int),
{
    if let Some(names) = &problem.player_names {
        if p < names.len() {
            return names[p].clone();
        }
    }
    let mut s: String = "Player".to_owned();
    s.append(decimal_text(p + 1).as_str());
    s
}

fn position_name(problem: &SoccerProblem, pos: usize) -> (r: String)
    ensures
        r@ == position_title(*problem, pos as int),
{
    if let Some(names) = &problem.position_names {
        if pos < names.len() {
            return names[pos].clone();
        }
    }
    decimal_text(pos)
}

/// The name of a row.
pub open spec fn row_name(problem: SoccerProblem, kind: RowKind) -> Seq<char> {
    match kind {
        RowKind::PlayerOnce { player, period } => "player_once_"@
            + player_title(problem, (player) as int) + "_T"@ + decimal((period + 1) as nat),
        RowKind::PositionFilled { position, period, at_least } => if at_least {
            "position_filled_ge_"@ + position_title(problem, (position) as int) + "_T"@
                + decimal((period + 1) as nat)
        } else {
            "position_filled_le_"@ + position_title(problem, (position) as int) + "_T"@
                + decimal((period + 1) as nat)
        },
        RowKind::NoConsecutiveBench { player, period } => "no_consecutive_bench_"@
            + player_title(problem, (player) as int) + "_T"@ + decimal((period + 1) as nat) + "_"@
            + decimal((period + 2) as nat),
        RowKind::MaxStint { player, start } => "max_consec_on_field_"@
            + player_title(problem, (player) as int) + "_T"@ + decimal((start + 1) as nat) + "_"@
            + decimal((start + max_stint(problem, player as int)->0 + 1) as nat),
        RowKind::MaxBench { player, start } => "max_contig_bench_"@
            + player_title(problem, (player) as int) + "_T"@ + decimal((start + 1) as nat) + "_"@
            + decimal((start + max_bench(problem, player as int)->0 + 1) as nat),
        RowKind::NoLateStart { player, start } => "min_contig_no_late_start_"@
            + player_title(problem, (player) as int) + "_T"@ + decimal((start + 1) as nat),
        RowKind::MinStint { player, start, period } => "min_contig_on_field_"@
            + player_title(problem, (player) as int) + "_T"@ + decimal((start + 1) as nat) + "_T"@
            + decimal((period + 1) as nat),
        RowKind::Unavailable { player, period } => "unavailable_"@
            + player_title(problem, (player) as int) + "_T"@ + decimal((period + 1) as nat),
        RowKind::Fixed { player, period } => "fixed_"@ + player_title(problem, (player) as int)
            + "_pos"@ + decimal((fixed_at(problem, player as int)->0) as nat) + "_T"@
            + decimal((period + 1) as nat),
        RowKind::FixedPlays { player, period } => "fixed_min_"@
            + player_title(problem, (player) as int) + "_pos"@
            + decimal((fixed_at(problem, player as int)->0) as nat) + "_T"@
            + decimal((period + 1) as nat),
        RowKind::FixedBan { player, period, position } => "fixed_ban_"@
            + player_title(problem, (player) as int) + "_pos"@ + decimal((position) as nat) + "_T"@
            + decimal((period + 1) as nat),
        RowKind::Banned { player, position, period } => "banned_"@
            + player_title(problem, (player) as int) + "_pos"@ + decimal((position) as nat) + "_T"@
            + decimal((period + 1) as nat),
        RowKind::Synergy { rule, period, part } => if part == 0 {
            "synergy_subject_"@
                + player_title(problem, (problem.synergy_rules->0@[rule as int].player) as int)
                + "_"@
                + position_title(problem, (problem.synergy_rules->0@[rule as int].position) as int)
                + "_T"@ + decimal((period + 1) as nat)
        } else if part == 1 {
            "synergy_partner_"@
                + player_title(problem, (problem.synergy_rules->0@[rule as int].player) as int)
                + "_"@
                + position_title(problem, (problem.synergy_rules->0@[rule as int].position) as int)
                + "_T"@ + decimal((period + 1) as nat)
        } else {
            "synergy_activation_"@
                + player_title(problem, (problem.synergy_rules->0@[rule as int].player) as int)
                + "_"@
                + position_title(problem, (problem.synergy_rules->0@[rule as int].position) as int)
                + "_T"@ + decimal((period + 1) as nat)
        },
        RowKind::OnLink { player, period } => "on_link_"@ + player_title(problem, (player) as int)
            + "_T"@ + decimal((period + 1) as nat),
        RowKind::OnHolds { player, period } => "on_hold_"@ + player_title(problem, (player) as int)
            + "_T"@ + decimal((period + 1) as nat),
        RowKind::SubOff { player, period, part } => "sub_off_link_"@
            + player_title(problem, (player) as int) + "_T"@ + decimal((period + 1) as nat) + "_"@
            + decimal((part + 1) as nat),
        RowKind::MaxSubs => "max_subs_"@ + decimal((problem.max_subs_per_game->0) as nat),
        RowKind::MinSubs => "min_subs_"@ + decimal((problem.min_subs_per_game->0) as nat),
    }
}

/// The station of a row and what it says there, where the row has one.
pub open spec fn row_station(problem: SoccerProblem, kind: RowKind) -> Option<(
    Seq<char>,
    Seq<char>,
)> {
    match kind {
        RowKind::PlayerOnce { player, period } => Some(
            (
                "station:eligibility:"@ + player_title(problem, (player) as int) + ":T"@
                    + decimal((period + 1) as nat),
                player_title(problem, (player) as int) + " at most one field role in period "@
                    + decimal((period + 1) as nat),
            ),
        ),
        RowKind::PositionFilled { position, period, at_least } => if at_least {
            Some(
                (
                    "station:position:"@ + position_title(problem, (position) as int) + ":T"@
                        + decimal((period + 1) as nat),
                    "position "@ + position_title(problem, (position) as int)
                        + " has at least one player in period "@ + decimal((period + 1) as nat),
                ),
            )
        } else {
            Some(
                (
                    "station:position:"@ + position_title(problem, (position) as int) + ":T"@
                        + decimal((period + 1) as nat),
                    "position "@ + position_title(problem, (position) as int)
                        + " has at most one player in period "@ + decimal((period + 1) as nat),
                ),
            )
        },
        RowKind::NoConsecutiveBench { player, period } => Some(
            (
                "station:fairness:"@ + player_title(problem, (player) as int) + ":T"@
                    + decimal((period + 1) as nat) + "-"@ + decimal((period + 2) as nat),
                player_title(problem, (player) as int) + " plays in period "@
                    + decimal((period + 1) as nat) + " or "@ + decimal((period + 2) as nat),
            ),
        ),
        RowKind::MaxStint { player, start } => Some(
            (
                "station:stamina:"@ + player_title(problem, (player) as int) + ":T"@
                    + decimal((start + 1) as nat) + "-"@
                    + decimal((start + max_stint(problem, player as int)->0 + 1) as nat),
                player_title(problem, (player) as int) + " rests at least once in periods "@
                    + decimal((start + 1) as nat) + "-"@
                    + decimal((start + max_stint(problem, player as int)->0 + 1) as nat),
            ),
        ),
        RowKind::MaxBench { player, start } => Some(
            (
                "station:bench-run:"@ + player_title(problem, (player) as int) + ":T"@
                    + decimal((start + 1) as nat) + "-"@
                    + decimal((start + max_bench(problem, player as int)->0 + 1) as nat),
                player_title(problem, (player) as int) + " plays at least once in periods "@
                    + decimal((start + 1) as nat) + "-"@
                    + decimal((start + max_bench(problem, player as int)->0 + 1) as nat),
            ),
        ),
        RowKind::NoLateStart { player, start } => Some(
            (
                "station:min-stint:"@ + player_title(problem, (player) as int) + ":T"@
                    + decimal((start + 1) as nat),
                player_title(problem, (player) as int) + " cannot start a short stint in period "@
                    + decimal((start + 1) as nat),
            ),
        ),
        RowKind::MinStint { player, start, period } => Some(
            (
                "station:min-stint:"@ + player_title(problem, (player) as int) + ":T"@
                    + decimal((start + 1) as nat) + "-"@ + decimal((period + 1) as nat),
                player_title(problem, (player) as int) + " continues from period "@
                    + decimal((start + 1) as nat) + " through "@ + decimal((period + 1) as nat),
            ),
        ),
        RowKind::Unavailable { player, period } => Some(
            (
                "station:unavailable:"@ + player_title(problem, (player) as int) + ":T"@
                    + decimal((period + 1) as nat),
                player_title(problem, (player) as int) + " unavailable in period "@
                    + decimal((period + 1) as nat),
            ),
        ),
        RowKind::Fixed { player, period } => Some(
            (
                "station:fixed:"@ + player_title(problem, (player) as int) + ":"@
                    + position_title(problem, (fixed_at(problem, player as int)->0) as int) + ":T"@
                    + decimal((period + 1) as nat),
                player_title(problem, (player) as int) + " fixed at "@
                    + position_title(problem, (fixed_at(problem, player as int)->0) as int)
                    + " in period "@ + decimal((period + 1) as nat),
            ),
        ),
        RowKind::Banned { player, position, period } => Some(
            (
                "station:banned:"@ + player_title(problem, (player) as int) + ":"@
                    + position_title(problem, (position) as int) + ":T"@
                    + decimal((period + 1) as nat),
                player_title(problem, (player) as int) + " banned from "@
                    + position_title(problem, (position) as int) + " in period "@
                    + decimal((period + 1) as nat),
            ),
        ),
        RowKind::MaxSubs => Some(
            (
                "station:max-subs"@,
                "at most "@ + decimal((problem.max_subs_per_game->0) as nat)
                    + " substitutions per match"@,
            ),
        ),
        RowKind::MinSubs => Some(
            (
                "station:min-subs"@,
                "at least "@ + decimal((problem.min_subs_per_game->0) as nat)
                    + " substitutions per match"@,
            ),
        ),
        _ => None,
    }
}

fn name_row(problem: &SoccerProblem, Ghost(program): Ghost<Program>, kind: RowKind) -> (r: String)
    requires
        applies(*problem, program, kind),
        rules_in_range(*problem),
    ensures
        r@ == row_name(*problem, kind),
{
    match kind {
        RowKind::PlayerOnce { player, period } => {
            let mut s: String = "player_once_".to_owned();
            s.append(player_name(problem, player).as_str());
            s.append("_T");
            s.append(decimal_text(period + 1).as_str());
            s
        },
        RowKind::PositionFilled { position, period, at_least } => if at_least {
            let mut s: String = "position_filled_ge_".to_owned();
            s.append(position_name(problem, position).as_str());
            s.append("_T");
            s.append(decimal_text(period + 1).as_str());
            s
        } else {
            let mut s: String = "position_filled_le_".to_owned();
            s.append(position_name(problem, position).as_str());
            s.append("_T");
            s.append(decimal_text(period + 1).as_str());
            s
        },
        RowKind::NoConsecutiveBench { player, period } => {
            let mut s: String = "no_consecutive_bench_".to_owned();
            s.append(player_name(problem, player).as_str());
            s.append("_T");
            s.append(decimal_text(period + 1).as_str());
            s.append("_");
            s.append(decimal_text(period + 2).as_str());
            s
        },
        RowKind::MaxStint { player, start } => {
            let limit: usize = player_max_contiguous_on_field(problem, player).unwrap();
            let mut s: String = "max_consec_on_field_".to_owned();
            s.append(player_name(problem, player).as_str());
            s.append("_T");
            s.append(decimal_text(start + 1).as_str());
            s.append("_");
            s.append(decimal_text(start + limit + 1).as_str());
            s
        },
        RowKind::MaxBench { player, start } => {
            let limit: usize = player_max_contiguous_bench(problem, player).unwrap();
            let mut s: String = "max_contig_bench_".to_owned();
            s.append(player_name(problem, player).as_str());
            s.append("_T");
            s.append(decimal_text(start + 1).as_str());
            s.append("_");
            s.append(decimal_text(start + limit + 1).as_str());
            s
        },
        RowKind::NoLateStart { player, start } => {
            let mut s: String = "min_contig_no_late_start_".to_owned();
            s.append(player_name(problem, player).as_str());
            s.append("_T");
            s.append(decimal_text(start + 1).as_str());
            s
        },
        RowKind::MinStint { player, start, period } => {
            let mut s: String = "min_contig_on_field_".to_owned();
            s.append(player_name(problem, player).as_str());
            s.append("_T");
            s.append(decimal_text(start + 1).as_str());
            s.append("_T");
            s.append(decimal_text(period + 1).as_str());
            s
        },
        RowKind::Unavailable { player, period } => {
            let mut s: String = "unavailable_".to_owned();
            s.append(player_name(problem, player).as_str());
            s.append("_T");
            s.append(decimal_text(period + 1).as_str());
            s
        },
        RowKind::Fixed { player, period } => {
            let fixed: usize = player_fixed_position(problem, player).unwrap();
            let mut s: String = "fixed_".to_owned();
            s.append(player_name(problem, player).as_str());
            s.append("_pos");
            s.append(decimal_text(fixed).as_str());
            s.append("_T");
            s.append(decimal_text(period + 1).as_str());
            s
        },
        RowKind::FixedPlays { player, period } => {
            let fixed: usize = player_fixed_position(problem, player).unwrap();
            let mut s: String = "fixed_min_".to_owned();
            s.append(player_name(problem, player).as_str());
            s.append("_pos");
            s.append(decimal_text(fixed).as_str());
            s.append("_T");
            s.append(decimal_text(period + 1).as_str());
            s
        },
        RowKind::FixedBan { player, period, position } => {
            let mut s: String = "fixed_ban_".to_owned();
            s.append(player_name(problem, player).as_str());
            s.append("_pos");
            s.append(decimal_text(position).as_str());
            s.append("_T");
            s.append(decimal_text(period + 1).as_str());
            s
        },
        RowKind::Banned { player, position, period } => {
            let mut s: String = "banned_".to_owned();
            s.append(player_name(problem, player).as_str());
            s.append("_pos");
            s.append(decimal_text(position).as_str());
            s.append("_T");
            s.append(decimal_text(period + 1).as_str());
            s
        },
        RowKind::Synergy { rule, period, part } => {
            let rules: &Vec<PositionSynergyRule> = problem.synergy_rules.as_ref().unwrap();
            let r: PositionSynergyRule = rules[rule];
            if part == 0 {
                let mut s: String = "synergy_subject_".to_owned();
                s.append(player_name(problem, r.player).as_str());
                s.append("_");
                s.append(position_name(problem, r.position).as_str());
                s.append("_T");
                s.append(decimal_text(period + 1).as_str());
                s
            } else if part == 1 {
                let mut s: String = "synergy_partner_".to_owned();
                s.append(player_name(problem, r.player).as_str());
                s.append("_");
                s.append(position_name(problem, r.position).as_str());
                s.append("_T");
                s.append(decimal_text(period + 1).as_str());
                s
            } else {
                let mut s: String = "synergy_activation_".to_owned();
                s.append(player_name(problem, r.player).as_str());
                s.append("_");
                s.append(position_name(problem, r.position).as_str());
                s.append("_T");
                s.append(decimal_text(period + 1).as_str());
                s
            }
        },
        RowKind::OnLink { player, period } => {
            let mut s: String = "on_link_".to_owned();
            s.append(player_name(problem, player).as_str());
            s.append("_T");
            s.append(decimal_text(period + 1).as_str());
            s
        },
        RowKind::OnHolds { player, period } => {
            let mut s: String = "on_hold_".to_owned();
            s.append(player_name(problem, player).as_str());
            s.append("_T");
            s.append(decimal_text(period + 1).as_str());
            s
        },
        RowKind::SubOff { player, period, part } => {
            let mut s: String = "sub_off_link_".to_owned();
            s.append(player_name(problem, player).as_str());
            s.append("_T");
            s.append(decimal_text(period + 1).as_str());
            s.append("_");
            s.append(decimal_text(part + 1).as_str());
            s
        },
        RowKind::MaxSubs => {
            let count: usize = problem.max_subs_per_game.unwrap();
            let mut s: String = "max_subs_".to_owned();
            s.append(decimal_text(count).as_str());
            s
        },
        RowKind::MinSubs => {
            let count: usize = problem.min_subs_per_game.unwrap();
            let mut s: String = "min_subs_".to_owned();
            s.append(decimal_text(count).as_str());
            s
        },
    }
}

fn station_id(problem: &SoccerProblem, Ghost(program): Ghost<Program>, kind: RowKind) -> (r: String)
    requires
        applies(*problem, program, kind),
        rules_in_range(*problem),
        row_station(*problem, kind) is Some,
    ensures
        r@ == (row_station(*problem, kind)->0).0,
{
    match kind {
        RowKind::PlayerOnce { player, period } => {
            let mut s: String = "station:eligibility:".to_owned();
            s.append(player_name(problem, player).as_str());
            s.append(":T");
            s.append(decimal_text(period + 1).as_str());
            s
        },
        RowKind::PositionFilled { position, period, at_least } => if at_least {
            let mut s: String = "station:position:".to_owned();
            s.append(position_name(problem, position).as_str());
            s.append(":T");
            s.append(decimal_text(period + 1).as_str());
            s
        } else {
            let mut s: String = "station:position:".to_owned();
            s.append(position_name(problem, position).as_str());
            s.append(":T");
            s.append(decimal_text(period + 1).as_str());
            s
        },
        RowKind::NoConsecutiveBench { player, period } => {
            let mut s: String = "station:fairness:".to_owned();
            s.append(player_name(problem, player).as_str());
            s.append(":T");
            s.append(decimal_text(period + 1).as_str());
            s.append("-");
            s.append(decimal_text(period + 2).as_str());
            s
        },
        RowKind::MaxStint { player, start } => {
            let limit: usize = player_max_contiguous_on_field(problem, player).unwrap();
            let mut s: String = "station:stamina:".to_owned();
            s.append(player_name(problem, player).as_str());
            s.append(":T");
            s.append(decimal_text(start + 1).as_str());
            s.append("-");
            s.append(decimal_text(start + limit + 1).as_str());
            s
        },
        RowKind::MaxBench { player, start } => {
            let limit: usize = player_max_contiguous_bench(problem, player).unwrap();
            let mut s: String = "station:bench-run:".to_owned();
            s.append(player_name(problem, player).as_str());
            s.append(":T");
            s.append(decimal_text(start + 1).as_str());
            s.append("-");
            s.append(decimal_text(start + limit + 1).as_str());
            s
        },
        RowKind::NoLateStart { player, start } => {
            let mut s: String = "station:min-stint:".to_owned();
            s.append(player_name(problem, player).as_str());
            s.append(":T");
            s.append(decimal_text(start + 1).as_str());
            s
        },
        RowKind::MinStint { player, start, period } => {
            let mut s: String = "station:min-stint:".to_owned();
            s.append(player_name(problem, player).as_str());
            s.append(":T");
            s.append(decimal_text(start + 1).as_str());
            s.append("-");
            s.append(decimal_text(period + 1).as_str());
            s
        },
        RowKind::Unavailable { player, period } => {
            let mut s: String = "station:unavailable:".to_owned();
            s.append(player_name(problem, player).as_str());
            s.append(":T");
            s.append(decimal_text(period + 1).as_str());
            s
        },
        RowKind::Fixed { player, period } => {
            let fixed: usize = player_fixed_position(problem, player).unwrap();
            let mut s: String = "station:fixed:".to_owned();
            s.append(player_name(problem, player).as_str());
            s.append(":");
            s.append(position_name(problem, fixed).as_str());
            s.append(":T");
            s.append(decimal_text(period + 1).as_str());
            s
        },
        RowKind::Banned { player, position, period } => {
            let mut s: String = "station:banned:".to_owned();
            s.append(player_name(problem, player).as_str());
            s.append(":");
            s.append(position_name(problem, position).as_str());
            s.append(":T");
            s.append(decimal_text(period + 1).as_str());
            s
        },
        RowKind::MaxSubs => {
            let mut s: String = "station:max-subs".to_owned();
            s
        },
        RowKind::MinSubs => {
            let mut s: String = "station:min-subs".to_owned();
            s
        },
        _ => String::new(),
    }
}

fn station_label(problem: &SoccerProblem, Ghost(program): Ghost<Program>, kind: RowKind) -> (r: String)
    requires
        applies(*problem, program, kind),
        rules_in_range(*problem),
        row_station(*problem, kind) is Some,
    ensures
        r@ == (row_station(*problem, kind)->0).1,
{
    match kind {
        RowKind::PlayerOnce { player, period } => {
            let mut s: String = player_name(problem, player);
            s.append(" at most one field role in period ");
            s.append(decimal_text(period + 1).as_str());
            s
        },
        RowKind::PositionFilled { position, period, at_least } => if at_least {
            let mut s: String = "position ".to_owned();
            s.append(position_name(problem, position).as_str());
            s.append(" has at least one player in period ");
            s.append(decimal_text(period + 1).as_str());
            s
        } else {
            let mut s: String = "position ".to_owned();
            s.append(position_name(problem, position).as_str());
            s.append(" has at most one player in period ");
            s.append(decimal_text(period + 1).as_str());
            s
        },
        RowKind::NoConsecutiveBench { player, period } => {
            let mut s: String = player_name(problem, player);
            s.append(" plays in period ");
            s.append(decimal_text(period + 1).as_str());
            s.append(" or ");
            s.append(decimal_text(period + 2).as_str());
            s
        },
        RowKind::MaxStint { player, start } => {
            let limit: usize = player_max_contiguous_on_field(problem, player).unwrap();
            let mut s: String = player_name(problem, player);
            s.append(" rests at least once in periods ");
            s.append(decimal_text(start + 1).as_str());
            s.append("-");
            s.append(decimal_text(start + limit + 1).as_str());
            s
        },
        RowKind::MaxBench { player, start } => {
            let limit: usize = player_max_contiguous_bench(problem, player).unwrap();
            let mut s: String = player_name(problem, player);
            s.append(" plays at least once in periods ");
            s.append(decimal_text(start + 1).as_str());
            s.append("-");
            s.append(decimal_text(start + limit + 1).as_str());
            s
        },
        RowKind::NoLateStart { player, start } => {
            let mut s: String = player_name(problem, player);
            s.append(" cannot start a short stint in period ");
            s.append(decimal_text(start + 1).as_str());
            s
        },
        RowKind::MinStint { player, start, period } => {
            let mut s: String = player_name(problem, player);
            s.append(" continues from period ");
            s.append(decimal_text(start + 1).as_str());
            s.append(" through ");
            s.append(decimal_text(period + 1).as_str());
            s
        },
        RowKind::Unavailable { player, period } => {
            let mut s: String = player_name(problem, player);
            s.append(" unavailable in period ");
            s.append(decimal_text(period + 1).as_str());
            s
        },
        RowKind::Fixed { player, period } => {
            let fixed: usize = player_fixed_position(problem, player).unwrap();
            let mut s: String = player_name(problem, player);
            s.append(" fixed at ");
            s.append(position_name(problem, fixed).as_str());
            s.append(" in period ");
            s.append(decimal_text(period + 1).as_str());
            s
        },
        RowKind::Banned { player, position, period } => {
            let mut s: String = player_name(problem, player);
            s.append(" banned from ");
            s.append(position_name(problem, position).as_str());
            s.append(" in period ");
            s.append(decimal_text(period + 1).as_str());
            s
        },
        RowKind::MaxSubs => {
            let count: usize = problem.max_subs_per_game.unwrap();
            let mut s: String = "at most ".to_owned();
            s.append(decimal_text(count).as_str());
            s.append(" substitutions per match");
            s
        },
        RowKind::MinSubs => {
            let count: usize = problem.min_subs_per_game.unwrap();
            let mut s: String = "at least ".to_owned();
            s.append(decimal_text(count).as_str());
            s.append(" substitutions per match");
            s
        },
        _ => String::new(),
    }
}

/// The name of a column.
pub open spec fn column_name(problem: SoccerProblem, column: Column) -> Seq<char> {
    match column {
        Column::Field { player, position, period } => "x_"@ + player_title(problem, (player) as int)
            + "_"@ + position_title(problem, (position) as int) + "_T"@
            + decimal((period + 1) as nat),
        Column::Together { rule, period } => "synergy_"@
            + player_title(problem, (problem.synergy_rules->0@[rule as int].player) as int) + "_"@
            + position_title(problem, (problem.synergy_rules->0@[rule as int].position) as int)
            + "_T"@ + decimal((period + 1) as nat),
        Column::On { player, period } => "on_"@ + player_title(problem, (player) as int) + "_T"@
            + decimal((period + 1) as nat),
        Column::Off { player, period } => "sub_off_"@ + player_title(problem, (player) as int)
            + "_T"@ + decimal((period + 1) as nat),
    }
}

/// The node of a column and what it stands for, where the column has one.
pub open spec fn column_node(problem: SoccerProblem, column: Column) -> Option<(
    Seq<char>,
    Seq<char>,
)> {
    match column {
        Column::Field { player, position, period } => Some(
            (
                "movable:"@ + player_title(problem, (player) as int) + ":period-"@
                    + decimal((period + 1) as nat) + ":position-"@
                    + position_title(problem, (position) as int),
                player_title(problem, (player) as int) + " -> "@
                    + position_title(problem, (position) as int) + " in period "@
                    + decimal((period + 1) as nat),
            ),
        ),
        Column::Together { rule, period } => Some(
            (
                "synergy:"@
                    + player_title(problem, (problem.synergy_rules->0@[rule as int].player) as int)
                    + ":"@
                    + position_title(
                        problem,
                        (problem.synergy_rules->0@[rule as int].position) as int,
                    )
                    + ":T"@ + decimal((period + 1) as nat),
                "synergy "@
                    + player_title(problem, (problem.synergy_rules->0@[rule as int].player) as int)
                    + "@"@
                    + position_title(
                        problem,
                        (problem.synergy_rules->0@[rule as int].position) as int,
                    )
                    + " if "@
                    + player_title(
                        problem,
                        (problem.synergy_rules->0@[rule as int].partner_player) as int,
                    )
                    + "@"@
                    + position_title(
                        problem,
                        (problem.synergy_rules->0@[rule as int].partner_position) as int,
                    ),
            ),
        ),
        _ => None,
    }
}

fn name_column(problem: &SoccerProblem, column: Column) -> (r: String)
    requires
        column_in_range(*problem, column),
        rules_in_range(*problem),
    ensures
        r@ == column_name(*problem, column),
{
    match column {
        Column::Field { player, position, period } => {
            let mut s: String = "x_".to_owned();
            s.append(player_name(problem, player).as_str());
            s.append("_");
            s.append(position_name(problem, position).as_str());
            s.append("_T");
            s.append(decimal_text(period + 1).as_str());
            s
        },
        Column::Together { rule, period } => {
            let rules: &Vec<PositionSynergyRule> = problem.synergy_rules.as_ref().unwrap();
            let r: PositionSynergyRule = rules[rule];
            let mut s: String = "synergy_".to_owned();
            s.append(player_name(problem, r.player).as_str());
            s.append("_");
            s.append(position_name(problem, r.position).as_str());
            s.append("_T");
            s.append(decimal_text(period + 1).as_str());
            s
        },
        Column::On { player, period } => {
            let mut s: String = "on_".to_owned();
            s.append(player_name(problem, player).as_str());
            s.append("_T");
            s.append(decimal_text(period + 1).as_str());
            s
        },
        Column::Off { player, period } => {
            let mut s: String = "sub_off_".to_owned();
            s.append(player_name(problem, player).as_str());
            s.append("_T");
            s.append(decimal_text(period + 1).as_str());
            s
        },
    }
}

fn node_id(problem: &SoccerProblem, column: Column) -> (r: String)
    requires
        column_in_range(*problem, column),
        rules_in_range(*problem),
        column_node(*problem, column) is Some,
    ensures
        r@ == (column_node(*problem, column)->0).0,
{
    match column {
        Column::Field { player, position, period } => {
            let mut s: String = "movable:".to_owned();
            s.append(player_name(problem, player).as_str());
            s.append(":period-");
            s.append(decimal_text(period + 1).as_str());
            s.append(":position-");
            s.append(position_name(problem, position).as_str());
            s
        },
        Column::Together { rule, period } => {
            let rules: &Vec<PositionSynergyRule> = problem.synergy_rules.as_ref().unwrap();
            let r: PositionSynergyRule = rules[rule];
            let mut s: String = "synergy:".to_owned();
            s.append(player_name(problem, r.player).as_str());
            s.append(":");
            s.append(position_name(problem, r.position).as_str());
            s.append(":T");
            s.append(decimal_text(period + 1).as_str());
            s
        },
        _ => String::new(),
    }
}

fn node_label(problem: &SoccerProblem, column: Column) -> (r: String)
    requires
        column_in_range(*problem, column),
        rules_in_range(*problem),
        column_node(*problem, column) is Some,
    ensures
        r@ == (column_node(*problem, column)->0).1,
{
    match column {
        Column::Field { player, position, period } => {
            let mut s: String = player_name(problem, player);
            s.append(" -> ");
            s.append(position_name(problem, position).as_str());
            s.append(" in period ");
            s.append(decimal_text(period + 1).as_str());
            s
        },
        Column::Together { rule, .. } => {
            let rules: &Vec<PositionSynergyRule> = problem.synergy_rules.as_ref().unwrap();
            let r: PositionSynergyRule = rules[rule];
            let mut s: String = "synergy ".to_owned();
            s.append(player_name(problem, r.player).as_str());
            s.append("@");
            s.append(position_name(problem, r.position).as_str());
            s.append(" if ");
            s.append(player_name(problem, r.partner_player).as_str());
            s.append("@");
            s.append(position_name(problem, r.partner_position).as_str());
            s
        },
        _ => String::new(),
    }
}

/// A column of the program as a node: what moves.
#[derive(Debug)]
pub struct VariableNode {
    pub var_index: usize,
    pub node_id: String,
    pub label: Option<String>,
}

/// A row of the program as a node: what it passes.
#[derive(Debug)]
pub struct ConstraintNode {
    pub row_index: usize,
    pub node_id: String,
    pub label: Option<String>,
}

/// A 0/1 program: maximise `c` under the rows `a x <= b`, every variable 0 or 1.
#[derive(Debug)]
pub struct IPMIPProblem {
    pub c: Vec<Real64>,
    pub a: Vec<Vec<i8>>,
    pub b: Vec<i128>,
    /// What each row says.
    pub rows: Vec<RowKind>,
    pub integer_vars: Vec<bool>,
    pub ub: Vec<u8>,
    pub var_names: Vec<String>,
    pub con_names: Vec<String>,
    pub variable_nodes: Vec<VariableNode>,
    pub constraint_nodes: Vec<ConstraintNode>,
}

/// A linear program: maximise `c` under the rows `a_ub x <= b_ub` and `a_eq x = b_eq`, every
/// variable between 0 and 1.
#[derive(Debug)]
pub struct LPProblem {
    pub c: Vec<Real64>,
    pub a_ub: Vec<Vec<i8>>,
    pub b_ub: Vec<i128>,
    /// What each upper-bound row says.
    pub rows: Vec<RowKind>,
    pub a_eq: Vec<Vec<i8>>,
    pub b_eq: Vec<i8>,
    pub ub: Vec<u8>,
}

/// The matrix and the bounds hold the rows.
pub open spec fn holds_rows(
    problem: SoccerProblem,
    program: Program,
    kinds: Seq<RowKind>,
    a: Seq<Vec<i8>>,
    b: Seq<i128>,
) -> bool {
    &&& a.len() == kinds.len()
    &&& b.len() == kinds.len()
    &&& forall|r: int| 0 <= r < a.len() ==> (#[trigger] a[r])@.len() == columns(problem, program)
    &&& forall|r: int, v: int|
        0 <= r < a.len() && 0 <= v < columns(problem, program) ==> #[trigger] a[r]@[v] == weight(
            problem,
            kinds[r],
            column_at(problem, v),
        )
    &&& forall|r: int| 0 <= r < b.len() ==> #[trigger] b[r] == bound(problem, kinds[r])
}

fn build_rows(problem: &SoccerProblem, program: Program, kinds: &Vec<RowKind>) -> (r: (
    Vec<Vec<i8>>,
    Vec<i128>,
))
    requires
        countable(*problem),
        lists_rows(*problem, program, kinds@),
    ensures
        holds_rows(*problem, program, kinds@, r.0@, r.1@),
{
    let n: usize = column_count(problem, program);
    let mut a: Vec<Vec<i8>> = Vec::new();
    let mut b: Vec<i128> = Vec::new();
    let mut i: usize = 0;
    while i < kinds.len()
        invariant
            i <= kinds@.len(),
            n == columns(*problem, program),
            countable(*problem),
            lists_rows(*problem, program, kinds@),
            a@.len() == i,
            b@.len() == i,
            forall|r: int| 0 <= r < i ==> (#[trigger] a@[r])@.len() == n,
            forall|r: int, v: int|
                0 <= r < i && 0 <= v < n ==> #[trigger] a@[r]@[v] == weight(
                    *problem,
                    kinds@[r],
                    column_at(*problem, v),
                ),
            forall|r: int| 0 <= r < i ==> #[trigger] b@[r] == bound(*problem, kinds@[r]),
        decreases kinds@.len() - i,
    {
        let kind: RowKind = kinds[i];
        assert(applies(*problem, program, kinds@[i as int]));
        let mut row: Vec<i8> = Vec::new();
        let mut v: usize = 0;
        while v < n
            invariant
                v <= n,
                n == columns(*problem, program),
                countable(*problem),
                applies(*problem, program, kind),
                row@.len() == v,
                forall|w: int|
                    0 <= w < v ==> #[trigger] row@[w] == weight(
                        *problem,
                        kind,
                        column_at(*problem, w),
                    ),
            decreases n - v,
        {
            let column: Column = column_of(problem, program, v);
            row.push(weight_of(problem, Ghost(program), kind, column));
            v += 1;
        }
        a.push(row);
        b.push(bound_of(problem, Ghost(program), kind));
        i += 1;
    }
    (a, b)
}

/// The score of a cell in the linear objective after the first `n` rules: the last rule for the
/// cell takes it down to its score without the partner.
pub open spec fn base_score(
    problem: SoccerProblem,
    player: int,
    position: int,
    period: int,
    n: int,
) -> Real64
    decreases n,
{
    if n <= 0 {
        problem.affinity@[player]@[position]@[period]
    } else {
        let rule = problem.synergy_rules->0@[n - 1];
        if rule.player == player && rule.position == position {
            rule.score_without
        } else {
            base_score(problem, player, position, period, n - 1)
        }
    }
}

/// The rule is the one that scores its cell: no later rule is for the same player and position.
pub open spec fn scores_its_cell(problem: SoccerProblem, rule: int) -> bool {
    let rules = problem.synergy_rules->0@;
    forall|j: int|
        rule < j < rules.len() ==> !((#[trigger] rules[j]).player == rules[rule].player
            && rules[j].position == rules[rule].position)
}

/// The objective entry of a column: the score of a position, and for the two players of the rule
/// that scores a cell by how much the score with the partner is above the score without. A rule
/// that a later one overrules pays nothing.
pub open spec fn objective_entry<P: Fn(Real64, Real64) -> Real64>(
    problem: SoccerProblem,
    plus: P,
    column: Column,
) -> Real64 {
    match column {
        Column::Field { player, position, period } => base_score(
            problem,
            player as int,
            position as int,
            period as int,
            rule_count(problem),
        ),
        Column::Together { rule, period } => {
            let r = problem.synergy_rules->0@[rule as int];
            if scores_its_cell(problem, rule as int) {
                outcome(plus, r.score_with, r.score_without.negated())
            } else {
                Real64 { bits: 0 }
            }
        },
        _ => Real64 { bits: 0 },
    }
}

fn finds_no_later_rule(rules: &Vec<PositionSynergyRule>, rule: usize) -> (r: bool)
    requires
        rule < rules@.len(),
    ensures
        r == forall|j: int|
            rule < j < rules@.len() ==> !((#[trigger] rules@[j]).player
                == rules@[rule as int].player && rules@[j].position
                == rules@[rule as int].position),
{
    let n: usize = rules.len();
    let mut j: usize = rule + 1;
    while j < n
        invariant
            rule < j <= n,
            n == rules@.len(),
            forall|i: int|
                rule < i < j ==> !((#[trigger] rules@[i]).player == rules@[rule as int].player
                    && rules@[i].position == rules@[rule as int].position),
        decreases rules@.len() - j,
    {
        if rules[j].player == rules[rule].player && rules[j].position == rules[rule].position {
            return false;
        }
        j += 1;
    }
    true
}

fn base_score_of(
    problem: &SoccerProblem,
    player: usize,
    position: usize,
    period: usize,
) -> (r: Real64)
    requires
        problem.has_affinities(),
        player < problem.num_players,
        position < problem.num_positions,
        period < problem.num_periods,
    ensures
        r == base_score(
            *problem,
            player as int,
            position as int,
            period as int,
            rule_count(*problem),
        ),
{
    let mut score: Real64 = problem.affinity[player][position][period];
    if let Some(rules) = &problem.synergy_rules {
        let mut i: usize = 0;
        while i < rules.len()
            invariant
                i <= rules@.len(),
                problem.synergy_rules == Some(*rules),
                score == base_score(
                    *problem,
                    player as int,
                    position as int,
                    period as int,
                    i as int,
                ),
            decreases rules@.len() - i,
        {
            if rules[i].player == player && rules[i].position == position {
                score = rules[i].score_without;
            }
            i += 1;
        }
    }
    score
}

fn objective_of<P: Fn(Real64, Real64) -> Real64>(
    problem: &SoccerProblem,
    column: Column,
    plus: &P,
) -> (r: Real64)
    requires
        problem.has_affinities(),
        is_operation(*plus),
        column_in_range(*problem, column),
    ensures
        r == objective_entry(*problem, *plus, column),
{
    match column {
        Column::Field { player, position, period } => base_score_of(
            problem,
            player,
            position,
            period,
        ),
        Column::Together { rule, .. } => match &problem.synergy_rules {
            Some(rules) => {
                let r: &PositionSynergyRule = &rules[rule];
                if finds_no_later_rule(rules, rule) {
                    apply(plus, r.score_with, r.score_without.negate())
                } else {
                    Real64 { bits: 0 }
                }
            },
            None => Real64 { bits: 0 },
        },
        _ => Real64 { bits: 0 },
    }
}

/// Every column of a program is in range.
proof fn columns_are_in_range(problem: SoccerProblem, program: Program, v: int)
    requires
        countable(problem),
        0 <= v < columns(problem, program),
    ensures
        column_in_range(problem, column_at(problem, v)),
        v < field_columns(problem) ==> column_at(problem, v) is Field,
        field_columns(problem) <= v < field_columns(problem) + rule_columns(problem) ==> column_at(
            problem,
            v,
        ) is Together,
        0 <= field_columns(problem),
        0 <= rule_columns(problem),
{
    crate::rotation::rows::columns_are_countable(problem);
    let p = problem.num_players as int;
    let k = problem.num_positions as int;
    let t = problem.num_periods as int;
    let r = rule_count(problem);
    let a = v - field_columns(problem);
    let b = a - rule_columns(problem);
    if v < field_columns(problem) {
        block_bounds(v, p * k, t);
        block_bounds(v / t, p, k);
    } else if a < rule_columns(problem) {
        block_bounds(a, r, t);
    } else if b < crate::rotation::rows::on_columns(problem) {
        block_bounds(b, p, t);
    } else {
        block_bounds(b - crate::rotation::rows::on_columns(problem), p, t - 1);
    }
}

/// A number below `q * t` has its quotient below `q` and its remainder below `t`.
proof fn block_bounds(v: int, q: int, t: int)
    requires
        0 <= v < q * t,
        t > 0,
    ensures
        0 <= v / t < q,
        0 <= v % t < t,
{
    assert(0 <= v / t < q && 0 <= v % t < t) by (nonlinear_arith)
        requires
            0 <= v < q * t,
            t > 0,
    ;
}

/// The rows that have a station, among the first `n`.
pub open spec fn station_rows(problem: SoccerProblem, kinds: Seq<RowKind>, n: int) -> Seq<int>
    decreases n,
{
    if n <= 0 {
        Seq::empty()
    } else if row_station(problem, kinds[n - 1]) is Some {
        station_rows(problem, kinds, n - 1).push(n - 1)
    } else {
        station_rows(problem, kinds, n - 1)
    }
}

/// The node stands for row `r`.
pub open spec fn stands_for_row(
    problem: SoccerProblem,
    kinds: Seq<RowKind>,
    node: ConstraintNode,
    r: int,
) -> bool {
    &&& node.row_index == r
    &&& row_station(problem, kinds[r]) is Some
    &&& node.node_id@ == (row_station(problem, kinds[r])->0).0
    &&& node.label is Some
    &&& node.label->0@ == (row_station(problem, kinds[r])->0).1
}

/// The node stands for column `v`.
pub open spec fn stands_for_column(problem: SoccerProblem, node: VariableNode, v: int) -> bool {
    &&& node.var_index == v
    &&& column_node(problem, column_at(problem, v)) is Some
    &&& node.node_id@ == (column_node(problem, column_at(problem, v))->0).0
    &&& node.label is Some
    &&& node.label->0@ == (column_node(problem, column_at(problem, v))->0).1
}

/// Whether a row has a station.
fn has_station(kind: RowKind) -> (b: bool)
    ensures
        forall|problem: SoccerProblem|
            b == (#[trigger] row_station(problem, kind) is Some),
{
    match kind {
        RowKind::FixedPlays { .. } => false,
        RowKind::FixedBan { .. } => false,
        RowKind::Synergy { .. } => false,
        RowKind::OnLink { .. } => false,
        RowKind::OnHolds { .. } => false,
        RowKind::SubOff { .. } => false,
        _ => true,
    }
}

fn name_rows(problem: &SoccerProblem, kinds: &Vec<RowKind>) -> (r: (
    Vec<String>,
    Vec<ConstraintNode>,
))
    requires
        countable(*problem),
        rules_in_range(*problem),
        lists_rows(*problem, Program::Exact, kinds@),
    ensures
        r.0@.len() == kinds@.len(),
        forall|i: int|
            0 <= i < kinds@.len() ==> (#[trigger] r.0@[i])@ == row_name(*problem, kinds@[i]),
        r.1@.len() == station_rows(*problem, kinds@, kinds@.len() as int).len(),
        forall|i: int|
            0 <= i < r.1@.len() ==> stands_for_row(
                *problem,
                kinds@,
                #[trigger] r.1@[i],
                station_rows(*problem, kinds@, kinds@.len() as int)[i],
            ),
{
    let mut names: Vec<String> = Vec::new();
    let mut nodes: Vec<ConstraintNode> = Vec::new();
    let mut i: usize = 0;
    while i < kinds.len()
        invariant
            i <= kinds@.len(),
            countable(*problem),
            rules_in_range(*problem),
            lists_rows(*problem, Program::Exact, kinds@),
            names@.len() == i,
            forall|k: int|
                0 <= k < i ==> (#[trigger] names@[k])@ == row_name(*problem, kinds@[k]),
            nodes@.len() == station_rows(*problem, kinds@, i as int).len(),
            forall|k: int|
                0 <= k < nodes@.len() ==> stands_for_row(
                    *problem,
                    kinds@,
                    #[trigger] nodes@[k],
                    station_rows(*problem, kinds@, i as int)[k],
                ),
        decreases kinds@.len() - i,
    {
        let kind: RowKind = kinds[i];
        assert(applies(*problem, Program::Exact, kinds@[i as int]));
        names.push(name_row(problem, Ghost(Program::Exact), kind));
        let ghost before = nodes@;
        if has_station(kind) {
            assert(row_station(*problem, kind) is Some);
            nodes.push(
                ConstraintNode {
                    row_index: i,
                    node_id: station_id(problem, Ghost(Program::Exact), kind),
                    label: Some(station_label(problem, Ghost(Program::Exact), kind)),
                },
            );
            proof {
                assert forall|k: int| 0 <= k < nodes@.len() implies stands_for_row(
                    *problem,
                    kinds@,
                    #[trigger] nodes@[k],
                    station_rows(*problem, kinds@, i + 1)[k],
                ) by {
                    if k < before.len() {
                        assert(nodes@[k] == before[k]);
                    }
                }
            }
        } else {
            assert(row_station(*problem, kind) is None);
        }
        i += 1;
    }
    (names, nodes)
}

/// The exact program of a rotation problem with the scheme of its columns.
#[derive(Debug)]
pub struct SoccerIPMIPModel {
    pub ip: IPMIPProblem,
    pub num_positions: usize,
    pub num_periods: usize,
    /// How many columns, at the front, hold a position.
    pub num_x_vars: usize,
}

impl SoccerIPMIPModel {
    /// The number of the column that puts a player at a position in a period.
    pub open spec fn column_number(self, player: int, position: int, period: int) -> int {
        (player * self.num_positions + position) * self.num_periods + period
    }

    pub fn variable_index(&self, player_id: usize, position_id: usize, period: usize) -> (r: usize)
        requires
            self.column_number(player_id as int, position_id as int, period as int) <= usize::MAX,
            player_id * self.num_positions + position_id <= usize::MAX,
        ensures
            r == self.column_number(player_id as int, position_id as int, period as int),
    {
        proof {
            let k = self.num_positions as int;
            let t = self.num_periods as int;
            let p = player_id as int;
            let q = position_id as int;
            assert(p * k >= 0) by (nonlinear_arith)
                requires
                    p >= 0,
                    k >= 0,
            ;
            assert((p * k + q) * t >= 0) by (nonlinear_arith)
                requires
                    p * k >= 0,
                    q >= 0,
                    t >= 0,
            ;
        }
        (player_id * self.num_positions + position_id) * self.num_periods + period
    }
}

/// The model is the exact program of the problem.
pub open spec fn models<P: Fn(Real64, Real64) -> Real64>(
    problem: SoccerProblem,
    plus: P,
    m: SoccerIPMIPModel,
) -> bool {
    let n = columns(problem, Program::Exact);
    &&& lists_rows(problem, Program::Exact, m.ip.rows@)
    &&& holds_rows(problem, Program::Exact, m.ip.rows@, m.ip.a@, m.ip.b@)
    &&& m.ip.c@.len() == n
    &&& forall|v: int|
        0 <= v < n ==> #[trigger] m.ip.c@[v] == objective_entry(
            problem,
            plus,
            column_at(problem, v),
        )
    &&& m.ip.integer_vars@ == Seq::new(n as nat, |v: int| true)
    &&& m.ip.ub@ == Seq::new(n as nat, |v: int| 1u8)
    &&& m.ip.var_names@.len() == n
    &&& forall|v: int|
        0 <= v < n ==> (#[trigger] m.ip.var_names@[v])@ == column_name(
            problem,
            column_at(problem, v),
        )
    &&& m.ip.con_names@.len() == m.ip.rows@.len()
    &&& forall|r: int|
        0 <= r < m.ip.rows@.len() ==> (#[trigger] m.ip.con_names@[r])@ == row_name(
            problem,
            m.ip.rows@[r],
        )
    &&& m.ip.variable_nodes@.len() == field_columns(problem) + rule_columns(problem)
    &&& forall|v: int|
        0 <= v < m.ip.variable_nodes@.len() ==> stands_for_column(
            problem,
            #[trigger] m.ip.variable_nodes@[v],
            v,
        )
    &&& m.ip.constraint_nodes@.len() == station_rows(
        problem,
        m.ip.rows@,
        m.ip.rows@.len() as int,
    ).len()
    &&& forall|i: int|
        0 <= i < m.ip.constraint_nodes@.len() ==> stands_for_row(
            problem,
            m.ip.rows@,
            #[trigger] m.ip.constraint_nodes@[i],
            station_rows(problem, m.ip.rows@, m.ip.rows@.len() as int)[i],
        )
    &&& m.num_positions == problem.num_positions
    &&& m.num_periods == problem.num_periods
    &&& m.num_x_vars == field_columns(problem)
}

/// Builds the exact 0/1 program of a problem.
pub fn build_soccer_ipmip<P: Fn(Real64, Real64) -> Real64>(
    problem: &SoccerProblem,
    plus: &P,
) -> (m: SoccerIPMIPModel)
    requires
        countable(*problem),
        problem.has_affinities(),
        rules_in_range(*problem),
        is_operation(*plus),
    ensures
        models(*problem, *plus, m),
{
    let kinds: Vec<RowKind> = list_rows(problem, Program::Exact);
    let (a, b): (Vec<Vec<i8>>, Vec<i128>) = build_rows(problem, Program::Exact, &kinds);
    let (con_names, constraint_nodes): (Vec<String>, Vec<ConstraintNode>) = name_rows(
        problem,
        &kinds,
    );
    let n: usize = column_count(problem, Program::Exact);
    let field: usize = column_count(problem, Program::Relaxation);
    proof {
        crate::rotation::rows::columns_are_countable(*problem);
    }
    let noted: usize = field + rules_len(problem) * problem.num_periods;
    let mut c: Vec<Real64> = Vec::new();
    let mut integer_vars: Vec<bool> = Vec::new();
    let mut ub: Vec<u8> = Vec::new();
    let mut var_names: Vec<String> = Vec::new();
    let mut variable_nodes: Vec<VariableNode> = Vec::new();
    let mut v: usize = 0;
    while v < n
        invariant
            v <= n,
            n == columns(*problem, Program::Exact),
            noted == field_columns(*problem) + rule_columns(*problem),
            noted <= n,
            countable(*problem),
            problem.has_affinities(),
            rules_in_range(*problem),
            is_operation(*plus),
            c@.len() == v,
            forall|w: int|
                0 <= w < v ==> #[trigger] c@[w] == objective_entry(
                    *problem,
                    *plus,
                    column_at(*problem, w),
                ),
            integer_vars@ == Seq::new(v as nat, |w: int| true),
            ub@ == Seq::new(v as nat, |w: int| 1u8),
            var_names@.len() == v,
            forall|w: int|
                0 <= w < v ==> (#[trigger] var_names@[w])@ == column_name(
                    *problem,
                    column_at(*problem, w),
                ),
            variable_nodes@.len() == if v < noted {
                v as int
            } else {
                noted as int
            },
            forall|w: int|
                0 <= w < variable_nodes@.len() ==> stands_for_column(
                    *problem,
                    #[trigger] variable_nodes@[w],
                    w,
                ),
        decreases n - v,
    {
        let column: Column = column_of(problem, Program::Exact, v);
        proof {
            columns_are_in_range(*problem, Program::Exact, v as int);
        }
        c.push(objective_of(problem, column, plus));
        integer_vars.push(true);
        ub.push(1);
        var_names.push(name_column(problem, column));
        if v < noted {
            variable_nodes.push(
                VariableNode {
                    var_index: v,
                    node_id: node_id(problem, column),
                    label: Some(node_label(problem, column)),
                },
            );
        }
        v += 1;
        assert(integer_vars@ =~= Seq::new(v as nat, |w: int| true));
        assert(ub@ =~= Seq::new(v as nat, |w: int| 1u8));
    }
    SoccerIPMIPModel {
        ip: IPMIPProblem {
            c,
            a,
            b,
            rows: kinds,
            integer_vars,
            ub,
            var_names,
            con_names,
            variable_nodes,
            constraint_nodes,
        },
        num_positions: problem.num_positions,
        num_periods: problem.num_periods,
        num_x_vars: field,
    }
}

/// The coefficient of a column in the equation that fills position `e / periods` in period
/// `e % periods`.
pub open spec fn fill_weight(problem: SoccerProblem, e: int, column: Column) -> int {
    match column {
        Column::Field { player, position, period } => if position == e / (
        problem.num_periods as int) && period == e % (problem.num_periods as int) {
            1
        } else {
            0
        },
        _ => 0,
    }
}

/// The program is the linear relaxation of the problem.
pub open spec fn relaxes(problem: SoccerProblem, lp: LPProblem) -> bool {
    let n = field_columns(problem);
    &&& lists_rows(problem, Program::Relaxation, lp.rows@)
    &&& holds_rows(problem, Program::Relaxation, lp.rows@, lp.a_ub@, lp.b_ub@)
    &&& lp.c@.len() == n
    &&& forall|v: int|
        0 <= v < n ==> #[trigger] lp.c@[v] == {
            let column = column_at(problem, v);
            problem.affinity@[column->Field_player as int]@[column->Field_position as int]@[column->Field_period as int]
        }
    &&& lp.a_eq@.len() == problem.num_positions * problem.num_periods
    &&& forall|e: int| 0 <= e < lp.a_eq@.len() ==> (#[trigger] lp.a_eq@[e])@.len() == n
    &&& forall|e: int, v: int|
        0 <= e < lp.a_eq@.len() && 0 <= v < n ==> #[trigger] lp.a_eq@[e]@[v] == fill_weight(
            problem,
            e,
            column_at(problem, v),
        )
    &&& lp.b_eq@ == Seq::new((problem.num_positions * problem.num_periods) as nat, |e: int| 1i8)
    &&& lp.ub@ == Seq::new(n as nat, |v: int| 1u8)
}

/// Builds the linear relaxation of a problem.
pub fn build_soccer_lp(problem: &SoccerProblem) -> (lp: LPProblem)
    requires
        countable(*problem),
        problem.has_affinities(),
        problem.num_positions * problem.num_periods <= usize::MAX,
    ensures
        relaxes(*problem, lp),
{
    let kinds: Vec<RowKind> = list_rows(problem, Program::Relaxation);
    let (a_ub, b_ub): (Vec<Vec<i8>>, Vec<i128>) = build_rows(problem, Program::Relaxation, &kinds);
    let n: usize = column_count(problem, Program::Relaxation);
    let mut c: Vec<Real64> = Vec::new();
    let mut ub: Vec<u8> = Vec::new();
    let mut v: usize = 0;
    while v < n
        invariant
            v <= n,
            n == columns(*problem, Program::Relaxation),
            countable(*problem),
            problem.has_affinities(),
            c@.len() == v,
            forall|w: int|
                0 <= w < v ==> #[trigger] c@[w] == {
                    let column = column_at(*problem, w);
                    problem.affinity@[column->Field_player as int]@[column->Field_position as int]@[column->Field_period as int]
                },
            ub@ == Seq::new(v as nat, |w: int| 1u8),
        decreases n - v,
    {
        proof {
            columns_are_in_range(*problem, Program::Relaxation, v as int);
        }
        if let Column::Field { player, position, period } = column_of(
            problem,
            Program::Relaxation,
            v,
        ) {
            c.push(problem.affinity[player][position][period]);
        }
        ub.push(1);
        v += 1;
        assert(ub@ =~= Seq::new(v as nat, |w: int| 1u8));
    }
    proof {
        let k = problem.num_positions as int;
        let t = problem.num_periods as int;
        assert(k * t >= 0) by (nonlinear_arith)
            requires
                k >= 0,
                t >= 0,
        ;
        assert(k * 0 == 0);
    }
    let equations: usize = problem.num_positions * problem.num_periods;
    let mut a_eq: Vec<Vec<i8>> = Vec::new();
    let mut b_eq: Vec<i8> = Vec::new();
    let mut e: usize = 0;
    while e < equations
        invariant
            e <= equations,
            equations == problem.num_positions * problem.num_periods,
            equations > 0 ==> problem.num_periods > 0,
            n == columns(*problem, Program::Relaxation),
            countable(*problem),
            a_eq@.len() == e,
            forall|r: int| 0 <= r < e ==> (#[trigger] a_eq@[r])@.len() == n,
            forall|r: int, w: int|
                0 <= r < e && 0 <= w < n ==> #[trigger] a_eq@[r]@[w] == fill_weight(
                    *problem,
                    r,
                    column_at(*problem, w),
                ),
            b_eq@ == Seq::new(e as nat, |r: int| 1i8),
        decreases equations - e,
    {
        let place: usize = e / problem.num_periods;
        let moment: usize = e % problem.num_periods;
        let mut row: Vec<i8> = Vec::new();
        let mut w: usize = 0;
        while w < n
            invariant
                w <= n,
                n == columns(*problem, Program::Relaxation),
                countable(*problem),
                place == e as int / (problem.num_periods as int),
                moment == e as int % (problem.num_periods as int),
                row@.len() == w,
                forall|u: int|
                    0 <= u < w ==> #[trigger] row@[u] == fill_weight(
                        *problem,
                        e as int,
                        column_at(*problem, u),
                    ),
            decreases n - w,
        {
            let mut entry: i8 = 0;
            if let Column::Field { position, period, .. } = column_of(
                problem,
                Program::Relaxation,
                w,
            ) {
                if position == place && period == moment {
                    entry = 1;
                }
            }
            row.push(entry);
            w += 1;
        }
        a_eq.push(row);
        b_eq.push(1);
        e += 1;
        assert(b_eq@ =~= Seq::new(e as nat, |r: int| 1i8));
    }
    LPProblem { c, a_ub, b_ub, rows: kinds, a_eq, b_eq, ub }
}

/// The column number and the column tell the same: every player, position and period has its
/// own column.
pub proof fn columns_are_numbered(
    problem: SoccerProblem,
    player: int,
    position: int,
    period: int,
)
    requires
        0 <= player < problem.num_players,
        0 <= position < problem.num_positions,
        0 <= period < problem.num_periods,
    ensures
        ({
            let v = (player * problem.num_positions + position) * problem.num_periods + period;
            0 <= v < field_columns(problem) && column_at(problem, v) == (Column::Field {
                player: player as usize,
                position: position as usize,
                period: period as usize,
            })
        }),
{
    let k = problem.num_positions as int;
    let t = problem.num_periods as int;
    let p = problem.num_players as int;
    let q = player * k + position;
    let v = q * t + period;
    block_parts(player, position, k);
    block_parts(q, period, t);
    assert(0 <= q < p * k) by (nonlinear_arith)
        requires
            0 <= player < p,
            0 <= position < k,
            q == player * k + position,
    ;
    assert(0 <= v < (p * k) * t) by (nonlinear_arith)
        requires
            0 <= q < p * k,
            0 <= period < t,
            v == q * t + period,
    ;
}

proof fn block_parts(q: int, r: int, t: int)
    requires
        0 <= q,
        0 <= r < t,
    ensures
        (q * t + r) / t == q,
        (q * t + r) % t == r,
{
    vstd::arithmetic::div_mod::lemma_fundamental_div_mod_converse(q * t + r, t, q, r);
}

} // verus!
