//! Teams, roles and phases of play.
use crate::number::Real64;
use vstd::prelude::*;

verus! {

/// A pair of coordinates.
#[derive(Clone, Copy, Debug, PartialEq, Eq, Structural)]
pub struct Vec2 {
    pub x: Real64,
    pub y: Real64,
}

/// The two sides of a match.
#[derive(Clone, Copy, Debug, PartialEq, Eq, Hash, Structural)]
pub enum Team {
    Home,
    Away,
}

impl Team {
    /// The lower-case name of the side.
    pub open spec fn lower_name(self) -> Seq<char> {
        match self {
            Team::Home => "home"@,
            Team::Away => "away"@,
        }
    }

    /// The other side.
    pub open spec fn opponent(self) -> Team {
        match self {
            Team::Home => Team::Away,
            Team::Away => Team::Home,
        }
    }

    pub fn lower_label(self) -> (r: &'static str)
        ensures
            r@ == self.lower_name(),
    {
        match self {
            Team::Home => "home",
            Team::Away => "away",
        }
    }

    pub fn other(self) -> (r: Team)
        ensures
            r == self.opponent(),
    {
        match self {
            Team::Home => Team::Away,
            Team::Away => Team::Home,
        }
    }
}

/// The line a player belongs to.
#[derive(Clone, Copy, Debug, PartialEq, Eq, Hash, Structural)]
pub enum PlayerRole {
    Goalkeeper,
    Defender,
    Midfielder,
    Forward,
}

impl PlayerRole {
    /// The line's place from the own goal forward.
    pub open spec fn depth(self) -> int {
        match self {
            PlayerRole::Goalkeeper => 0,
            PlayerRole::Defender => 1,
            PlayerRole::Midfielder => 2,
            PlayerRole::Forward => 3,
        }
    }

    pub fn rank(self) -> (r: u8)
        ensures
            r == self.depth(),
    {
        match self {
            PlayerRole::Goalkeeper => 0,
            PlayerRole::Defender => 1,
            PlayerRole::Midfielder => 2,
            PlayerRole::Forward => 3,
        }
    }
}

/// What the match as a whole is doing.
#[derive(Clone, Copy, Debug, PartialEq, Eq, Hash, Structural)]
pub enum TacticalPhase {
    Kickoff,
    HomeBuildUp,
    HomeAttack,
    AwayBuildUp,
    AwayAttack,
    Transition,
}

/// What one team is doing.
#[derive(Clone, Copy, Debug, PartialEq, Eq, Hash, Structural)]
pub enum TeamBrainMode {
    Kickoff,
    Attack,
    BuildUp,
    Defend,
    Transition,
}

impl Default for TeamBrainMode {
    fn default() -> (r: Self)
        ensures
            r == TeamBrainMode::Transition,
    {
        TeamBrainMode::Transition
    }
}

/// The phase in which a team attacks.
pub open spec fn attack_phase(team: Team) -> TacticalPhase {
    match team {
        Team::Home => TacticalPhase::HomeAttack,
        Team::Away => TacticalPhase::AwayAttack,
    }
}

/// What a team is doing in a phase, given who has the ball.
pub open spec fn mode_of(
    team: Team,
    phase: TacticalPhase,
    possession_team: Option<Team>,
) -> TeamBrainMode {
    if phase == TacticalPhase::Kickoff {
        TeamBrainMode::Kickoff
    } else if possession_team is None {
        TeamBrainMode::Transition
    } else if possession_team != Some(team) {
        TeamBrainMode::Defend
    } else if phase == attack_phase(team) {
        TeamBrainMode::Attack
    } else {
        TeamBrainMode::BuildUp
    }
}

pub fn team_brain_mode_for(
    team: Team,
    phase: TacticalPhase,
    possession_team: Option<Team>,
) -> (r: TeamBrainMode)
    ensures
        r == mode_of(team, phase, possession_team),
{
    if phase == TacticalPhase::Kickoff {
        return TeamBrainMode::Kickoff;
    }
    match possession_team {
        Some(possession) => if possession == team {
            match (team, phase) {
                (Team::Home, TacticalPhase::HomeAttack) => TeamBrainMode::Attack,
                (Team::Away, TacticalPhase::AwayAttack) => TeamBrainMode::Attack,
                _ => TeamBrainMode::BuildUp,
            }
        } else {
            TeamBrainMode::Defend
        },
        None => TeamBrainMode::Transition,
    }
}

/// Outside kickoff, while a team has the ball it attacks or builds up and the other team
/// defends; while no team has it both are in transition.
pub proof fn modes_are_opposed(team: Team, phase: TacticalPhase, possession_team: Option<Team>)
    requires
        phase != TacticalPhase::Kickoff,
    ensures
        possession_team == Some(team) ==> {
            &&& mode_of(team, phase, possession_team) == TeamBrainMode::Attack || mode_of(
                team,
                phase,
                possession_team,
            ) == TeamBrainMode::BuildUp
            &&& mode_of(team.opponent(), phase, possession_team) == TeamBrainMode::Defend
        },
        possession_team is None ==> mode_of(team, phase, possession_team)
            == TeamBrainMode::Transition,
{
}

} // verus!
