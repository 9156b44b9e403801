//! The decoded snapshot and its parts.

use crate::constants::{
    GAME_OPTION_ANTIDOTE, GAME_OPTION_FLAGS, GAME_OPTION_HANDICAP, GAME_OPTION_INERTIA,
    GAME_OPTION_JUMPING, GAME_OPTION_NO_TEAM_KILLS, GAME_OPTION_RICOCHET, GAME_OPTION_SHAKING,
};
use crate::error::QueryError;
use vstd::prelude::*;

verus! {

/// The style of game a server runs. On the wire it is a 16-bit index, 0 to 3.
#[derive(Debug, Clone, Copy, PartialEq, Eq)]
pub enum GameType {
    FFA,
    CTF,
    OFFA,
    Rabbit,
}

impl GameType {
    /// The wire index of a style.
    pub open spec fn spec_index(self) -> u16 {
        match self {
            GameType::FFA => 0,
            GameType::CTF => 1,
            GameType::OFFA => 2,
            GameType::Rabbit => 3,
        }
    }

    /// The style with wire index `style`, if there is one.
    pub open spec fn spec_from_index(style: u16) -> Option<GameType> {
        if style == 0 {
            Some(GameType::FFA)
        } else if style == 1 {
            Some(GameType::CTF)
        } else if style == 2 {
            Some(GameType::OFFA)
        } else if style == 3 {
            Some(GameType::Rabbit)
        } else {
            None
        }
    }

    /// The wire index of this style.
    pub fn index(self) -> (r: u16)
        ensures
            r == self.spec_index(),
    {
        match self {
            GameType::FFA => 0,
            GameType::CTF => 1,
            GameType::OFFA => 2,
            GameType::Rabbit => 3,
        }
    }

    /// Converts a wire index to a style. An index above 3 is out of range.
    pub fn from_index(style: u16) -> (r: Result<GameType, QueryError>)
        ensures
            r == match GameType::spec_from_index(style) {
                Some(g) => Ok::<GameType, QueryError>(g),
                None => Err::<GameType, QueryError>(QueryError::InvalidEnumValue { value: style }),
            },
    {
        match style {
            0 => Ok(GameType::FFA),
            1 => Ok(GameType::CTF),
            2 => Ok(GameType::OFFA),
            3 => Ok(GameType::Rabbit),
            _ => Err(QueryError::InvalidEnumValue { value: style }),
        }
    }
}

/// The colour of a team. On the wire it is a 16-bit index, 0 to 7.
#[derive(Debug, Clone, Copy, PartialEq, Eq)]
pub enum TeamColor {
    Rogue,
    Red,
    Green,
    Blue,
    Purple,
    Observer,
    Rabbit,
    Hunter,
}

impl TeamColor {
    /// The wire index of a colour.
    pub open spec fn spec_index(self) -> u16 {
        match self {
            TeamColor::Rogue => 0,
            TeamColor::Red => 1,
            TeamColor::Green => 2,
            TeamColor::Blue => 3,
            TeamColor::Purple => 4,
            TeamColor::Observer => 5,
            TeamColor::Rabbit => 6,
            TeamColor::Hunter => 7,
        }
    }

    /// The colour with wire index `team`, if there is one.
    pub open spec fn spec_from_index(team: u16) -> Option<TeamColor> {
        if team == 0 {
            Some(TeamColor::Rogue)
        } else if team == 1 {
            Some(TeamColor::Red)
        } else if team == 2 {
            Some(TeamColor::Green)
        } else if team == 3 {
            Some(TeamColor::Blue)
        } else if team == 4 {
            Some(TeamColor::Purple)
        } else if team == 5 {
            Some(TeamColor::Observer)
        } else if team == 6 {
            Some(TeamColor::Rabbit)
        } else if team == 7 {
            Some(TeamColor::Hunter)
        } else {
            None
        }
    }

    /// The wire index of this colour.
    pub fn index(self) -> (r: u16)
        ensures
            r == self.spec_index(),
    {
        match self {
            TeamColor::Rogue => 0,
            TeamColor::Red => 1,
            TeamColor::Green => 2,
            TeamColor::Blue => 3,
            TeamColor::Purple => 4,
            TeamColor::Observer => 5,
            TeamColor::Rabbit => 6,
            TeamColor::Hunter => 7,
        }
    }

    /// Converts a wire index to a colour. An index above 7 is out of range.
    pub fn from_index(team: u16) -> (r: Result<TeamColor, QueryError>)
        ensures
            r == match TeamColor::spec_from_index(team) {
                Some(c) => Ok::<TeamColor, QueryError>(c),
                None => Err::<TeamColor, QueryError>(QueryError::InvalidEnumValue { value: team }),
            },
    {
        match team {
            0 => Ok(TeamColor::Rogue),
            1 => Ok(TeamColor::Red),
            2 => Ok(TeamColor::Green),
            3 => Ok(TeamColor::Blue),
            4 => Ok(TeamColor::Purple),
            5 => Ok(TeamColor::Observer),
            6 => Ok(TeamColor::Rabbit),
            7 => Ok(TeamColor::Hunter),
            _ => Err(QueryError::InvalidEnumValue { value: team }),
        }
    }
}

/// A style index converts exactly when it is at most 3, and a style converts
/// back from its own index.
pub proof fn lemma_game_type_index(style: u16, game: GameType)
    ensures
        GameType::spec_from_index(style) is Some <==> style <= 3,
        GameType::spec_from_index(style) matches Some(g) ==> g.spec_index() == style,
        GameType::spec_from_index(game.spec_index()) == Some(game),
{
}

/// A colour index converts exactly when it is at most 7, and a colour
/// converts back from its own index.
pub proof fn lemma_team_color_index(team: u16, color: TeamColor)
    ensures
        TeamColor::spec_from_index(team) is Some <==> team <= 7,
        TeamColor::spec_from_index(team) matches Some(c) ==> c.spec_index() == team,
        TeamColor::spec_from_index(color.spec_index()) == Some(color),
{
}

/// Whether the bits of `raw` under `mask` are not all zero.
pub open spec fn flag_set(raw: u16, mask: u16) -> bool {
    raw & mask != 0
}

/// The eight game options, each one bit of a 16-bit field.
#[derive(Debug, Clone, Copy, PartialEq, Eq)]
pub struct Options {
    pub flags: bool,
    pub jumping: bool,
    pub inertia: bool,
    pub ricochet: bool,
    pub shaking: bool,
    pub antidote: bool,
    pub handicap: bool,
    pub no_team_kills: bool,
}

impl Options {
    /// The options that the bit field `raw` stands for: each flag is the
    /// field and-ed with the flag's mask, compared to zero.
    pub open spec fn spec_from_bits(raw: u16) -> Options {
        Options {
            flags: flag_set(raw, GAME_OPTION_FLAGS),
            jumping: flag_set(raw, GAME_OPTION_JUMPING),
            inertia: flag_set(raw, GAME_OPTION_INERTIA),
            ricochet: flag_set(raw, GAME_OPTION_RICOCHET),
            shaking: flag_set(raw, GAME_OPTION_SHAKING),
            antidote: flag_set(raw, GAME_OPTION_ANTIDOTE),
            handicap: flag_set(raw, GAME_OPTION_HANDICAP),
            no_team_kills: flag_set(raw, GAME_OPTION_NO_TEAM_KILLS),
        }
    }

    /// Unpacks the option bit field.
    pub fn from_bits(raw: u16) -> (r: Options)
        ensures
            r == Options::spec_from_bits(raw),
    {
        Options {
            flags: (raw & GAME_OPTION_FLAGS) != 0,
            jumping: (raw & GAME_OPTION_JUMPING) != 0,
            inertia: (raw & GAME_OPTION_INERTIA) != 0,
            ricochet: (raw & GAME_OPTION_RICOCHET) != 0,
            shaking: (raw & GAME_OPTION_SHAKING) != 0,
            antidote: (raw & GAME_OPTION_ANTIDOTE) != 0,
            handicap: (raw & GAME_OPTION_HANDICAP) != 0,
            no_team_kills: (raw & GAME_OPTION_NO_TEAM_KILLS) != 0,
        }
    }
}

/// The standing of one team.
#[derive(Debug, Clone, Copy, PartialEq, Eq)]
pub struct Team {
    pub team: TeamColor,
    pub size: u16,
    pub max_size: u16,
    pub wins: u16,
    pub losses: u16,
}

/// One entry of the roster.
#[derive(Debug, Clone, PartialEq, Eq)]
pub struct Player {
    pub id: u8,
    pub player_type: u16,
    pub team: TeamColor,
    pub wins: u16,
    pub losses: u16,
    pub tks: u16,
    pub callsign: String,
    pub motto: String,
}

/// A roster entry as mathematics: the two texts are sequences of characters.
pub struct PlayerView {
    pub id: u8,
    pub player_type: u16,
    pub team: TeamColor,
    pub wins: u16,
    pub losses: u16,
    pub tks: u16,
    pub callsign: Seq<char>,
    pub motto: Seq<char>,
}

impl View for Player {
    type V = PlayerView;

    open spec fn view(&self) -> PlayerView {
        PlayerView {
            id: self.id,
            player_type: self.player_type,
            team: self.team,
            wins: self.wins,
            losses: self.losses,
            tks: self.tks,
            callsign: self.callsign@,
            motto: self.motto@,
        }
    }
}

/// The views of a sequence of roster entries, in order.
pub open spec fn roster_view(players: Seq<Player>) -> Seq<PlayerView> {
    players.map_values(|p: Player| p@)
}

/// What the game configuration record holds: the scalar fields of the
/// snapshot, and the two values kept for the team decoder.
#[derive(Debug, Clone, Copy, PartialEq, Eq)]
pub struct GameConfig {
    pub style: GameType,
    pub options: Options,
    pub max_players: u16,
    pub max_shots: u16,
    pub shake_wins: u16,
    /// In tenths of a second.
    pub shake_timeout: u16,
    pub max_player_score: u16,
    pub max_team_score: u16,
    pub max_time: u16,
    pub elapsed_time: u16,
    /// Current size of the observer team.
    pub observer_size: u16,
    /// Configured maximum size of each team, by colour index 0 to 5.
    pub max_team_sizes: [u16; 6],
}

/// The result of one query: configuration, team standings and roster.
#[derive(Debug, Clone, PartialEq, Eq)]
pub struct Query {
    pub style: GameType,
    pub options: Options,
    pub max_players: u16,
    pub max_shots: u16,
    pub shake_wins: u16,
    pub shake_timeout: u16,
    pub max_player_score: u16,
    pub max_team_score: u16,
    pub max_time: u16,
    pub elapsed_time: u16,
    pub teams: Vec<Team>,
    pub players: Vec<Player>,
}

/// A snapshot as mathematics.
pub struct QueryView {
    pub style: GameType,
    pub options: Options,
    pub max_players: u16,
    pub max_shots: u16,
    pub shake_wins: u16,
    pub shake_timeout: u16,
    pub max_player_score: u16,
    pub max_team_score: u16,
    pub max_time: u16,
    pub elapsed_time: u16,
    pub teams: Seq<Team>,
    pub players: Seq<PlayerView>,
}

impl View for Query {
    type V = QueryView;

    open spec fn view(&self) -> QueryView {
        QueryView {
            style: self.style,
            options: self.options,
            max_players: self.max_players,
            max_shots: self.max_shots,
            shake_wins: self.shake_wins,
            shake_timeout: self.shake_timeout,
            max_player_score: self.max_player_score,
            max_team_score: self.max_team_score,
            max_time: self.max_time,
            elapsed_time: self.elapsed_time,
            teams: self.teams@,
            players: roster_view(self.players@),
        }
    }
}

/// The snapshot made of a configuration, the teams and the roster.
pub open spec fn spec_assemble(
    config: GameConfig,
    teams: Seq<Team>,
    players: Seq<PlayerView>,
) -> QueryView {
    QueryView {
        style: config.style,
        options: config.options,
        max_players: config.max_players,
        max_shots: config.max_shots,
        shake_wins: config.shake_wins,
        shake_timeout: config.shake_timeout,
        max_player_score: config.max_player_score,
        max_team_score: config.max_team_score,
        max_time: config.max_time,
        elapsed_time: config.elapsed_time,
        teams,
        players,
    }
}

impl Query {
    /// Puts a snapshot together from what the records gave.
    pub fn assemble(config: GameConfig, teams: Vec<Team>, players: Vec<Player>) -> (r: Query)
        ensures
            r@ == spec_assemble(config, teams@, roster_view(players@)),
    {
        Query {
            style: config.style,
            options: config.options,
            max_players: config.max_players,
            max_shots: config.max_shots,
            shake_wins: config.shake_wins,
            shake_timeout: config.shake_timeout,
            max_player_score: config.max_player_score,
            max_team_score: config.max_team_score,
            max_time: config.max_time,
            elapsed_time: config.elapsed_time,
            teams,
            players,
        }
    }
}

} // verus!
