//! The four record decoders. Each maps the payload of one response frame to
//! typed fields; none of them reads or writes anything else.

use crate::constants::{
    CALLSIGN_LEN, GAME_CONFIG_LEN, GAME_OPTION_ANTIDOTE, GAME_OPTION_FLAGS, GAME_OPTION_HANDICAP,
    GAME_OPTION_INERTIA, GAME_OPTION_JUMPING, GAME_OPTION_NO_TEAM_KILLS, GAME_OPTION_RICOCHET,
    GAME_OPTION_SHAKING, MOTTO_LEN, PLAYER_COUNT_LEN, PLAYER_RECORD_LEN, TEAM_BLOCK_LEN,
    TEAM_SIZE_ENTRIES,
};
use crate::error::QueryError;
use crate::field::{read_slot, spec_unpack_u16, unpack_u16};
use crate::model::{GameConfig, GameType, Options, Player, PlayerView, Team, TeamColor};
use crate::text::{decode_text, spec_decode_text};
use vstd::prelude::*;
use vstd::slice::slice_subrange;

verus! {

/// The configuration held by a payload of at least 44 bytes whose style
/// index is `style`'s.
pub open spec fn spec_game_config_fields(payload: Seq<u8>, style: GameType) -> GameConfig {
    GameConfig {
        style,
        options: Options::spec_from_bits(spec_unpack_u16(payload, 1)),
        max_players: spec_unpack_u16(payload, 2),
        max_shots: spec_unpack_u16(payload, 3),
        shake_wins: spec_unpack_u16(payload, 16),
        shake_timeout: spec_unpack_u16(payload, 17),
        max_player_score: spec_unpack_u16(payload, 18),
        max_team_score: spec_unpack_u16(payload, 19),
        max_time: spec_unpack_u16(payload, 20),
        elapsed_time: spec_unpack_u16(payload, 21),
        observer_size: spec_unpack_u16(payload, 9),
        max_team_sizes: [
            spec_unpack_u16(payload, 10),
            spec_unpack_u16(payload, 11),
            spec_unpack_u16(payload, 12),
            spec_unpack_u16(payload, 13),
            spec_unpack_u16(payload, 14),
            spec_unpack_u16(payload, 15),
        ],
    }
}

/// What a game configuration payload decodes to.
///
/// A payload shorter than 44 bytes is truncated. Otherwise slot 0 must hold
/// a style index; the other fields are read from their slots as they are.
pub open spec fn spec_decode_game_config(payload: Seq<u8>) -> Result<GameConfig, QueryError> {
    if payload.len() < GAME_CONFIG_LEN {
        Err(QueryError::TruncatedFrame)
    } else {
        match GameType::spec_from_index(spec_unpack_u16(payload, 0)) {
            Some(style) => Ok(spec_game_config_fields(payload, style)),
            None => Err(QueryError::InvalidEnumValue { value: spec_unpack_u16(payload, 0) }),
        }
    }
}

/// Decodes the payload of a game configuration response.
pub fn decode_game_config(payload: &[u8]) -> (r: Result<GameConfig, QueryError>)
    ensures
        r == spec_decode_game_config(payload@),
{
    if payload.len() < GAME_CONFIG_LEN {
        return Err(QueryError::TruncatedFrame);
    }
    let style = match GameType::from_index(read_slot(payload, 0)) {
        Ok(style) => style,
        Err(e) => {
            return Err(e);
        },
    };
    Ok(
        GameConfig {
            style,
            options: Options::from_bits(read_slot(payload, 1)),
            max_players: read_slot(payload, 2),
            max_shots: read_slot(payload, 3),
            shake_wins: read_slot(payload, 16),
            shake_timeout: read_slot(payload, 17),
            max_player_score: read_slot(payload, 18),
            max_team_score: read_slot(payload, 19),
            max_time: read_slot(payload, 20),
            elapsed_time: read_slot(payload, 21),
            observer_size: read_slot(payload, 9),
            max_team_sizes: [
                read_slot(payload, 10),
                read_slot(payload, 11),
                read_slot(payload, 12),
                read_slot(payload, 13),
                read_slot(payload, 14),
                read_slot(payload, 15),
            ],
        },
    )
}

/// Every game configuration that decodes has each option flag set exactly
/// when the option field, and-ed with that flag's mask, is not zero.
pub proof fn lemma_options_follow_masks(payload: Seq<u8>)
    requires
        spec_decode_game_config(payload) is Ok,
    ensures
        ({
            let options = spec_decode_game_config(payload)->Ok_0.options;
            let raw = spec_unpack_u16(payload, 1);
            &&& options.flags == (raw & GAME_OPTION_FLAGS != 0)
            &&& options.jumping == (raw & GAME_OPTION_JUMPING != 0)
            &&& options.inertia == (raw & GAME_OPTION_INERTIA != 0)
            &&& options.ricochet == (raw & GAME_OPTION_RICOCHET != 0)
            &&& options.shaking == (raw & GAME_OPTION_SHAKING != 0)
            &&& options.antidote == (raw & GAME_OPTION_ANTIDOTE != 0)
            &&& options.handicap == (raw & GAME_OPTION_HANDICAP != 0)
            &&& options.no_team_kills == (raw & GAME_OPTION_NO_TEAM_KILLS != 0)
        }),
{
}

/// What a player count payload decodes to: the value of slot 1.
pub open spec fn spec_decode_player_count(payload: Seq<u8>) -> Result<u16, QueryError> {
    if payload.len() < PLAYER_COUNT_LEN {
        Err(QueryError::TruncatedFrame)
    } else {
        Ok(spec_unpack_u16(payload, 1))
    }
}

/// Decodes the payload of a player count response: the number of player
/// records that the server will send.
pub fn decode_player_count(payload: &[u8]) -> (r: Result<u16, QueryError>)
    ensures
        r == spec_decode_player_count(payload@),
{
    unpack_u16(payload, 1)
}

/// The part of a team update or player record that follows its first byte:
/// the bytes that the slots of such a record are counted from.
pub open spec fn after_first_byte(payload: Seq<u8>) -> Seq<u8> {
    payload.subrange(1, payload.len() as int)
}

/// Whether a team update payload is too short for the number of teams that
/// its first byte announces.
pub open spec fn team_update_truncated(payload: Seq<u8>) -> bool {
    payload.len() == 0 || payload.len() < 1 + TEAM_BLOCK_LEN * payload[0]
}

/// Slot `k` of team block `i`: the blocks follow the count byte, four slots
/// each.
pub open spec fn team_slot(payload: Seq<u8>, i: int, k: int) -> u16 {
    spec_unpack_u16(after_first_byte(payload), 4 * i + k)
}

/// The team that block `i` of a team update describes: colour index, size,
/// wins and losses in that order, and the configured maximum size of that
/// colour. A colour index without an entry in the table of sizes is out of
/// range.
pub open spec fn spec_team(payload: Seq<u8>, i: int, max_team_sizes: [u16; 6]) -> Result<
    Team,
    QueryError,
> {
    let index = team_slot(payload, i, 0);
    match TeamColor::spec_from_index(index) {
        Some(team) if index < TEAM_SIZE_ENTRIES => Ok(
            Team {
                team,
                size: team_slot(payload, i, 1),
                max_size: max_team_sizes[index as int],
                wins: team_slot(payload, i, 2),
                losses: team_slot(payload, i, 3),
            },
        ),
        _ => Err(QueryError::InvalidEnumValue { value: index }),
    }
}

/// The first `n` teams of a team update, in the order of their blocks, or
/// the error of the first block that does not decode.
pub open spec fn spec_teams(payload: Seq<u8>, n: nat, max_team_sizes: [u16; 6]) -> Result<
    Seq<Team>,
    QueryError,
>
    decreases n,
{
    if n == 0 {
        Ok(Seq::empty())
    } else {
        match spec_teams(payload, (n - 1) as nat, max_team_sizes) {
            Err(e) => Err(e),
            Ok(teams) => match spec_team(payload, n - 1, max_team_sizes) {
                Err(e) => Err(e),
                Ok(team) => Ok(teams.push(team)),
            },
        }
    }
}

/// The observer team. It is not part of a team update: its size and its
/// maximum size come from the game configuration, and it has no score.
pub open spec fn spec_observer_team(observer_size: u16, max_team_sizes: [u16; 6]) -> Team {
    Team {
        team: TeamColor::Observer,
        size: observer_size,
        max_size: max_team_sizes[5],
        wins: 0,
        losses: 0,
    }
}

/// What a team update payload decodes to: the teams it reports, in order,
/// and the observer team after them.
pub open spec fn spec_decode_team_update(
    payload: Seq<u8>,
    observer_size: u16,
    max_team_sizes: [u16; 6],
) -> Result<Seq<Team>, QueryError> {
    if team_update_truncated(payload) {
        Err(QueryError::TruncatedFrame)
    } else {
        match spec_teams(payload, payload[0] as nat, max_team_sizes) {
            Err(e) => Err(e),
            Ok(teams) => Ok(teams.push(spec_observer_team(observer_size, max_team_sizes))),
        }
    }
}

/// Once a block fails to decode, so does every longer run of blocks, with
/// the same error.
proof fn lemma_teams_error_stays(payload: Seq<u8>, failed: nat, n: nat, max_team_sizes: [u16; 6])
    requires
        failed <= n,
        spec_teams(payload, failed, max_team_sizes) is Err,
    ensures
        spec_teams(payload, n, max_team_sizes) == spec_teams(payload, failed, max_team_sizes),
    decreases n,
{
    if failed < n {
        lemma_teams_error_stays(payload, failed, (n - 1) as nat, max_team_sizes);
    }
}

/// A team update that decodes gives one team for each block, in the order
/// of the blocks, and the observer team last, with no wins and no losses.
pub proof fn lemma_team_update_shape(
    payload: Seq<u8>,
    observer_size: u16,
    max_team_sizes: [u16; 6],
)
    requires
        spec_decode_team_update(payload, observer_size, max_team_sizes) is Ok,
    ensures
        ({
            let teams = spec_decode_team_update(payload, observer_size, max_team_sizes)->Ok_0;
            let count = payload[0] as int;
            &&& teams.len() == count + 1
            &&& forall|i: int|
                0 <= i < count ==> spec_team(payload, i, max_team_sizes) == Ok::<Team, QueryError>(
                    #[trigger] teams[i],
                )
            &&& teams[count] == spec_observer_team(observer_size, max_team_sizes)
            &&& teams[count].team == TeamColor::Observer
            &&& teams[count].wins == 0
            &&& teams[count].losses == 0
        }),
{
    lemma_teams_shape(payload, payload[0] as nat, max_team_sizes);
}

/// The first `n` teams, when they decode, are the teams of the first `n`
/// blocks.
proof fn lemma_teams_shape(payload: Seq<u8>, n: nat, max_team_sizes: [u16; 6])
    requires
        spec_teams(payload, n, max_team_sizes) is Ok,
    ensures
        spec_teams(payload, n, max_team_sizes)->Ok_0.len() == n,
        forall|i: int|
            0 <= i < n ==> spec_team(payload, i, max_team_sizes) == Ok::<Team, QueryError>(
                #[trigger] spec_teams(payload, n, max_team_sizes)->Ok_0[i],
            ),
    decreases n,
{
    if n > 0 {
        lemma_teams_shape(payload, (n - 1) as nat, max_team_sizes);
    }
}

/// A team update fails on a colour index exactly when some block holds an
/// index without an entry in the table of sizes, and the error holds the
/// index of the first such block.
pub proof fn lemma_team_update_first_bad_block(payload: Seq<u8>, n: nat, max_team_sizes: [u16; 6])
    ensures
        spec_teams(payload, n, max_team_sizes) is Ok <==> forall|i: int|
            0 <= i < n ==> #[trigger] team_slot(payload, i, 0) < TEAM_SIZE_ENTRIES,
        spec_teams(payload, n, max_team_sizes) matches Err(e) ==> exists|i: int|
            {
                &&& 0 <= i < n
                &&& #[trigger] team_slot(payload, i, 0) >= TEAM_SIZE_ENTRIES
                &&& e == QueryError::InvalidEnumValue { value: team_slot(payload, i, 0) }
                &&& forall|j: int| 0 <= j < i ==> #[trigger] team_slot(payload, j, 0) < TEAM_SIZE_ENTRIES
            },
    decreases n,
{
    if n > 0 {
        lemma_team_update_first_bad_block(payload, (n - 1) as nat, max_team_sizes);
        let last = n - 1;
        if spec_teams(payload, (n - 1) as nat, max_team_sizes) is Ok {
            if team_slot(payload, last, 0) >= TEAM_SIZE_ENTRIES {
                assert(spec_team(payload, last, max_team_sizes) is Err);
            } else {
                assert(spec_team(payload, last, max_team_sizes) is Ok);
                assert forall|i: int| 0 <= i < n implies #[trigger] team_slot(payload, i, 0)
                    < TEAM_SIZE_ENTRIES by {
                    if i < n - 1 {
                    }
                }
            }
        } else {
            let e = spec_teams(payload, (n - 1) as nat, max_team_sizes)->Err_0;
            let i = choose|i: int|
                {
                    &&& 0 <= i < n - 1
                    &&& #[trigger] team_slot(payload, i, 0) >= TEAM_SIZE_ENTRIES
                    &&& e == QueryError::InvalidEnumValue { value: team_slot(payload, i, 0) }
                    &&& forall|j: int|
                        0 <= j < i ==> #[trigger] team_slot(payload, j, 0) < TEAM_SIZE_ENTRIES
                };
            assert(0 <= i < n && team_slot(payload, i, 0) >= TEAM_SIZE_ENTRIES);
        }
    }
}

/// Decodes the payload of a team update.
///
/// `observer_size` and `max_team_sizes` are the two values that the game
/// configuration holds for this purpose.
pub fn decode_team_update(payload: &[u8], observer_size: u16, max_team_sizes: &[u16; 6]) -> (r:
    Result<Vec<Team>, QueryError>)
    ensures
        match spec_decode_team_update(payload@, observer_size, *max_team_sizes) {
            Ok(teams) => r matches Ok(v) && v@ == teams,
            Err(e) => r == Err::<Vec<Team>, QueryError>(e),
        },
{
    if payload.len() == 0 {
        return Err(QueryError::TruncatedFrame);
    }
    let count = payload[0] as usize;
    if payload.len() < 1 + TEAM_BLOCK_LEN * count {
        return Err(QueryError::TruncatedFrame);
    }
    let blocks = slice_subrange(payload, 1, payload.len());
    let mut teams: Vec<Team> = Vec::new();
    let mut i: usize = 0;
    while i < count
        invariant
            i <= count,
            payload@.len() > 0,
            count == payload@[0],
            blocks@ == after_first_byte(payload@),
            TEAM_BLOCK_LEN * count <= blocks@.len(),
            spec_teams(payload@, i as nat, *max_team_sizes) == Ok::<Seq<Team>, QueryError>(teams@),
        decreases count - i,
    {
        let index = read_slot(blocks, 4 * i);
        let team = match TeamColor::from_index(index) {
            Ok(team) if index < 6 => team,
            _ => {
                proof {
                    assert(spec_team(payload@, i as int, *max_team_sizes) is Err);
                    assert(spec_teams(payload@, (i + 1) as nat, *max_team_sizes) is Err);
                    lemma_teams_error_stays(payload@, (i + 1) as nat, count as nat, *max_team_sizes);
                }
                return Err(QueryError::InvalidEnumValue { value: index });
            },
        };
        teams.push(
            Team {
                team,
                size: read_slot(blocks, 4 * i + 1),
                max_size: max_team_sizes[index as usize],
                wins: read_slot(blocks, 4 * i + 2),
                losses: read_slot(blocks, 4 * i + 3),
            },
        );
        i = i + 1;
    }
    teams.push(
        Team {
            team: TeamColor::Observer,
            size: observer_size,
            max_size: max_team_sizes[5],
            wins: 0,
            losses: 0,
        },
    );
    Ok(teams)
}

/// The callsign field of a player record.
pub open spec fn callsign_field(payload: Seq<u8>) -> Seq<u8> {
    payload.subrange(11, 11 + CALLSIGN_LEN)
}

/// The motto field of a player record.
pub open spec fn motto_field(payload: Seq<u8>) -> Seq<u8> {
    payload.subrange(11 + CALLSIGN_LEN, 11 + CALLSIGN_LEN + MOTTO_LEN)
}

/// What a player record payload decodes to.
///
/// Byte 0 is the player's id. Five slots follow it: type, team colour index,
/// wins, losses and team kills. After them stand the callsign, 32 bytes, and
/// the motto, 128 bytes, each padded with NUL bytes. A payload shorter than
/// these 171 bytes is truncated.
pub open spec fn spec_decode_player(payload: Seq<u8>) -> Result<PlayerView, QueryError> {
    let fields = after_first_byte(payload);
    if payload.len() < PLAYER_RECORD_LEN {
        Err(QueryError::TruncatedFrame)
    } else {
        match TeamColor::spec_from_index(spec_unpack_u16(fields, 1)) {
            None => Err(QueryError::InvalidEnumValue { value: spec_unpack_u16(fields, 1) }),
            Some(team) => match spec_decode_text(callsign_field(payload)) {
                None => Err(QueryError::TextDecode),
                Some(callsign) => match spec_decode_text(motto_field(payload)) {
                    None => Err(QueryError::TextDecode),
                    Some(motto) => Ok(
                        PlayerView {
                            id: payload[0],
                            player_type: spec_unpack_u16(fields, 0),
                            team,
                            wins: spec_unpack_u16(fields, 2),
                            losses: spec_unpack_u16(fields, 3),
                            tks: spec_unpack_u16(fields, 4),
                            callsign,
                            motto,
                        },
                    ),
                },
            },
        }
    }
}

/// Decodes the payload of one player record.
pub fn decode_player(payload: &[u8]) -> (r: Result<Player, QueryError>)
    ensures
        match spec_decode_player(payload@) {
            Ok(player) => r matches Ok(p) && p@ == player,
            Err(e) => r == Err::<Player, QueryError>(e),
        },
{
    if payload.len() < PLAYER_RECORD_LEN {
        return Err(QueryError::TruncatedFrame);
    }
    let fields = slice_subrange(payload, 1, payload.len());
    let team = match TeamColor::from_index(read_slot(fields, 1)) {
        Ok(team) => team,
        Err(e) => {
            return Err(e);
        },
    };
    let callsign = match decode_text(slice_subrange(payload, 11, 11 + CALLSIGN_LEN)) {
        Ok(text) => text,
        Err(e) => {
            return Err(e);
        },
    };
    let motto = match decode_text(
        slice_subrange(payload, 11 + CALLSIGN_LEN, 11 + CALLSIGN_LEN + MOTTO_LEN),
    ) {
        Ok(text) => text,
        Err(e) => {
            return Err(e);
        },
    };
    Ok(
        Player {
            id: payload[0],
            player_type: read_slot(fields, 0),
            team,
            wins: read_slot(fields, 2),
            losses: read_slot(fields, 3),
            tks: read_slot(fields, 4),
            callsign,
            motto,
        },
    )
}

} // verus!
