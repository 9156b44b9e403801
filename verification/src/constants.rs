//! Protocol constants: sizes, option masks, command codes and display names.

use vstd::prelude::*;

verus! {

/// The largest payload a frame may announce, and the least size of a buffer
/// that is to hold any frame.
pub const BUFFER_SIZE: usize = 1024;

/// Display names of the game styles, by wire index.
pub const GAME_STYLES: [&'static str; 4] = ["FFA", "CTF", "OFFA", "Rabbit"];

/// Display names of the team colours, by wire index.
pub const TEAM_NAMES: [&'static str; 8] = [
    "Rogue",
    "Red",
    "Green",
    "Blue",
    "Purple",
    "Observer",
    "Rabbit",
    "Hunter",
];

/// Superflags allowed.
pub const GAME_OPTION_FLAGS: u16 = 0x0002;

/// Jumping allowed.
pub const GAME_OPTION_JUMPING: u16 = 0x0008;

/// Momentum for all.
pub const GAME_OPTION_INERTIA: u16 = 0x0010;

/// All shots ricochet.
pub const GAME_OPTION_RICOCHET: u16 = 0x0020;

/// Bad flags can be dropped.
pub const GAME_OPTION_SHAKING: u16 = 0x0040;

/// Anti-bad flags.
pub const GAME_OPTION_ANTIDOTE: u16 = 0x0080;

/// Players are handicapped by score.
pub const GAME_OPTION_HANDICAP: u16 = 0x0100;

/// Team members cannot be shot.
pub const GAME_OPTION_NO_TEAM_KILLS: u16 = 0x0400;

/// Command code `qg`: request and response for the game configuration.
pub const MSG_QUERY_GAME: [u8; 2] = [0x71, 0x67];

/// Command code `qp`: request and response for the player count.
pub const MSG_QUERY_PLAYERS: [u8; 2] = [0x71, 0x70];

/// Command code `tu`: team update.
pub const MSG_TEAM_UPDATE: [u8; 2] = [0x74, 0x75];

/// Command code `ap`: one player record.
pub const MSG_ADD_PLAYER: [u8; 2] = [0x61, 0x70];

/// The greeting a client opens with: `BZFLAG\r\n\r\n`.
pub const MAGIC: [u8; 10] = [0x42, 0x5a, 0x46, 0x4c, 0x41, 0x47, 0x0d, 0x0a, 0x0d, 0x0a];

/// The version token a compatible server answers with: `BZFS0221`.
pub const PROTOCOL_VERSION: [u8; 8] = [0x42, 0x5a, 0x46, 0x53, 0x30, 0x32, 0x32, 0x31];

/// The status byte by which a server says that it is full.
pub const SERVER_FULL: u8 = 0xff;

/// Length of the server's answer to the greeting: the version token and one
/// status byte.
pub const HANDSHAKE_RESPONSE_LEN: usize = 9;

/// Length of a frame header: a 16-bit payload length and a command code.
pub const FRAME_HEADER_LEN: usize = 4;

/// Least length of a game configuration payload: slots 0 to 21.
pub const GAME_CONFIG_LEN: usize = 44;

/// Least length of a player count payload: slots 0 and 1.
pub const PLAYER_COUNT_LEN: usize = 4;

/// Length of one team block in a team update: four slots.
pub const TEAM_BLOCK_LEN: usize = 8;

/// Number of entries in the table of configured team sizes.
pub const TEAM_SIZE_ENTRIES: usize = 6;

/// Length of the callsign field of a player record.
pub const CALLSIGN_LEN: usize = 32;

/// Length of the motto field of a player record.
pub const MOTTO_LEN: usize = 128;

/// Least length of a player record payload: the id byte, five slots, the
/// callsign and the motto.
pub const PLAYER_RECORD_LEN: usize = 171;

} // verus!
