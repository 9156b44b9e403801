//! Client-side decoder for the BZFlag server status protocol.
//!
//! The crate holds everything about the protocol that can be decided from
//! bytes alone: the 16-bit field codec, frame headers, the handshake check,
//! the four record decoders and the state machine that sequences one query.
//! Moving bytes over a connection is left to the caller, who performs the
//! exchanges that the state machine asks for.

pub mod constants;
pub mod error;
pub mod field;
pub mod frame;
pub mod model;
pub mod records;
pub mod render;
pub mod report;
pub mod session;
pub mod target;
pub mod text;

pub use constants::{
    BUFFER_SIZE, GAME_OPTION_ANTIDOTE, GAME_OPTION_FLAGS, GAME_OPTION_HANDICAP,
    GAME_OPTION_INERTIA, GAME_OPTION_JUMPING, GAME_OPTION_NO_TEAM_KILLS, GAME_OPTION_RICOCHET,
    GAME_OPTION_SHAKING, GAME_STYLES, MSG_ADD_PLAYER, MSG_QUERY_GAME, MSG_QUERY_PLAYERS,
    MSG_TEAM_UPDATE, TEAM_NAMES,
};
pub use error::QueryError;
pub use field::unpack_u16;
pub use model::{GameType, Options, Player, Query, Team, TeamColor};
pub use render::{bool_to_string, team_color};
pub use session::{Failure, Session, Stage, Step};
