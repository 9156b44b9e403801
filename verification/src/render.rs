//! Text for a terminal: display names, colours and the lines of a report.

use crate::constants::{GAME_STYLES, TEAM_NAMES};
use crate::error::QueryError;
use crate::model::{GameType, Options, Player, PlayerView, Query, QueryView, Team, TeamColor};
use crate::session::{Failure, Stage};
use crate::text::utf8_to_str;
use vstd::string::StringSliceAdditionalSpecFns;
use vstd::utf8::{decode_utf8, encode_utf8_decode_utf8, valid_utf8};
use vstd::prelude::*;
use vstd::string::{StrSliceExecFns, StringExecFns};

verus! {

/// Ends every colour and style.
pub const RESET: &'static str = "\x1b[0m";

/// Bold.
pub const BRIGHT: &'static str = "\x1b[1m";

/// Underlined.
pub const UNDERLINE: &'static str = "\x1b[4m";

pub const RED: &'static str = "\x1b[31m";

pub const GREEN: &'static str = "\x1b[32m";

pub const YELLOW: &'static str = "\x1b[33m";

pub const BLUE: &'static str = "\x1b[34m";

pub const MAGENTA: &'static str = "\x1b[35m";

pub const WHITE: &'static str = "\x1b[37m";

/// The colour in which the team with wire index `team` is shown; nothing
/// for an index that is no team's.
pub open spec fn spec_team_color(team: u16) -> Seq<char> {
    if team == 0 || team == 7 {
        YELLOW@
    } else if team == 1 {
        RED@
    } else if team == 2 {
        GREEN@
    } else if team == 3 {
        BLUE@
    } else if team == 4 {
        MAGENTA@
    } else if team == 5 || team == 6 {
        WHITE@
    } else {
        Seq::empty()
    }
}

/// The escape sequence that switches to the colour of a team.
pub fn team_color(team: u16) -> (r: &'static str)
    ensures
        r@ == spec_team_color(team),
{
    match team {
        0 | 7 => YELLOW,
        1 => RED,
        2 => GREEN,
        3 => BLUE,
        4 => MAGENTA,
        5 | 6 => WHITE,
        _ => {
            proof {
                reveal_strlit("");
            }
            assert(""@ =~= Seq::<char>::empty());
            ""
        },
    }
}

/// How a flag is shown: a bold green `yes` or a bold red `no`.
pub open spec fn spec_bool_to_string(value: bool) -> Seq<char> {
    if value {
        BRIGHT@ + GREEN@ + "yes"@ + RESET@
    } else {
        BRIGHT@ + RED@ + "no"@ + RESET@
    }
}

/// Renders a flag for a terminal.
pub fn bool_to_string(value: bool) -> (r: String)
    ensures
        r@ == spec_bool_to_string(value),
{
    let mut out = String::from_str(BRIGHT);
    if value {
        out.append(GREEN);
        out.append("yes");
    } else {
        out.append(RED);
        out.append("no");
    }
    out.append(RESET);
    out
}

impl GameType {
    /// The display name of a style.
    pub open spec fn spec_name(self) -> Seq<char> {
        GAME_STYLES[self.spec_index() as int]@
    }

    /// The display name of this style.
    pub fn name(self) -> (r: &'static str)
        ensures
            r@ == self.spec_name(),
    {
        GAME_STYLES[self.index() as usize]
    }
}

impl TeamColor {
    /// The display name of a colour.
    pub open spec fn spec_name(self) -> Seq<char> {
        TEAM_NAMES[self.spec_index() as int]@
    }

    /// The display name of this colour.
    pub fn name(self) -> (r: &'static str)
        ensures
            r@ == self.spec_name(),
    {
        TEAM_NAMES[self.index() as usize]
    }
}

/// The character of a decimal digit.
pub open spec fn digit_char(digit: int) -> char {
    if digit == 0 {
        '0'
    } else if digit == 1 {
        '1'
    } else if digit == 2 {
        '2'
    } else if digit == 3 {
        '3'
    } else if digit == 4 {
        '4'
    } else if digit == 5 {
        '5'
    } else if digit == 6 {
        '6'
    } else if digit == 7 {
        '7'
    } else if digit == 8 {
        '8'
    } else {
        '9'
    }
}

/// A natural number in decimal, without leading zeros.
pub open spec fn spec_decimal(n: nat) -> Seq<char>
    decreases n,
{
    if n < 10 {
        seq![digit_char(n as int)]
    } else {
        spec_decimal(n / 10).push(digit_char((n % 10) as int))
    }
}

/// An integer in decimal, with a minus sign if it is negative.
pub open spec fn spec_signed(i: int) -> Seq<char> {
    if i < 0 {
        seq!['-'] + spec_decimal((-i) as nat)
    } else {
        spec_decimal(i as nat)
    }
}

/// The text of one decimal digit.
fn digit_str(digit: u32) -> (r: &'static str)
    requires
        digit < 10,
    ensures
        r@ == seq![digit_char(digit as int)],
{
    proof {
        reveal_strlit("0");
        reveal_strlit("1");
        reveal_strlit("2");
        reveal_strlit("3");
        reveal_strlit("4");
        reveal_strlit("5");
        reveal_strlit("6");
        reveal_strlit("7");
        reveal_strlit("8");
        reveal_strlit("9");
    }
    let r = match digit {
        0 => "0",
        1 => "1",
        2 => "2",
        3 => "3",
        4 => "4",
        5 => "5",
        6 => "6",
        7 => "7",
        8 => "8",
        _ => "9",
    };
    assert(r@ =~= seq![digit_char(digit as int)]);
    r
}

/// Renders a number in decimal.
pub fn decimal(n: u32) -> (r: String)
    ensures
        r@ == spec_decimal(n as nat),
    decreases n,
{
    if n < 10 {
        String::from_str(digit_str(n))
    } else {
        let mut out = decimal(n / 10);
        out.append(digit_str(n % 10));
        assert(out@ =~= spec_decimal(n as nat));
        out
    }
}

/// The score of a record of wins and losses: wins less losses.
pub open spec fn spec_score(wins: u16, losses: u16) -> int {
    wins - losses
}

/// The score of a record of wins and losses.
pub fn score(wins: u16, losses: u16) -> (r: i32)
    ensures
        r == spec_score(wins, losses),
{
    wins as i32 - losses as i32
}

/// Renders an integer in decimal, with its sign.
pub fn signed_decimal(value: i32) -> (r: String)
    ensures
        r@ == spec_signed(value as int),
{
    if value < 0 {
        let mut out = String::from_str("-");
        let digits = decimal((-(value as i64)) as u32);
        out.append(digits.as_str());
        proof {
            reveal_strlit("-");
        }
        assert(out@ =~= spec_signed(value as int));
        out
    } else {
        decimal(value as u32)
    }
}

/// The number of characters that a player's score takes when printed.
pub fn player_score_len(player: &Player) -> (r: usize)
    ensures
        r == spec_signed(spec_score(player.wins, player.losses)).len(),
{
    let text = signed_decimal(score(player.wins, player.losses));
    text.as_str().unicode_len()
}

/// A heading: bold, underlined and white.
pub open spec fn spec_heading(text: Seq<char>) -> Seq<char> {
    BRIGHT@ + UNDERLINE@ + WHITE@ + text + RESET@
}

/// Renders a heading for a terminal.
pub fn heading(text: &str) -> (r: String)
    ensures
        r@ == spec_heading(text@),
{
    let mut out = String::from_str(BRIGHT);
    out.append(UNDERLINE);
    out.append(WHITE);
    out.append(text);
    out.append(RESET);
    out
}

/// How a flag reads in a report.
pub open spec fn spec_flag(value: bool) -> Seq<char> {
    if value {
        "true"@
    } else {
        "false"@
    }
}

/// The word for a flag.
fn flag_str(value: bool) -> (r: &'static str)
    ensures
        r@ == spec_flag(value),
{
    if value {
        "true"
    } else {
        "false"
    }
}

/// The line that describes a team: its name, how many of its places are
/// taken, and its wins and losses.
pub open spec fn spec_team_text(team: Team) -> Seq<char> {
    team.team.spec_name() + " team: "@ + spec_decimal(team.size as nat) + "/"@ + spec_decimal(
        team.max_size as nat,
    ) + " "@ + spec_decimal(team.wins as nat) + "-"@ + spec_decimal(team.losses as nat)
}

impl Team {
    /// Renders this team as one line of text.
    pub fn to_text(&self) -> (r: String)
        ensures
            r@ == spec_team_text(*self),
    {
        let mut out = String::from_str(self.team.name());
        out.append(" team: ");
        out.append(decimal(self.size as u32).as_str());
        out.append("/");
        out.append(decimal(self.max_size as u32).as_str());
        out.append(" ");
        out.append(decimal(self.wins as u32).as_str());
        out.append("-");
        out.append(decimal(self.losses as u32).as_str());
        out
    }
}

/// The line that describes a player.
pub open spec fn spec_player_text(player: PlayerView) -> Seq<char> {
    "#"@ + spec_decimal(player.id as nat) + " "@ + player.callsign + " ("@ + player.motto
        + ") type: "@ + spec_decimal(player.player_type as nat) + " team: "@
        + player.team.spec_name() + " wins: "@ + spec_decimal(player.wins as nat) + " losses: "@
        + spec_decimal(player.losses as nat) + " tks: "@ + spec_decimal(player.tks as nat)
}

impl Player {
    /// Renders this player as one line of text.
    pub fn to_text(&self) -> (r: String)
        ensures
            r@ == spec_player_text(self@),
    {
        let mut out = String::from_str("#");
        out.append(decimal(self.id as u32).as_str());
        out.append(" ");
        out.append(self.callsign.as_str());
        out.append(" (");
        out.append(self.motto.as_str());
        out.append(") type: ");
        out.append(decimal(self.player_type as u32).as_str());
        out.append(" team: ");
        out.append(self.team.name());
        out.append(" wins: ");
        out.append(decimal(self.wins as u32).as_str());
        out.append(" losses: ");
        out.append(decimal(self.losses as u32).as_str());
        out.append(" tks: ");
        out.append(decimal(self.tks as u32).as_str());
        out
    }
}

/// What stands before each team and each player in a report: a new line and
/// a bullet.
pub open spec fn spec_bullet() -> Seq<char> {
    "\n \u{2022} "@
}

/// The lines of the teams of a report, one bullet each, in order.
pub open spec fn spec_team_lines(teams: Seq<Team>) -> Seq<char>
    decreases teams.len(),
{
    if teams.len() == 0 {
        Seq::empty()
    } else {
        spec_team_lines(teams.drop_last()) + spec_bullet() + spec_team_text(teams.last())
    }
}

/// The lines of the players of a report, one bullet each, in order.
pub open spec fn spec_player_lines(players: Seq<PlayerView>) -> Seq<char>
    decreases players.len(),
{
    if players.len() == 0 {
        Seq::empty()
    } else {
        spec_player_lines(players.drop_last()) + spec_bullet() + spec_player_text(players.last())
    }
}

/// The option lines of a report.
pub open spec fn spec_options_text(options: Options) -> Seq<char> {
    "options:\n  flags: "@ + spec_flag(options.flags) + "\n  jumping: "@ + spec_flag(
        options.jumping,
    ) + "\n  inertia: "@ + spec_flag(options.inertia) + "\n  ricochet: "@ + spec_flag(
        options.ricochet,
    ) + "\n  shaking: "@ + spec_flag(options.shaking) + "\n  antidote: "@ + spec_flag(
        options.antidote,
    ) + "\n  handicap: "@ + spec_flag(options.handicap) + "\n  no team kills: "@ + spec_flag(
        options.no_team_kills,
    )
}

/// The lines of the numeric limits of a report.
pub open spec fn spec_limits_text(query: QueryView) -> Seq<char> {
    "\nmax_players: "@ + spec_decimal(query.max_players as nat) + "\nmax_shots: "@ + spec_decimal(
        query.max_shots as nat,
    ) + "\nshake_wins: "@ + spec_decimal(query.shake_wins as nat) + "\nshake_timeout: "@
        + spec_decimal(query.shake_timeout as nat) + "\nmax_player_score: "@ + spec_decimal(
        query.max_player_score as nat,
    ) + "\nmax_team_score: "@ + spec_decimal(query.max_team_score as nat) + "\nmax_time: "@
        + spec_decimal(query.max_time as nat) + "\nelapsed_time: "@ + spec_decimal(
        query.elapsed_time as nat,
    )
}

/// The whole report of a snapshot: the style, the options, the limits, the
/// teams and the players.
pub open spec fn spec_query_text(query: QueryView) -> Seq<char> {
    "style: "@ + query.style.spec_name() + "\n"@ + spec_options_text(query.options)
        + spec_limits_text(query) + "\nteams:"@ + spec_team_lines(query.teams) + "\nplayers:"@
        + spec_player_lines(query.players)
}

impl Options {
    /// Renders the option lines of a report.
    pub fn to_text(&self) -> (r: String)
        ensures
            r@ == spec_options_text(*self),
    {
        let mut out = String::from_str("options:\n  flags: ");
        out.append(flag_str(self.flags));
        out.append("\n  jumping: ");
        out.append(flag_str(self.jumping));
        out.append("\n  inertia: ");
        out.append(flag_str(self.inertia));
        out.append("\n  ricochet: ");
        out.append(flag_str(self.ricochet));
        out.append("\n  shaking: ");
        out.append(flag_str(self.shaking));
        out.append("\n  antidote: ");
        out.append(flag_str(self.antidote));
        out.append("\n  handicap: ");
        out.append(flag_str(self.handicap));
        out.append("\n  no team kills: ");
        out.append(flag_str(self.no_team_kills));
        out
    }
}

impl Query {
    /// Renders the lines of the numeric limits.
    fn limits_text(&self) -> (r: String)
        ensures
            r@ == spec_limits_text(self@),
    {
        let mut out = String::from_str("\nmax_players: ");
        out.append(decimal(self.max_players as u32).as_str());
        out.append("\nmax_shots: ");
        out.append(decimal(self.max_shots as u32).as_str());
        out.append("\nshake_wins: ");
        out.append(decimal(self.shake_wins as u32).as_str());
        out.append("\nshake_timeout: ");
        out.append(decimal(self.shake_timeout as u32).as_str());
        out.append("\nmax_player_score: ");
        out.append(decimal(self.max_player_score as u32).as_str());
        out.append("\nmax_team_score: ");
        out.append(decimal(self.max_team_score as u32).as_str());
        out.append("\nmax_time: ");
        out.append(decimal(self.max_time as u32).as_str());
        out.append("\nelapsed_time: ");
        out.append(decimal(self.elapsed_time as u32).as_str());
        out
    }

    /// Renders this snapshot as a report of several lines.
    pub fn to_text(&self) -> (r: String)
        ensures
            r@ == spec_query_text(self@),
    {
        let mut teams = String::new();
        let mut i: usize = 0;
        while i < self.teams.len()
            invariant
                i <= self.teams@.len(),
                teams@ == spec_team_lines(self.teams@.take(i as int)),
            decreases self.teams@.len() - i,
        {
            teams.append("\n \u{2022} ");
            teams.append(self.teams[i].to_text().as_str());
            proof {
                let next = self.teams@.take(i + 1);
                assert(next.drop_last() =~= self.teams@.take(i as int));
                assert(teams@ =~= spec_team_lines(next));
            }
            i = i + 1;
        }
        assert(self.teams@.take(i as int) =~= self.teams@);
        let mut players = String::new();
        let mut j: usize = 0;
        while j < self.players.len()
            invariant
                j <= self.players@.len(),
                players@ == spec_player_lines(self@.players.take(j as int)),
            decreases self.players@.len() - j,
        {
            players.append("\n \u{2022} ");
            players.append(self.players[j].to_text().as_str());
            proof {
                let next = self@.players.take(j + 1);
                assert(next.drop_last() =~= self@.players.take(j as int));
                assert(next.last() == self.players@[j as int]@);
                assert(players@ =~= spec_player_lines(next));
            }
            j = j + 1;
        }
        assert(self@.players.take(j as int) =~= self@.players);
        let mut out = String::from_str("style: ");
        out.append(self.style.name());
        out.append("\n");
        out.append(self.options.to_text().as_str());
        out.append(self.limits_text().as_str());
        out.append("\nteams:");
        out.append(teams.as_str());
        out.append("\nplayers:");
        out.append(players.as_str());
        out
    }
}

/// The character of a hexadecimal digit, in lower case.
pub open spec fn hex_char(digit: int) -> char {
    if digit < 10 {
        digit_char(digit)
    } else if digit == 10 {
        'a'
    } else if digit == 11 {
        'b'
    } else if digit == 12 {
        'c'
    } else if digit == 13 {
        'd'
    } else if digit == 14 {
        'e'
    } else {
        'f'
    }
}

/// Bytes in hexadecimal, two digits each.
pub open spec fn spec_hex(bytes: Seq<u8>) -> Seq<char>
    decreases bytes.len(),
{
    if bytes.len() == 0 {
        Seq::empty()
    } else {
        spec_hex(bytes.drop_last()).push(hex_char(bytes.last() as int / 16)).push(
            hex_char(bytes.last() as int % 16),
        )
    }
}

/// Bytes as a reader is shown them: as text where they are UTF-8, in
/// hexadecimal where they are not.
pub open spec fn spec_bytes_text(bytes: Seq<u8>) -> Seq<char> {
    if valid_utf8(bytes) {
        decode_utf8(bytes)
    } else {
        spec_hex(bytes)
    }
}

/// The text of one hexadecimal digit.
fn hex_str(digit: u8) -> (r: &'static str)
    requires
        digit < 16,
    ensures
        r@ == seq![hex_char(digit as int)],
{
    if digit < 10 {
        digit_str(digit as u32)
    } else {
        proof {
            reveal_strlit("a");
            reveal_strlit("b");
            reveal_strlit("c");
            reveal_strlit("d");
            reveal_strlit("e");
            reveal_strlit("f");
        }
        let r = match digit {
            10 => "a",
            11 => "b",
            12 => "c",
            13 => "d",
            14 => "e",
            _ => "f",
        };
        assert(r@ =~= seq![hex_char(digit as int)]);
        r
    }
}

/// Renders bytes for a message: as text where they are UTF-8, in
/// hexadecimal where they are not.
pub fn bytes_text(bytes: &[u8]) -> (r: String)
    ensures
        r@ == spec_bytes_text(bytes@),
{
    match utf8_to_str(bytes) {
        Some(text) => {
            proof {
                encode_utf8_decode_utf8(text@);
            }
            String::from_str(text)
        },
        None => {
            let mut out = String::new();
            let mut i: usize = 0;
            while i < bytes.len()
                invariant
                    i <= bytes@.len(),
                    out@ == spec_hex(bytes@.take(i as int)),
                decreases bytes@.len() - i,
            {
                let byte = bytes[i];
                out.append(hex_str(byte / 16));
                out.append(hex_str(byte % 16));
                proof {
                    let next = bytes@.take(i + 1);
                    assert(next.drop_last() =~= bytes@.take(i as int));
                    assert(out@ =~= spec_hex(next));
                }
                i = i + 1;
            }
            assert(bytes@.take(i as int) =~= bytes@);
            out
        },
    }
}

/// What an error says of itself. A protocol mismatch shows the bytes that
/// came in place of the version token.
pub open spec fn spec_error_message(error: QueryError) -> Seq<char> {
    match error {
        QueryError::Connection => "connection failed"@,
        QueryError::ProtocolMismatch { received } => "invalid protocol version: "@
            + spec_bytes_text(received@),
        QueryError::ServerFull => "server is full"@,
        QueryError::TruncatedFrame => "truncated frame"@,
        QueryError::InvalidEnumValue { value } => "invalid enum value: "@ + spec_decimal(
            value as nat,
        ),
        QueryError::TextDecode => "text is not valid UTF-8"@,
    }
}

impl QueryError {
    /// Describes this error in words.
    pub fn message(&self) -> (r: String)
        ensures
            r@ == spec_error_message(*self),
    {
        match self {
            QueryError::Connection => String::from_str("connection failed"),
            QueryError::ProtocolMismatch { received } => {
                let mut out = String::from_str("invalid protocol version: ");
                out.append(bytes_text(received.as_slice()).as_str());
                out
            },
            QueryError::ServerFull => String::from_str("server is full"),
            QueryError::TruncatedFrame => String::from_str("truncated frame"),
            QueryError::InvalidEnumValue { value } => {
                let mut out = String::from_str("invalid enum value: ");
                out.append(decimal(*value as u32).as_str());
                out
            },
            QueryError::TextDecode => String::from_str("text is not valid UTF-8"),
        }
    }
}

/// The name of a stage, as a failure shows it.
pub open spec fn spec_stage_name(stage: Stage) -> Seq<char> {
    match stage {
        Stage::Handshake => "handshake"@,
        Stage::AwaitGameConfig => "game configuration"@,
        Stage::AwaitPlayerCount => "player count"@,
        Stage::AwaitTeamUpdate => "team update"@,
        Stage::AwaitEachPlayer => "player record"@,
    }
}

impl Stage {
    /// The name of this stage.
    pub fn name(self) -> (r: &'static str)
        ensures
            r@ == spec_stage_name(self),
    {
        match self {
            Stage::Handshake => "handshake",
            Stage::AwaitGameConfig => "game configuration",
            Stage::AwaitPlayerCount => "player count",
            Stage::AwaitTeamUpdate => "team update",
            Stage::AwaitEachPlayer => "player record",
        }
    }
}

/// What a failure says of itself: the stage that failed, and the error.
pub open spec fn spec_failure_message(failure: Failure) -> Seq<char> {
    spec_stage_name(failure.stage) + ": "@ + spec_error_message(failure.error)
}

impl Failure {
    /// Describes this failure in words.
    pub fn message(&self) -> (r: String)
        ensures
            r@ == spec_failure_message(*self),
    {
        let mut out = String::from_str(self.stage.name());
        out.append(": ");
        out.append(self.error.message().as_str());
        out
    }
}

} // verus!
