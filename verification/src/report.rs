//! The report that a terminal shows of a snapshot: the configuration, the
//! teams that have places, and the roster in two aligned columns.

use crate::model::{roster_view, Player, PlayerView, Query, QueryView, Team};
use crate::render::{
    bool_to_string, heading, score, signed_decimal, spec_bool_to_string, spec_heading, spec_score,
    spec_signed, spec_team_color, team_color, BRIGHT, RESET, WHITE,
};
use vstd::prelude::*;
use vstd::string::{StringExecFns, StringSliceAdditionalSpecFns};
use vstd::utf8::encode_utf8;

verus! {

/// A run of `count` spaces.
pub open spec fn spec_spaces(count: nat) -> Seq<char> {
    Seq::new(count, |i: int| ' ')
}

/// Makes a run of `count` spaces.
pub fn spaces(count: usize) -> (r: String)
    ensures
        r@ == spec_spaces(count as nat),
{
    let mut out = String::new();
    let mut i: usize = 0;
    while i < count
        invariant
            i <= count,
            out@ == spec_spaces(i as nat),
        decreases count - i,
    {
        out.append(" ");
        proof {
            reveal_strlit(" ");
        }
        assert(out@ =~= spec_spaces((i + 1) as nat));
        i = i + 1;
    }
    out
}

/// The number of spaces that fill a column `width` wide after `used`
/// characters: none when the column is already full.
pub open spec fn spec_pad(width: nat, used: nat) -> nat {
    if used < width {
        (width - used) as nat
    } else {
        0
    }
}

/// The lines of the configuration: the heading, the style and four flags.
/// Team kills are shown as allowed when they are not forbidden.
pub open spec fn spec_configuration_lines(query: QueryView) -> Seq<char> {
    spec_heading("Configuration"@) + "\nGame style:  "@ + BRIGHT@ + WHITE@
        + query.style.spec_name() + RESET@ + "\nFlags:       "@ + spec_bool_to_string(
        query.options.flags,
    ) + "\nJumping:     "@ + spec_bool_to_string(query.options.jumping) + "\nRicochet:    "@
        + spec_bool_to_string(query.options.ricochet) + "\nTeam kills:  "@ + spec_bool_to_string(
        !query.options.no_team_kills,
    ) + "\n"@
}

/// The line of one team: a bullet, the coloured name in a column nine wide,
/// and the score in brackets.
pub open spec fn spec_team_line(team: Team) -> Seq<char> {
    " \u{2022} "@ + BRIGHT@ + spec_team_color(team.team.spec_index()) + team.team.spec_name()
        + spec_spaces(spec_pad(9, team.team.spec_name().len())) + RESET@ + " ["@ + BRIGHT@ + WHITE@
        + spec_signed(spec_score(team.wins, team.losses)) + RESET@ + "]\n"@
}

/// The lines of the teams that have places, in order. A team whose
/// configured size is zero is left out.
pub open spec fn spec_report_teams(teams: Seq<Team>) -> Seq<char>
    decreases teams.len(),
{
    if teams.len() == 0 {
        Seq::empty()
    } else if teams.last().max_size == 0 {
        spec_report_teams(teams.drop_last())
    } else {
        spec_report_teams(teams.drop_last()) + spec_team_line(teams.last())
    }
}

/// The width of a player's callsign: its length in bytes.
pub open spec fn callsign_width(player: PlayerView) -> nat {
    encode_utf8(player.callsign).len()
}

/// The width of a player's score as it is printed.
pub open spec fn score_width(player: PlayerView) -> nat {
    spec_signed(spec_score(player.wins, player.losses)).len()
}

/// The width of the widest callsign of a roster; zero for an empty one.
pub open spec fn widest_callsign(players: Seq<PlayerView>) -> nat
    decreases players.len(),
{
    if players.len() == 0 {
        0
    } else {
        let rest = widest_callsign(players.drop_last());
        if callsign_width(players.last()) > rest {
            callsign_width(players.last())
        } else {
            rest
        }
    }
}

/// The width of the widest score of a roster; zero for an empty one.
pub open spec fn widest_score(players: Seq<PlayerView>) -> nat
    decreases players.len(),
{
    if players.len() == 0 {
        0
    } else {
        let rest = widest_score(players.drop_last());
        if score_width(players.last()) > rest {
            score_width(players.last())
        } else {
            rest
        }
    }
}

/// The line of one player in a roster whose columns are `callsigns` and
/// `scores` wide: the callsign, the score in brackets and the team in
/// parentheses, each column followed by two spaces more than it needs.
pub open spec fn spec_player_line(player: PlayerView, callsigns: nat, scores: nat) -> Seq<char> {
    " \u{2022} "@ + player.callsign + spec_spaces(spec_pad(callsigns, callsign_width(player)))
        + "  ["@ + BRIGHT@ + WHITE@ + spec_signed(spec_score(player.wins, player.losses)) + RESET@
        + "]"@ + spec_spaces(spec_pad(scores, score_width(player))) + "  ("@ + BRIGHT@
        + spec_team_color(player.team.spec_index()) + player.team.spec_name() + RESET@ + ")\n"@
}

/// The lines of the first `count` players of a roster, aligned to the
/// widths of the whole roster.
pub open spec fn spec_report_players(players: Seq<PlayerView>, count: nat) -> Seq<char>
    decreases count,
{
    if count == 0 {
        Seq::empty()
    } else {
        spec_report_players(players, (count - 1) as nat) + spec_player_line(
            players[count - 1],
            widest_callsign(players),
            widest_score(players),
        )
    }
}

/// The roster part of a report: the lines of the players, or a note that
/// there are none.
pub open spec fn spec_report_roster(players: Seq<PlayerView>) -> Seq<char> {
    if players.len() == 0 {
        " No players online\n"@
    } else {
        spec_report_players(players, players.len())
    }
}

/// The whole report.
pub open spec fn spec_report(query: QueryView) -> Seq<char> {
    spec_configuration_lines(query) + "\n"@ + spec_heading("Teams"@) + "\n"@ + spec_report_teams(
        query.teams,
    ) + "\n"@ + spec_heading("Players"@) + "\n"@ + spec_report_roster(query.players)
}

/// Renders the configuration lines.
fn configuration_lines(query: &Query) -> (r: String)
    ensures
        r@ == spec_configuration_lines(query@),
{
    let mut out = heading("Configuration");
    out.append("\nGame style:  ");
    out.append(BRIGHT);
    out.append(WHITE);
    out.append(query.style.name());
    out.append(RESET);
    out.append("\nFlags:       ");
    out.append(bool_to_string(query.options.flags).as_str());
    out.append("\nJumping:     ");
    out.append(bool_to_string(query.options.jumping).as_str());
    out.append("\nRicochet:    ");
    out.append(bool_to_string(query.options.ricochet).as_str());
    out.append("\nTeam kills:  ");
    out.append(bool_to_string(!query.options.no_team_kills).as_str());
    out.append("\n");
    out
}

/// Renders the line of one team.
pub fn team_line(team: &Team) -> (r: String)
    ensures
        r@ == spec_team_line(*team),
{
    let name = team.team.name();
    let width = name.unicode_len();
    let pad = if width < 9 {
        9 - width
    } else {
        0
    };
    let mut out = String::from_str(" \u{2022} ");
    out.append(BRIGHT);
    out.append(team_color(team.team.index()));
    out.append(name);
    out.append(spaces(pad).as_str());
    out.append(RESET);
    out.append(" [");
    out.append(BRIGHT);
    out.append(WHITE);
    out.append(signed_decimal(score(team.wins, team.losses)).as_str());
    out.append(RESET);
    out.append("]\n");
    out
}

/// Measures the two columns of a roster: the widest callsign and the widest
/// score.
pub fn roster_widths(players: &Vec<Player>) -> (r: (usize, usize))
    ensures
        r.0 == widest_callsign(roster_view(players@)),
        r.1 == widest_score(roster_view(players@)),
{
    let mut callsigns: usize = 0;
    let mut scores: usize = 0;
    let mut i: usize = 0;
    while i < players.len()
        invariant
            i <= players@.len(),
            callsigns == widest_callsign(roster_view(players@).take(i as int)),
            scores == widest_score(roster_view(players@).take(i as int)),
        decreases players@.len() - i,
    {
        let player = &players[i];
        let name = player.callsign.as_str().as_bytes().len();
        let points = signed_decimal(score(player.wins, player.losses)).as_str().unicode_len();
        proof {
            let next = roster_view(players@).take(i + 1);
            assert(next.drop_last() =~= roster_view(players@).take(i as int));
            assert(next.last() == player@);
        }
        if name > callsigns {
            callsigns = name;
        }
        if points > scores {
            scores = points;
        }
        i = i + 1;
    }
    assert(roster_view(players@).take(i as int) =~= roster_view(players@));
    (callsigns, scores)
}

/// Renders the line of one player for columns of the given widths.
pub fn player_line(player: &Player, callsigns: usize, scores: usize) -> (r: String)
    ensures
        r@ == spec_player_line(player@, callsigns as nat, scores as nat),
{
    let points = signed_decimal(score(player.wins, player.losses));
    let name_width = player.callsign.as_str().as_bytes().len();
    let points_width = points.as_str().unicode_len();
    let name_pad = if name_width < callsigns {
        callsigns - name_width
    } else {
        0
    };
    let points_pad = if points_width < scores {
        scores - points_width
    } else {
        0
    };
    let mut out = String::from_str(" \u{2022} ");
    out.append(player.callsign.as_str());
    out.append(spaces(name_pad).as_str());
    out.append("  [");
    out.append(BRIGHT);
    out.append(WHITE);
    out.append(points.as_str());
    out.append(RESET);
    out.append("]");
    out.append(spaces(points_pad).as_str());
    out.append("  (");
    out.append(BRIGHT);
    out.append(team_color(player.team.index()));
    out.append(player.team.name());
    out.append(RESET);
    out.append(")\n");
    out
}

/// Renders the whole report of a snapshot.
pub fn report(query: &Query) -> (r: String)
    ensures
        r@ == spec_report(query@),
{
    let mut out = configuration_lines(query);
    out.append("\n");
    out.append(heading("Teams").as_str());
    out.append("\n");
    let ghost before_teams = out@;
    let mut i: usize = 0;
    while i < query.teams.len()
        invariant
            i <= query.teams@.len(),
            out@ == before_teams + spec_report_teams(query.teams@.take(i as int)),
        decreases query.teams@.len() - i,
    {
        proof {
            let next = query.teams@.take(i + 1);
            assert(next.drop_last() =~= query.teams@.take(i as int));
        }
        if query.teams[i].max_size != 0 {
            out.append(team_line(&query.teams[i]).as_str());
        }
        assert(out@ =~= before_teams + spec_report_teams(query.teams@.take(i + 1)));
        i = i + 1;
    }
    assert(query.teams@.take(i as int) =~= query.teams@);
    out.append("\n");
    out.append(heading("Players").as_str());
    out.append("\n");
    if query.players.len() == 0 {
        out.append(" No players online\n");
    } else {
        let (callsigns, scores) = roster_widths(&query.players);
        let ghost before_players = out@;
        let mut j: usize = 0;
        while j < query.players.len()
            invariant
                j <= query.players@.len(),
                callsigns == widest_callsign(query@.players),
                scores == widest_score(query@.players),
                out@ == before_players + spec_report_players(query@.players, j as nat),
            decreases query.players@.len() - j,
        {
            out.append(player_line(&query.players[j], callsigns, scores).as_str());
            assert(out@ =~= before_players + spec_report_players(query@.players, (j + 1) as nat));
            j = j + 1;
        }
    }
    out
}

} // verus!
