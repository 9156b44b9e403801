use bzfquery::model::{GameType, Options, Player, Query, Team, TeamColor};
use bzfquery::report::{player_line, report, roster_widths, spaces, team_line};

fn player(callsign: &str, team: TeamColor, wins: u16, losses: u16) -> Player {
    Player {
        id: 1,
        player_type: 0,
        team,
        wins,
        losses,
        tks: 0,
        callsign: callsign.to_string(),
        motto: String::new(),
    }
}

fn snapshot(teams: Vec<Team>, players: Vec<Player>) -> Query {
    Query {
        style: GameType::CTF,
        options: Options {
            flags: true,
            jumping: false,
            inertia: false,
            ricochet: true,
            shaking: false,
            antidote: false,
            handicap: false,
            no_team_kills: true,
        },
        max_players: 0,
        max_shots: 0,
        shake_wins: 0,
        shake_timeout: 0,
        max_player_score: 0,
        max_team_score: 0,
        max_time: 0,
        elapsed_time: 0,
        teams,
        players,
    }
}

const CONFIGURATION: &str = "\x1b[1m\x1b[4m\x1b[37mConfiguration\x1b[0m\n\
Game style:  \x1b[1m\x1b[37mCTF\x1b[0m\n\
Flags:       \x1b[1m\x1b[32myes\x1b[0m\n\
Jumping:     \x1b[1m\x1b[31mno\x1b[0m\n\
Ricochet:    \x1b[1m\x1b[32myes\x1b[0m\n\
Team kills:  \x1b[1m\x1b[31mno\x1b[0m\n";

#[test]
fn spaces_of_each_count() {
    assert_eq!(spaces(0), "");
    assert_eq!(spaces(1), " ");
    assert_eq!(spaces(7), "       ");
}

#[test]
fn team_line_pads_the_name_to_nine() {
    let red = Team { team: TeamColor::Red, size: 1, max_size: 5, wins: 10, losses: 3 };
    assert_eq!(
        team_line(&red),
        " \u{2022} \x1b[1m\x1b[31mRed      \x1b[0m [\x1b[1m\x1b[37m7\x1b[0m]\n"
    );
    let observer = Team { team: TeamColor::Observer, size: 1, max_size: 5, wins: 0, losses: 4 };
    assert_eq!(
        team_line(&observer),
        " \u{2022} \x1b[1m\x1b[37mObserver \x1b[0m [\x1b[1m\x1b[37m-4\x1b[0m]\n"
    );
}

#[test]
fn roster_widths_are_the_widest() {
    assert_eq!(roster_widths(&vec![]), (0, 0));
    let players = vec![
        player("ab", TeamColor::Red, 1, 0),
        player("abcdef", TeamColor::Red, 0, 120),
        player("abc", TeamColor::Red, 99, 0),
    ];
    assert_eq!(roster_widths(&players), (6, 4));
    let wide = vec![player("\u{2605}\u{2605}", TeamColor::Red, 0, 0)];
    assert_eq!(roster_widths(&wide), (6, 1));
}

#[test]
fn player_line_fills_both_columns() {
    let one = player("ab", TeamColor::Green, 5, 0);
    assert_eq!(
        player_line(&one, 6, 4),
        " \u{2022} ab      [\x1b[1m\x1b[37m5\x1b[0m]     (\x1b[1m\x1b[32mGreen\x1b[0m)\n"
    );
    assert_eq!(
        player_line(&one, 2, 1),
        " \u{2022} ab  [\x1b[1m\x1b[37m5\x1b[0m]  (\x1b[1m\x1b[32mGreen\x1b[0m)\n"
    );
    assert_eq!(
        player_line(&one, 0, 0),
        " \u{2022} ab  [\x1b[1m\x1b[37m5\x1b[0m]  (\x1b[1m\x1b[32mGreen\x1b[0m)\n"
    );
}

#[test]
fn report_without_players() {
    let teams = vec![
        Team { team: TeamColor::Red, size: 1, max_size: 5, wins: 10, losses: 3 },
        Team { team: TeamColor::Blue, size: 0, max_size: 0, wins: 9, losses: 9 },
        Team { team: TeamColor::Observer, size: 2, max_size: 3, wins: 0, losses: 0 },
    ];
    let expected = format!(
        "{}\n\x1b[1m\x1b[4m\x1b[37mTeams\x1b[0m\n{}{}\n\x1b[1m\x1b[4m\x1b[37mPlayers\x1b[0m\n No players online\n",
        CONFIGURATION,
        " \u{2022} \x1b[1m\x1b[31mRed      \x1b[0m [\x1b[1m\x1b[37m7\x1b[0m]\n",
        " \u{2022} \x1b[1m\x1b[37mObserver \x1b[0m [\x1b[1m\x1b[37m0\x1b[0m]\n",
    );
    assert_eq!(report(&snapshot(teams, vec![])), expected);
}

#[test]
fn report_aligns_the_roster() {
    let players = vec![
        player("Nexus", TeamColor::Rogue, 10, 0),
        player("Al", TeamColor::Hunter, 0, 3),
    ];
    let expected = format!(
        "{}\n\x1b[1m\x1b[4m\x1b[37mTeams\x1b[0m\n\n\x1b[1m\x1b[4m\x1b[37mPlayers\x1b[0m\n{}{}",
        CONFIGURATION,
        " \u{2022} Nexus  [\x1b[1m\x1b[37m10\x1b[0m]  (\x1b[1m\x1b[33mRogue\x1b[0m)\n",
        " \u{2022} Al     [\x1b[1m\x1b[37m-3\x1b[0m]  (\x1b[1m\x1b[33mHunter\x1b[0m)\n",
    );
    assert_eq!(report(&snapshot(vec![], players)), expected);
}
