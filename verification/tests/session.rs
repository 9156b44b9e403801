use bzfquery::error::QueryError;
use bzfquery::model::{GameType, Player, Query, Team, TeamColor};
use bzfquery::session::{Exchange, Failure, Session, Stage, Step};

fn be(value: u16) -> [u8; 2] {
    [(value >> 8) as u8, (value & 0xff) as u8]
}

fn slots(values: &[u16]) -> Vec<u8> {
    let mut out = Vec::new();
    for value in values {
        out.extend_from_slice(&be(*value));
    }
    out
}

fn header(length: u16, code: &[u8; 2]) -> Vec<u8> {
    let mut out = be(length).to_vec();
    out.extend_from_slice(code);
    out
}

fn config_payload() -> Vec<u8> {
    slots(&[
        3, 0x0022, 50, 2, 0, 0, 0, 0, 0, 4, 10, 11, 12, 13, 14, 15, 1, 20, 30, 40, 50, 60,
    ])
}

fn count_payload(players: u16) -> Vec<u8> {
    slots(&[2, players])
}

fn teams_payload() -> Vec<u8> {
    let mut out = vec![2u8];
    out.extend_from_slice(&slots(&[1, 4, 10, 3]));
    out.extend_from_slice(&slots(&[2, 2, 7, 9]));
    out
}

fn player_payload(id: u8, team: u16, callsign: &str) -> Vec<u8> {
    let mut out = vec![id];
    out.extend_from_slice(&slots(&[0, team, 5, 6, 7]));
    let mut name = [0u8; 32];
    name[..callsign.len()].copy_from_slice(callsign.as_bytes());
    out.extend_from_slice(&name);
    out.extend_from_slice(&[0u8; 128]);
    out
}

fn go_on(step: Result<Step, Failure>) -> (Session, Exchange) {
    match step {
        Ok(Step::Continue(session, exchange)) => (session, exchange),
        other => panic!("the query should go on, but: {:?}", other),
    }
}

fn done(step: Result<Step, Failure>) -> Query {
    match step {
        Ok(Step::Done(query)) => query,
        other => panic!("the query should be done, but: {:?}", other),
    }
}

fn failed(step: Result<Step, Failure>) -> Failure {
    match step {
        Err(failure) => failure,
        other => panic!("the query should have failed, but: {:?}", other),
    }
}

fn read_header() -> Exchange {
    Exchange { send: vec![], read: 4 }
}

fn read_payload(length: usize) -> Exchange {
    Exchange { send: vec![], read: length }
}

fn frame(session: Session, code: &[u8; 2], payload: &[u8]) -> Result<Step, Failure> {
    let (session, exchange) = go_on(session.step(&header(payload.len() as u16, code)));
    assert_eq!(exchange, read_payload(payload.len()));
    assert_eq!(session.expected_len(), payload.len());
    session.step(payload)
}

fn up_to_player_count(players: u16) -> Session {
    let (session, _) = Session::start();
    let (session, _) = go_on(session.step(b"BZFS0221\x00"));
    let (session, _) = go_on(frame(session, b"qg", &config_payload()));
    let (session, exchange) = go_on(frame(session, b"qp", &count_payload(players)));
    assert_eq!(exchange, read_header());
    assert_eq!(session.stage(), Stage::AwaitTeamUpdate);
    session
}

fn up_to_roster(players: u16) -> Session {
    let session = up_to_player_count(players);
    let (session, exchange) = go_on(frame(session, b"tu", &teams_payload()));
    assert_eq!(exchange, read_header());
    assert_eq!(session.stage(), Stage::AwaitEachPlayer);
    session
}

#[test]
fn session_starts_with_the_greeting() {
    let (session, exchange) = Session::start();
    assert_eq!(exchange, Exchange { send: b"BZFLAG\r\n\r\n".to_vec(), read: 9 });
    assert_eq!(session.stage(), Stage::Handshake);
    assert_eq!(session.expected_len(), 9);
}

#[test]
fn session_asks_for_the_game_configuration_after_the_handshake() {
    let (session, _) = Session::start();
    let (session, exchange) = go_on(session.step(b"BZFS0221\x00"));
    assert_eq!(exchange, Exchange { send: vec![0, 0, b'q', b'g'], read: 4 });
    assert_eq!(session.stage(), Stage::AwaitGameConfig);
    assert_eq!(session.expected_len(), 4);
}

#[test]
fn session_wrong_version_fails_with_a_mismatch() {
    let (session, _) = Session::start();
    assert_eq!(
        failed(session.step(b"BZFS0026\x00")),
        Failure {
            stage: Stage::Handshake,
            error: QueryError::ProtocolMismatch { received: *b"BZFS0026" }
        }
    );
}

#[test]
fn session_full_server_fails() {
    let (session, _) = Session::start();
    assert_eq!(
        failed(session.step(b"BZFS0221\xff")),
        Failure { stage: Stage::Handshake, error: QueryError::ServerFull }
    );
}

#[test]
fn session_handshake_of_another_length_is_truncated() {
    let (session, _) = Session::start();
    assert_eq!(
        failed(session.step(b"BZFS0221")),
        Failure { stage: Stage::Handshake, error: QueryError::TruncatedFrame }
    );
    let (session, _) = Session::start();
    assert_eq!(
        failed(session.step(b"BZFS0221\x00\x00")),
        Failure { stage: Stage::Handshake, error: QueryError::TruncatedFrame }
    );
}

#[test]
fn session_asks_for_the_player_count_after_the_configuration() {
    let (session, _) = Session::start();
    let (session, _) = go_on(session.step(b"BZFS0221\x00"));
    let (session, exchange) = go_on(session.step(&header(44, b"qg")));
    assert_eq!(exchange, read_payload(44));
    assert_eq!(session.stage(), Stage::AwaitGameConfig);
    let (session, exchange) = go_on(session.step(&config_payload()));
    assert_eq!(exchange, Exchange { send: vec![0, 0, b'q', b'p'], read: 4 });
    assert_eq!(session.stage(), Stage::AwaitPlayerCount);
}

#[test]
fn session_skips_whole_frames_with_another_code() {
    let (session, _) = Session::start();
    let (session, _) = go_on(session.step(b"BZFS0221\x00"));
    let (session, exchange) = go_on(session.step(&header(300, b"zz")));
    assert_eq!(exchange, read_payload(300));
    assert_eq!(session.stage(), Stage::AwaitGameConfig);
    assert_eq!(session.expected_len(), 300);
    let (session, exchange) = go_on(session.step(&vec![0xabu8; 300]));
    assert_eq!(exchange, read_header());
    assert_eq!(session.stage(), Stage::AwaitGameConfig);
    let (session, exchange) = go_on(session.step(&header(44, b"qp")));
    assert_eq!(exchange, read_payload(44));
    let (session, exchange) = go_on(session.step(&config_payload()));
    assert_eq!(exchange, read_header());
    assert_eq!(session.stage(), Stage::AwaitGameConfig);
    let (session, exchange) = go_on(session.step(&header(44, b"qg")));
    assert_eq!(exchange, read_payload(44));
    assert_eq!(session.expected_len(), 44);
    let (session, _) = go_on(session.step(&config_payload()));
    assert_eq!(session.stage(), Stage::AwaitPlayerCount);
}

#[test]
fn session_skips_an_empty_frame_with_another_code_at_once() {
    let (session, _) = Session::start();
    let (session, _) = go_on(session.step(b"BZFS0221\x00"));
    let (session, exchange) = go_on(session.step(&header(0, b"zz")));
    assert_eq!(exchange, read_header());
    assert_eq!(session.expected_len(), 4);
    assert_eq!(session.stage(), Stage::AwaitGameConfig);
}

#[test]
fn session_skipped_payload_that_looks_like_the_awaited_header_is_not_a_header() {
    // Awaiting `tu`: an `ap` frame whose four payload bytes read `00 02 t u`,
    // then the team update itself, one byte long.
    let session = up_to_player_count(0);
    let (session, exchange) = go_on(session.step(&[0x00, 0x04, b'a', b'p']));
    assert_eq!(exchange, read_payload(4));
    let (session, exchange) = go_on(session.step(&[0x00, 0x02, b't', b'u']));
    assert_eq!(exchange, read_header());
    assert_eq!(session.stage(), Stage::AwaitTeamUpdate);
    let (session, exchange) = go_on(session.step(&[0x00, 0x01, b't', b'u']));
    assert_eq!(exchange, read_payload(1));
    assert_eq!(
        failed(session.step(&[0x07])),
        Failure { stage: Stage::AwaitTeamUpdate, error: QueryError::TruncatedFrame }
    );
}

#[test]
fn session_delivers_the_payload_after_a_skipped_frame() {
    // The same stream with a team update that decodes: no teams reported.
    let session = up_to_player_count(0);
    let (session, _) = go_on(session.step(&[0x00, 0x04, b'a', b'p']));
    let (session, _) = go_on(session.step(&[0x00, 0x02, b't', b'u']));
    let (session, exchange) = go_on(session.step(&[0x00, 0x01, b't', b'u']));
    assert_eq!(exchange, read_payload(1));
    let query = done(session.step(&[0x00]));
    assert_eq!(
        query.teams,
        vec![Team { team: TeamColor::Observer, size: 4, max_size: 15, wins: 0, losses: 0 }]
    );
}

#[test]
fn session_skipped_payload_of_another_length_is_truncated() {
    let (session, _) = Session::start();
    let (session, _) = go_on(session.step(b"BZFS0221\x00"));
    let (session, _) = go_on(session.step(&header(8, b"zz")));
    assert_eq!(
        failed(session.step(&[0u8; 7])),
        Failure { stage: Stage::AwaitGameConfig, error: QueryError::TruncatedFrame }
    );
}

#[test]
fn session_frame_with_another_code_longer_than_a_buffer_is_truncated() {
    let (session, _) = Session::start();
    let (session, _) = go_on(session.step(b"BZFS0221\x00"));
    assert_eq!(
        failed(session.step(&header(9999, b"zz"))),
        Failure { stage: Stage::AwaitGameConfig, error: QueryError::TruncatedFrame }
    );
    let (session, _) = Session::start();
    let (session, _) = go_on(session.step(b"BZFS0221\x00"));
    let (session, exchange) = go_on(session.step(&header(1024, b"zz")));
    assert_eq!(exchange, read_payload(1024));
    let (session, exchange) = go_on(session.step(&[0u8; 1024]));
    assert_eq!(exchange, read_header());
    assert_eq!(session.stage(), Stage::AwaitGameConfig);
}

#[test]
fn session_frame_longer_than_a_buffer_is_truncated() {
    let (session, _) = Session::start();
    let (session, _) = go_on(session.step(b"BZFS0221\x00"));
    assert_eq!(
        failed(session.step(&header(1025, b"qg"))),
        Failure { stage: Stage::AwaitGameConfig, error: QueryError::TruncatedFrame }
    );
    let session = up_to_roster(1);
    assert_eq!(
        failed(session.step(&header(0xffff, b"ap"))),
        Failure { stage: Stage::AwaitEachPlayer, error: QueryError::TruncatedFrame }
    );
}

#[test]
fn session_frame_that_fills_a_buffer_is_taken() {
    let (session, _) = Session::start();
    let (session, _) = go_on(session.step(b"BZFS0221\x00"));
    let (session, exchange) = go_on(session.step(&header(1024, b"qg")));
    assert_eq!(exchange, read_payload(1024));
    let mut payload = config_payload();
    payload.resize(1024, 0);
    let (session, _) = go_on(session.step(&payload));
    assert_eq!(session.stage(), Stage::AwaitPlayerCount);
}

#[test]
fn session_payload_of_another_length_is_truncated() {
    let (session, _) = Session::start();
    let (session, _) = go_on(session.step(b"BZFS0221\x00"));
    let (session, _) = go_on(session.step(&header(48, b"qg")));
    assert_eq!(
        failed(session.step(&config_payload())),
        Failure { stage: Stage::AwaitGameConfig, error: QueryError::TruncatedFrame }
    );
}

#[test]
fn session_payload_too_short_for_its_record_is_truncated() {
    let (session, _) = Session::start();
    let (session, _) = go_on(session.step(b"BZFS0221\x00"));
    assert_eq!(
        failed(frame(session, b"qg", &config_payload()[..40])),
        Failure { stage: Stage::AwaitGameConfig, error: QueryError::TruncatedFrame }
    );
    let (session, _) = Session::start();
    let (session, _) = go_on(session.step(b"BZFS0221\x00"));
    assert_eq!(
        failed(frame(session, b"qg", &[])),
        Failure { stage: Stage::AwaitGameConfig, error: QueryError::TruncatedFrame }
    );
}

#[test]
fn session_bad_style_fails_at_the_configuration() {
    let (session, _) = Session::start();
    let (session, _) = go_on(session.step(b"BZFS0221\x00"));
    let mut payload = config_payload();
    payload[1] = 4;
    assert_eq!(
        failed(frame(session, b"qg", &payload)),
        Failure { stage: Stage::AwaitGameConfig, error: QueryError::InvalidEnumValue { value: 4 } }
    );
}

#[test]
fn session_bad_team_fails_at_the_team_update() {
    let session = up_to_player_count(0);
    let mut payload = teams_payload();
    payload[2] = 6;
    assert_eq!(
        failed(frame(session, b"tu", &payload)),
        Failure { stage: Stage::AwaitTeamUpdate, error: QueryError::InvalidEnumValue { value: 6 } }
    );
}

#[test]
fn session_bad_text_fails_at_the_player_record() {
    let session = up_to_roster(2);
    let mut payload = player_payload(1, 1, "ok");
    payload[11] = 0xff;
    assert_eq!(
        failed(frame(session, b"ap", &payload)),
        Failure { stage: Stage::AwaitEachPlayer, error: QueryError::TextDecode }
    );
}

#[test]
fn session_without_players_is_done_after_the_team_update() {
    let session = up_to_player_count(0);
    let query = done(frame(session, b"tu", &teams_payload()));
    assert!(query.players.is_empty());
    assert_eq!(query.teams.len(), 3);
}

#[test]
fn session_awaits_exactly_three_players() {
    let session = up_to_roster(3);
    let (session, exchange) = go_on(frame(session, b"ap", &player_payload(1, 1, "one")));
    assert_eq!(exchange, read_header());
    assert_eq!(session.stage(), Stage::AwaitEachPlayer);
    let (session, exchange) = go_on(frame(session, b"ap", &player_payload(2, 2, "two")));
    assert_eq!(exchange, read_header());
    assert_eq!(session.stage(), Stage::AwaitEachPlayer);
    let query = done(frame(session, b"ap", &player_payload(3, 5, "three")));
    assert_eq!(query.players.len(), 3);
    let names: Vec<&str> = query.players.iter().map(|p| p.callsign.as_str()).collect();
    assert_eq!(names, vec!["one", "two", "three"]);
}

#[test]
fn session_awaits_as_many_players_as_were_counted() {
    for count in [1u16, 2, 5, 40] {
        let mut session = up_to_roster(count);
        for seen in 1..count {
            let (next, exchange) =
                go_on(frame(session, b"ap", &player_payload(seen as u8, 0, "p")));
            assert_eq!(exchange, read_header());
            session = next;
        }
        let query = done(frame(session, b"ap", &player_payload(count as u8, 0, "last")));
        assert_eq!(query.players.len(), count as usize);
        assert_eq!(query.players[count as usize - 1].id, count as u8);
    }
}

#[test]
fn session_foreign_frames_between_players_do_not_count() {
    let session = up_to_roster(2);
    let (session, exchange) = go_on(frame(session, b"tu", &teams_payload()));
    assert_eq!(exchange, read_header());
    let (session, _) = go_on(frame(session, b"ap", &player_payload(1, 1, "one")));
    let (session, exchange) = go_on(session.step(&header(0, b"qg")));
    assert_eq!(exchange, read_header());
    let (session, exchange) = go_on(frame(session, b"pa", &player_payload(7, 1, "no")));
    assert_eq!(exchange, read_header());
    assert_eq!(session.stage(), Stage::AwaitEachPlayer);
    let query = done(frame(session, b"ap", &player_payload(2, 1, "two")));
    assert_eq!(query.players.len(), 2);
    let names: Vec<&str> = query.players.iter().map(|p| p.callsign.as_str()).collect();
    assert_eq!(names, vec!["one", "two"]);
}

#[test]
fn session_assembles_the_whole_snapshot() {
    let session = up_to_roster(1);
    let query = done(frame(session, b"ap", &player_payload(9, 6, "Nexus")));
    assert_eq!(query.style, GameType::Rabbit);
    assert!(query.options.flags && query.options.ricochet);
    assert!(!query.options.jumping && !query.options.no_team_kills);
    assert_eq!(query.max_players, 50);
    assert_eq!(query.max_shots, 2);
    assert_eq!(query.shake_wins, 1);
    assert_eq!(query.shake_timeout, 20);
    assert_eq!(query.max_player_score, 30);
    assert_eq!(query.max_team_score, 40);
    assert_eq!(query.max_time, 50);
    assert_eq!(query.elapsed_time, 60);
    assert_eq!(
        query.teams,
        vec![
            Team { team: TeamColor::Red, size: 4, max_size: 11, wins: 10, losses: 3 },
            Team { team: TeamColor::Green, size: 2, max_size: 12, wins: 7, losses: 9 },
            Team { team: TeamColor::Observer, size: 4, max_size: 15, wins: 0, losses: 0 },
        ]
    );
    assert_eq!(
        query.players,
        vec![Player {
            id: 9,
            player_type: 0,
            team: TeamColor::Rabbit,
            wins: 5,
            losses: 6,
            tks: 7,
            callsign: "Nexus".to_string(),
            motto: String::new(),
        }]
    );
}
