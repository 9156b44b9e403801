use bzfquery::constants::{MSG_ADD_PLAYER, MSG_QUERY_GAME, MSG_QUERY_PLAYERS, MSG_TEAM_UPDATE};
use bzfquery::error::QueryError;
use bzfquery::frame::{check_handshake, greeting, match_header, request_frame, Header};

#[test]
fn greeting_is_the_magic() {
    assert_eq!(greeting(), b"BZFLAG\r\n\r\n".to_vec());
    assert_eq!(greeting().len(), 10);
}

#[test]
fn command_codes_are_two_letters() {
    assert_eq!(&MSG_QUERY_GAME, b"qg");
    assert_eq!(&MSG_QUERY_PLAYERS, b"qp");
    assert_eq!(&MSG_TEAM_UPDATE, b"tu");
    assert_eq!(&MSG_ADD_PLAYER, b"ap");
}

#[test]
fn handshake_with_the_version_token() {
    assert_eq!(check_handshake(b"BZFS0221\x00"), Ok(()));
    assert_eq!(check_handshake(b"BZFS0221\x01"), Ok(()));
    assert_eq!(check_handshake(b"BZFS0221\xfe"), Ok(()));
}

#[test]
fn handshake_wrong_version_is_a_mismatch() {
    assert_eq!(
        check_handshake(b"BZFS0026\x00"),
        Err(QueryError::ProtocolMismatch { received: *b"BZFS0026" })
    );
    assert_eq!(
        check_handshake(b"bZFS0221\x00"),
        Err(QueryError::ProtocolMismatch { received: *b"bZFS0221" })
    );
    assert_eq!(
        check_handshake(b"BZFS0220\x00"),
        Err(QueryError::ProtocolMismatch { received: *b"BZFS0220" })
    );
    assert_eq!(
        check_handshake(&[0xff; 9]),
        Err(QueryError::ProtocolMismatch { received: [0xff; 8] })
    );
}

#[test]
fn handshake_mismatch_comes_before_server_full() {
    assert_eq!(
        check_handshake(b"HTTP/1.1\xff"),
        Err(QueryError::ProtocolMismatch { received: *b"HTTP/1.1" })
    );
}

#[test]
fn handshake_server_full_is_the_ninth_byte() {
    assert_eq!(check_handshake(b"BZFS0221\xff"), Err(QueryError::ServerFull));
    assert_eq!(check_handshake(b"BZFS0221\x00\xff"), Ok(()));
    assert_eq!(check_handshake(b"BZFS0221\xff\x00"), Err(QueryError::ServerFull));
}

#[test]
fn handshake_too_short_is_truncated() {
    assert_eq!(check_handshake(b"BZFS0221"), Err(QueryError::TruncatedFrame));
    assert_eq!(check_handshake(b""), Err(QueryError::TruncatedFrame));
    assert_eq!(check_handshake(b"XXXX"), Err(QueryError::TruncatedFrame));
}

#[test]
fn request_frame_is_zero_length_then_code() {
    assert_eq!(request_frame(&MSG_QUERY_GAME), vec![0, 0, b'q', b'g']);
    assert_eq!(request_frame(&MSG_QUERY_PLAYERS), vec![0, 0, b'q', b'p']);
    assert_eq!(request_frame(&[1, 2]), vec![0, 0, 1, 2]);
}

#[test]
fn request_frame_read_as_a_header() {
    assert_eq!(
        match_header(&request_frame(&MSG_QUERY_GAME), &MSG_QUERY_GAME),
        Ok(Header::Awaited(0))
    );
    assert_eq!(
        match_header(&request_frame(&MSG_QUERY_GAME), &MSG_QUERY_PLAYERS),
        Ok(Header::Other(0))
    );
}

#[test]
fn header_with_the_awaited_code_gives_the_length() {
    assert_eq!(match_header(&[0x00, 0x2c, b'q', b'g'], b"qg"), Ok(Header::Awaited(44)));
    assert_eq!(match_header(&[0x01, 0x02, b't', b'u'], b"tu"), Ok(Header::Awaited(258)));
    assert_eq!(match_header(&[0x04, 0x00, b'a', b'p'], b"ap"), Ok(Header::Awaited(1024)));
    assert_eq!(match_header(&[0x00, 0x00, b'a', b'p', 9, 9], b"ap"), Ok(Header::Awaited(0)));
}

#[test]
fn header_with_another_code_gives_the_length_to_skip() {
    assert_eq!(match_header(&[0x00, 0x2c, b'q', b'p'], b"qg"), Ok(Header::Other(44)));
    assert_eq!(match_header(&[0x00, 0x04, b'g', b'q'], b"qg"), Ok(Header::Other(4)));
    assert_eq!(match_header(&[0x00, 0x00, b'x', b'y'], b"qg"), Ok(Header::Other(0)));
    assert_eq!(match_header(&[0x04, 0x00, b'x', b'y'], b"qg"), Ok(Header::Other(1024)));
}

#[test]
fn header_longer_than_a_buffer_is_truncated() {
    assert_eq!(match_header(&[0x04, 0x01, b'q', b'g'], b"qg"), Err(QueryError::TruncatedFrame));
    assert_eq!(match_header(&[0xff, 0xff, b'q', b'g'], b"qg"), Err(QueryError::TruncatedFrame));
}

#[test]
fn header_with_another_code_longer_than_a_buffer_is_truncated() {
    assert_eq!(match_header(&[0x04, 0x01, b'x', b'y'], b"qg"), Err(QueryError::TruncatedFrame));
    assert_eq!(match_header(&[0xff, 0xff, b'x', b'y'], b"qg"), Err(QueryError::TruncatedFrame));
}

#[test]
fn header_too_short_is_truncated() {
    assert_eq!(match_header(&[0x00, 0x00, b'q'], b"qg"), Err(QueryError::TruncatedFrame));
    assert_eq!(match_header(&[], b"qg"), Err(QueryError::TruncatedFrame));
}
