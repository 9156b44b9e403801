//! The handshake and the framing of requests and responses.
//!
//! A frame is a header and a payload: the header is a 16-bit length and a
//! two-byte command code, the payload has that length. A request is a frame
//! without payload. A response frame with another code than the awaited one
//! is read whole, header and payload, and thrown away.
//!
//! The server answers the greeting with nine bytes: the version token and a
//! status byte. The status byte is the ninth byte, at index 8; no byte after
//! it is read or looked at.

use crate::constants::{
    BUFFER_SIZE, FRAME_HEADER_LEN, HANDSHAKE_RESPONSE_LEN, MAGIC, PROTOCOL_VERSION, SERVER_FULL,
};
use crate::error::QueryError;
use crate::field::{read_slot, spec_unpack_u16};
use vstd::prelude::*;

verus! {

/// The bytes of the greeting.
pub open spec fn spec_greeting() -> Seq<u8> {
    MAGIC@
}

/// The greeting that opens a connection.
pub fn greeting() -> (r: Vec<u8>)
    ensures
        r@ == spec_greeting(),
{
    let mut out: Vec<u8> = Vec::new();
    let mut i: usize = 0;
    while i < 10
        invariant
            i <= 10,
            out@ == MAGIC@.subrange(0, i as int),
        decreases 10 - i,
    {
        out.push(MAGIC[i]);
        assert(out@ =~= MAGIC@.subrange(0, i + 1));
        i = i + 1;
    }
    assert(out@ =~= MAGIC@);
    out
}

/// Whether the first eight bytes of `response` are the version token.
pub open spec fn version_matches(response: Seq<u8>) -> bool {
    response.len() >= 8 && response.subrange(0, 8) == PROTOCOL_VERSION@
}

/// What the answer to the greeting amounts to.
///
/// An answer of fewer than nine bytes is truncated. One whose first eight
/// bytes are not the version token is a protocol mismatch, and the error
/// holds those eight bytes. Otherwise the ninth byte decides: the sentinel
/// means that the server is full.
pub open spec fn spec_check_handshake(response: Seq<u8>) -> Result<(), QueryError> {
    if response.len() < HANDSHAKE_RESPONSE_LEN {
        Err(QueryError::TruncatedFrame)
    } else if !version_matches(response) {
        Err(
            QueryError::ProtocolMismatch {
                received: [
                    response[0],
                    response[1],
                    response[2],
                    response[3],
                    response[4],
                    response[5],
                    response[6],
                    response[7],
                ],
            },
        )
    } else if response[8] == SERVER_FULL {
        Err(QueryError::ServerFull)
    } else {
        Ok(())
    }
}

/// Checks the server's answer to the greeting.
pub fn check_handshake(response: &[u8]) -> (r: Result<(), QueryError>)
    ensures
        r == spec_check_handshake(response@),
{
    if response.len() < HANDSHAKE_RESPONSE_LEN {
        return Err(QueryError::TruncatedFrame);
    }
    let mut i: usize = 0;
    while i < 8
        invariant
            i <= 8,
            response@.len() >= 9,
            response@.subrange(0, i as int) == PROTOCOL_VERSION@.subrange(0, i as int),
        decreases 8 - i,
    {
        if response[i] != PROTOCOL_VERSION[i] {
            assert(response@.subrange(0, 8)[i as int] != PROTOCOL_VERSION@[i as int]);
            return Err(
                QueryError::ProtocolMismatch {
                    received: [
                        response[0],
                        response[1],
                        response[2],
                        response[3],
                        response[4],
                        response[5],
                        response[6],
                        response[7],
                    ],
                },
            );
        }
        assert(response@.subrange(0, i + 1) =~= response@.subrange(0, i as int).push(
            response@[i as int],
        ));
        assert(PROTOCOL_VERSION@.subrange(0, i + 1) =~= PROTOCOL_VERSION@.subrange(
            0,
            i as int,
        ).push(PROTOCOL_VERSION@[i as int]));
        i = i + 1;
    }
    assert(PROTOCOL_VERSION@.subrange(0, 8) =~= PROTOCOL_VERSION@);
    if response[8] == SERVER_FULL {
        Err(QueryError::ServerFull)
    } else {
        Ok(())
    }
}

/// An answer whose first eight bytes are not the version token is a
/// protocol mismatch and nothing else, whatever its ninth byte; the error
/// holds those eight bytes. No other answer is a protocol mismatch.
pub proof fn lemma_mismatch_iff_wrong_version(response: Seq<u8>)
    requires
        response.len() >= HANDSHAKE_RESPONSE_LEN,
    ensures
        !version_matches(response) <==> spec_check_handshake(response) matches Err(
            QueryError::ProtocolMismatch { .. },
        ),
        spec_check_handshake(response) matches Err(QueryError::ProtocolMismatch { received })
            ==> received@ == response.subrange(0, 8),
        spec_check_handshake(response) is Ok <==> version_matches(response) && response[8]
            != SERVER_FULL,
{
    if let Err(QueryError::ProtocolMismatch { received }) = spec_check_handshake(response) {
        assert(received@ =~= response.subrange(0, 8));
    }
}

/// The request frame for command `code`: a zero length, then the code.
pub open spec fn spec_request_frame(code: [u8; 2]) -> Seq<u8> {
    seq![0u8, 0u8, code[0], code[1]]
}

/// Builds the request frame for command `code`.
pub fn request_frame(code: &[u8; 2]) -> (r: Vec<u8>)
    ensures
        r@ == spec_request_frame(*code),
{
    let mut out: Vec<u8> = Vec::new();
    out.push(0);
    out.push(0);
    out.push(code[0]);
    out.push(code[1]);
    assert(out@ =~= spec_request_frame(*code));
    out
}

/// The payload length that a frame header announces: its slot 0.
pub open spec fn header_length(header: Seq<u8>) -> u16 {
    spec_unpack_u16(header, 0)
}

/// Whether a frame header carries the command code `code`.
pub open spec fn header_has_code(header: Seq<u8>, code: [u8; 2]) -> bool {
    header[2] == code[0] && header[3] == code[1]
}

/// What a frame header says to a reader that waits for one command: whether
/// the frame is the awaited one, and how long the payload is that follows
/// the header.
#[derive(Debug, Clone, Copy, PartialEq, Eq)]
pub enum Header {
    /// The frame carries the awaited code; its payload is the response.
    Awaited(u16),
    /// The frame carries another code; its payload is to be read and thrown
    /// away.
    Other(u16),
}

/// What a frame header means to a reader that waits for command `code`.
///
/// A header of fewer than four bytes is truncated. So is one that announces
/// more payload than a buffer may take, whatever its code: no read of more
/// than a buffer holds is ever asked for, neither to deliver a payload nor
/// to throw one away. Any other header gives the length of its payload, and
/// says whether the frame is the awaited one.
pub open spec fn spec_match_header(header: Seq<u8>, code: [u8; 2]) -> Result<Header, QueryError> {
    if header.len() < FRAME_HEADER_LEN {
        Err(QueryError::TruncatedFrame)
    } else if header_length(header) > BUFFER_SIZE {
        Err(QueryError::TruncatedFrame)
    } else if header_has_code(header, code) {
        Ok(Header::Awaited(header_length(header)))
    } else {
        Ok(Header::Other(header_length(header)))
    }
}

/// Reads a frame header while waiting for command `code`.
pub fn match_header(header: &[u8], code: &[u8; 2]) -> (r: Result<Header, QueryError>)
    ensures
        r == spec_match_header(header@, *code),
{
    if header.len() < FRAME_HEADER_LEN {
        return Err(QueryError::TruncatedFrame);
    }
    let length = read_slot(header, 0);
    if length as usize > BUFFER_SIZE {
        return Err(QueryError::TruncatedFrame);
    }
    if header[2] == code[0] && header[3] == code[1] {
        Ok(Header::Awaited(length))
    } else {
        Ok(Header::Other(length))
    }
}

/// A request frame read as a header carries its own code and announces no
/// payload.
pub proof fn lemma_request_frame_is_header(code: [u8; 2])
    ensures
        spec_request_frame(code).len() == FRAME_HEADER_LEN,
        spec_match_header(spec_request_frame(code), code) == Ok::<Header, QueryError>(
            Header::Awaited(0u16),
        ),
{
}

/// No header leads to a read of more than a buffer holds: a length above
/// that is a truncated frame, whatever the code, and every length that is
/// handed back fits.
pub proof fn lemma_payload_fits_buffer(header: Seq<u8>, code: [u8; 2])
    ensures
        header.len() >= FRAME_HEADER_LEN && header_length(header) > BUFFER_SIZE
            ==> spec_match_header(header, code) == Err::<Header, QueryError>(
            QueryError::TruncatedFrame,
        ),
        spec_match_header(header, code) matches Ok(Header::Awaited(length)) ==> length
            <= BUFFER_SIZE && header_has_code(header, code),
        spec_match_header(header, code) matches Ok(Header::Other(length)) ==> length
            <= BUFFER_SIZE && !header_has_code(header, code),
{
}

} // verus!
