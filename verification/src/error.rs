//! The ways in which a query can fail.

use vstd::prelude::*;

verus! {

/// Why a query was abandoned. Every kind is fatal to the query in progress.
#[derive(Debug, Clone, Copy, PartialEq, Eq)]
pub enum QueryError {
    /// Connecting, reading or writing failed. The decoders never report this
    /// kind themselves; it is for the code that moves the bytes.
    Connection,
    /// The server did not answer the greeting with the expected version
    /// token. `received` holds the eight bytes that came in its place.
    ProtocolMismatch { received: [u8; 8] },
    /// The server answered the greeting but has no room for another client.
    ServerFull,
    /// A buffer is shorter than the record it should hold, or a frame
    /// announces more payload than a buffer may take.
    TruncatedFrame,
    /// A game style or team colour index lies outside its enumeration.
    InvalidEnumValue { value: u16 },
    /// A callsign or motto is not valid UTF-8.
    TextDecode,
}

} // verus!
