//! What can go wrong when bytes are turned into records and back.

use vstd::prelude::*;

verus! {

/// Why a buffer could not be decoded.
#[derive(Debug, Clone, Copy, PartialEq, Eq)]
pub enum DecodeError {
    /// The buffer ends before the record does. More bytes may still come.
    Truncated,
    /// The leading byte is the tag of no known message type.
    UnknownType(u8),
}

/// Why a record could not be encoded.
#[derive(Debug, Clone, Copy, PartialEq, Eq)]
pub enum EncodeError {
    /// The output buffer ends before the record does.
    BufferFull,
}

} // verus!
