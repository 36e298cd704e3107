//! The byte-order decision taken on the first record's length field.
use vstd::prelude::*;

verus! {

/// The byte order of an STDF file.
#[derive(Debug, Clone, Copy, PartialEq, Eq, Structural)]
pub enum Endian {
    Little,
    Big,
}

/// Fewest bytes a source must hold, from its start, for its byte order to be told:
/// the length field, the record type, and the two-byte body of the first record.
pub const MIN_HEADER_BYTES: u64 = 6;

/// The unsigned 16-bit value of two bytes read as little-endian.
pub open spec fn le_u16(b0: u8, b1: u8) -> nat {
    (b0 as nat) + 256 * (b1 as nat)
}

/// The byte order told by the first record's length field `[b0, b1]`:
/// little-endian when it reads 2 that way, big-endian otherwise.
pub open spec fn endian_of_length_field(b0: u8, b1: u8) -> Endian {
    if le_u16(b0, b1) == 2 {
        Endian::Little
    } else {
        Endian::Big
    }
}

/// The byte order of a whole source: undetermined when it holds fewer than
/// `MIN_HEADER_BYTES` bytes, else told by its first two bytes.
pub open spec fn endian_of(data: Seq<u8>) -> Option<Endian> {
    if data.len() < MIN_HEADER_BYTES {
        None
    } else {
        Some(endian_of_length_field(data[0], data[1]))
    }
}

/// Tells the byte order from the first record's length field `[b0, b1]`.
pub fn endian_from_length_field(b0: u8, b1: u8) -> (r: Endian)
    ensures
        r == endian_of_length_field(b0, b1),
        r == Endian::Little <==> (b0 == 2 && b1 == 0),
{
    if b0 == 2 && b1 == 0 {
        Endian::Little
    } else {
        Endian::Big
    }
}

} // verus!
