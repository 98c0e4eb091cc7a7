//! The UUIDv7 byte layout: a 48-bit big-endian millisecond counter in bytes
//! 0 to 5, the version in the top nibble of byte 6 and the variant in the top
//! two bits of byte 8.
use vstd::prelude::*;

verus! {

/// Number of bytes of a UUID.
pub const UUID_LEN: usize = 16;

/// Version number that the layout carries in the top nibble of byte 6.
pub const VERSION_7: u8 = 7;

/// Milliseconds since the Unix epoch held by bytes 0 to 5, most significant first.
pub open spec fn ms_field(b: Seq<u8>) -> int {
    b[0] as int * 0x100_0000_0000 + b[1] as int * 0x1_0000_0000 + b[2] as int * 0x100_0000
        + b[3] as int * 0x1_0000 + b[4] as int * 0x100 + b[5] as int
}

/// The version field: the top nibble of byte 6.
pub open spec fn version_field(b: Seq<u8>) -> int {
    b[6] as int / 16
}

/// The variant field: the top two bits of byte 8 (`0b10` for the standard variant).
pub open spec fn variant_field(b: Seq<u8>) -> int {
    b[8] as int / 64
}

/// A 16-byte value laid out as a standard-variant UUIDv7.
pub open spec fn is_v7_layout(b: Seq<u8>) -> bool {
    &&& b.len() == UUID_LEN
    &&& version_field(b) == VERSION_7
    &&& variant_field(b) == 2
}

/// The six leading bytes that encode `ms`, most significant first.
pub open spec fn ms_bytes(ms: u64) -> Seq<u8> {
    seq![
        (ms >> 40) as u8,
        (ms >> 32) as u8,
        (ms >> 24) as u8,
        (ms >> 16) as u8,
        (ms >> 8) as u8,
        ms as u8,
    ]
}

/// Encoding a 48-bit millisecond count in the leading bytes and decoding it
/// again gives the count back, whatever bytes follow.
pub proof fn lemma_ms_round_trip(ms: u64, rest: Seq<u8>)
    requires
        ms < 0x1_0000_0000_0000,
    ensures
        ms_field(ms_bytes(ms) + rest) == ms,
{
    let b = ms_bytes(ms) + rest;
    let (b0, b1, b2, b3, b4, b5) = (b[0], b[1], b[2], b[3], b[4], b[5]);
    assert(b0 == (ms >> 40) as u8 && b5 == ms as u8);
    assert(b0 as int * 0x100_0000_0000 + b1 as int * 0x1_0000_0000 + b2 as int * 0x100_0000
        + b3 as int * 0x1_0000 + b4 as int * 0x100 + b5 as int == ms) by (bit_vector)
        requires
            ms < 0x1_0000_0000_0000,
            b0 == (ms >> 40) as u8,
            b1 == (ms >> 32) as u8,
            b2 == (ms >> 24) as u8,
            b3 == (ms >> 16) as u8,
            b4 == (ms >> 8) as u8,
            b5 == ms as u8,
    ;
}

/// Decodes the 48-bit big-endian millisecond timestamp from the first six bytes.
pub fn unix_ts_ms(bytes: &[u8]) -> (ms: u64)
    requires
        bytes@.len() >= 6,
    ensures
        ms == ms_field(bytes@),
        ms < 0x1_0000_0000_0000,
{
    let b0 = bytes[0];
    let b1 = bytes[1];
    let b2 = bytes[2];
    let b3 = bytes[3];
    let b4 = bytes[4];
    let b5 = bytes[5];
    let ms = ((b0 as u64) << 40) | ((b1 as u64) << 32) | ((b2 as u64) << 24) | ((b3 as u64) << 16)
        | ((b4 as u64) << 8) | (b5 as u64);
    assert(ms == b0 as int * 0x100_0000_0000 + b1 as int * 0x1_0000_0000 + b2 as int * 0x100_0000
        + b3 as int * 0x1_0000 + b4 as int * 0x100 + b5 as int && ms < 0x1_0000_0000_0000)
        by (bit_vector)
        requires
            ms == ((b0 as u64) << 40) | ((b1 as u64) << 32) | ((b2 as u64) << 24) | ((b3 as u64)
                << 16) | ((b4 as u64) << 8) | (b5 as u64),
    ;
    ms
}

} // verus!
