//! Generation of fresh UUIDv7 values from the host clock and randomness.
use vstd::prelude::*;

use crate::layout::is_v7_layout;

verus! {

/// Relies on `uuid7::uuid7` (uuid7 1.8): each value it returns is built by
/// `Uuid::try_from_fields_v7`, which sets byte 6 to `0x70 | ..` and byte 8 to
/// `0x80 | ..` with the low bits below those markers taken from its counter and
/// random source. Its timestamp and random bits depend on the clock and the
/// random source, so nothing more is stated of them.
#[verifier::external_body]
fn next_uuid7_bytes() -> (r: [u8; 16])
    ensures
        is_v7_layout(r@),
{
    *::uuid7::uuid7().as_bytes()
}

/// Generates a new UUIDv7: bytes 0 to 5 hold the current time in milliseconds
/// since the epoch, the version nibble is 7, the variant bits are `0b10`, and
/// the remaining bits are fresh random data.
///
/// The clock reading and the random bits come from the host, so the contract
/// states the layout that every outcome has.
pub fn uuid7() -> (r: [u8; 16])
    ensures
        is_v7_layout(r@),
{
    next_uuid7_bytes()
}

} // verus!
