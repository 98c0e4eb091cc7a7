//! Recovery of the embedded timestamp of a UUIDv7 as a zoned calendar timestamp.
use vstd::prelude::*;

use crate::layout::{lemma_ms_round_trip, ms_bytes, ms_field, unix_ts_ms, UUID_LEN, VERSION_7};

verus! {

/// Failure of timestamp extraction.
#[derive(Clone, Copy, Debug, PartialEq, Eq, Structural)]
pub enum Uuid7Error {
    /// The value's version is not 7; carries the version observed.
    InvalidVersion(u8),
}

/// A point in time, at millisecond precision, with the time zone it is shown in.
///
/// `Z` is the caller's time-zone descriptor: the zone changes how the instant
/// is displayed, never the instant itself.
#[derive(Clone, Debug, PartialEq, Eq)]
pub struct CalendarTimestamp<Z> {
    /// Milliseconds since 1970-01-01T00:00:00Z.
    pub unix_ms: u64,
    /// The zone the instant is shown in.
    pub zone: Z,
}

/// The zone a timestamp is shown in: the one asked for, else UTC.
pub open spec fn resolved_zone<Z>(tz: Option<Z>, utc: Z) -> Z {
    match tz {
        Some(z) => z,
        None => utc,
    }
}

/// Resolves an optional time zone, with `utc` standing for UTC when none is given.
pub fn resolve_zone<Z>(tz: Option<Z>, utc: Z) -> (z: Z)
    ensures
        z == resolved_zone(tz, utc),
{
    match tz {
        Some(z) => z,
        None => utc,
    }
}

/// What extraction yields for a value with the given version and raw bytes.
pub open spec fn extracted<Z>(version: u8, bytes: Seq<u8>, tz: Option<Z>, utc: Z) -> Result<
    CalendarTimestamp<Z>,
    Uuid7Error,
> {
    if version != VERSION_7 {
        Err(Uuid7Error::InvalidVersion(version))
    } else {
        Ok(CalendarTimestamp { unix_ms: ms_field(bytes) as u64, zone: resolved_zone(tz, utc) })
    }
}

/// Recovers the timestamp embedded in a UUIDv7, given its version and its raw
/// bytes, shown in `tz`, or in `utc` when `tz` is absent.
///
/// Fails with `InvalidVersion` carrying the observed version when it is not 7;
/// the bytes are then not read.
pub fn uuid7_to_datetime<Z>(version: u8, bytes: &[u8], tz: Option<Z>, utc: Z) -> (r: Result<
    CalendarTimestamp<Z>,
    Uuid7Error,
>)
    requires
        version == VERSION_7 ==> bytes@.len() == UUID_LEN,
    ensures
        r == extracted(version, bytes@, tz, utc),
        r is Err <==> version != VERSION_7,
        version != VERSION_7 ==> r == Err::<CalendarTimestamp<Z>, Uuid7Error>(
            Uuid7Error::InvalidVersion(version),
        ),
        r is Ok ==> r->Ok_0.unix_ms == ms_field(bytes@),
{
    if version != VERSION_7 {
        return Err(Uuid7Error::InvalidVersion(version));
    }
    let ms = unix_ts_ms(bytes);
    Ok(CalendarTimestamp { unix_ms: ms, zone: resolve_zone(tz, utc) })
}

/// Extraction is deterministic: two extractions of the same value, with the
/// same time zone, give equal results.
pub proof fn lemma_extraction_deterministic<Z>(
    version: u8,
    bytes: Seq<u8>,
    tz: Option<Z>,
    utc: Z,
    r1: Result<CalendarTimestamp<Z>, Uuid7Error>,
    r2: Result<CalendarTimestamp<Z>, Uuid7Error>,
)
    requires
        r1 == extracted(version, bytes, tz, utc),
        r2 == extracted(version, bytes, tz, utc),
    ensures
        r1 == r2,
{
}

/// An absent time zone means UTC: extracting with none gives the same result
/// as extracting with UTC given explicitly, and no choice of zone changes the
/// instant, only the zone it is shown in.
pub proof fn lemma_absent_zone_is_utc<Z>(version: u8, bytes: Seq<u8>, tz: Option<Z>, utc: Z)
    ensures
        extracted(version, bytes, None::<Z>, utc) == extracted(version, bytes, Some(utc), utc),
        extracted(version, bytes, tz, utc) is Ok <==> extracted(version, bytes, None::<Z>, utc) is Ok,
        extracted(version, bytes, tz, utc) is Ok ==> extracted(version, bytes, tz, utc)->Ok_0.unix_ms
            == extracted(version, bytes, None::<Z>, utc)->Ok_0.unix_ms,
{
}

/// A version-7 value whose leading bytes encode `ms` yields the instant `ms`,
/// in UTC when no zone is given, whatever its other bytes hold.
pub proof fn lemma_extract_round_trip<Z>(ms: u64, rest: Seq<u8>, utc: Z)
    requires
        ms < 0x1_0000_0000_0000,
    ensures
        extracted(VERSION_7, ms_bytes(ms) + rest, None::<Z>, utc) == Ok::<
            CalendarTimestamp<Z>,
            Uuid7Error,
        >(CalendarTimestamp { unix_ms: ms, zone: utc }),
{
    lemma_ms_round_trip(ms, rest);
}

} // verus!
