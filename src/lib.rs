//! Time-ordered 128-bit identifiers (UUIDv7): generation, and recovery of the
//! millisecond timestamp that their leading 48 bits carry.
pub mod extract;
pub mod generate;
pub mod layout;

pub use extract::{resolve_zone, uuid7_to_datetime, CalendarTimestamp, Uuid7Error};
pub use generate::uuid7;
pub use layout::{unix_ts_ms, UUID_LEN, VERSION_7};
