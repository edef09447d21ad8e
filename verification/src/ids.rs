//! Identifiers and timestamps: random UUIDs from `uuid`, the current time from
//! `chrono`. Identifiers are held as `u128` (big-endian UUID bytes), times as
//! whole seconds since the Unix epoch.

use vstd::prelude::*;
use crate::crypto::hex_lower;

verus! {

/// The bits of a UUID that hold its version and variant.
pub const UUID_VERSION_VARIANT_MASK: u128 = 0xF000_C000_0000_0000_0000u128;

/// Those bits in a random (version 4, RFC 4122 variant) UUID.
pub const UUID_V4_BITS: u128 = 0x4000_8000_0000_0000_0000u128;

/// Calls `uuid::Uuid::new_v4`. The value is random; what is known of it is
/// that its version and variant bits are those of a version-4 UUID. It panics
/// only when the system's random source fails, a fault of the environment that
/// no argument can rule out.
#[verifier::external_body]
pub(crate) fn new_id() -> (id: u128)
    ensures
        id & UUID_VERSION_VARIANT_MASK == UUID_V4_BITS,
{
    uuid::Uuid::new_v4().as_u128()
}

/// The bound on clock readings: chrono's `DateTime<Utc>` spans years
/// -262143 to 262142, less than 10^13 seconds either side of the epoch.
pub const CLOCK_BOUND: i64 = 10_000_000_000_000;

/// Calls `chrono::Utc::now` and returns its whole seconds since the epoch.
/// The value is the clock's; what is known of it is that it is not before the
/// epoch and lies in the range chrono can represent. It panics only when the
/// system clock reads a time before 1970 (or past chrono's range), a fault of
/// the environment that no argument can rule out.
#[verifier::external_body]
pub(crate) fn now_seconds() -> (t: i64)
    ensures
        0 <= t < CLOCK_BOUND,
{
    chrono::Utc::now().timestamp()
}

/// The sixteen big-endian bytes of `v`.
pub open spec fn u128_be_bytes(v: u128) -> Seq<u8> {
    Seq::new(16, |i: int| ((v >> (((15 - i) * 8) as u128)) & 0xff) as u8)
}

/// The hyphenated lowercase text of the UUID `v` (8-4-4-4-12 hex digits).
pub open spec fn uuid_text(v: u128) -> Seq<char> {
    let h = hex_lower(u128_be_bytes(v));
    h.subrange(0, 8) + seq!['-'] + h.subrange(8, 12) + seq!['-'] + h.subrange(12, 16) + seq![
        '-',
    ] + h.subrange(16, 20) + seq!['-'] + h.subrange(20, 32)
}

/// Calls `uuid::Uuid::from_u128(v).to_string()`, which writes the UUID in its
/// hyphenated lowercase form.
#[verifier::external_body]
pub(crate) fn id_text(v: u128) -> (s: String)
    ensures
        s@ == uuid_text(v),
{
    uuid::Uuid::from_u128(v).to_string()
}

} // verus!
