//! Server-generated identity and timestamps.

use vstd::prelude::*;

verus! {

/// The version field of a UUID carried as its 128-bit big-endian value:
/// bits 76..80 of the RFC 9562 layout.
pub open spec fn uuid_version(id: u128) -> u128 {
    (id >> 76) & 0xf
}

/// Relies on `uuid::Uuid::new_v4` and `Uuid::as_u128`: a freshly generated
/// random UUID as its 128-bit big-endian value. Nothing is assumed of the
/// random bits; only the version field, which `new_v4` always sets to 4.
#[verifier::external_body]
pub(crate) fn fresh_uuid() -> (r: u128)
    ensures
        uuid_version(r) == 4,
{
    uuid::Uuid::new_v4().as_u128()
}

/// Relies on `chrono::Utc::now`: the current time as microseconds since the
/// Unix epoch. The result depends on the clock, so nothing is assumed of it.
#[verifier::external_body]
pub(crate) fn now_micros() -> i64 {
    chrono::Utc::now().timestamp_micros()
}

} // verus!
