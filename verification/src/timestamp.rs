//! Clock access and timestamp formatting.
//!
//! The repository stamps each entry with the current time in microseconds
//! since the Unix epoch; the wire format renders that value as an RFC 3339
//! string. Reading the clock and formatting are delegated to the `chrono`
//! crate; everything around them is verified.

use vstd::prelude::*;

verus! {

/// The largest timestamp the wire format accepts:
/// 9999-12-31T23:59:59.999999 UTC in microseconds since the Unix epoch.
/// Keeping timestamps at or below it keeps years at four digits and stays
/// well inside the range `chrono` can represent.
pub const MAX_TIMESTAMP_MICROS: i64 = 253402300799999999;

/// The RFC 3339 rendering of a microsecond timestamp, as `chrono` formats
/// it. The result is a function of the timestamp alone; its exact text is
/// not restated here.
pub uninterp spec fn rfc3339_of(t: int) -> Seq<char>;

/// Relies on `std::time::SystemTime::now`: the current clock reading in
/// microseconds since the Unix epoch. A reading before the epoch, or one
/// too large for the result type, becomes a negative sentinel instead of a
/// panic. Nothing is promised of the value; callers must handle every
/// reading.
#[verifier::external_body]
pub(crate) fn now_micros() -> i64 {
    match std::time::SystemTime::now().duration_since(std::time::UNIX_EPOCH) {
        Ok(d) => i64::try_from(d.as_micros()).unwrap_or(-1),
        Err(_) => -1,
    }
}

/// Relies on `chrono::DateTime::from_timestamp_micros` and `to_rfc3339`:
/// every timestamp in `(0, MAX_TIMESTAMP_MICROS]` is representable (the
/// crate accepts roughly 262,000 years around the common era), and its
/// RFC 3339 text depends on the microsecond value alone.
#[verifier::external_body]
pub(crate) fn rfc3339_of_micros(t: i64) -> (r: String)
    requires
        0 < t <= MAX_TIMESTAMP_MICROS,
    ensures
        r@ == rfc3339_of(t as int),
{
    match chrono::DateTime::<chrono::Utc>::from_timestamp_micros(t) {
        Some(d) => d.to_rfc3339(),
        None => String::new(),
    }
}

} // verus!
