//! Entry identifier generation.
//!
//! Each entry gets a version 7 UUID: time-ordered, collision-resistant,
//! and safe to generate concurrently without coordination. Generation is
//! delegated to the `uuid` crate, from a checked clock reading so that a
//! host clock before the Unix epoch cannot abort the process.

use vstd::prelude::*;

verus! {

/// The character length of a hyphenated UUID.
pub const ENTRY_ID_LEN: usize = 36;

/// A lower-case hexadecimal digit.
pub open spec fn is_hex_digit(c: char) -> bool {
    ('0' as int) <= (c as int) <= ('9' as int) || ('a' as int) <= (c as int) <= ('f' as int)
}

/// The hyphenated text of a UUID: 36 characters, hyphens at positions
/// 8, 13, 18 and 23, lower-case hexadecimal digits everywhere else.
pub open spec fn is_uuid_text(s: Seq<char>) -> bool {
    &&& s.len() == ENTRY_ID_LEN as int
    &&& forall|i: int|
        0 <= i < s.len() ==> {
            if i == 8 || i == 13 || i == 18 || i == 23 {
                #[trigger] s[i] == '-'
            } else {
                is_hex_digit(s[i])
            }
        }
}

/// Relies on `uuid::Uuid::new_v7` with `uuid::Timestamp::from_unix`, and
/// the crate's `Display` impl: the hyphenated form of a UUID is exactly 36
/// characters, lower-case hex digits with hyphens at the four fixed
/// positions. The clock is read through `SystemTime` and checked, so a
/// reading before the Unix epoch degrades to the epoch instead of a panic;
/// `from_unix` and `new_v7` themselves cannot fail (saturating
/// arithmetic). The value depends on the clock and on random state, so
/// nothing more is promised; distinctness of successive ids holds only
/// with overwhelming probability and is exercised by tests, not proved.
#[verifier::external_body]
pub(crate) fn fresh_entry_id() -> (r: String)
    ensures
        r@.len() == ENTRY_ID_LEN,
        is_uuid_text(r@),
{
    let (secs, nanos) = match std::time::SystemTime::UNIX_EPOCH.elapsed() {
        Ok(d) => (d.as_secs(), d.subsec_nanos()),
        Err(_) => (0, 0),
    };
    uuid::Uuid::new_v7(uuid::Timestamp::from_unix(uuid::NoContext, secs, nanos)).to_string()
}

} // verus!
