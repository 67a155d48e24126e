//! Modification stamps: a UTC time shown as month abbreviation, day, hour and minute.

use vstd::prelude::*;

verus! {

/// What chrono shows for `secs` seconds after the Unix epoch, in UTC, under the
/// pattern `"%b %d %H:%M"`; `None` where chrono cannot represent that instant.
pub uninterp spec fn utc_stamp(secs: int) -> Option<Seq<char>>;

/// Relies on chrono's `DateTime::from_timestamp` (`None` for an instant out of
/// its range) and `DateTime::format`, which depend on their arguments alone.
#[verifier::external_body]
pub(crate) fn format_utc_stamp(secs: i64) -> (r: Option<String>)
    ensures
        r is Some <==> utc_stamp(secs as int) is Some,
        r is Some ==> utc_stamp(secs as int) == Some(r->0@),
{
    match chrono::DateTime::from_timestamp(secs, 0) {
        Some(t) => Some(t.format("%b %d %H:%M").to_string()),
        None => None,
    }
}

} // verus!
