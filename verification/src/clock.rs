//! The time of a fetch.

use crate::pipeline::{Event, EventModel};
use crate::record::RegistryResponse;
use vstd::prelude::*;

verus! {

/// What every time stamp written for UTC has: room for a date, a time of
/// day and an offset, and `+00:00` as that offset.
pub open spec fn is_utc_stamp(s: Seq<char>) -> bool {
    s.len() >= 25 && s.subrange(s.len() - 6, s.len() as int) == "+00:00"@
}

/// The current time as text: the system clock, read with
/// `std::time::SystemTime::now`, made a UTC time by chrono's
/// `From<SystemTime> for DateTime<Utc>` and written by
/// `chrono::DateTime::to_rfc3339`.
///
/// Which time it is depends on the clock, so only the shape of the text is
/// claimed. `to_rfc3339` writes a year of at least four characters, then
/// `-MM-DDTHH:MM:SS`, a fraction of a second where there is one, and the
/// offset, which for UTC is `+00:00`: at least 25 characters, the last six
/// of them the offset. The conversion takes a clock before 1970 as well; it
/// gives up only on a time beyond the years that chrono can hold, more than
/// 260,000 years from now.
#[verifier::external_body]
fn utc_now_rfc3339() -> (s: String)
    ensures
        is_utc_stamp(s@),
{
    chrono::DateTime::<chrono::Utc>::from(std::time::SystemTime::now()).to_rfc3339()
}

/// Reports a response that the registry has just given: the event carries
/// the response as it is, and the current time, written for UTC, as the
/// time of its fetch.
pub fn fetched_now(response: RegistryResponse) -> (event: Event)
    ensures
        event@ matches EventModel::Fetched { response: carried, fetched_at: at } && carried
            == response@ && is_utc_stamp(at),
{
    Event::Fetched { response, fetched_at: utc_now_rfc3339() }
}

} // verus!
