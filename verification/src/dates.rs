//! The calendar collaborators: the host clock, the date-string parser and
//! the calendar formatter.  Each is an outside call behind a trusted
//! wrapper; everything computed from their results is verified.

use vstd::prelude::*;
use crate::value::{Date, EPOCH_BOUND};

verus! {

/// Outer bound, in seconds relative to the Unix epoch, on every timestamp
/// the calendar backend can hand out; its representable range ends near
/// the years -262143 and 262142.
pub const CLOCK_BOUND: i64 = 9_000_000_000_000;

/// The text the calendar backend produces for the given instant and UTC
/// offset under its locale-style (`ctime`-like) date-and-time layout.  It
/// depends on the two arguments alone.
pub uninterp spec fn ctime_text(epoch: i64, offset: i32) -> Seq<char>;

/// What the date-string parser decides for a given text: the instant and
/// UTC offset it reads out of it, or nothing when the text is not a date
/// in the accepted layout.  It depends on the text alone.
pub uninterp spec fn parse_date_spec(s: Seq<char>) -> Option<(i64, i32)>;

/// Relies on `chrono::Local::now`: the clock returns the current instant
/// as a `DateTime`, whose timestamp always lies strictly within the range
/// `chrono` represents.  `chrono` itself panics if the host clock reads
/// before 1970 or beyond its maximum year — an assumption on the
/// environment, not on any input of this crate.
#[verifier::external_body]
pub(crate) fn now_epoch_seconds() -> (r: i64)
    ensures
        -CLOCK_BOUND < r < CLOCK_BOUND,
{
    chrono::Local::now().timestamp()
}

/// Relies on `chrono::DateTime::parse_from_str` with the layout
/// `%Y-%m-%d %H:%M:%S %z`: parsing is a function of the text alone; a
/// parsed `DateTime<FixedOffset>` carries an offset strictly below one day
/// and a timestamp strictly within the range `chrono` represents.
#[verifier::external_body]
pub(crate) fn parse_date_str(s: &str) -> (r: Option<(i64, i32)>)
    ensures
        r matches Some(p) ==> {
            &&& parse_date_spec(s@) == Some(p)
            &&& -CLOCK_BOUND < p.0 < CLOCK_BOUND
            &&& -86400 < p.1 < 86400
        },
        r is None ==> parse_date_spec(s@) is None,
{
    match chrono::DateTime::parse_from_str(s, "%Y-%m-%d %H:%M:%S %z") {
        Ok(dt) => Some((dt.timestamp(), dt.offset().local_minus_utc())),
        Err(_) => None,
    }
}

/// Relies on `chrono::DateTime::from_timestamp`, `FixedOffset::east_opt`
/// and `DateTime::format` with `%c`: for a well-formed date the timestamp
/// and offset are accepted, and the text produced depends on the two
/// arguments alone.
#[verifier::external_body]
pub(crate) fn format_date_ctime(d: Date) -> (r: String)
    requires
        d.wf(),
    ensures
        r@ == ctime_text(d.epoch, d.offset),
{
    let tz = chrono::FixedOffset::east_opt(d.offset).unwrap();
    let dt = chrono::DateTime::from_timestamp(d.epoch, 0).unwrap().with_timezone(&tz);
    dt.format("%c").to_string()
}

/// Turn what the parser handed back into a well-formed [`Date`], rejecting
/// the few representable instants that lie beyond [`EPOCH_BOUND`].
pub fn date_from_parsed(p: (i64, i32)) -> (r: Option<Date>)
    requires
        -86400 < p.1 < 86400,
    ensures
        r matches Some(d) ==> {
            &&& d.wf()
            &&& d == (Date { epoch: p.0, offset: p.1 })
        },
        (r is None) <==> !(Date { epoch: p.0, offset: p.1 }).wf(),
{
    if -EPOCH_BOUND <= p.0 && p.0 <= EPOCH_BOUND {
        Some(Date { epoch: p.0, offset: p.1 })
    } else {
        None
    }
}

} // verus!
