//! Time. An instant is a number of microseconds since the start of 1970 on a
//! clock without zone, the resolution at which the store keeps it; reading
//! the clock and writing an instant as text are the `chrono` crate's.

use std::fmt::Write;
use vstd::prelude::*;

verus! {

/// How long a confirmation can be redeemed: 24 hours, in microseconds.
pub const CONFIRMATION_LIFETIME: i64 = 86_400_000_000;

/// What `chrono` writes for an instant under a `strftime` pattern, or nothing
/// where the instant is outside the range of its dates or it refuses the
/// pattern.
pub uninterp spec fn formatted_time(micros: i64, pattern: Seq<char>) -> Option<Seq<char>>;

/// How far from the start of 1970 an instant of `chrono`'s calendar can lie,
/// in microseconds, at the most: fewer than 265 000 years, of at most 366
/// days of 86 400 seconds each.
pub open spec fn calendar_span() -> int {
    265_000int * 366 * 86_400 * 1_000_000
}

/// Whether an instant lies in the span of `chrono`'s calendar.
pub open spec fn in_calendar(at: i64) -> bool {
    -calendar_span() <= at <= calendar_span()
}

/// Calls `chrono::Local::now`, takes the local date and time without its zone
/// with `naive_local` and hands it back in microseconds, as
/// `timestamp_micros` counts them. Trusted: the instant lies in the span of
/// the crate's calendar. The crate documents its first date as January 1 of
/// 262144 BCE and its last as December 31 of 262142 CE, which is fewer than
/// 265 000 years to either side of 1970, and `naive_local` panics rather
/// than hand out a date beyond them. The crate also panics where the
/// system's clock stands before 1970.
#[verifier::external_body]
pub(crate) fn local_now() -> (r: i64)
    ensures
        in_calendar(r),
{
    chrono::Local::now().naive_local().and_utc().timestamp_micros()
}

/// Makes a `chrono::DateTime` of the instant with `from_timestamp_micros`
/// and writes it with `format` under the pattern. Trusted: the result is the
/// crate's text, and there is none exactly where the crate gives no date or
/// fails to write it.
#[verifier::external_body]
pub(crate) fn format_time(micros: i64, pattern: &str) -> (r: Option<String>)
    ensures
        match r {
            Some(text) => formatted_time(micros, pattern@) == Some(text@),
            None => formatted_time(micros, pattern@) is None,
        },
{
    let instant = chrono::DateTime::from_timestamp_micros(micros)?;
    let mut text = String::new();
    match write!(text, "{}", instant.naive_utc().format(pattern)) {
        Ok(()) => Some(text),
        Err(_) => None,
    }
}

/// The instant that the machine's clock shows: the local date and time, as
/// an instant within the calendar, which a confirmation can be issued at.
pub fn now() -> (r: i64)
    ensures
        in_calendar(r),
        r + CONFIRMATION_LIFETIME <= i64::MAX,
{
    let at: i64 = local_now();
    proof {
        lemma_calendar_leaves_room(at);
    }
    at
}

/// An instant in the calendar is followed by one a confirmation's lifetime
/// later.
pub proof fn lemma_calendar_leaves_room(at: i64)
    requires
        in_calendar(at),
    ensures
        at + CONFIRMATION_LIFETIME <= i64::MAX,
{
    assert(calendar_span() == 8_379_936_000_000_000_000) by (nonlinear_arith);
}

} // verus!
