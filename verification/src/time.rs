//! Points in time, as seconds and nanoseconds since the Unix epoch.

use crate::text::Text;
use vstd::prelude::*;

verus! {

/// A point in time in UTC. `nanos` counts from the second `secs`; a leap second is the last second
/// of a minute with a billion nanoseconds or more.
#[derive(Debug, Clone, Copy, PartialEq, Eq, Structural)]
pub struct Timestamp {
    pub secs: i64,
    pub nanos: u32,
}

/// The calendar holds this point in time: it lies between the start of the year -262143 and the
/// end of the year 262142, and the nanoseconds pass a billion in a leap second only.
pub open spec fn representable(secs: int, nanos: int) -> bool {
    &&& -8_334_601_228_800 <= secs <= 8_210_266_876_799
    &&& 0 <= nanos < 2_000_000_000
    &&& nanos >= 1_000_000_000 ==> secs % 60 == 59
}

/// Calls `chrono::DateTime::from_timestamp`, which gives `None` where the date is outside of
/// chrono's calendar or the nanoseconds are no part of a second, and else a date whose
/// `timestamp` and `timestamp_subsec_nanos` are the arguments.
#[verifier::external_body]
pub(crate) fn from_timestamp(secs: i64, nanos: u32) -> (r: Option<Timestamp>)
    ensures
        r == if representable(secs as int, nanos as int) {
            Some(Timestamp { secs, nanos })
        } else {
            None
        },
{
    chrono::DateTime::from_timestamp(secs, nanos).map(
        |t| Timestamp { secs: t.timestamp(), nanos: t.timestamp_subsec_nanos() },
    )
}

/// The RFC 3339 text of a point in time, as `chrono::DateTime::to_rfc3339` writes it in UTC.
pub uninterp spec fn rfc3339(secs: i64, nanos: u32) -> Seq<char>;

/// Calls `chrono::DateTime::to_rfc3339` on the date of `at`; there is a text exactly where
/// chrono's calendar holds that date.
#[verifier::external_body]
pub(crate) fn to_rfc3339(at: Timestamp) -> (r: Option<String>)
    ensures
        r.deep_view() == if representable(at.secs as int, at.nanos as int) {
            Some(rfc3339(at.secs, at.nanos))
        } else {
            None
        },
{
    chrono::DateTime::from_timestamp(at.secs, at.nanos).map(|t| t.to_rfc3339())
}

/// A time that the machine's clock may show: one of the calendar, not before the Unix epoch and
/// not in a leap second.
pub open spec fn clock_reading(now: Timestamp) -> bool {
    &&& representable(now.secs as int, now.nanos as int)
    &&& now.secs >= 0
    &&& now.nanos < 1_000_000_000
}

/// Calls `chrono::Utc::now`, which gives the time since the Unix epoch by the machine's clock.
/// Which time that is, is not said. A clock set before the epoch, or past the end of chrono's
/// calendar, makes chrono panic.
#[verifier::external_body]
pub(crate) fn now() -> (r: Timestamp)
    ensures
        clock_reading(r),
{
    let t = chrono::Utc::now();
    Timestamp { secs: t.timestamp(), nanos: t.timestamp_subsec_nanos() }
}

/// `t` is what a reading of the machine's clock gave, untouched.
pub closed spec fn shown_by_the_clock(t: Timestamp) -> bool {
    call_ensures(now, (), t)
}

/// Nothing counts as shown by the clock but what the clock call itself hands back, and that is a
/// time of the calendar, not before the Unix epoch.
proof fn law_the_clock_shows_what_it_hands_back(t: Timestamp)
    ensures
        shown_by_the_clock(t) <==> call_ensures(now, (), t),
        shown_by_the_clock(t) ==> representable(t.secs as int, t.nanos as int) && t.secs >= 0
            && t.nanos < 1_000_000_000,
{
}

/// The time by which `expires_at` is judged by the clock `now`: what the clock shows where there is
/// an expiry, else the Unix epoch, so that the clock is read only where it matters.
fn time_by<C: Fn() -> Timestamp>(expires_at: Option<Timestamp>, now: C) -> (r: Timestamp)
    requires
        call_requires(now, ()),
    ensures
        expires_at is Some ==> call_ensures(now, (), r),
        expires_at is None ==> r == (Timestamp { secs: 0, nanos: 0 }),
{
    match expires_at {
        Some(_) => now(),
        None => Timestamp { secs: 0, nanos: 0 },
    }
}

/// The time by which `expires_at` is judged: the machine's where there is an expiry, else the Unix
/// epoch.
pub(crate) fn time_to_judge(expires_at: Option<Timestamp>) -> (r: Timestamp)
    ensures
        clock_reading(r),
        expires_at is Some ==> call_ensures(now, (), r) && shown_by_the_clock(r),
        expires_at is None ==> r == (Timestamp { secs: 0, nanos: 0 }),
{
    time_by(expires_at, now)
}

/// `at` has come by the time `now`.
pub open spec fn reached(at: Timestamp, now: Timestamp) -> bool {
    at.secs < now.secs || (at.secs == now.secs && at.nanos <= now.nanos)
}

/// `at` has come by the time `now`.
pub fn has_come(at: Timestamp, now: Timestamp) -> (r: bool)
    ensures
        r == reached(at, now),
{
    at.secs < now.secs || (at.secs == now.secs && at.nanos <= now.nanos)
}

/// The text that stands for an expiry: none where there is none.
pub open spec fn expiry_text(expires_at: Option<Timestamp>) -> Option<Text> {
    match expires_at {
        Some(at) if representable(at.secs as int, at.nanos as int) => Some(
            rfc3339(at.secs, at.nanos),
        ),
        _ => None,
    }
}

/// The text that stands for an expiry: none where there is none.
pub fn show_expiry(expires_at: Option<Timestamp>) -> (r: Option<String>)
    ensures
        r.deep_view() == expiry_text(expires_at),
{
    match expires_at {
        Some(at) => to_rfc3339(at),
        None => None,
    }
}

/// An expiry has come exactly when no nanosecond is left until it.
pub proof fn law_expiry_comes_when_no_time_is_left(at: Timestamp, now: Timestamp)
    requires
        at.nanos < 1_000_000_000,
        now.nanos < 1_000_000_000,
    ensures
        reached(at, now) <==> (at.secs - now.secs) * 1_000_000_000 + at.nanos - now.nanos <= 0,
{
}

/// Of two different times exactly one comes first, whole seconds before fractions; and each has
/// come once it is shown.
pub proof fn law_times_come_in_order(a: Timestamp, b: Timestamp, c: Timestamp)
    ensures
        reached(a, a),
        reached(a, b) || reached(b, a),
        reached(a, b) && reached(b, a) ==> a == b,
        reached(a, b) && reached(b, c) ==> reached(a, c),
        a.secs < b.secs ==> reached(a, b),
{
}

/// The text of an expiry is the RFC 3339 text of just that time, and there is one exactly where
/// there is an expiry that the calendar holds.
pub proof fn law_expiry_is_shown_as_it_is(expires_at: Option<Timestamp>)
    ensures
        expiry_text(expires_at) is Some <==> (expires_at matches Some(at) && representable(
            at.secs as int,
            at.nanos as int,
        )),
        expiry_text(expires_at) matches Some(text) ==> (expires_at matches Some(at) && text
            == rfc3339(at.secs, at.nanos)),
{
}

} // verus!
