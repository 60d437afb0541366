//! Points in time and spans of time.

use vstd::prelude::*;

verus! {

/// A point in time: whole seconds since the start of 1970, UTC, and a part of
/// a second.
#[derive(Clone, Copy, Debug, PartialEq, Eq, Structural)]
pub struct Time {
    pub seconds: i64,
    pub nanos: u32,
}

/// The first second of the year -262143, the earliest that a calendar date is
/// kept for.
pub const MIN_SECONDS: i64 = -8334601228800;

/// The last second of the year 262142.
pub const MAX_SECONDS: i64 = 8210266876799;

/// `chrono::Utc.timestamp_opt` with no part of a second: the point in time
/// where its calendar date has a year from -262143 to 262142, and nothing
/// otherwise.
#[verifier::external_body]
fn utc_timestamp(seconds: i64) -> (r: Option<Time>)
    ensures
        r == if MIN_SECONDS <= seconds <= MAX_SECONDS {
            Some(Time { seconds, nanos: 0 })
        } else {
            None
        },
{
    match chrono::TimeZone::timestamp_opt(&chrono::Utc, seconds, 0) {
        chrono::LocalResult::Single(dt) => {
            Some(Time { seconds: dt.timestamp(), nanos: dt.timestamp_subsec_nanos() })
        },
        chrono::LocalResult::Ambiguous(_, _) => None,
        chrono::LocalResult::None => None,
    }
}

/// A number of 64 bits read with a sign.
pub open spec fn signed(t: u64) -> int {
    if t <= i64::MAX {
        t as int
    } else {
        t - 0x1_0000_0000_0000_0000
    }
}

/// The point in time of a claim: its seconds read with a sign, and the
/// earliest date where there is no such date.
pub open spec fn claimed_time(t: u64) -> Time {
    Time {
        seconds: if MIN_SECONDS <= signed(t) <= MAX_SECONDS {
            signed(t) as i64
        } else {
            MIN_SECONDS
        },
        nanos: 0,
    }
}

/// The point in time of a claim.
pub fn time_of_claim(t: u64) -> (r: Time)
    ensures
        r == claimed_time(t),
{
    assert(t as i64 == if t <= 0x7fff_ffff_ffff_ffffu64 {
        t as int
    } else {
        t - 0x1_0000_0000_0000_0000
    }) by (bit_vector);
    match utc_timestamp(
        #[verifier::truncate]
        (t as i64),
    ) {
        Some(time) => time,
        None => Time { seconds: MIN_SECONDS, nanos: 0 },
    }
}

/// The points in time of an optional claim.
pub open spec fn claimed_time_opt(t: Option<u64>) -> Option<Time> {
    match t {
        Some(t) => Some(claimed_time(t)),
        None => None,
    }
}

pub fn time_of_claim_opt(t: Option<u64>) -> (r: Option<Time>)
    ensures
        r == claimed_time_opt(t),
{
    match t {
        Some(t) => Some(time_of_claim(t)),
        None => None,
    }
}

/// A span of time: whole seconds and a part of a second.
#[derive(Clone, Copy, Debug, PartialEq, Eq, Structural)]
pub struct Duration {
    pub secs: u64,
    pub nanos: u32,
}

impl Duration {
    /// The whole milliseconds of the span.
    pub open spec fn millis(self) -> int {
        self.secs * 1000 + self.nanos as int / 1000000
    }

    pub fn from_secs(secs: u64) -> (r: Duration)
        ensures
            r == (Duration { secs, nanos: 0 }),
    {
        Duration { secs, nanos: 0 }
    }

    /// The whole milliseconds of the span.
    pub fn as_millis(&self) -> (r: u128)
        ensures
            r == self.millis(),
    {
        self.secs as u128 * 1000 + (self.nanos / 1000000) as u128
    }
}

/// The time of a claim is that many seconds after the start of 1970 where there
/// is such a date, or before it where the number has its highest bit set; every
/// other claim is of the earliest date.
pub proof fn claims_are_dated_in_seconds(t: u64, back: u64)
    ensures
        claimed_time(t).nanos == 0,
        t <= 8210266876799 ==> claimed_time(t).seconds == t,
        8210266876799 < t <= u64::MAX - 8334601228800 ==> claimed_time(t).seconds == -8334601228800,
        1 <= back <= 8334601228800 && t == u64::MAX - back + 1 ==> claimed_time(t).seconds == -back,
        claimed_time_opt(None) is None,
        claimed_time_opt(Some(t)) == Some(claimed_time(t)),
{
}

/// The milliseconds of a span are those of its seconds and the whole ones of its
/// nanoseconds.
pub proof fn spans_are_counted_in_milliseconds(span: Duration, ms: int)
    ensures
        span.millis() == ms <==> ms * 1000000 <= span.secs * 1000000000 + span.nanos < (ms + 1)
            * 1000000,
{
}

} // verus!
