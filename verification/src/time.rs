//! Points in time.
use chrono::TimeZone;
use vstd::prelude::*;

verus! {

/// A timestamp as the protocol carries it: seconds since the Unix epoch and a
/// count of nanoseconds.
#[derive(Clone, Copy, Debug, PartialEq, Eq, Structural)]
pub struct Timestamp {
    pub seconds: i64,
    pub nanos: i32,
}

/// A point in time that the calendar of `chrono` can represent. Nanoseconds of
/// a billion and more stand for a leap second.
#[derive(Clone, Copy, Debug, PartialEq, Eq, Structural)]
pub struct DateTime {
    pub seconds: i64,
    pub nanos: u32,
}

/// The first second that can be represented: the start of the year -262143.
pub const MIN_SECONDS: i64 = -8334601228800;

/// The last second that can be represented: the end of the year 262142.
pub const MAX_SECONDS: i64 = 8210266876799;

/// Whether the second and the nanoseconds within it form a point in time: the
/// year is in range, and the nanoseconds stay below a second, or below two in
/// the last second of a minute, where a leap second may follow.
pub open spec fn is_date_time(seconds: int, nanos: int) -> bool {
    &&& MIN_SECONDS <= seconds <= MAX_SECONDS
    &&& 0 <= nanos < 1_000_000_000 || (1_000_000_000 <= nanos < 2_000_000_000 && seconds % 60 == 59)
}

/// `chrono::Utc.timestamp_opt(..).single()`, with the `DateTime` that it gives
/// taken apart by `timestamp` and `timestamp_subsec_nanos`, which return what
/// it was made from. There is none where the arguments form no point in time.
#[verifier::external_body]
fn utc_timestamp(seconds: i64, nanos: u32) -> (time: Option<DateTime>)
    ensures
        time == (if is_date_time(seconds as int, nanos as int) {
            Some(DateTime { seconds, nanos })
        } else {
            None
        }),
{
    chrono::Utc.timestamp_opt(seconds, nanos).single().map(
        |time| DateTime { seconds: time.timestamp(), nanos: time.timestamp_subsec_nanos() },
    )
}

/// The Unix epoch.
pub open spec fn epoch() -> DateTime {
    DateTime { seconds: 0, nanos: 0 }
}

/// The point in time of a timestamp, or the epoch where it denotes none.
pub open spec fn date_time_of(timestamp: Timestamp) -> DateTime {
    if timestamp.nanos >= 0 && is_date_time(timestamp.seconds as int, timestamp.nanos as int) {
        DateTime { seconds: timestamp.seconds, nanos: timestamp.nanos as u32 }
    } else {
        epoch()
    }
}

/// The point in time of a timestamp, or the epoch where it denotes none.
pub fn to_date_time(timestamp: &Timestamp) -> (time: DateTime)
    ensures
        time == date_time_of(*timestamp),
        time.seconds == timestamp.seconds && time.nanos == timestamp.nanos || time.seconds == 0
            && time.nanos == 0,
{
    let nanos: i32 = timestamp.nanos;
    proof {
        assert(nanos < 0 ==> nanos as u32 >= 2_147_483_648) by (bit_vector);
    }
    match utc_timestamp(timestamp.seconds, nanos as u32) {
        Some(time) => time,
        None => DateTime { seconds: 0, nanos: 0 },
    }
}

/// Every timestamp of the calendar is kept to the nanosecond, leap seconds
/// included, and every other one becomes the epoch.
pub proof fn law_timestamps_are_kept(timestamp: Timestamp)
    ensures
        -8334601228800 <= timestamp.seconds <= 8210266876799 && 0 <= timestamp.nanos
            <= 999_999_999 ==> date_time_of(timestamp).seconds == timestamp.seconds
            && date_time_of(timestamp).nanos == timestamp.nanos,
        -8334601228800 <= timestamp.seconds <= 8210266876799 && timestamp.seconds % 60 == 59
            && 1_000_000_000 <= timestamp.nanos <= 1_999_999_999 ==> date_time_of(
            timestamp,
        ).seconds == timestamp.seconds && date_time_of(timestamp).nanos == timestamp.nanos,
        timestamp.seconds < -8334601228800 || timestamp.seconds > 8210266876799
            || timestamp.nanos < 0 || timestamp.nanos > 1_999_999_999 || (timestamp.nanos
            > 999_999_999 && timestamp.seconds % 60 != 59) ==> date_time_of(timestamp).seconds == 0
            && date_time_of(timestamp).nanos == 0,
{
}

} // verus!
