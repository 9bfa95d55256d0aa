//! Date-times with a UTC offset, written and read as RFC 3339 text.
//!
//! A date-time is held as its local date-time in its offset, counted in
//! nanoseconds as if that local date-time were in UTC, together with the
//! offset in seconds. The `time` crate supports local date-times from
//! -9999-01-01T00:00:00 to 9999-12-31T23:59:59.999999999 and offsets of less
//! than 26 hours either way; this type holds exactly those.
use vstd::prelude::*;
use vstd::string::*;
use time::format_description::well_known::Rfc3339;
use time::{OffsetDateTime, UtcOffset};

verus! {

/// Nanoseconds in a second.
pub const NANOS_PER_SECOND: i128 = 1_000_000_000;

/// The local date-time -9999-01-01T00:00:00, in nanoseconds from the epoch.
pub const MIN_LOCAL_NANOS: i128 = -377_705_116_800_000_000_000;

/// The local date-time 9999-12-31T23:59:59.999999999, in nanoseconds from the epoch.
pub const MAX_LOCAL_NANOS: i128 = 253_402_300_799_999_999_999;

/// The largest offset from UTC, 25:59:59, in seconds.
pub const MAX_OFFSET_SECONDS: i32 = 93_599;

/// The local date-time 0000-01-01T00:00:00, in nanoseconds from the epoch.
pub const YEAR_ZERO_NANOS: i128 = -62_167_219_200_000_000_000;

/// Seconds in a day: RFC 3339 writes offsets of less than a day.
pub const SECONDS_PER_DAY_OFFSET: i32 = 86_400;

/// A local date-time the `time` crate supports.
pub open spec fn local_in_range(local_nanos: i128) -> bool {
    MIN_LOCAL_NANOS <= local_nanos <= MAX_LOCAL_NANOS
}

/// An offset the `time` crate supports.
pub open spec fn offset_in_range(offset_seconds: i32) -> bool {
    -MAX_OFFSET_SECONDS <= offset_seconds <= MAX_OFFSET_SECONDS
}

/// RFC 3339 can write the date-time: its year lies in 0..=9999 (the upper
/// bound holds of every supported date-time), its offset is less than 24
/// hours either way and has no seconds.
pub open spec fn rfc3339_writable(local_nanos: i128, offset_seconds: i32) -> bool {
    &&& YEAR_ZERO_NANOS <= local_nanos
    &&& -SECONDS_PER_DAY_OFFSET < offset_seconds < SECONDS_PER_DAY_OFFSET
    &&& offset_seconds % 60 == 0
}

/// What `OffsetDateTime::format` with `Rfc3339` gives for the date-time with
/// this local date-time and offset: the text, or `None` when the crate
/// refuses to format it.
pub uninterp spec fn rfc3339_format_of(local_nanos: i128, offset_seconds: i32) -> Option<Seq<char>>;

/// The text the `Display` implementation of `OffsetDateTime` writes for the
/// date-time with this local date-time and offset.
pub uninterp spec fn datetime_display_of(local_nanos: i128, offset_seconds: i32) -> Seq<char>;

/// What `OffsetDateTime::parse` with `Rfc3339` reads from a text: the local
/// date-time in nanoseconds and the offset in seconds, or `None`.
pub uninterp spec fn rfc3339_parse_of(text: Seq<char>) -> Option<(i128, i32)>;

/// `OffsetDateTime::now_utc`, then `unix_timestamp_nanos`. The reading
/// depends on the clock, so only what holds of every reading is stated: the
/// crate holds it, and in UTC the local date-time is the instant.
#[verifier::external_body]
fn clock_now_nanos() -> (res: i128)
    ensures
        local_in_range(res),
{
    OffsetDateTime::now_utc().unix_timestamp_nanos()
}

/// `OffsetDateTime::format(&Rfc3339)` on the date-time with this local
/// date-time and offset, rebuilt by `from_unix_timestamp_nanos` and
/// `replace_offset`, which keeps the local date-time. The format refuses a
/// year outside 0..=9999, an offset of more than 23 whole hours and an
/// offset with seconds, and nothing else.
#[verifier::external_body]
fn rfc3339_format(local_nanos: i128, offset_seconds: i32) -> (res: Option<String>)
    requires
        local_in_range(local_nanos),
        offset_in_range(offset_seconds),
    ensures
        match res {
            Some(s) => rfc3339_format_of(local_nanos, offset_seconds) == Some(s@),
            None => rfc3339_format_of(local_nanos, offset_seconds) == None::<Seq<char>>,
        },
        res is Some <==> rfc3339_writable(local_nanos, offset_seconds),
{
    let offset = UtcOffset::from_whole_seconds(offset_seconds).unwrap();
    let local = OffsetDateTime::from_unix_timestamp_nanos(local_nanos).unwrap();
    local.replace_offset(offset).format(&Rfc3339).ok()
}

/// `ToString::to_string` (through `Display`) on the date-time with this
/// local date-time and offset, rebuilt as in `rfc3339_format`.
#[verifier::external_body]
fn datetime_display(local_nanos: i128, offset_seconds: i32) -> (res: String)
    requires
        local_in_range(local_nanos),
        offset_in_range(offset_seconds),
    ensures
        res@ == datetime_display_of(local_nanos, offset_seconds),
{
    let offset = UtcOffset::from_whole_seconds(offset_seconds).unwrap();
    let local = OffsetDateTime::from_unix_timestamp_nanos(local_nanos).unwrap();
    local.replace_offset(offset).to_string()
}

/// `OffsetDateTime::parse(text, &Rfc3339)`, then the local date-time (read
/// through `replace_offset(UtcOffset::UTC)`) and the offset of the result.
/// The crate builds what it reads from a date whose year lies in -9999..=9999,
/// a time of day and an offset of its own types, so both are in range.
#[verifier::external_body]
fn rfc3339_parse(text: &str) -> (res: Option<(i128, i32)>)
    ensures
        res == rfc3339_parse_of(text@),
        res matches Some(p) ==> local_in_range(p.0) && offset_in_range(p.1),
{
    match OffsetDateTime::parse(text, &Rfc3339) {
        Ok(t) => Some((t.replace_offset(UtcOffset::UTC).unix_timestamp_nanos(), t.offset().whole_seconds())),
        Err(_) => None,
    }
}

/// A local date-time with the UTC offset it stands in.
#[derive(Clone, Copy)]
pub struct DateTime {
    local_nanos: i128,
    offset_seconds: i32,
}

impl DateTime {
    #[verifier::type_invariant]
    spec fn in_range(self) -> bool {
        local_in_range(self.local_nanos) && offset_in_range(self.offset_seconds)
    }

    /// The local date-time, in nanoseconds as if it were in UTC.
    pub closed spec fn local(self) -> i128 {
        self.local_nanos
    }

    /// Offset from UTC in seconds.
    pub closed spec fn offset(self) -> i32 {
        self.offset_seconds
    }

    /// The instant: nanoseconds since the epoch.
    pub open spec fn nanos(self) -> int {
        self.local() - self.offset() * NANOS_PER_SECOND
    }

    /// The date-time at an instant (nanoseconds since the epoch) in an offset
    /// (seconds east of UTC); `None` when the offset or the local date-time
    /// there is out of range.
    pub fn from_unix_nanos(unix_nanos: i128, offset_seconds: i32) -> (res: Option<DateTime>)
        ensures
            match res {
                Some(t) => t.nanos() == unix_nanos && t.offset() == offset_seconds,
                None => !offset_in_range(offset_seconds) || !(MIN_LOCAL_NANOS <= unix_nanos
                    + offset_seconds * NANOS_PER_SECOND <= MAX_LOCAL_NANOS),
            },
    {
        if offset_seconds < -MAX_OFFSET_SECONDS || offset_seconds > MAX_OFFSET_SECONDS {
            return None;
        }
        let shift: i128 = offset_seconds as i128 * NANOS_PER_SECOND;
        if unix_nanos < MIN_LOCAL_NANOS - shift || unix_nanos > MAX_LOCAL_NANOS - shift {
            return None;
        }
        Some(DateTime { local_nanos: unix_nanos + shift, offset_seconds })
    }

    /// Nanoseconds since the epoch.
    pub fn unix_timestamp_nanos(&self) -> (res: i128)
        ensures
            res == self.nanos(),
    {
        proof {
            use_type_invariant(self);
        }
        self.local_nanos - self.offset_seconds as i128 * NANOS_PER_SECOND
    }

    /// Offset from UTC in seconds.
    pub fn offset_seconds(&self) -> (res: i32)
        ensures
            res == self.offset(),
    {
        self.offset_seconds
    }
}

/// Why a date-time could not be written or read: the text concerned.
#[derive(Debug, Clone, PartialEq, Eq)]
pub enum Error {
    FailToDateParse(String),
}

/// The current instant, in UTC.
pub fn now_utc() -> (res: DateTime)
    ensures
        res.offset() == 0,
        res.local() == res.nanos(),
{
    let n = clock_now_nanos();
    DateTime { local_nanos: n, offset_seconds: 0 }
}

/// Writes a date-time as RFC 3339 text; when the crate refuses (a year before
/// 0000, or an offset of a day or more or with seconds), the error carries
/// the date-time's display text.
pub fn format_time(time: DateTime) -> (res: Result<String, Error>)
    ensures
        res is Ok <==> rfc3339_writable(time.local(), time.offset()),
        match res {
            Ok(s) => rfc3339_format_of(time.local(), time.offset()) == Some(s@),
            Err(Error::FailToDateParse(t)) => rfc3339_format_of(time.local(), time.offset())
                == None::<Seq<char>> && t@ == datetime_display_of(time.local(), time.offset()),
        },
{
    proof {
        use_type_invariant(&time);
    }
    match rfc3339_format(time.local_nanos, time.offset_seconds) {
        Some(s) => Ok(s),
        None => Err(Error::FailToDateParse(datetime_display(time.local_nanos, time.offset_seconds))),
    }
}

/// Reads RFC 3339 text; when it is none, the error carries the text.
pub fn parse_utc(moment: &str) -> (res: Result<DateTime, Error>)
    ensures
        match res {
            Ok(t) => rfc3339_parse_of(moment@) == Some((t.local(), t.offset())),
            Err(Error::FailToDateParse(s)) => rfc3339_parse_of(moment@) == None::<(i128, i32)>
                && s@ == moment@,
        },
{
    match rfc3339_parse(moment) {
        Some((n, o)) => Ok(DateTime { local_nanos: n, offset_seconds: o }),
        None => Err(Error::FailToDateParse(String::from_str(moment))),
    }
}

} // verus!
