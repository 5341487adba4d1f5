//! Points in time with a fixed UTC offset, as plain integers.
use chrono::{Datelike, Timelike};
use vstd::prelude::*;

use crate::text::padded;

verus! {

/// Smallest number of seconds since the Unix epoch that has a calendar date
/// (January 1 of year -262143, 00:00:00 UTC).
pub const MIN_TIMESTAMP: i64 = -8334601228800i64;

/// Largest number of seconds since the Unix epoch that has a calendar date
/// (December 31 of year 262142, 23:59:59 UTC).
pub const MAX_TIMESTAMP: i64 = 8210266876799i64;

/// Number of seconds in a day.
pub const SECS_PER_DAY: i64 = 86400i64;

/// Whether `secs` seconds and `nanos` nanoseconds after the Unix epoch name a
/// representable instant: the date is in range, and a nanosecond count of a
/// second or more is only allowed inside a leap second (the 59th second).
pub open spec fn valid_instant(secs: int, nanos: int) -> bool {
    &&& MIN_TIMESTAMP <= secs <= MAX_TIMESTAMP
    &&& 0 <= nanos < 2_000_000_000
    &&& (nanos >= 1_000_000_000 ==> secs % 60 == 59)
}

/// Whether `offset` seconds is a valid fixed UTC offset (strictly less than a day).
pub open spec fn valid_offset(offset: int) -> bool {
    -86400 < offset < 86400
}

/// A calendar date and wall-clock time, as read off an instant.
#[derive(Clone, Copy, Debug, PartialEq, Eq, Structural)]
pub struct CivilTime {
    pub year: i32,
    pub month: u32,
    pub day: u32,
    pub hour: u32,
    pub minute: u32,
    pub second: u32,
}

/// The proleptic Gregorian date (year, month, day) of the day `z` days after
/// 1970-01-01 (before it when negative), the year counted astronomically
/// (1 BCE is year 0): the date is read off 400-year cycles that start on
/// March 1 of year 0.
pub open spec fn civil_from_days(z: int) -> (int, int, int) {
    let shifted = z + 719468;
    let era = shifted / 146097;
    let doe = shifted - era * 146097;
    let yoe = (doe - doe / 1460 + doe / 36524 - doe / 146096) / 365;
    let doy = doe - (365 * yoe + yoe / 4 - yoe / 100);
    let mp = (5 * doy + 2) / 153;
    let d = doy - (153 * mp + 2) / 5 + 1;
    let m = if mp < 10 {
        mp + 3
    } else {
        mp - 9
    };
    let y = yoe + era * 400 + if m <= 2 {
        1int
    } else {
        0int
    };
    (y, m, d)
}

/// Every day has a month in 1..=12 and a day of the month in 1..=31.
pub proof fn lemma_civil_from_days_ranges(z: int)
    ensures
        1 <= civil_from_days(z).1 <= 12,
        1 <= civil_from_days(z).2 <= 31,
{
    let shifted = z + 719468;
    let era = shifted / 146097;
    let doe = shifted - era * 146097;
    assert(0 <= doe < 146097);
    let yoe = (doe - doe / 1460 + doe / 36524 - doe / 146096) / 365;
    let doy = doe - (365 * yoe + yoe / 4 - yoe / 100);
    assert(0 <= doy <= 365);
    let mp = (5 * doy + 2) / 153;
    assert(0 <= mp <= 11);
    let d = doy - (153 * mp + 2) / 5 + 1;
    assert(1 <= d <= 31);
}

/// The calendar date (year, month, day) of the local time of the instant
/// `secs` seconds after the Unix epoch, seen at a UTC offset of `offset`
/// seconds.
pub open spec fn local_date(secs: int, offset: int) -> (int, int, int) {
    civil_from_days((secs + offset) / 86400)
}

/// Calendar fields of an instant seen at a fixed UTC offset.
///
/// Trusted: calls `chrono::DateTime::from_timestamp` and `with_timezone` to a
/// `chrono::FixedOffset`, then reads `year`, `month`, `day`, `hour`, `minute`
/// and `second`. The contract claims what chrono's source shows: the
/// construction succeeds on every valid instant and offset; the fields are
/// read from the local time, whose day is the UTC day moved by at most one
/// (`overflowing_add_offset`, which steps to the day just outside chrono's
/// range, December 31 of year -262144 or January 1 of year 262143, rather
/// than fail); so the date is the proleptic Gregorian date of day
/// `(secs + offset) / 86400` after the epoch, the time of day is the local
/// seconds of the day split into hours, minutes and seconds.
#[verifier::external_body]
fn chrono_civil(secs: i64, nanos: u32, offset: i32) -> (c: CivilTime)
    requires
        valid_instant(secs as int, nanos as int),
        valid_offset(offset as int),
    ensures
        (c.year as int, c.month as int, c.day as int) == local_date(secs as int, offset as int),
        c.hour as int == ((secs + offset) % 86400) / 3600,
        c.minute as int == (((secs + offset) % 86400) % 3600) / 60,
        c.second as int == (secs + offset) % 60,
{
    let utc = chrono::DateTime::from_timestamp(secs, nanos).unwrap();
    let local = utc.with_timezone(&chrono::FixedOffset::east_opt(offset).unwrap());
    CivilTime {
        year: local.year(),
        month: local.month(),
        day: local.day(),
        hour: local.hour(),
        minute: local.minute(),
        second: local.second(),
    }
}

/// Year as RFC 3339 writes it: four digits for years 0 to 9999, otherwise a
/// sign followed by at least four digits.
pub open spec fn rfc3339_year(y: int) -> Seq<char> {
    if 0 <= y <= 9999 {
        padded(y as nat, 4)
    } else if y < 0 {
        seq!['-'] + padded((-y) as nat, 4)
    } else {
        seq!['+'] + padded(y as nat, 4)
    }
}

/// RFC 3339 text of the UTC instant `secs` (with `nanos` nanoseconds) to the
/// second, with `Z` for the offset: `YYYY-MM-DDTHH:MM:SSZ`; a leap second is
/// written as second 60.
pub open spec fn rfc3339_utc_text(secs: int, nanos: int) -> Seq<char> {
    let (y, m, d) = local_date(secs, 0);
    let t = secs % 86400;
    rfc3339_year(y) + seq!['-'] + padded(m as nat, 2) + seq!['-'] + padded(d as nat, 2) + seq!['T']
        + padded((t / 3600) as nat, 2) + seq![':'] + padded(((t % 3600) / 60) as nat, 2) + seq![':']
        + padded(
        ((secs % 60) + (if nanos >= 1_000_000_000 {
            1int
        } else {
            0int
        })) as nat,
        2,
    ) + seq!['Z']
}

/// RFC 3339 text of a UTC instant, to the second, with `Z` for the offset.
///
/// Trusted: calls `chrono::DateTime::from_timestamp` and
/// `to_rfc3339_opts(SecondsFormat::Secs, true)`. chrono's `write_rfc3339`
/// writes the year as four digits when it lies in 0..=9999 and with `{:+05}`
/// otherwise, month, day, hour, minute and second as two digits each (the
/// second of a leap second as 60), no fraction, and `Z` for a zero offset.
#[verifier::external_body]
fn chrono_rfc3339_secs_utc(secs: i64, nanos: u32) -> (s: String)
    requires
        valid_instant(secs as int, nanos as int),
    ensures
        s@ == rfc3339_utc_text(secs as int, nanos as int),
{
    chrono::DateTime::from_timestamp(secs, nanos).unwrap().to_rfc3339_opts(
        chrono::SecondsFormat::Secs,
        true,
    )
}

/// What chrono's RFC 3339 parser reads from a text: the seconds since the
/// Unix epoch, the nanoseconds and the UTC offset in seconds of the instant,
/// or `None` when it refuses the text.
pub uninterp spec fn chrono_rfc3339_parse(s: Seq<char>) -> Option<(int, int, int)>;

/// The instant an RFC 3339 text names, as plain parts.
///
/// Trusted: calls `chrono::DateTime::parse_from_rfc3339` and reads the
/// result's `timestamp`, `timestamp_subsec_nanos` and the offset's
/// `local_minus_utc`; a parse error becomes `None`. The contract claims only
/// that the result is what `chrono_rfc3339_parse` names for the text.
#[verifier::external_body]
fn chrono_parse_rfc3339(s: &str) -> (r: Option<(i64, u32, i32)>)
    ensures
        match r {
            Some((secs, nanos, off)) => chrono_rfc3339_parse(s@) == Some(
                (secs as int, nanos as int, off as int),
            ),
            None => chrono_rfc3339_parse(s@) is None,
        },
{
    match chrono::DateTime::parse_from_rfc3339(s) {
        Ok(d) => Some((d.timestamp(), d.timestamp_subsec_nanos(), d.offset().local_minus_utc())),
        Err(_) => None,
    }
}

/// An instant together with the fixed UTC offset it was recorded at.
#[derive(Clone, Copy, Debug)]
pub struct DateTime {
    secs: i64,
    nanos: u32,
    offset: i32,
}

/// An instant in UTC.
#[derive(Clone, Copy, Debug)]
pub struct UtcDateTime {
    secs: i64,
    nanos: u32,
}

impl DateTime {
    #[verifier::type_invariant]
    spec fn inv(self) -> bool {
        valid_instant(self.secs as int, self.nanos as int) && valid_offset(self.offset as int)
    }

    /// Seconds since the Unix epoch.
    pub closed spec fn spec_secs(self) -> int {
        self.secs as int
    }

    /// Nanoseconds within the second.
    pub closed spec fn spec_nanos(self) -> int {
        self.nanos as int
    }

    /// Offset from UTC in seconds (local time minus UTC).
    pub closed spec fn spec_offset(self) -> int {
        self.offset as int
    }

    /// Builds an instant from its parts; `None` exactly when they do not name a
    /// valid instant with a valid offset.
    pub fn from_parts(secs: i64, nanos: u32, offset: i32) -> (r: Option<DateTime>)
        ensures
            r is Some <==> valid_instant(secs as int, nanos as int) && valid_offset(offset as int),
            r matches Some(d) ==> d.spec_secs() == secs && d.spec_nanos() == nanos
                && d.spec_offset() == offset,
    {
        if MIN_TIMESTAMP <= secs && secs <= MAX_TIMESTAMP && nanos < 2_000_000_000 && (nanos
            < 1_000_000_000 || (secs % 60 + 60) % 60 == 59) && -86400 < offset && offset < 86400 {
            Some(DateTime { secs, nanos, offset })
        } else {
            None
        }
    }

    /// Reads an RFC 3339 date-and-time text with chrono's parser: `None` when
    /// the parser refuses the text or what it reads is not a valid instant
    /// with a valid offset.
    pub fn parse_rfc3339(s: &str) -> (r: Option<DateTime>)
        ensures
            match chrono_rfc3339_parse(s@) {
                Some((secs, nanos, off)) => if valid_instant(secs, nanos) && valid_offset(off) {
                    r matches Some(d) && d.spec_secs() == secs && d.spec_nanos() == nanos
                        && d.spec_offset() == off
                } else {
                    r is None
                },
                None => r is None,
            },
    {
        match chrono_parse_rfc3339(s) {
            Some((secs, nanos, off)) => DateTime::from_parts(secs, nanos, off),
            None => None,
        }
    }

    pub fn secs(&self) -> (r: i64)
        ensures
            r == self.spec_secs(),
    {
        self.secs
    }

    pub fn nanos(&self) -> (r: u32)
        ensures
            r == self.spec_nanos(),
    {
        self.nanos
    }

    pub fn offset_secs(&self) -> (r: i32)
        ensures
            r == self.spec_offset(),
    {
        self.offset
    }

    /// The same instant seen in UTC.
    pub fn to_utc(&self) -> (r: UtcDateTime)
        ensures
            r.spec_secs() == self.spec_secs(),
            r.spec_nanos() == self.spec_nanos(),
    {
        proof {
            use_type_invariant(self);
        }
        UtcDateTime { secs: self.secs, nanos: self.nanos }
    }

    /// Milliseconds since the Unix epoch, leap seconds not counted apart.
    pub fn timestamp_millis(&self) -> (r: i64)
        ensures
            r == self.spec_secs() * 1000 + self.spec_nanos() / 1_000_000,
    {
        proof {
            use_type_invariant(self);
        }
        self.secs * 1000 + (self.nanos / 1_000_000) as i64
    }

    /// Calendar date and time of day at this value's own offset.
    pub fn local_civil(&self) -> (c: CivilTime)
        ensures
            c == local_civil_spec(self.spec_secs(), self.spec_offset()),
            (c.year as int, c.month as int, c.day as int) == local_date(
                self.spec_secs(),
                self.spec_offset(),
            ),
    {
        proof {
            use_type_invariant(self);
        }
        chrono_civil(self.secs, self.nanos, self.offset)
    }
}

/// The calendar fields of the instant `secs` seen at offset `offset`.
pub open spec fn local_civil_spec(secs: int, offset: int) -> CivilTime {
    let (y, m, d) = local_date(secs, offset);
    let local = secs + offset;
    CivilTime {
        year: y as i32,
        month: m as u32,
        day: d as u32,
        hour: ((local % 86400) / 3600) as u32,
        minute: (((local % 86400) % 3600) / 60) as u32,
        second: (local % 60) as u32,
    }
}

impl UtcDateTime {
    #[verifier::type_invariant]
    spec fn inv(self) -> bool {
        valid_instant(self.secs as int, self.nanos as int)
    }

    /// Seconds since the Unix epoch.
    pub closed spec fn spec_secs(self) -> int {
        self.secs as int
    }

    /// Nanoseconds within the second.
    pub closed spec fn spec_nanos(self) -> int {
        self.nanos as int
    }

    /// RFC 3339 text to the second, with `Z` for the offset.
    pub fn to_rfc3339_secs_z(&self) -> (s: String)
        ensures
            s@ == rfc3339_utc_text(self.spec_secs(), self.spec_nanos()),
    {
        proof {
            use_type_invariant(self);
        }
        chrono_rfc3339_secs_utc(self.secs, self.nanos)
    }

    /// Calendar date and time of day in UTC.
    pub fn civil(&self) -> (c: CivilTime)
        ensures
            c == local_civil_spec(self.spec_secs(), 0),
            (c.year as int, c.month as int, c.day as int) == local_date(self.spec_secs(), 0),
    {
        proof {
            use_type_invariant(self);
        }
        chrono_civil(self.secs, self.nanos, 0)
    }
}

} // verus!
