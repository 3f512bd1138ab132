//! Civil date and time for the temporal anchors of a query.
//!
//! A time specification is held as plain calendar fields on the proleptic
//! Gregorian calendar, taken as UTC. The conversions the wire format needs
//! (the Unix timestamp emitted in the query, the human-readable rendering
//! carried by diagnostics) are delegated to chrono behind exact contracts.

use vstd::prelude::*;
use crate::strutil::spec_dec;
use crate::strutil::spec_padded;
use crate::strutil::push_u64_dec;

verus! {

/// A civil date with a time of day, to one second.
#[derive(Clone, Copy, Debug, PartialEq, Eq, Hash, Structural)]
pub struct CivilDateTime {
    /// Calendar year, 1970 through 9999.
    pub year: u16,
    /// Calendar month, 1 through 12.
    pub month: u8,
    /// Day of month, 1 through the month's length.
    pub day: u8,
    /// Hour of day, 0 through 23.
    pub hour: u8,
    /// Minute, 0 through 59.
    pub minute: u8,
    /// Second, 0 through 59.
    pub second: u8,
}

/// Whether a year is a leap year on the Gregorian calendar.
pub open spec fn spec_is_leap_year(y: int) -> bool {
    (y % 4 == 0 && y % 100 != 0) || y % 400 == 0
}

/// The number of days in a month.
pub open spec fn spec_days_in_month(y: int, m: int) -> int
    recommends
        1 <= m <= 12,
{
    if m == 2 {
        if spec_is_leap_year(y) {
            29
        } else {
            28
        }
    } else if m == 4 || m == 6 || m == 9 || m == 11 {
        30
    } else {
        31
    }
}

/// Days elapsed from 1970-01-01 to the given date.
pub open spec fn spec_days_from_epoch(y: int, m: int, d: int) -> int
    recommends
        1970 <= y,
        1 <= m <= 12,
        1 <= d <= spec_days_in_month(y, m),
{
    let yy = if m <= 2 {
        y - 1
    } else {
        y
    };
    let era = yy / 400;
    let yoe = yy - era * 400;
    let mp = if m > 2 {
        m - 3
    } else {
        m + 9
    };
    let doy = (153 * mp + 2) / 5 + d - 1;
    let doe = yoe * 365 + yoe / 4 - yoe / 100 + doy;
    era * 146097 + doe - 719468
}

impl CivilDateTime {
    /// The fields form a real calendar date and time within the supported
    /// year range.
    pub open spec fn wf(self) -> bool {
        &&& 1970 <= self.year <= 9999
        &&& 1 <= self.month <= 12
        &&& 1 <= self.day <= spec_days_in_month(self.year as int, self.month as int)
        &&& self.hour <= 23
        &&& self.minute <= 59
        &&& self.second <= 59
    }

    /// Seconds elapsed from 1970-01-01 00:00:00 UTC, not counting leap
    /// seconds.
    pub open spec fn spec_unix_seconds(self) -> int {
        spec_days_from_epoch(self.year as int, self.month as int, self.day as int) * 86400
            + self.hour as int * 3600 + self.minute as int * 60 + self.second as int
    }

    /// The hour on a 12-hour clock.
    pub open spec fn spec_hour12(self) -> int {
        if self.hour as int % 12 == 0 {
            12
        } else {
            self.hour as int % 12
        }
    }

    /// Rendering used in diagnostics: date, 12-hour clock time, AM or PM.
    pub open spec fn spec_display(self) -> Seq<char> {
        spec_padded(self.year as int, 4) + "-"@ + spec_padded(self.month as int, 2) + "-"@
            + spec_padded(self.day as int, 2) + " "@ + spec_padded(self.spec_hour12(), 2) + ":"@
            + spec_padded(self.minute as int, 2) + ":"@ + spec_padded(self.second as int, 2) + (
        if self.hour < 12 {
            " AM"@
        } else {
            " PM"@
        })
    }

    /// Builds a date and time from calendar fields; yields a value exactly
    /// when the fields form a real date and time in the supported range.
    pub fn new(year: u16, month: u8, day: u8, hour: u8, minute: u8, second: u8) -> (r: Option<
        CivilDateTime,
    >)
        ensures
            ({
                let dt = CivilDateTime { year, month, day, hour, minute, second };
                if dt.wf() {
                    r == Some(dt)
                } else {
                    r == None::<CivilDateTime>
                }
            }),
    {
        if year < 1970 || year > 9999 || month < 1 || month > 12 || hour > 23 || minute > 59
            || second > 59 {
            return None;
        }
        let leap = (year % 4 == 0 && year % 100 != 0) || year % 400 == 0;
        let dim: u8 = if month == 2 {
            if leap {
                29
            } else {
                28
            }
        } else if month == 4 || month == 6 || month == 9 || month == 11 {
            30
        } else {
            31
        };
        if day < 1 || day > dim {
            return None;
        }
        Some(CivilDateTime { year, month, day, hour, minute, second })
    }

    /// Bounds on the timestamp of any well-formed date and time: it is
    /// non-negative and well below the 64-bit limits.
    pub proof fn lemma_unix_seconds_range(self)
        requires
            self.wf(),
        ensures
            0 <= self.spec_unix_seconds() < 0x4_0000_0000_0000,
    {
        let y = self.year as int;
        let m = self.month as int;
        let d = self.day as int;
        let yy = if m <= 2 {
            y - 1
        } else {
            y
        };
        let era = yy / 400;
        let yoe = yy - era * 400;
        let mp = if m > 2 {
            m - 3
        } else {
            m + 9
        };
        let doy = (153 * mp + 2) / 5 + d - 1;
        let doe = yoe * 365 + yoe / 4 - yoe / 100 + doy;
        assert(1969 <= yy <= 9999);
        assert(4 <= era <= 24);
        assert(0 <= yoe <= 399);
        assert(0 <= mp <= 11);
        assert(0 <= doy <= 366);
        assert(0 <= doe <= 146096);
        if era == 4 && yoe <= 369 {
            assert(yy == era * 400 + yoe);
            assert(yy == 1969);
            assert(m <= 2);
            assert(mp >= 10);
            assert(doy >= (153 * 10 + 2) / 5);
        }
        assert(era * 146097 + doe - 719468 >= 0);
    }
}

/// Relies on chrono's `NaiveDate`, `NaiveTime` and `DateTime<Utc>`: the Unix
/// timestamp of a civil date and time taken as UTC, that is, seconds since
/// 1970-01-01 00:00:00 UTC on the proleptic Gregorian calendar, not counting
/// leap seconds.
#[verifier::external_body]
pub(crate) fn unix_seconds(dt: &CivilDateTime) -> (r: i64)
    requires
        dt.wf(),
    ensures
        r == dt.spec_unix_seconds(),
{
    let date = chrono::NaiveDate::from_ymd_opt(dt.year as i32, dt.month as u32, dt.day as u32)
        .unwrap();
    let time = chrono::NaiveTime::from_hms_opt(dt.hour as u32, dt.minute as u32, dt.second as u32)
        .unwrap();
    chrono::NaiveDateTime::new(date, time).and_utc().timestamp()
}

/// Relies on chrono's `%F %r` formatting: the date as `YYYY-MM-DD`, a space,
/// and the time on a zero-padded 12-hour clock as `hh:mm:ss AM` or
/// `hh:mm:ss PM`.
#[verifier::external_body]
pub(crate) fn display_datetime(dt: &CivilDateTime) -> (r: String)
    requires
        dt.wf(),
    ensures
        r@ == dt.spec_display(),
{
    let date = chrono::NaiveDate::from_ymd_opt(dt.year as i32, dt.month as u32, dt.day as u32)
        .unwrap();
    let time = chrono::NaiveTime::from_hms_opt(dt.hour as u32, dt.minute as u32, dt.second as u32)
        .unwrap();
    chrono::NaiveDateTime::new(date, time).format("%F %r").to_string()
}

/// Appends the decimal Unix timestamp of `dt` to `out`.
pub fn push_unix_seconds(out: &mut String, dt: &CivilDateTime)
    requires
        dt.wf(),
    ensures
        final(out)@ == old(out)@ + spec_dec(dt.spec_unix_seconds() as nat),
{
    proof {
        dt.lemma_unix_seconds_range();
    }
    let ts = unix_seconds(dt);
    push_u64_dec(out, ts as u64);
}

} // verus!
