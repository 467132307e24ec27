//! Instants in UTC and their reading on the US Eastern wall clock.
//!
//! The calendar and time-zone arithmetic is chrono's and chrono-tz's; this
//! module only carries their results into verified code.
use vstd::prelude::*;
use chrono::{Datelike, Timelike};
use crate::text::decimal_of;

verus! {

/// Number of seconds in one calendar day of UTC time.
pub const SECONDS_PER_DAY: i64 = 86400;

/// How many days the market look-back may step back from an instant.
pub const LOOKBACK_DAYS: i64 = 11;

/// The US Eastern reading of an instant: its date as `YYYY-MM-DD` text, its
/// weekday counted from Monday (0) to Sunday (6), the seconds since local
/// midnight and the nanoseconds within that second.
pub struct EasternClock {
    pub date: String,
    pub weekday: u32,
    pub second_of_day: u32,
    pub nanosecond: u32,
}

impl EasternClock {
    pub open spec fn parts(&self) -> (Seq<char>, u32, u32, u32) {
        (self.date@, self.weekday, self.second_of_day, self.nanosecond)
    }
}

/// What chrono and chrono-tz give for the instant `secs` seconds and `nanos`
/// nanoseconds after the Unix epoch, read in `US/Eastern`: (date text, weekday
/// from Monday, second of the local day, nanosecond).
pub uninterp spec fn eastern_clock_of(secs: i64, nanos: u32) -> (Seq<char>, u32, u32, u32);

/// What chrono-tz prints for the instant with the format
/// `%Y-%m-%d %H:%M:%S %Z` in `US/Eastern`.
pub uninterp spec fn eastern_stamp_of(secs: i64, nanos: u32) -> Seq<char>;

/// The earliest and latest whole seconds after the epoch that chrono's
/// `DateTime<Utc>` holds: -262143-01-01T00:00:00 and 262142-12-31T23:59:59.
pub const CHRONO_MIN_SECS: i64 = -8_334_601_228_800;
pub const CHRONO_MAX_SECS: i64 = 8_210_266_876_799;

/// When `chrono::DateTime::<Utc>::from_timestamp(secs, nanos)` gives a value:
/// the seconds lie in chrono's range and the nanoseconds below one second, or
/// below two seconds on the last second of a minute (a leap second).
pub open spec fn chrono_representable(secs: i64, nanos: u32) -> bool {
    &&& CHRONO_MIN_SECS <= secs <= CHRONO_MAX_SECS
    &&& (nanos < 1_000_000_000 || (nanos < 2_000_000_000 && secs % 60 == 59))
}

/// Trusted: `chrono::DateTime::<Utc>::from_timestamp`, then
/// `with_timezone(&chrono_tz::US::Eastern)`, read through `format("%Y-%m-%d")`,
/// `weekday().num_days_from_monday()`, `num_seconds_from_midnight()` and
/// `nanosecond()`. chrono's source gives the range in which `from_timestamp`
/// succeeds (`chrono_representable`); the reading itself is named by
/// `eastern_clock_of`.
#[verifier::external_body]
pub(crate) fn eastern_clock(secs: i64, nanos: u32) -> (r: Option<EasternClock>)
    ensures
        r is Some <==> chrono_representable(secs, nanos),
        r matches Some(c) ==> eastern_clock_of(secs, nanos) == c.parts(),
{
    chrono::DateTime::<chrono::Utc>::from_timestamp(secs, nanos).map(|t| {
        let et = t.with_timezone(&chrono_tz::US::Eastern);
        EasternClock {
            date: et.format("%Y-%m-%d").to_string(),
            weekday: et.weekday().num_days_from_monday(),
            second_of_day: et.num_seconds_from_midnight(),
            nanosecond: et.nanosecond(),
        }
    })
}

/// Trusted: the same instant as `eastern_clock`, printed by chrono with
/// `format("%Y-%m-%d %H:%M:%S %Z")` in `US/Eastern`; named by
/// `eastern_stamp_of`.
#[verifier::external_body]
pub(crate) fn eastern_stamp(secs: i64, nanos: u32) -> (r: String)
    requires
        chrono_representable(secs, nanos),
    ensures
        r@ == eastern_stamp_of(secs, nanos),
{
    chrono::DateTime::<chrono::Utc>::from_timestamp(secs, nanos)
        .unwrap()
        .with_timezone(&chrono_tz::US::Eastern)
        .format("%Y-%m-%d %H:%M:%S %Z")
        .to_string()
}

/// Trusted: `chrono::Utc::now()`, taken apart into `timestamp()` and
/// `timestamp_subsec_nanos()`. chrono builds the value from the system clock's
/// distance to the Unix epoch (panicking before the epoch) through
/// `DateTime::from_timestamp(..).unwrap()`, so the seconds are not negative,
/// the nanoseconds lie below one second, and chrono represents the instant.
/// Nothing more is said of the value: it is the time of the call.
#[verifier::external_body]
pub(crate) fn utc_now() -> (r: (i64, u32))
    ensures
        r.0 >= 0,
        r.1 < 1_000_000_000,
        chrono_representable(r.0, r.1),
{
    let t = chrono::Utc::now();
    (t.timestamp(), t.timestamp_subsec_nanos())
}

/// The proleptic Gregorian date (year, month, day) of the day `days` days
/// after 1970-01-01 (days counted from 0000-03-01 in 400-year eras).
pub open spec fn civil_from_days(days: int) -> (int, int, int) {
    let z = days + 719468;
    let era = z / 146097;
    let doe = z - era * 146097;
    let yoe = (doe - doe / 1460 + doe / 36524 - doe / 146096) / 365;
    let y = yoe + era * 400;
    let doy = doe - (365 * yoe + yoe / 4 - yoe / 100);
    let mp = (5 * doy + 2) / 153;
    let d = doy - (153 * mp + 2) / 5 + 1;
    let m = if mp < 10 { mp + 3 } else { mp - 9 };
    (if m <= 2 { y + 1 } else { y }, m, d)
}

/// The UTC calendar date on which the instant `secs` seconds after the
/// epoch falls.
pub open spec fn utc_civil_date(secs: i64) -> (int, int, int) {
    civil_from_days(secs / SECONDS_PER_DAY)
}

/// The month (1 to 12) of the UTC calendar date on which the instant `secs`
/// seconds after the epoch falls.
pub open spec fn utc_month_of(secs: i64) -> u32 {
    utc_civil_date(secs).1 as u32
}

/// The UTC calendar reading of a whole second: month, weekday counted from
/// Monday (0), hour and minute.
pub struct UtcCalendar {
    pub month: u32,
    pub weekday: u32,
    pub hour: u32,
    pub minute: u32,
}

/// Trusted: `chrono::DateTime::<Utc>::from_timestamp(secs, 0)`, read through
/// `month()`, `weekday().num_days_from_monday()`, `hour()` and `minute()`.
/// chrono counts days with Euclidean division by 86400 from Thursday,
/// 1970-01-01, and takes the time of day from the Euclidean remainder; its
/// month is that of the proleptic Gregorian date (`utc_month_of`).
#[verifier::external_body]
pub(crate) fn utc_calendar(secs: i64) -> (r: UtcCalendar)
    requires
        chrono_representable(secs, 0),
    ensures
        r.month == utc_month_of(secs),
        1 <= r.month <= 12,
        r.weekday == (secs / SECONDS_PER_DAY + 3) % 7,
        r.hour == (secs % SECONDS_PER_DAY) / 3600,
        r.minute == (secs % 3600) / 60,
{
    let t = chrono::DateTime::<chrono::Utc>::from_timestamp(secs, 0).unwrap();
    UtcCalendar {
        month: t.month(),
        weekday: t.weekday().num_days_from_monday(),
        hour: t.hour(),
        minute: t.minute(),
    }
}

/// The UTC calendar date (`YYYY-MM-DD`) on which the instant `secs` seconds
/// after the epoch falls, as chrono prints it.
pub uninterp spec fn utc_date_of(secs: i64) -> Seq<char>;

/// `n` in decimal, with leading zeros up to `width` digits (for widths up
/// to 4).
pub open spec fn zero_padded(n: nat, width: nat) -> Seq<char> {
    let digits = decimal_of(n);
    if digits.len() < width {
        Seq::new((width - digits.len()) as nat, |i: int| '0') + digits
    } else {
        digits
    }
}

/// A date in years 0 to 9999 written `YYYY-MM-DD`.
pub open spec fn iso_date_text(date: (int, int, int)) -> Seq<char> {
    zero_padded(date.0 as nat, 4) + "-"@ + zero_padded(date.1 as nat, 2) + "-"@ + zero_padded(date.2 as nat, 2)
}

/// A year as chrono prints `%Y`: four digits with leading zeros for years
/// 0 to 9999, otherwise the number with its sign and at least four digits.
pub open spec fn year_text(y: int) -> Seq<char> {
    if 0 <= y <= 9999 {
        zero_padded(y as nat, 4)
    } else if y > 9999 {
        "+"@ + decimal_of(y as nat)
    } else {
        "-"@ + zero_padded((-y) as nat, 4)
    }
}

/// The UTC instant `secs` with `millis` milliseconds, printed as chrono
/// prints `%Y%m%d-%H:%M:%S%.3f`.
pub open spec fn sending_stamp(secs: i64, millis: int) -> Seq<char> {
    let d = utc_civil_date(secs);
    let tod = secs % SECONDS_PER_DAY;
    year_text(d.0) + zero_padded(d.1 as nat, 2) + zero_padded(d.2 as nat, 2) + "-"@ + zero_padded((tod / 3600) as nat, 2)
        + ":"@ + zero_padded(((tod % 3600) / 60) as nat, 2) + ":"@ + zero_padded((tod % 60) as nat, 2) + "."@
        + zero_padded(millis as nat, 3)
}

/// Whether a text is the printed time of some instant at or after the epoch
/// that chrono holds (see `sending_stamp`).
pub open spec fn is_sending_time(t: Seq<char>) -> bool {
    exists|secs: i64, millis: int|
        #![trigger sending_stamp(secs, millis)]
        secs >= 0 && chrono_representable(secs, 0) && 0 <= millis < 1000 && t == sending_stamp(secs, millis)
}

/// Trusted: `chrono::DateTime::<Utc>::from_timestamp(secs, 0)` printed with
/// `format("%Y-%m-%d")`; named by `utc_date_of`. For years 0 to 9999 chrono
/// writes the four-digit year, two-digit month and two-digit day of the
/// proleptic Gregorian date; other years carry a sign, which is not stated.
#[verifier::external_body]
pub(crate) fn utc_date_text(secs: i64) -> (r: String)
    requires
        chrono_representable(secs, 0),
    ensures
        r@ == utc_date_of(secs),
        0 <= utc_civil_date(secs).0 <= 9999 ==> r@ == iso_date_text(utc_civil_date(secs)),
{
    chrono::DateTime::<chrono::Utc>::from_timestamp(secs, 0).unwrap().format("%Y-%m-%d").to_string()
}

/// The instant `k` whole days before `secs`.
pub open spec fn days_before(secs: i64, k: int) -> i64 {
    (secs - SECONDS_PER_DAY * k) as i64
}

/// An instant is usable by the library when its nanosecond part is below one
/// second (no leap-second reading) and chrono represents it and each of the
/// eleven days before it.
pub open spec fn usable_instant(secs: i64, nanos: u32) -> bool {
    &&& nanos < 1_000_000_000
    &&& CHRONO_MIN_SECS + SECONDS_PER_DAY * LOOKBACK_DAYS <= secs <= CHRONO_MAX_SECS
}

pub proof fn lemma_usable_lookback(secs: i64, nanos: u32, k: int)
    requires
        usable_instant(secs, nanos),
        0 <= k <= LOOKBACK_DAYS,
    ensures
        chrono_representable(days_before(secs, k), nanos),
        days_before(secs, k) == secs - SECONDS_PER_DAY * k,
{
}

/// A point in time: whole seconds after the Unix epoch and the nanoseconds
/// within that second.
pub struct UtcInstant {
    secs: i64,
    nanos: u32,
}

impl UtcInstant {
    #[verifier::type_invariant]
    pub closed spec fn inv(self) -> bool {
        usable_instant(self.secs, self.nanos)
    }

    pub closed spec fn spec_secs(self) -> i64 {
        self.secs
    }

    pub closed spec fn spec_nanos(self) -> u32 {
        self.nanos
    }

    /// Seconds since the Unix epoch.
    pub fn secs(&self) -> (r: i64)
        ensures
            r == self.spec_secs(),
            usable_instant(self.spec_secs(), self.spec_nanos()),
    {
        proof {
            use_type_invariant(self);
        }
        self.secs
    }

    /// Nanoseconds within the second.
    pub fn nanos(&self) -> (r: u32)
        ensures
            r == self.spec_nanos(),
    {
        self.nanos
    }

    /// The instant `secs` seconds and `nanos` nanoseconds after the epoch, or
    /// `None` where it is not usable (see `usable_instant`).
    pub fn from_timestamp(secs: i64, nanos: u32) -> (r: Option<UtcInstant>)
        ensures
            r is Some <==> usable_instant(secs, nanos),
            r matches Some(t) ==> t.spec_secs() == secs && t.spec_nanos() == nanos,
    {
        if nanos < 1_000_000_000 && CHRONO_MIN_SECS + SECONDS_PER_DAY * LOOKBACK_DAYS <= secs
            && secs <= CHRONO_MAX_SECS {
            Some(UtcInstant { secs, nanos })
        } else {
            None
        }
    }

    /// The current time.
    pub fn now() -> (r: UtcInstant)
        ensures
            r.spec_secs() >= 0,
            usable_instant(r.spec_secs(), r.spec_nanos()),
    {
        let (secs, nanos) = utc_now();
        UtcInstant { secs, nanos }
    }

    /// The Unix epoch, 1970-01-01 00:00:00 UTC.
    pub fn epoch() -> (r: UtcInstant)
        ensures
            r.spec_secs() == 0 && r.spec_nanos() == 0,
    {
        UtcInstant { secs: 0, nanos: 0 }
    }
}

} // verus!
