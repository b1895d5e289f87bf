use chrono::{Datelike, TimeZone};
use vstd::prelude::*;

verus! {

/// Day of the week, Monday first.
#[derive(Clone, Copy, Debug, PartialEq, Eq, Structural)]
pub enum Weekday {
    Mon,
    Tue,
    Wed,
    Thu,
    Fri,
    Sat,
    Sun,
}

/// The weekday of a day numbered from January 1 of year 1 (a Monday) as day 1.
pub open spec fn weekday_of_spec(day: int) -> Weekday {
    let k = (day - 1) % 7;
    if k == 0 {
        Weekday::Mon
    } else if k == 1 {
        Weekday::Tue
    } else if k == 2 {
        Weekday::Wed
    } else if k == 3 {
        Weekday::Thu
    } else if k == 4 {
        Weekday::Fri
    } else if k == 5 {
        Weekday::Sat
    } else {
        Weekday::Sun
    }
}

/// The weekday of a day counted from January 1 of year 1 as day 1.
pub fn weekday_of(day: i32) -> (w: Weekday)
    ensures
        w == weekday_of_spec(day as int),
{
    // Shift by a multiple of seven so that the remainder is taken of a non-negative number.
    let shifted: i64 = day as i64 - 1 + 7 * 306_783_379;
    let k: i64 = shifted % 7;
    proof {
        vstd::arithmetic::div_mod::lemma_mod_multiples_vanish(306_783_379, day - 1, 7);
    }
    if k == 0 {
        Weekday::Mon
    } else if k == 1 {
        Weekday::Tue
    } else if k == 2 {
        Weekday::Wed
    } else if k == 3 {
        Weekday::Thu
    } else if k == 4 {
        Weekday::Fri
    } else if k == 5 {
        Weekday::Sat
    } else {
        Weekday::Sun
    }
}

/// Seconds in a calendar day.
pub const SECS_PER_DAY: i64 = 86_400;

/// Day number (counted from January 1 of year 1 as day 1) of January 1, 1970.
pub const UNIX_EPOCH_DAY: i64 = 719_163;

/// Day number of the first date the calendar can represent (January 1, 262144 BCE).
pub const FIRST_DAY: i32 = -95_746_129;

/// Day number of the last date the calendar can represent (December 31, 262142 CE).
pub const LAST_DAY: i32 = 95_745_399;

/// An instant: whole seconds since 1970-01-01 00:00:00 UTC and the nanoseconds past them.
#[derive(Clone, Copy, Debug, PartialEq, Eq, Structural)]
pub struct Moment {
    pub secs: i64,
    pub nanos: u32,
}

impl Moment {
    /// The nanosecond part is below one second.
    pub open spec fn wf(self) -> bool {
        self.nanos < 1_000_000_000
    }

    /// The instant as a count of nanoseconds since the epoch; instants are ordered by it.
    pub open spec fn stamp(self) -> int {
        self.secs * 1_000_000_000 + self.nanos
    }

    /// Day number of the UTC date that contains this instant.
    pub open spec fn utc_day(self) -> int {
        (self.secs as int) / (SECS_PER_DAY as int) + UNIX_EPOCH_DAY
    }

    /// Well formed, and at least one day away from both ends of the calendar, so that its
    /// local date, in any time zone, can be represented.
    pub open spec fn in_calendar(self) -> bool {
        &&& self.wf()
        &&& FIRST_DAY + 1 <= self.utc_day()
        &&& self.utc_day() <= LAST_DAY - 1
    }

    /// Well formed, and at least three days after the first and two days before the last date
    /// of the calendar, so that the days a due check looks at around it (from the day before
    /// the local date two hours earlier to the day after the local date now), in any time
    /// zone, can be represented.
    pub open spec fn in_range(self) -> bool {
        &&& self.wf()
        &&& FIRST_DAY + 3 <= self.utc_day()
        &&& self.utc_day() <= LAST_DAY - 2
    }

    /// Within the calendar's range (see `in_calendar`), and at least eight days before its
    /// last date, so that the local date now and the seven days after it, in any time zone,
    /// can be represented.
    pub open spec fn in_week_range(self) -> bool {
        &&& self.in_calendar()
        &&& self.utc_day() <= LAST_DAY - 8
    }

    /// Whether the instant is well formed and within the calendar's range (see `in_calendar`).
    pub fn within_calendar(self) -> (r: bool)
        ensures
            r == self.in_calendar(),
    {
        let day = self.utc_day_exec();
        self.nanos < 1_000_000_000 && FIRST_DAY as i64 + 1 <= day && day <= LAST_DAY as i64 - 1
    }

    /// Whether the instant is well formed and far enough from the ends of the calendar for
    /// schedules (see `in_range`).
    pub fn within_range(self) -> (r: bool)
        ensures
            r == self.in_range(),
    {
        let day = self.utc_day_exec();
        self.nanos < 1_000_000_000 && FIRST_DAY as i64 + 3 <= day && day <= LAST_DAY as i64 - 2
    }

    /// Whether the instant is far enough from the ends of the calendar for looking a week
    /// ahead (see `in_week_range`).
    pub fn within_week_range(self) -> (r: bool)
        ensures
            r == self.in_week_range(),
    {
        let day = self.utc_day_exec();
        self.nanos < 1_000_000_000 && FIRST_DAY as i64 + 1 <= day && day <= LAST_DAY as i64 - 8
    }

    /// Day number of the UTC date that contains this instant.
    fn utc_day_exec(self) -> (d: i64)
        ensures
            d == self.utc_day(),
    {
        let q = self.secs / SECS_PER_DAY;
        let r = self.secs % SECS_PER_DAY;
        // Rust's division truncates toward zero; step down for negative remainders.
        let q = if r < 0 { q - 1 } else { q };
        proof {
            assert(self.secs == (self.secs / SECS_PER_DAY) * SECS_PER_DAY + self.secs % SECS_PER_DAY);
        }
        q + UNIX_EPOCH_DAY
    }

    /// Whether this instant comes strictly before `other`.
    pub fn is_before(self, other: Moment) -> (r: bool)
        requires
            self.wf(),
            other.wf(),
        ensures
            r == (self.stamp() < other.stamp()),
    {
        self.secs < other.secs || (self.secs == other.secs && self.nanos < other.nanos)
    }

    /// Whether this instant comes before `other` or equals it.
    pub fn is_at_or_before(self, other: Moment) -> (r: bool)
        requires
            self.wf(),
            other.wf(),
        ensures
            r == (self.stamp() <= other.stamp()),
    {
        self.secs < other.secs || (self.secs == other.secs && self.nanos <= other.nanos)
    }

    /// The instant `seconds` earlier.
    pub fn minus_seconds(self, seconds: i64) -> (r: Moment)
        requires
            self.wf(),
            0 <= seconds,
            self.secs - seconds >= i64::MIN,
        ensures
            r.wf(),
            r.secs == self.secs - seconds,
            r.nanos == self.nanos,
            r.stamp() == self.stamp() - seconds * 1_000_000_000,
    {
        Moment { secs: self.secs - seconds, nanos: self.nanos }
    }

    /// The instant `seconds` later.
    pub fn plus_seconds(self, seconds: i64) -> (r: Moment)
        requires
            self.wf(),
            0 <= seconds,
            self.secs + seconds <= i64::MAX,
        ensures
            r.wf(),
            r.secs == self.secs + seconds,
            r.nanos == self.nanos,
            r.stamp() == self.stamp() + seconds * 1_000_000_000,
    {
        Moment { secs: self.secs + seconds, nanos: self.nanos }
    }
}

/// Seconds since the epoch of the local wall-clock reading `hour:minute:00` on day `day`, as if
/// the local time were UTC.
pub open spec fn wall_clock_secs(day: int, hour: int, minute: int) -> int {
    (day - UNIX_EPOCH_DAY) * SECS_PER_DAY + hour * 3600 + minute * 60
}

/// The day number of the local date at instant `m`, by chrono's `Local` time zone
/// (`DateTime::from_timestamp`, `with_timezone(&Local)`, `date_naive`, `num_days_from_ce`).
/// The answer depends on the machine's time zone, so the contract states only what holds in
/// every zone: chrono's offsets are below one day, so the local date is the UTC date or one
/// of its neighbours. (When no time zone can be read chrono uses UTC; only time zone data
/// with an offset of a day or more makes it panic, which is not stated.)
#[verifier::external_body]
pub(crate) fn local_day_of(m: Moment) -> (day: i32)
    requires
        m.in_calendar(),
    ensures
        m.utc_day() - 1 <= day <= m.utc_day() + 1,
{
    let utc = chrono::DateTime::from_timestamp(m.secs, m.nanos).unwrap();
    utc.with_timezone(&chrono::Local).date_naive().num_days_from_ce()
}

/// The offset of chrono's `Local` clock from UTC at instant `m`, in seconds
/// (`Local.offset_from_utc_datetime`, `local_minus_utc`). It depends on the machine's time
/// zone; the contract states what holds in every zone: chrono's offsets are below one day.
#[verifier::external_body]
pub(crate) fn local_offset_secs(m: Moment) -> (off: i32)
    requires
        m.in_calendar(),
    ensures
        -SECS_PER_DAY < off < SECS_PER_DAY,
{
    let utc = chrono::DateTime::from_timestamp(m.secs, m.nanos).unwrap();
    chrono::Local.offset_from_utc_datetime(&utc.naive_utc()).local_minus_utc()
}

/// The instant at which the local wall clock (chrono's `Local`) reads `hour:minute:00` on day
/// `day` (`NaiveDate::from_num_days_from_ce_opt`, `and_hms_opt`, `Local.from_local_datetime`,
/// `earliest`): `None` when that reading is skipped by a clock change (or, on the first and
/// last days of the calendar, falls outside it), the earlier instant when it happens twice. The answer depends on the machine's time zone; the contract states what
/// holds in every zone: the instant has no fractional second and lies within a day of the same
/// reading taken in UTC (chrono's offsets are below one day). Which readings are skipped is
/// not stated.
#[verifier::external_body]
pub(crate) fn local_occurrence(day: i32, hour: u32, minute: u32) -> (r: Option<Moment>)
    requires
        FIRST_DAY <= day <= LAST_DAY,
        hour < 24,
        minute < 60,
    ensures
        r matches Some(t) ==> {
            &&& t.nanos == 0
            &&& wall_clock_secs(day as int, hour as int, minute as int) - SECS_PER_DAY < t.secs
            &&& t.secs < wall_clock_secs(day as int, hour as int, minute as int) + SECS_PER_DAY
        },
{
    let date = chrono::NaiveDate::from_num_days_from_ce_opt(day).unwrap();
    let naive = date.and_hms_opt(hour, minute, 0).unwrap();
    match chrono::Local.from_local_datetime(&naive).earliest() {
        Some(t) => Some(Moment { secs: t.timestamp(), nanos: t.timestamp_subsec_nanos() }),
        None => None,
    }
}

} // verus!
