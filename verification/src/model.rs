use vstd::prelude::*;
use vstd::string::*;

use crate::calendar::{local_offset_secs, Moment, Weekday, FIRST_DAY, LAST_DAY, SECS_PER_DAY, UNIX_EPOCH_DAY};
use crate::text::{append_decimal, append_decimal2, decimal, decimal2, trim, trim_str};

verus! {

/// How far back, in seconds, a due check may look after sleep or a stall: two hours.
pub const CATCH_UP_SECS: i64 = 7200;

/// On which days an alarm rings.
#[derive(Clone, Copy, Debug, PartialEq, Eq, Structural)]
pub enum Repeat {
    Once,
    Daily,
    Weekdays,
    Weekends,
}

/// The label shown for a repeat setting.
pub open spec fn repeat_label(r: Repeat) -> Seq<char> {
    match r {
        Repeat::Once => "Once"@,
        Repeat::Daily => "Every day"@,
        Repeat::Weekdays => "Weekdays"@,
        Repeat::Weekends => "Weekends"@,
    }
}

/// Whether a day of the week is Saturday or Sunday.
pub open spec fn is_weekend(w: Weekday) -> bool {
    w == Weekday::Sat || w == Weekday::Sun
}

/// Whether a repeat setting lets the alarm ring on a day with weekday `w`.
pub open spec fn repeat_matches(r: Repeat, w: Weekday) -> bool {
    match r {
        Repeat::Once | Repeat::Daily => true,
        Repeat::Weekdays => !is_weekend(w),
        Repeat::Weekends => is_weekend(w),
    }
}

impl Repeat {
    /// The label shown for this setting.
    pub fn label(self) -> (r: &'static str)
        ensures
            r@ == repeat_label(self),
    {
        proof {
            reveal_strlit("Once");
            reveal_strlit("Every day");
            reveal_strlit("Weekdays");
            reveal_strlit("Weekends");
        }
        match self {
            Repeat::Once => "Once",
            Repeat::Daily => "Every day",
            Repeat::Weekdays => "Weekdays",
            Repeat::Weekends => "Weekends",
        }
    }

    /// Whether this setting lets the alarm ring on a day with weekday `weekday`.
    pub fn matches(self, weekday: Weekday) -> (r: bool)
        ensures
            r == repeat_matches(self, weekday),
    {
        match self {
            Repeat::Once | Repeat::Daily => true,
            Repeat::Weekdays => !(weekday == Weekday::Sat || weekday == Weekday::Sun),
            Repeat::Weekends => weekday == Weekday::Sat || weekday == Weekday::Sun,
        }
    }
}

/// The 12-hour clock reading of a 24-hour `hour`: 1 to 12, and whether it is after noon.
pub open spec fn hour12_of(hour24: int) -> (int, bool) {
    let h = hour24 % 12;
    (if h == 0 { 12 } else { h }, hour24 >= 12)
}

/// The 24-hour clock hour of a 12-hour reading.
pub open spec fn hour24_of(hour12: int, is_pm: bool) -> int {
    let base = if hour12 == 12 { 0 } else { hour12 % 12 };
    if is_pm { base + 12 } else { base }
}

/// Convert a 0–23 hour to 1–12 plus whether it is PM.
pub fn to_12_hour(hour24: u32) -> (r: (u32, bool))
    ensures
        (r.0 as int, r.1) == hour12_of(hour24 as int),
        1 <= r.0 <= 12,
{
    let is_pm = hour24 >= 12;
    let hour12 = hour24 % 12;
    (if hour12 == 0 { 12 } else { hour12 }, is_pm)
}

/// Convert a 1–12 hour plus AM/PM to 0–23.
pub fn to_24_hour(hour12: u32, is_pm: bool) -> (r: u32)
    ensures
        r as int == hour24_of(hour12 as int, is_pm),
        r < 24,
{
    let base = if hour12 == 12 { 0 } else { hour12 % 12 };
    if is_pm {
        base + 12
    } else {
        base
    }
}

/// The text of the clock time `hour:minute`: `H:MM AM`/`H:MM PM` on the 12-hour clock, else
/// `HH:MM`.
pub open spec fn hm_text(hour: nat, minute: nat, use_12_hour: bool) -> Seq<char> {
    if use_12_hour {
        let (h, is_pm) = hour12_of(hour as int);
        decimal(h as nat) + ":"@ + decimal2(minute) + (if is_pm { " PM"@ } else { " AM"@ })
    } else {
        decimal2(hour) + ":"@ + decimal2(minute)
    }
}

/// Formats a clock time as `H:MM AM`/`H:MM PM` (12-hour) or `HH:MM` (24-hour).
pub fn format_hm(hour: u32, minute: u32, use_12_hour: bool) -> (r: String)
    ensures
        r@ == hm_text(hour as nat, minute as nat, use_12_hour),
{
    proof {
        reveal_strlit(":");
        reveal_strlit(" PM");
        reveal_strlit(" AM");
    }
    let mut s = String::new();
    if use_12_hour {
        let (h, is_pm) = to_12_hour(hour);
        append_decimal(&mut s, h);
        s.append(":");
        append_decimal2(&mut s, minute);
        if is_pm {
            s.append(" PM");
        } else {
            s.append(" AM");
        }
    } else {
        append_decimal2(&mut s, hour);
        s.append(":");
        append_decimal2(&mut s, minute);
    }
    assert(s@ =~= hm_text(hour as nat, minute as nat, use_12_hour));
    s
}

/// The strftime pattern of the clock line: weekday, month, day and time with seconds.
pub open spec fn datetime_pattern_of(use_12_hour: bool) -> Seq<char> {
    if use_12_hour {
        "%a %b %d   %I:%M:%S %p"@
    } else {
        "%a %b %d   %H:%M:%S"@
    }
}

/// The strftime pattern of a next-ringing note: weekday and time.
pub open spec fn next_pattern_of(use_12_hour: bool) -> Seq<char> {
    if use_12_hour {
        "%a %I:%M %p"@
    } else {
        "%a %H:%M"@
    }
}

/// The patterns this library hands to chrono's formatter.
pub open spec fn is_clock_pattern(p: Seq<char>) -> bool {
    p == datetime_pattern_of(true) || p == datetime_pattern_of(false) || p == next_pattern_of(true)
        || p == next_pattern_of(false)
}

/// The clock-line pattern for the 12- or 24-hour clock.
pub fn datetime_pattern(use_12_hour: bool) -> (r: &'static str)
    ensures
        r@ == datetime_pattern_of(use_12_hour),
{
    proof {
        reveal_strlit("%a %b %d   %I:%M:%S %p");
        reveal_strlit("%a %b %d   %H:%M:%S");
    }
    if use_12_hour {
        "%a %b %d   %I:%M:%S %p"
    } else {
        "%a %b %d   %H:%M:%S"
    }
}

/// The next-ringing pattern for the 12- or 24-hour clock.
pub fn next_pattern(use_12_hour: bool) -> (r: &'static str)
    ensures
        r@ == next_pattern_of(use_12_hour),
{
    proof {
        reveal_strlit("%a %I:%M %p");
        reveal_strlit("%a %H:%M");
    }
    if use_12_hour {
        "%a %I:%M %p"
    } else {
        "%a %H:%M"
    }
}

/// Two decimal digits whose number lies between `lo` and `hi`.
pub open spec fn is_two_digits(s: Seq<char>, lo: int, hi: int) -> bool {
    &&& s.len() == 2
    &&& '0' <= s[0] <= '9'
    &&& '0' <= s[1] <= '9'
    &&& lo <= (s[0] as int - 48) * 10 + (s[1] as int - 48) <= hi
}

/// An English three-letter weekday name, as chrono's `%a` writes it.
pub open spec fn is_weekday_abbrev(s: Seq<char>) -> bool {
    s == "Sun"@ || s == "Mon"@ || s == "Tue"@ || s == "Wed"@ || s == "Thu"@ || s == "Fri"@ || s
        == "Sat"@
}

/// An English three-letter month name, as chrono's `%b` writes it.
pub open spec fn is_month_abbrev(s: Seq<char>) -> bool {
    s == "Jan"@ || s == "Feb"@ || s == "Mar"@ || s == "Apr"@ || s == "May"@ || s == "Jun"@ || s
        == "Jul"@ || s == "Aug"@ || s == "Sep"@ || s == "Oct"@ || s == "Nov"@ || s == "Dec"@
}

/// The text of a clock time `HH:MM` starting at position `at`: hour between `lo` and `hi`,
/// minute between 0 and 59.
pub open spec fn is_hm_at(t: Seq<char>, at: int, lo: int, hi: int) -> bool {
    &&& is_two_digits(t.subrange(at, at + 2), lo, hi)
    &&& t[at + 2] == ':'
    &&& is_two_digits(t.subrange(at + 3, at + 5), 0, 59)
}

/// The shape of a clock line: `Www Mmm DD   HH:MM:SS` on the 24-hour clock, or
/// `Www Mmm DD   HH:MM:SS AM`/`PM` on the 12-hour clock (hours 01 to 12).
pub open spec fn is_datetime_text(use_12_hour: bool, t: Seq<char>) -> bool {
    &&& t.len() == if use_12_hour { 24int } else { 21int }
    &&& is_weekday_abbrev(t.subrange(0, 3))
    &&& t[3] == ' '
    &&& is_month_abbrev(t.subrange(4, 7))
    &&& t[7] == ' '
    &&& is_two_digits(t.subrange(8, 10), 1, 31)
    &&& t.subrange(10, 13) == "   "@
    &&& if use_12_hour { is_hm_at(t, 13, 1, 12) } else { is_hm_at(t, 13, 0, 23) }
    &&& t[18] == ':'
    &&& is_two_digits(t.subrange(19, 21), 0, 60)
    &&& use_12_hour ==> t[21] == ' ' && (t.subrange(22, 24) == "AM"@ || t.subrange(22, 24) == "PM"@)
}

/// The shape of a next-ringing note: `Www HH:MM` on the 24-hour clock, or `Www HH:MM AM`/`PM`
/// on the 12-hour clock (hours 01 to 12).
pub open spec fn is_next_text(use_12_hour: bool, t: Seq<char>) -> bool {
    &&& t.len() == if use_12_hour { 12int } else { 9int }
    &&& is_weekday_abbrev(t.subrange(0, 3))
    &&& t[3] == ' '
    &&& if use_12_hour { is_hm_at(t, 4, 1, 12) } else { is_hm_at(t, 4, 0, 23) }
    &&& use_12_hour ==> t[9] == ' ' && (t.subrange(10, 12) == "AM"@ || t.subrange(10, 12) == "PM"@)
}

/// The text chrono's strftime-style formatting (`NaiveDateTime::format`, `to_string`) gives
/// for the date and time `local_secs` seconds and `nanos` nanoseconds past 1970-01-01 00:00:00,
/// taken without a time zone, with pattern `pattern`.
pub uninterp spec fn naive_strftime(local_secs: i64, nanos: u32, pattern: Seq<char>) -> Seq<char>;

/// The date and time `local_secs` seconds and `nanos` nanoseconds past 1970-01-01 00:00:00,
/// without a time zone, formatted by chrono with `pattern` (`DateTime::from_timestamp`,
/// `naive_utc`, `format`, `to_string`): the text is named `naive_strftime`. Beside the name
/// the contract states the text's shape, as chrono documents its specifiers: `%a` and `%b`
/// are three-letter English names (chrono's default locale), `%d` is 01 to 31, `%H` 00 to 23,
/// `%I` 01 to 12, `%M` 00 to 59, `%S` 00 to 60, all zero-padded to two digits, and `%p` is
/// `AM` or `PM`. The date must lie in chrono's calendar, and the patterns admitted are the
/// valid ones this library uses, which chrono formats without error.
#[verifier::external_body]
fn format_naive(local_secs: i64, nanos: u32, pattern: &str) -> (r: String)
    requires
        FIRST_DAY <= (local_secs as int) / (SECS_PER_DAY as int) + UNIX_EPOCH_DAY <= LAST_DAY,
        nanos < 1_000_000_000,
        is_clock_pattern(pattern@),
    ensures
        r@ == naive_strftime(local_secs, nanos, pattern@),
        pattern@ == datetime_pattern_of(true) ==> is_datetime_text(true, r@),
        pattern@ == datetime_pattern_of(false) ==> is_datetime_text(false, r@),
        pattern@ == next_pattern_of(true) ==> is_next_text(true, r@),
        pattern@ == next_pattern_of(false) ==> is_next_text(false, r@),
{
    let naive = chrono::DateTime::from_timestamp(local_secs, nanos).unwrap().naive_utc();
    naive.format(pattern).to_string()
}

/// Instant `m` formatted with `pattern` as chrono's `Local` clock shows it: the reading
/// `m` shifted by the local offset (below a day), formatted without a time zone.
fn format_local(m: Moment, pattern: &str) -> (r: String)
    requires
        m.in_calendar(),
        is_clock_pattern(pattern@),
    ensures
        exists|local_secs: i64|
            m.secs - SECS_PER_DAY < local_secs < m.secs + SECS_PER_DAY && r@ == #[trigger] naive_strftime(
                local_secs,
                m.nanos,
                pattern@,
            ),
        pattern@ == datetime_pattern_of(true) ==> is_datetime_text(true, r@),
        pattern@ == datetime_pattern_of(false) ==> is_datetime_text(false, r@),
        pattern@ == next_pattern_of(true) ==> is_next_text(true, r@),
        pattern@ == next_pattern_of(false) ==> is_next_text(false, r@),
{
    let off = local_offset_secs(m);
    let local_secs = m.secs + off as i64;
    proof {
        let d = (m.secs as int) / (SECS_PER_DAY as int);
        let e = (local_secs as int) / (SECS_PER_DAY as int);
        assert(d - 1 <= e <= d + 1) by (nonlinear_arith)
            requires
                d == (m.secs as int) / 86400,
                e == (local_secs as int) / 86400,
                local_secs - 86400 < m.secs < local_secs + 86400,
        ;
    }
    format_naive(local_secs, m.nanos, pattern)
}

/// The clock line for instant `dt` on the local clock: weekday, month, day and the time with
/// seconds, on the 12- or 24-hour clock (see `datetime_pattern`): chrono's text for `dt`'s
/// reading shifted by the local offset, which is below a day (`local_secs` below). The offset depends on the
/// machine's time zone; the text's shape is stated.
pub fn format_datetime(dt: Moment, use_12_hour: bool) -> (r: String)
    requires
        dt.in_calendar(),
    ensures
        exists|local_secs: i64|
            dt.secs - SECS_PER_DAY < local_secs < dt.secs + SECS_PER_DAY && r@ == #[trigger] naive_strftime(
                local_secs,
                dt.nanos,
                datetime_pattern_of(use_12_hour),
            ),
        is_datetime_text(use_12_hour, r@),
{
    format_local(dt, datetime_pattern(use_12_hour))
}

/// The note for a next ringing at instant `dt` on the local clock: weekday and time, on the
/// 12- or 24-hour clock (see `next_pattern`): chrono's text for `dt`'s reading shifted by the
/// local offset, which is below a day. The offset depends on the machine's time zone; the
/// text's shape is stated.
pub fn format_next(dt: Moment, use_12_hour: bool) -> (r: String)
    requires
        dt.in_calendar(),
    ensures
        exists|local_secs: i64|
            dt.secs - SECS_PER_DAY < local_secs < dt.secs + SECS_PER_DAY && r@ == #[trigger] naive_strftime(
                local_secs,
                dt.nanos,
                next_pattern_of(use_12_hour),
            ),
        is_next_text(use_12_hour, r@),
{
    format_local(dt, next_pattern(use_12_hour))
}

/// A 12-hour reading of a valid 24-hour hour converts back to that hour.
pub proof fn lemma_hour_roundtrip_24(hour24: int)
    requires
        0 <= hour24 < 24,
    ensures
        hour24_of(hour12_of(hour24).0, hour12_of(hour24).1) == hour24,
{
}

/// A valid 12-hour reading converts to a 24-hour hour whose 12-hour reading is itself.
pub proof fn lemma_hour_roundtrip_12(hour12: int, is_pm: bool)
    requires
        1 <= hour12 <= 12,
    ensures
        hour12_of(hour24_of(hour12, is_pm)) == (hour12, is_pm),
{
}

/// The bits of a random (version 4, RFC 4122 variant) UUID that are fixed.
pub open spec fn is_random_uuid(id: u128) -> bool {
    id & 0xF000_C000_0000_0000_0000u128 == 0x4000_8000_0000_0000_0000u128
}

/// A fresh random identifier from `uuid::Uuid::new_v4`, as the `u128` of `Uuid::as_u128`.
/// The value is random; the contract states what holds of every outcome: the version bits
/// say 4 and the variant bits say RFC 4122. That two calls differ is not stated.
#[verifier::external_body]
fn new_alarm_id() -> (id: u128)
    ensures
        is_random_uuid(id),
{
    uuid::Uuid::new_v4().as_u128()
}

/// One alarm: when it rings, how, and what it has done so far.
#[derive(Clone, Debug)]
pub struct Alarm {
    pub id: u128,
    pub enabled: bool,
    pub hour: u32,
    pub minute: u32,
    pub label: String,
    /// Empty string means "use the built-in default sound".
    pub sound_path: String,
    pub snooze_minutes: u32,
    pub repeat: Repeat,
    /// When set, this one-off time overrides the regular schedule (used for snooze).
    pub snooze_until: Option<Moment>,
    pub last_fired: Option<Moment>,
}

/// An optional instant that, when present, is well formed.
pub open spec fn opt_wf(m: Option<Moment>) -> bool {
    m matches Some(t) ==> t.wf()
}

/// The name shown for an alarm with message `label`: the trimmed message, or "Alarm".
pub open spec fn display_name_of(label: Seq<char>) -> Seq<char> {
    if trim(label).len() == 0 {
        "Alarm"@
    } else {
        trim(label)
    }
}

impl Alarm {
    /// The instants the alarm holds are well formed.
    pub open spec fn wf(&self) -> bool {
        opt_wf(self.snooze_until) && opt_wf(self.last_fired)
    }

    /// A new enabled one-off alarm at `hour:minute` with a fresh random id, no message,
    /// the default sound and a five-minute snooze.
    pub fn new(hour: u32, minute: u32) -> (a: Alarm)
        ensures
            is_random_uuid(a.id),
            a.enabled,
            a.hour == hour,
            a.minute == minute,
            a.label@ == Seq::<char>::empty(),
            a.sound_path@ == Seq::<char>::empty(),
            a.snooze_minutes == 5,
            a.repeat == Repeat::Once,
            a.snooze_until is None,
            a.last_fired is None,
            a.wf(),
    {
        Alarm {
            id: new_alarm_id(),
            enabled: true,
            hour,
            minute,
            label: String::new(),
            sound_path: String::new(),
            snooze_minutes: 5,
            repeat: Repeat::Once,
            snooze_until: None,
            last_fired: None,
        }
    }

    /// A copy of the alarm.
    pub fn copy(&self) -> (r: Alarm)
        ensures
            r == *self,
    {
        Alarm {
            id: self.id,
            enabled: self.enabled,
            hour: self.hour,
            minute: self.minute,
            label: self.label.clone(),
            sound_path: self.sound_path.clone(),
            snooze_minutes: self.snooze_minutes,
            repeat: self.repeat,
            snooze_until: self.snooze_until,
            last_fired: self.last_fired,
        }
    }

    /// The alarm's clock time as text, on the 12- or 24-hour clock.
    pub fn time_label_for(&self, use_12_hour: bool) -> (r: String)
        ensures
            r@ == hm_text(self.hour as nat, self.minute as nat, use_12_hour),
    {
        format_hm(self.hour, self.minute, use_12_hour)
    }

    /// The name shown for the alarm: its trimmed message, or "Alarm" when that is empty.
    pub fn display_name(&self) -> (r: String)
        ensures
            r@ == display_name_of(self.label@),
    {
        proof {
            reveal_strlit("Alarm");
        }
        let trimmed = trim_str(self.label.as_str());
        if trimmed.unicode_len() == 0 {
            String::from_str("Alarm")
        } else {
            trimmed.to_owned()
        }
    }
}

/// Everything the application keeps on disk.
#[derive(Clone, Debug)]
pub struct AlarmStore {
    pub alarms: Vec<Alarm>,
    pub default_snooze_minutes: u32,
    /// When true, clocks and editors use 12-hour time with AM/PM.
    pub use_12_hour: bool,
    /// Last time the running app sampled the clock. Used for catch-up after stalls.
    pub last_checked: Option<Moment>,
}

impl AlarmStore {
    /// The instants the store holds are well formed.
    pub open spec fn wf(&self) -> bool {
        &&& opt_wf(self.last_checked)
        &&& forall|i: int| 0 <= i < self.alarms.len() ==> (#[trigger] self.alarms[i]).wf()
    }

    /// An empty store with a five-minute default snooze and the 24-hour clock.
    pub fn new() -> (st: AlarmStore)
        ensures
            st.alarms@.len() == 0,
            st.default_snooze_minutes == 5,
            !st.use_12_hour,
            st.last_checked is None,
            st.wf(),
    {
        AlarmStore {
            alarms: Vec::new(),
            default_snooze_minutes: 5,
            use_12_hour: false,
            last_checked: None,
        }
    }
}

} // verus!
