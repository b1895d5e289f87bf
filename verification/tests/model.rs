use alarum::calendar::Moment;
use alarum::model::{format_hm, to_12_hour, to_24_hour, Alarm, Repeat};
use chrono::{DateTime, Datelike, Local, NaiveDate, TimeZone, Timelike, Weekday};

fn at(year: i32, month: u32, day: u32, hour: u32, minute: u32, second: u32) -> Moment {
    let dt = Local
        .with_ymd_and_hms(year, month, day, hour, minute, second)
        .single()
        .or_else(|| Local.with_ymd_and_hms(year, month, day, hour, minute, second).earliest())
        .expect("valid local datetime");
    moment(dt)
}

fn moment(dt: DateTime<Local>) -> Moment {
    Moment { secs: dt.timestamp(), nanos: dt.timestamp_subsec_nanos() }
}

fn local(m: Moment) -> DateTime<Local> {
    DateTime::from_timestamp(m.secs, m.nanos).unwrap().with_timezone(&Local)
}

fn alarm_at(hour: u32, minute: u32, repeat: Repeat) -> Alarm {
    let mut alarm = Alarm::new(hour, minute);
    alarm.repeat = repeat;
    alarm
}

#[test]
fn twelve_hour_roundtrip() {
    assert_eq!(to_12_hour(0), (12, false));
    assert_eq!(to_12_hour(1), (1, false));
    assert_eq!(to_12_hour(12), (12, true));
    assert_eq!(to_12_hour(15), (3, true));
    assert_eq!(to_12_hour(23), (11, true));
    assert_eq!(to_24_hour(12, false), 0);
    assert_eq!(to_24_hour(12, true), 12);
    assert_eq!(to_24_hour(3, true), 15);
    assert_eq!(format_hm(15, 5, true), "3:05 PM");
    assert_eq!(format_hm(15, 5, false), "15:05");
}

#[test]
fn fires_in_the_due_minute() {
    let alarm = alarm_at(8, 0, Repeat::Once);
    let last = at(2026, 9, 9, 7, 59, 50);
    let now = at(2026, 9, 9, 8, 0, 10);
    assert!(alarm.should_fire(last, now));
}

#[test]
fn catches_up_after_sleep_across_the_minute() {
    let alarm = alarm_at(8, 0, Repeat::Daily);
    let last = at(2026, 9, 9, 7, 59, 0);
    let now = at(2026, 9, 9, 8, 1, 0);
    assert!(alarm.should_fire(last, now));
}

#[test]
fn does_not_fire_outside_catch_up_window() {
    let alarm = alarm_at(8, 0, Repeat::Daily);
    let last = at(2026, 9, 8, 10, 0, 0);
    let now = at(2026, 9, 9, 12, 0, 0);
    assert!(!alarm.should_fire(last, now));
}

#[test]
fn does_not_refire_same_occurrence() {
    let mut alarm = alarm_at(8, 0, Repeat::Daily);
    alarm.last_fired = Some(at(2026, 9, 9, 8, 0, 5));
    let last = at(2026, 9, 9, 8, 0, 10);
    let now = at(2026, 9, 9, 8, 0, 40);
    assert!(!alarm.should_fire(last, now));
}

#[test]
fn weekday_alarm_skips_saturday() {
    let alarm = alarm_at(8, 0, Repeat::Weekdays);
    let last = at(2026, 9, 11, 23, 59, 0); // Friday night
    let now = at(2026, 9, 12, 8, 0, 30); // Saturday
    assert!(!alarm.should_fire(last, now));
    assert_eq!(
        alarm.next_trigger(now).map(|t| local(t).weekday()),
        Some(Weekday::Mon)
    );
}

#[test]
fn weekend_alarm_skips_wednesday() {
    let alarm = alarm_at(9, 30, Repeat::Weekends);
    let last = at(2026, 9, 9, 9, 29, 0);
    let now = at(2026, 9, 9, 9, 30, 10);
    assert!(!alarm.should_fire(last, now));
}

#[test]
fn midnight_boundary() {
    let alarm = alarm_at(0, 0, Repeat::Daily);
    let last = at(2026, 9, 9, 23, 59, 0);
    let now = at(2026, 9, 10, 0, 0, 15);
    assert!(alarm.should_fire(last, now));
}

#[test]
fn snooze_due_uses_snooze_time_not_clock_time() {
    let mut alarm = alarm_at(8, 0, Repeat::Once);
    alarm.last_fired = Some(at(2026, 9, 9, 8, 0, 2));
    alarm.snooze_until = Some(at(2026, 9, 9, 8, 5, 0));
    let last = at(2026, 9, 9, 8, 4, 50);
    let now = at(2026, 9, 9, 8, 5, 2);
    assert!(alarm.should_fire(last, now));
}

#[test]
fn snooze_in_the_future_does_not_fire() {
    let mut alarm = alarm_at(8, 0, Repeat::Once);
    alarm.snooze_until = Some(at(2026, 9, 9, 8, 10, 0));
    let last = at(2026, 9, 9, 8, 0, 0);
    let now = at(2026, 9, 9, 8, 1, 0);
    assert!(!alarm.should_fire(last, now));
    assert_eq!(alarm.next_trigger(now), Some(at(2026, 9, 9, 8, 10, 0)));
}

#[test]
fn disabled_alarm_never_fires() {
    let mut alarm = alarm_at(8, 0, Repeat::Daily);
    alarm.enabled = false;
    let last = at(2026, 9, 9, 7, 59, 0);
    let now = at(2026, 9, 9, 8, 0, 10);
    assert!(!alarm.should_fire(last, now));
    assert!(alarm.next_trigger(now).is_none());
}

#[test]
fn next_trigger_skips_consumed_today() {
    let mut alarm = alarm_at(8, 0, Repeat::Daily);
    alarm.last_fired = Some(at(2026, 9, 9, 8, 0, 1));
    let now = at(2026, 9, 9, 8, 1, 0);
    let next = local(alarm.next_trigger(now).expect("tomorrow"));
    assert_eq!(next.date_naive(), NaiveDate::from_ymd_opt(2026, 9, 10).unwrap());
    assert_eq!(next.hour(), 8);
}
