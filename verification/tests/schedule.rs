use alarum::calendar::Moment;
use alarum::model::{Alarm, Repeat};

fn m(secs: i64) -> Moment {
    Moment { secs, nanos: 0 }
}

fn alarm(repeat: Repeat) -> Alarm {
    let mut a = Alarm::new(8, 0);
    a.repeat = repeat;
    a
}

const H: i64 = 3600;

#[test]
fn fires_among_rings_for_a_due_occurrence() {
    let a = alarm(Repeat::Daily);
    let occs = vec![None, Some(m(10 * H)), None];
    assert!(a.fires_among(m(10 * H - 10), m(10 * H + 10), &occs));
    // Outside the window (before the previous check).
    assert!(!a.fires_among(m(10 * H), m(10 * H + 10), &occs));
    // Exactly at now counts; just after now does not.
    assert!(a.fires_among(m(10 * H - 10), m(10 * H), &occs));
    assert!(!a.fires_among(m(10 * H - 10), m(10 * H - 1), &occs));
}

#[test]
fn fires_among_respects_the_catch_up_limit() {
    let a = alarm(Repeat::Daily);
    let occs = vec![Some(m(10 * H))];
    // Two hours after the occurrence it is still in the window only if strictly later.
    assert!(a.fires_among(m(0), m(12 * H - 1), &occs));
    assert!(!a.fires_among(m(0), m(12 * H), &occs));
}

#[test]
fn fires_among_skips_what_has_rung() {
    let mut a = alarm(Repeat::Daily);
    a.last_fired = Some(m(10 * H));
    let occs = vec![Some(m(10 * H))];
    assert!(!a.fires_among(m(10 * H - 10), m(10 * H + 10), &occs));
    a.last_fired = Some(m(10 * H - 1));
    assert!(a.fires_among(m(10 * H - 10), m(10 * H + 10), &occs));
}

#[test]
fn disabled_and_backwards_clock_never_ring() {
    let mut a = alarm(Repeat::Daily);
    let occs = vec![Some(m(10 * H))];
    assert!(!a.fires_among(m(10 * H + 10), m(10 * H + 10), &occs));
    assert!(!a.fires_among(m(10 * H + 20), m(10 * H + 10), &occs));
    a.enabled = false;
    assert!(!a.fires_among(m(10 * H - 10), m(10 * H + 10), &occs));
    assert_eq!(a.upcoming_among(m(0), &occs), None);
}

#[test]
fn snooze_decides_before_the_schedule() {
    let mut a = alarm(Repeat::Daily);
    let occs = vec![Some(m(10 * H))];
    // A future snooze keeps the alarm quiet even when the clock time is due.
    a.snooze_until = Some(m(10 * H + 300));
    assert!(!a.fires_among(m(10 * H - 10), m(10 * H + 10), &occs));
    assert_eq!(a.upcoming_among(m(10 * H + 10), &occs), Some(m(10 * H + 300)));
    // A due snooze rings.
    assert!(a.fires_among(m(10 * H + 290), m(10 * H + 310), &occs));
    // A snooze left behind before the window lets the schedule decide: the clock time rings.
    a.snooze_until = Some(m(10 * H - 100));
    assert!(a.fires_among(m(10 * H - 10), m(10 * H + 10), &occs));
    assert!(!a.fires_among(m(10 * H - 10), m(10 * H - 5), &occs));
    // So does a snooze that has been rung for.
    a.last_fired = Some(m(10 * H - 50));
    assert!(a.fires_among(m(10 * H - 10), m(10 * H + 10), &occs));
}

#[test]
fn upcoming_among_picks_the_first_later_unrung_occurrence() {
    let mut a = alarm(Repeat::Daily);
    let occs = vec![Some(m(5 * H)), None, Some(m(29 * H)), Some(m(53 * H))];
    assert_eq!(a.upcoming_among(m(6 * H), &occs), Some(m(29 * H)));
    assert_eq!(a.upcoming_among(m(4 * H), &occs), Some(m(5 * H)));
    a.last_fired = Some(m(29 * H));
    assert_eq!(a.upcoming_among(m(6 * H), &occs), Some(m(53 * H)));
    assert_eq!(a.upcoming_among(m(60 * H), &occs), None);
    // A snooze already past does not count.
    a.snooze_until = Some(m(5 * H));
    assert_eq!(a.upcoming_among(m(6 * H), &occs), Some(m(53 * H)));
}

#[test]
fn occurrence_on_follows_the_repeat_setting() {
    // 2026-09-12 is a Saturday, 2026-09-14 a Monday.
    let sat = 739_871;
    let mon = 739_873;
    assert!(alarm(Repeat::Weekdays).occurrence_on(sat).is_none());
    assert!(alarm(Repeat::Weekdays).occurrence_on(mon).is_some());
    assert!(alarm(Repeat::Weekends).occurrence_on(sat).is_some());
    assert!(alarm(Repeat::Weekends).occurrence_on(mon).is_none());
    let mut bad = alarm(Repeat::Daily);
    bad.hour = 24;
    assert!(bad.occurrence_on(mon).is_none());
    bad.hour = 23;
    bad.minute = 60;
    assert!(bad.occurrence_on(mon).is_none());
}

#[test]
fn stale_snooze_does_not_silence_the_schedule() {
    // The machine slept past a snooze and past the catch-up limit; the next morning's clock
    // time still rings, and it is the time announced as the next ringing.
    let mut a = alarm(Repeat::Daily);
    a.snooze_until = Some(m(10 * H));
    a.last_fired = Some(m(10 * H - 300));
    let occs = vec![Some(m(10 * H - 300)), Some(m(34 * H))];
    assert_eq!(a.upcoming_among(m(20 * H), &occs), Some(m(34 * H)));
    assert!(a.fires_among(m(33 * H), m(34 * H + 5), &occs));
}
