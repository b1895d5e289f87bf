use alarum::calendar::Moment;
use alarum::model::{Alarm, AlarmStore, Repeat};
use alarum::ordering::sort_by_time;
use alarum::session::AppState;

fn m(secs: i64) -> Moment {
    Moment { secs, nanos: 0 }
}

fn alarm(id: u128, hour: u32, minute: u32, repeat: Repeat) -> Alarm {
    let mut a = Alarm::new(hour, minute);
    a.id = id;
    a.repeat = repeat;
    a
}

fn state_with(alarms: Vec<Alarm>) -> AppState {
    let mut store = AlarmStore::new();
    store.alarms = alarms;
    AppState::new(store)
}

#[test]
fn new_state_fixes_a_zero_default_snooze() {
    let mut store = AlarmStore::new();
    store.default_snooze_minutes = 0;
    let st = AppState::new(store);
    assert_eq!(st.store.default_snooze_minutes, 5);
    assert_eq!(st.status, "Alarms are checked while this window is running.");
    assert!(st.ringing_id.is_none() && st.editor.is_none());
    let mut store = AlarmStore::new();
    store.default_snooze_minutes = 12;
    assert_eq!(AppState::new(store).store.default_snooze_minutes, 12);
}

#[test]
fn ringing_marks_the_alarm_and_reports_the_sound() {
    let mut a = alarm(7, 8, 0, Repeat::Daily);
    a.label = " Wake up ".to_string();
    a.sound_path = "/tmp/bell.ogg".to_string();
    a.snooze_until = Some(m(50));
    let mut st = state_with(vec![alarm(3, 6, 0, Repeat::Once), a]);
    let ring = st.start_ringing(7, m(100)).expect("rings");
    assert_eq!(ring.label, "Wake up");
    assert_eq!(ring.sound.as_deref(), Some("/tmp/bell.ogg"));
    assert_eq!(st.ringing_id, Some(7));
    assert_eq!(st.status, "Ringing: Wake up");
    assert_eq!(st.store.alarms[1].last_fired, Some(m(100)));
    assert_eq!(st.store.alarms[1].snooze_until, None);
    assert_eq!(st.store.alarms[0].last_fired, None);
    // Already ringing: nothing happens.
    assert!(st.start_ringing(7, m(200)).is_none());
    assert_eq!(st.store.alarms[1].last_fired, Some(m(100)));
    // Unknown alarm: nothing happens.
    let mut st2 = state_with(vec![]);
    assert!(st2.start_ringing(9, m(1)).is_none());
    assert!(st2.ringing_id.is_none());
}

#[test]
fn blank_sound_path_plays_the_built_in_sound() {
    let mut a = alarm(1, 8, 0, Repeat::Daily);
    a.sound_path = "   ".to_string();
    let mut st = state_with(vec![a]);
    assert_eq!(st.start_ringing(1, m(5)).unwrap().sound, None);
}

#[test]
fn dismiss_turns_off_one_off_alarms_only() {
    let mut st = state_with(vec![alarm(1, 8, 0, Repeat::Once), alarm(2, 9, 0, Repeat::Daily)]);
    st.start_ringing(1, m(100));
    st.dismiss(m(130));
    assert!(st.ringing_id.is_none());
    assert_eq!(st.status, "Alarm dismissed.");
    assert!(!st.store.alarms[0].enabled);
    assert_eq!(st.store.alarms[0].last_fired, Some(m(130)));
    st.start_ringing(2, m(200));
    st.dismiss(m(230));
    assert!(st.store.alarms[1].enabled);
    // Nothing ringing: only the status changes.
    st.dismiss(m(300));
    assert_eq!(st.store.alarms[1].last_fired, Some(m(230)));
}

#[test]
fn snooze_schedules_the_next_ring() {
    let mut a = alarm(1, 8, 0, Repeat::Once);
    a.enabled = false;
    a.snooze_minutes = 0;
    let mut st = state_with(vec![a, alarm(2, 9, 0, Repeat::Daily)]);
    st.ringing_id = Some(1);
    assert!(st.can_snooze(m(1_000)));
    st.snooze(m(1_000));
    assert!(st.ringing_id.is_none());
    let a = &st.store.alarms[0];
    assert!(a.enabled);
    assert_eq!(a.snooze_until, Some(m(1_060)));
    assert_eq!(a.last_fired, Some(m(1_000)));
    assert_eq!(st.status, "Snoozed for 1 minutes.");

    st.ringing_id = Some(2);
    st.snooze(m(2_000));
    assert_eq!(st.store.alarms[1].snooze_until, Some(m(2_300)));
    assert_eq!(st.status, "Snoozed for 5 minutes.");
    // The snoozed alarm stays quiet until its snooze time, then rings.
    let b = &st.store.alarms[1];
    assert!(!b.fires_among(m(2_000), m(2_299), &vec![]));
    assert!(b.fires_among(m(2_299), m(2_300), &vec![]));
}

#[test]
fn snooze_near_the_end_of_the_calendar_is_refused() {
    let mut st = state_with(vec![alarm(1, 8, 0, Repeat::Daily)]);
    st.ringing_id = Some(1);
    let last = (alarum::calendar::LAST_DAY as i64 - 719_163 + 1) * 86_400 - 1;
    assert!(st.can_snooze(m(last - 300)));
    assert!(!st.can_snooze(m(last - 299)));
}

#[test]
fn polling_rings_the_first_due_alarm_once() {
    // 2026-09-09 08:00 in the local time zone of the test machine.
    let day = 739_868;
    let a = alarm(1, 8, 0, Repeat::Daily);
    let due = a.occurrence_on(day).expect("exists");
    let mut st = state_with(vec![alarm(5, 20, 0, Repeat::Daily), a]);
    st.store.last_checked = Some(m(due.secs - 30));
    let ring = st.poll_alarms(m(due.secs + 5)).expect("due");
    assert_eq!(ring.label, "Alarm");
    assert_eq!(st.ringing_id, Some(1));
    assert_eq!(st.store.last_checked, Some(m(due.secs + 5)));
    // While ringing, polling does nothing.
    assert!(st.poll_alarms(m(due.secs + 6)).is_none());
    assert_eq!(st.store.last_checked, Some(m(due.secs + 5)));
    st.dismiss(m(due.secs + 7));
    // Not rung again after dismissal.
    assert!(st.poll_alarms(m(due.secs + 8)).is_none());
    assert_eq!(st.store.last_checked, Some(m(due.secs + 8)));
}

#[test]
fn first_poll_looks_back_nowhere() {
    let day = 739_868;
    let a = alarm(1, 8, 0, Repeat::Daily);
    let due = a.occurrence_on(day).expect("exists");
    let mut st = state_with(vec![a]);
    assert!(st.poll_alarms(m(due.secs + 5)).is_none());
    assert_eq!(st.store.last_checked, Some(m(due.secs + 5)));
}

#[test]
fn editor_add_save_sorts_and_clamps() {
    let mut st = state_with(vec![alarm(1, 9, 0, Repeat::Daily), alarm(2, 7, 30, Repeat::Daily)]);
    st.store.default_snooze_minutes = 0;
    st.add_alarm(8, 15);
    assert!(st.editor_is_new);
    let new_id = st.editor.as_ref().unwrap().id;
    assert_eq!(st.editor.as_ref().unwrap().snooze_minutes, 1);
    {
        let ed = st.editor.as_mut().unwrap();
        ed.minute = 75;
        ed.snooze_until = Some(m(3));
    }
    assert!(st.save_editor());
    assert!(st.editor.is_none());
    assert_eq!(st.status, "Alarm saved.");
    let order: Vec<u128> = st.store.alarms.iter().map(|a| a.id).collect();
    assert_eq!(order, vec![2, new_id, 1]);
    let saved = &st.store.alarms[1];
    assert_eq!((saved.hour, saved.minute), (8, 59));
    assert_eq!(saved.snooze_until, None);
    assert!(!st.save_editor());
}

#[test]
fn editor_edit_replaces_in_place() {
    let mut st = state_with(vec![alarm(1, 9, 0, Repeat::Daily), alarm(2, 7, 30, Repeat::Daily)]);
    st.edit_alarm(1);
    assert!(!st.editor_is_new);
    st.editor.as_mut().unwrap().hour = 30;
    st.editor.as_mut().unwrap().snooze_minutes = 0;
    assert!(st.save_editor());
    // Edited alarms keep their place.
    assert_eq!(st.store.alarms[0].id, 1);
    assert_eq!(st.store.alarms[0].hour, 23);
    assert_eq!(st.store.alarms[0].snooze_minutes, 1);
    st.edit_alarm(42);
    assert!(st.editor.is_none());
    st.edit_alarm(2);
    st.cancel_editor();
    assert!(st.editor.is_none());
    assert_eq!(st.store.alarms[1].minute, 30);
}

#[test]
fn delete_removes_every_copy_and_stops_ringing() {
    let mut st = state_with(vec![
        alarm(1, 9, 0, Repeat::Daily),
        alarm(2, 7, 30, Repeat::Daily),
        alarm(1, 6, 0, Repeat::Daily),
    ]);
    assert!(!st.delete_alarm(2, m(10)));
    assert_eq!(st.store.alarms.len(), 2);
    st.start_ringing(1, m(20));
    assert!(st.delete_alarm(1, m(30)));
    assert!(st.store.alarms.is_empty());
    assert!(st.ringing_id.is_none());
    assert_eq!(st.status, "Alarm dismissed.");
}

#[test]
fn sorting_is_stable() {
    let v = vec![
        alarm(1, 9, 0, Repeat::Daily),
        alarm(2, 7, 30, Repeat::Daily),
        alarm(3, 9, 0, Repeat::Once),
        alarm(4, 0, 0, Repeat::Daily),
        alarm(5, 7, 30, Repeat::Once),
    ];
    let ids: Vec<u128> = sort_by_time(&v).iter().map(|a| a.id).collect();
    assert_eq!(ids, vec![4, 2, 5, 1, 3]);
}

#[test]
fn ringing_view_shows_the_alarm() {
    let mut a = alarm(1, 15, 5, Repeat::Daily);
    a.label = "Tea".to_string();
    a.snooze_minutes = 0;
    let mut st = state_with(vec![a]);
    st.store.use_12_hour = true;
    let v = st.ringing_view(1);
    assert_eq!((v.title.as_str(), v.time.as_str(), v.snooze_minutes), ("Tea", "3:05 PM", 1));
    let v = st.ringing_view(2);
    assert_eq!((v.title.as_str(), v.time.as_str(), v.snooze_minutes), ("Alarm", "", 5));
}

#[test]
fn polling_rings_a_due_snooze() {
    let mut a = alarm(1, 3, 0, Repeat::Once);
    a.snooze_until = Some(m(1_788_940_800));
    a.last_fired = Some(m(1_788_940_500));
    let mut st = state_with(vec![alarm(2, 4, 0, Repeat::Once), a]);
    st.store.last_checked = Some(m(1_788_940_790));
    let ring = st.poll_alarms(m(1_788_940_805)).expect("snooze due");
    assert_eq!(st.ringing_id, Some(1));
    assert_eq!(ring.label, "Alarm");
    assert_eq!(st.store.alarms[1].snooze_until, None);
    assert_eq!(st.store.alarms[1].last_fired, Some(m(1_788_940_805)));
}
