use vstd::prelude::*;
use vstd::string::*;

use crate::calendar::{Moment, LAST_DAY, SECS_PER_DAY, UNIX_EPOCH_DAY};
use crate::model::{display_name_of, hm_text, Alarm, AlarmStore, Repeat};
use crate::ordering::{lemma_sorted_members, sort_by_time, stably_sorted_by_time, unique_ids};
use crate::schedule::{
    due_check, fires, lemma_disabled_never_rings, lemma_due_snooze_rings, lemma_future_snooze,
    lemma_no_ring_after_firing, next_ring, window_start,
};
use crate::text::{trim, trim_str};

verus! {

/// What the application does after an alarm starts ringing: show and announce `label`, and
/// play `sound` (the built-in sound when `None`).
#[derive(Debug)]
pub struct Ring {
    pub label: String,
    pub sound: Option<String>,
}

/// The sound an alarm plays: its sound path, unless that is blank (the built-in sound).
pub open spec fn chosen_sound(path: Seq<char>) -> Option<Seq<char>> {
    if trim(path).len() == 0 {
        None
    } else {
        Some(path)
    }
}

/// `i` is the position of the first alarm with identifier `id`.
pub open spec fn first_with_id(alarms: Seq<Alarm>, id: u128, i: int) -> bool {
    &&& 0 <= i < alarms.len()
    &&& alarms[i].id == id
    &&& forall|k: int| 0 <= k < i ==> (#[trigger] alarms[k]).id != id
}

/// No alarm has identifier `id`.
pub open spec fn no_alarm_with_id(alarms: Seq<Alarm>, id: u128) -> bool {
    forall|k: int| 0 <= k < alarms.len() ==> (#[trigger] alarms[k]).id != id
}

/// The alarm as it stands after it starts ringing at `now`.
pub open spec fn rung(a: Alarm, now: Moment) -> Alarm {
    Alarm { last_fired: Some(now), snooze_until: None, ..a }
}

/// The alarm as it stands after its ringing is dismissed at `now`: no snooze, rung at
/// `now`, and disabled when it rings only once.
pub open spec fn dismissed(a: Alarm, now: Moment) -> Alarm {
    Alarm {
        snooze_until: None,
        last_fired: Some(now),
        enabled: a.enabled && a.repeat != Repeat::Once,
        ..a
    }
}

/// The length, in minutes, of an alarm's snooze: its setting, at least one minute.
pub open spec fn snooze_length(a: Alarm) -> int {
    if a.snooze_minutes < 1 { 1 } else { a.snooze_minutes as int }
}

/// The alarm as it stands after its ringing is snoozed at `now`: enabled, rung at `now`,
/// and to ring again one snooze length later.
pub open spec fn snoozed(a: Alarm, now: Moment) -> Alarm {
    Alarm {
        snooze_until: Some(Moment { secs: (now.secs + 60 * snooze_length(a)) as i64, nanos: now.nanos }),
        last_fired: Some(now),
        enabled: true,
        ..a
    }
}

/// Whether an alarm's identifier differs from `id`.
pub open spec fn other_than(id: u128) -> spec_fn(Alarm) -> bool {
    |a: Alarm| a.id != id
}

/// The alarm as it is stored when the editor saves it: hour and minute clamped to a valid
/// clock time, a snooze of at least one minute, and no pending snooze.
pub open spec fn saved(a: Alarm) -> Alarm {
    Alarm {
        hour: if a.hour > 23 { 23 } else { a.hour },
        minute: if a.minute > 59 { 59 } else { a.minute },
        snooze_minutes: if a.snooze_minutes < 1 { 1 } else { a.snooze_minutes },
        snooze_until: None,
        ..a
    }
}

/// The alarms without those with identifier `id`.
fn without_id(v: &Vec<Alarm>, id: u128) -> (r: Vec<Alarm>)
    ensures
        r@ == v@.filter(other_than(id)),
{
    let n = v.len();
    let mut r: Vec<Alarm> = Vec::new();
    let mut i: usize = 0;
    proof {
        reveal(Seq::filter);
        assert(v@.take(0) =~= Seq::<Alarm>::empty());
    }
    while i < n
        invariant
            n == v@.len(),
            i <= n,
            r@ == v@.take(i as int).filter(other_than(id)),
        decreases n - i,
    {
        proof {
            reveal_with_fuel(Seq::filter, 1);
            assert(v@.take(i + 1).drop_last() =~= v@.take(i as int));
            assert(v@.take(i + 1).last() == v@[i as int]);
        }
        if v[i].id != id {
            r.push(v[i].copy());
        }
        i = i + 1;
    }
    proof {
        assert(v@.take(n as int) =~= v@);
    }
    r
}

/// Where a due check at `now` looks back to: the previous check, or `now` itself the first
/// time.
pub open spec fn poll_start(store: AlarmStore, now: Moment) -> Moment {
    match store.last_checked {
        Some(t) => t,
        None => now,
    }
}

/// The last second of the calendar, since the epoch.
pub open spec fn last_calendar_second() -> int {
    (LAST_DAY - UNIX_EPOCH_DAY + 1) * SECS_PER_DAY - 1
}

/// The text of a number of minutes in the status line.
pub open spec fn snoozed_status(minutes: nat) -> Seq<char> {
    "Snoozed for "@ + crate::text::decimal(minutes) + " minutes."@
}

/// An alarm that has just started ringing at `now` is not rung again by a due check at `now`
/// or before, whatever its schedule.
pub proof fn lemma_rung_alarm_quiet(a: Alarm, now: Moment, last_poll: Moment, t: Moment, occs: Seq<Option<Moment>>)
    requires
        t.stamp() <= now.stamp(),
    ensures
        !fires(rung(a, now), last_poll, t, occs),
{
    lemma_no_ring_after_firing(rung(a, now), last_poll, t, occs);
}

/// A one-off alarm whose ringing was dismissed never rings again and has no next ringing
/// time.
pub proof fn lemma_dismissed_once_is_off(a: Alarm, now: Moment, last_poll: Moment, t: Moment, occs: Seq<Option<Moment>>)
    requires
        a.repeat == Repeat::Once,
    ensures
        !fires(dismissed(a, now), last_poll, t, occs),
        next_ring(dismissed(a, now), t, occs) is None,
{
    lemma_disabled_never_rings(dismissed(a, now), last_poll, t, occs);
}

/// After a snooze at `now`, the alarm stays quiet until the snooze time, which is when it
/// rings next; a due check whose window reaches the snooze time rings it.
pub proof fn lemma_snooze_rings_later(a: Alarm, now: Moment, last_poll: Moment, t: Moment, occs: Seq<Option<Moment>>)
    requires
        now.wf(),
        now.secs + 60 * snooze_length(a) <= last_calendar_second(),
    ensures
        snoozed(a, now).snooze_until matches Some(u) && {
            &&& now.stamp() < u.stamp()
            &&& u.stamp() == now.stamp() + 60_000_000_000 * snooze_length(a)
            &&& t.stamp() < u.stamp() ==> !fires(snoozed(a, now), last_poll, t, occs) && next_ring(
                snoozed(a, now),
                t,
                occs,
            ) == Some(u)
            &&& last_poll.stamp() < t.stamp() && window_start(last_poll, t).stamp() < u.stamp()
                <= t.stamp() ==> fires(snoozed(a, now), last_poll, t, occs)
        },
{
    let b = snoozed(a, now);
    let u = b.snooze_until->0;
    assert(u.stamp() == now.stamp() + 60_000_000_000 * snooze_length(a)) by (nonlinear_arith)
        requires
            u.secs == now.secs + 60 * snooze_length(a),
            u.nanos == now.nanos,
    ;
    if t.stamp() < u.stamp() {
        lemma_future_snooze(b, last_poll, t, occs);
    }
    if last_poll.stamp() < t.stamp() && window_start(last_poll, t).stamp() < u.stamp() <= t.stamp() {
        lemma_due_snooze_rings(b, last_poll, t, occs);
    }
}

/// What the ringing screen shows: the alarm's name, its clock time, and the snooze length
/// offered.
#[derive(Debug)]
pub struct RingingView {
    pub title: String,
    pub time: String,
    pub snooze_minutes: u32,
}

/// Dismissing turns off only one-off alarms: a repeating alarm (daily, weekdays or weekends)
/// keeps its enabled flag, a one-off alarm is off afterwards. Either way the alarm loses its
/// snooze, is marked rung at the dismissal time, and keeps everything else.
pub proof fn lemma_dismiss_turns_off_only_one_off(a: Alarm, now: Moment)
    ensures
        a.repeat != Repeat::Once ==> dismissed(a, now).enabled == a.enabled,
        a.repeat == Repeat::Once ==> !dismissed(a, now).enabled,
        dismissed(a, now).snooze_until is None,
        dismissed(a, now).last_fired == Some(now),
        dismissed(a, now).id == a.id,
        dismissed(a, now).hour == a.hour,
        dismissed(a, now).minute == a.minute,
        dismissed(a, now).label == a.label,
        dismissed(a, now).sound_path == a.sound_path,
        dismissed(a, now).snooze_minutes == a.snooze_minutes,
        dismissed(a, now).repeat == a.repeat,
{
}

/// Snoozing postpones the ringing by the alarm's own snooze setting, whatever it is, or by
/// one minute when the setting is zero; the status reports that number of minutes, the
/// alarm is enabled and marked rung at the snooze time, and keeps everything else.
pub proof fn lemma_snooze_postpones_by_setting(a: Alarm, now: Moment)
    requires
        now.wf(),
        now.secs + 60 * snooze_length(a) <= last_calendar_second(),
    ensures
        a.snooze_minutes >= 1 ==> snoozed(a, now).snooze_until == Some(
            (Moment { secs: (now.secs + 60 * a.snooze_minutes) as i64, nanos: now.nanos }),
        ),
        a.snooze_minutes == 0 ==> snoozed(a, now).snooze_until == Some(
            (Moment { secs: (now.secs + 60) as i64, nanos: now.nanos }),
        ),
        a.snooze_minutes >= 1 ==> snoozed_status(snooze_length(a) as nat) == "Snoozed for "@
            + crate::text::decimal(a.snooze_minutes as nat) + " minutes."@,
        a.snooze_minutes == 0 ==> snoozed_status(snooze_length(a) as nat) == "Snoozed for "@
            + crate::text::decimal(1) + " minutes."@,
        snoozed(a, now).enabled,
        snoozed(a, now).last_fired == Some(now),
        snoozed(a, now).id == a.id,
        snoozed(a, now).hour == a.hour,
        snoozed(a, now).minute == a.minute,
        snoozed(a, now).repeat == a.repeat,
        snoozed(a, now).label == a.label,
        snoozed(a, now).sound_path == a.sound_path,
        snoozed(a, now).snooze_minutes == a.snooze_minutes,
{
}

/// A longer snooze setting never snoozes for less: of two alarms snoozed at the same time,
/// the one with the larger setting rings again no earlier, and strictly later when the
/// smaller setting is at least one minute; equal settings give the same time.
pub proof fn lemma_snooze_grows_with_setting(a: Alarm, b: Alarm, now: Moment)
    requires
        now.wf(),
        now.secs + 60 * snooze_length(a) <= last_calendar_second(),
        now.secs + 60 * snooze_length(b) <= last_calendar_second(),
    ensures
        a.snooze_minutes <= b.snooze_minutes ==> snoozed(a, now).snooze_until->0.stamp()
            <= snoozed(b, now).snooze_until->0.stamp(),
        1 <= a.snooze_minutes < b.snooze_minutes ==> snoozed(a, now).snooze_until->0.stamp()
            < snoozed(b, now).snooze_until->0.stamp(),
        a.snooze_minutes == b.snooze_minutes ==> snoozed(a, now).snooze_until == snoozed(
            b,
            now,
        ).snooze_until,
{
}

/// Saving keeps what the editor holds, except that the clock time is clamped to 23:59, the
/// snooze setting to at least a minute, and a pending snooze is dropped: identifier, enabled
/// flag, repeat setting, message, sound and last ringing are the editor's; a valid clock time
/// and snooze setting are kept as they are.
pub proof fn lemma_save_keeps_the_edit(a: Alarm)
    ensures
        saved(a).id == a.id,
        saved(a).enabled == a.enabled,
        saved(a).repeat == a.repeat,
        saved(a).label == a.label,
        saved(a).sound_path == a.sound_path,
        saved(a).last_fired == a.last_fired,
        saved(a).snooze_until is None,
        a.hour <= 23 ==> saved(a).hour == a.hour,
        a.hour > 23 ==> saved(a).hour == 23,
        a.minute <= 59 ==> saved(a).minute == a.minute,
        a.minute > 59 ==> saved(a).minute == 59,
        a.snooze_minutes >= 1 ==> saved(a).snooze_minutes == a.snooze_minutes,
        a.snooze_minutes == 0 ==> saved(a).snooze_minutes == 1,
        a.hour <= 23 && a.minute <= 59 && a.snooze_minutes >= 1 ==> saved(a) == (Alarm {
            snooze_until: None,
            ..a
        }),
{
}

/// The state of the running application, apart from the screen, the sound and the disk.
pub struct AppState {
    pub store: AlarmStore,
    /// The alarm being edited, if the editor is open.
    pub editor: Option<Alarm>,
    /// Whether the editor holds a new alarm rather than a copy of a stored one.
    pub editor_is_new: bool,
    /// The alarm that is ringing, if any.
    pub ringing_id: Option<u128>,
    /// The status line.
    pub status: String,
}

impl AppState {
    /// The instants the state holds are well formed.
    pub open spec fn wf(&self) -> bool {
        &&& self.store.wf()
        &&& self.editor matches Some(a) ==> a.wf()
    }

    /// The position of the first alarm with identifier `id`.
    pub fn find_alarm(&self, id: u128) -> (r: Option<usize>)
        ensures
            r matches Some(i) ==> first_with_id(self.store.alarms@, id, i as int),
            r is None ==> no_alarm_with_id(self.store.alarms@, id),
    {
        let n = self.store.alarms.len();
        let mut i: usize = 0;
        while i < n
            invariant
                n == self.store.alarms@.len(),
                i <= n,
                forall|k: int| 0 <= k < i ==> (#[trigger] self.store.alarms@[k]).id != id,
            decreases n - i,
        {
            if self.store.alarms[i].id == id {
                return Some(i);
            }
            i = i + 1;
        }
        None
    }

    /// The state at start-up with store `store`: a default snooze of zero becomes five
    /// minutes; nothing rings and the editor is closed.
    pub fn new(store: AlarmStore) -> (st: AppState)
        requires
            store.wf(),
        ensures
            st.wf(),
            st.store.alarms@ == store.alarms@,
            st.store.use_12_hour == store.use_12_hour,
            st.store.last_checked == store.last_checked,
            st.store.default_snooze_minutes == if store.default_snooze_minutes == 0 {
                5
            } else {
                store.default_snooze_minutes
            },
            st.editor is None,
            !st.editor_is_new,
            st.ringing_id is None,
            st.status@ == "Alarms are checked while this window is running."@,
    {
        proof {
            reveal_strlit("Alarms are checked while this window is running.");
        }
        let mut store = store;
        if store.default_snooze_minutes == 0 {
            store.default_snooze_minutes = 5;
        }
        AppState {
            store,
            editor: None,
            editor_is_new: false,
            ringing_id: None,
            status: String::from_str("Alarms are checked while this window is running."),
        }
    }

    /// Opens the editor on a new alarm at `hour:minute` (the clock time now) whose snooze is
    /// the default snooze, at least one minute.
    pub fn add_alarm(&mut self, hour: u32, minute: u32)
        requires
            old(self).wf(),
        ensures
            final(self).wf(),
            final(self).store == old(self).store,
            final(self).ringing_id == old(self).ringing_id,
            final(self).status == old(self).status,
            final(self).editor_is_new,
            final(self).editor matches Some(a) && {
                &&& a.enabled
                &&& a.hour == hour
                &&& a.minute == minute
                &&& a.label@.len() == 0
                &&& a.sound_path@.len() == 0
                &&& a.repeat == Repeat::Once
                &&& a.snooze_until is None
                &&& a.last_fired is None
                &&& a.snooze_minutes == if old(self).store.default_snooze_minutes < 1 {
                    1
                } else {
                    old(self).store.default_snooze_minutes
                }
                &&& crate::model::is_random_uuid(a.id)
            },
    {
        let mut alarm = Alarm::new(hour, minute);
        alarm.snooze_minutes = if self.store.default_snooze_minutes < 1 {
            1
        } else {
            self.store.default_snooze_minutes
        };
        self.editor_is_new = true;
        self.editor = Some(alarm);
    }

    /// Opens the editor on a copy of the first alarm with identifier `id`, if there is one.
    pub fn edit_alarm(&mut self, id: u128)
        requires
            old(self).wf(),
        ensures
            final(self).wf(),
            final(self).store == old(self).store,
            final(self).ringing_id == old(self).ringing_id,
            final(self).status == old(self).status,
            no_alarm_with_id(old(self).store.alarms@, id) ==> {
                &&& final(self).editor == old(self).editor
                &&& final(self).editor_is_new == old(self).editor_is_new
            },
            !no_alarm_with_id(old(self).store.alarms@, id) ==> exists|i: int|
                first_with_id(old(self).store.alarms@, id, i) && final(self).editor == Some(
                    old(self).store.alarms@[i],
                ) && !final(self).editor_is_new,
    {
        if let Some(i) = self.find_alarm(id) {
            let alarm = self.store.alarms[i].copy();
            self.editor_is_new = false;
            self.editor = Some(alarm);
        }
    }

    /// Closes the editor without saving.
    pub fn cancel_editor(&mut self)
        ensures
            final(self).editor is None,
            final(self).store == old(self).store,
            final(self).ringing_id == old(self).ringing_id,
            final(self).status == old(self).status,
            final(self).editor_is_new == old(self).editor_is_new,
    {
        self.editor = None;
    }

    /// One due check at `now`, while nothing rings: every alarm is checked, in list order, for
    /// what fell due since the previous check (`store.last_checked`; the first time, `now`
    /// itself, so nothing is due), the store records `now` as the last check, and the first
    /// alarm whose check comes out true starts ringing, as `start_ringing` does. Nothing
    /// happens while an alarm rings. Each check is `should_fire`'s, stated by `due_check`.
    pub fn poll_alarms(&mut self, now: Moment) -> (r: Option<Ring>)
        requires
            old(self).wf(),
            now.wf(),
            old(self).ringing_id is None ==> now.in_range(),
        ensures
            final(self).wf(),
            final(self).editor == old(self).editor,
            final(self).editor_is_new == old(self).editor_is_new,
            final(self).store.default_snooze_minutes == old(self).store.default_snooze_minutes,
            final(self).store.use_12_hour == old(self).store.use_12_hour,
            old(self).ringing_id is Some ==> {
                &&& r is None
                &&& final(self).store == old(self).store
                &&& final(self).ringing_id == old(self).ringing_id
                &&& final(self).status == old(self).status
            },
            old(self).ringing_id is None ==> {
                &&& final(self).store.last_checked == Some(now)
                &&& r is None ==> {
                    &&& final(self).store.alarms@ == old(self).store.alarms@
                    &&& final(self).ringing_id is None
                    &&& final(self).status == old(self).status
                    &&& forall|k: int|
                        0 <= k < old(self).store.alarms@.len() ==> due_check(
                            #[trigger] old(self).store.alarms@[k],
                            poll_start(old(self).store, now),
                            now,
                            false,
                        )
                }
                &&& r is Some ==> exists|i: int, j: int|
                    {
                        &&& 0 <= j < old(self).store.alarms@.len()
                        &&& due_check(
                            old(self).store.alarms@[j],
                            poll_start(old(self).store, now),
                            now,
                            true,
                        )
                        &&& forall|k: int|
                            0 <= k < j ==> due_check(
                                #[trigger] old(self).store.alarms@[k],
                                poll_start(old(self).store, now),
                                now,
                                false,
                            )
                        &&& first_with_id(old(self).store.alarms@, old(self).store.alarms@[j].id, i)
                        &&& final(self).store.alarms@ == old(self).store.alarms@.update(
                            i,
                            rung(old(self).store.alarms@[i], now),
                        )
                        &&& final(self).ringing_id == Some(old(self).store.alarms@[j].id)
                        &&& r matches Some(ring) && ring.label@ == display_name_of(
                            old(self).store.alarms@[i].label@,
                        ) && match ring.sound {
                            Some(p) => chosen_sound(old(self).store.alarms@[i].sound_path@) == Some(
                                p@,
                            ),
                            None => chosen_sound(old(self).store.alarms@[i].sound_path@) is None,
                        }
                        &&& final(self).status@ == "Ringing: "@ + display_name_of(
                            old(self).store.alarms@[i].label@,
                        )
                    }
            },
    {
        if self.ringing_id.is_some() {
            return None;
        }
        let last = match self.store.last_checked {
            Some(t) => t,
            None => now,
        };
        self.store.last_checked = Some(now);
        let n = self.store.alarms.len();
        let mut i: usize = 0;
        while i < n
            invariant
                n == self.store.alarms@.len(),
                i <= n,
                self.wf(),
                last.wf(),
                last == poll_start(old(self).store, now),
                now.in_range(),
                self.ringing_id is None,
                old(self).ringing_id is None,
                self.store.alarms@ == old(self).store.alarms@,
                self.editor == old(self).editor,
                self.editor_is_new == old(self).editor_is_new,
                self.status == old(self).status,
                self.store.default_snooze_minutes == old(self).store.default_snooze_minutes,
                self.store.use_12_hour == old(self).store.use_12_hour,
                self.store.last_checked == Some(now),
                forall|k: int|
                    0 <= k < i ==> due_check(#[trigger] old(self).store.alarms@[k], last, now, false),
            decreases n - i,
        {
            if self.store.alarms[i].should_fire(last, now) {
                let id = self.store.alarms[i].id;
                assert(!no_alarm_with_id(self.store.alarms@, id)) by {
                    assert(self.store.alarms@[i as int].id == id);
                }
                let ring = self.start_ringing(id, now);
                proof {
                    let j = i as int;
                    assert(due_check(old(self).store.alarms@[j], last, now, true));
                }
                return ring;
            }
            i = i + 1;
        }
        None
    }

    /// Deletes every alarm with identifier `id`; when that alarm is ringing, its ringing is
    /// dismissed at `now` (then the answer is true, and the sound must stop).
    pub fn delete_alarm(&mut self, id: u128, now: Moment) -> (stopped: bool)
        requires
            old(self).wf(),
            now.wf(),
        ensures
            final(self).wf(),
            final(self).store.alarms@ == old(self).store.alarms@.filter(other_than(id)),
            stopped == (old(self).ringing_id == Some(id)),
            stopped ==> final(self).ringing_id is None && final(self).status@ == "Alarm dismissed."@,
            !stopped ==> final(self).ringing_id == old(self).ringing_id && final(self).status
                == old(self).status,
            final(self).editor == old(self).editor,
            final(self).editor_is_new == old(self).editor_is_new,
            final(self).store.default_snooze_minutes == old(self).store.default_snooze_minutes,
            final(self).store.use_12_hour == old(self).store.use_12_hour,
            final(self).store.last_checked == old(self).store.last_checked,
    {
        let kept = without_id(&self.store.alarms, id);
        proof {
            assert forall|i: int| 0 <= i < kept@.len() implies (#[trigger] kept@[i]).wf() by {
                old(self).store.alarms@.lemma_filter_contains_rev(other_than(id), kept@[i]);
                let j = choose|j: int|
                    0 <= j < old(self).store.alarms@.len() && old(self).store.alarms@[j] == kept@[i];
                assert(old(self).store.alarms@[j].wf());
            }
        }
        self.store.alarms = kept;
        if self.ringing_id == Some(id) {
            self.dismiss(now);
            proof {
                assert(no_alarm_with_id(old(self).store.alarms@.filter(other_than(id)), id)) by {
                    assert forall|k: int| 0 <= k < kept@.len() implies (#[trigger] kept@[k]).id != id by {
                        old(self).store.alarms@.lemma_filter_pred(other_than(id), k);
                    }
                }
            }
            true
        } else {
            false
        }
    }

    /// Closes the editor and stores the alarm it holds, clamped to a valid clock time, with a
    /// snooze of at least a minute and no pending snooze: in place of the first alarm with its
    /// identifier, or else added, after which the alarms are sorted by clock time (alarms with
    /// the same time keeping their order). The answer says whether anything was saved.
    pub fn save_editor(&mut self) -> (r: bool)
        requires
            old(self).wf(),
        ensures
            final(self).wf(),
            final(self).editor is None,
            final(self).editor_is_new == old(self).editor_is_new,
            final(self).ringing_id == old(self).ringing_id,
            final(self).store.default_snooze_minutes == old(self).store.default_snooze_minutes,
            final(self).store.use_12_hour == old(self).store.use_12_hour,
            final(self).store.last_checked == old(self).store.last_checked,
            r == old(self).editor is Some,
            !r ==> final(self).store == old(self).store && final(self).status == old(self).status,
            r ==> final(self).status@ == "Alarm saved."@,
            unique_ids(old(self).store.alarms@) ==> unique_ids(final(self).store.alarms@),
            old(self).editor matches Some(a) ==> exists|k: int|
                {
                    &&& 0 <= k < final(self).store.alarms@.len()
                    &&& #[trigger] final(self).store.alarms@[k].id == a.id
                    &&& final(self).store.alarms@[k].enabled == a.enabled
                    &&& final(self).store.alarms@[k].repeat == a.repeat
                    &&& final(self).store.alarms@[k].label == a.label
                    &&& final(self).store.alarms@[k].sound_path == a.sound_path
                    &&& final(self).store.alarms@[k].last_fired == a.last_fired
                    &&& final(self).store.alarms@[k].snooze_until is None
                    &&& final(self).store.alarms@[k].hour == if a.hour > 23 { 23 } else { a.hour }
                    &&& final(self).store.alarms@[k].minute == if a.minute > 59 {
                        59
                    } else {
                        a.minute
                    }
                    &&& final(self).store.alarms@[k].snooze_minutes == if a.snooze_minutes == 0 {
                        1
                    } else {
                        a.snooze_minutes
                    }
                },
            old(self).editor matches Some(a) ==> {
                if no_alarm_with_id(old(self).store.alarms@, a.id) {
                    stably_sorted_by_time(old(self).store.alarms@.push(saved(a)), final(self).store.alarms@)
                } else {
                    exists|i: int|
                        first_with_id(old(self).store.alarms@, a.id, i)
                            && final(self).store.alarms@ == old(self).store.alarms@.update(
                            i,
                            saved(a),
                        )
                }
            },
    {
        proof {
            reveal_strlit("Alarm saved.");
        }
        match self.editor.take() {
            None => false,
            Some(alarm) => {
                let ghost edited = alarm;
                let mut alarm = alarm;
                alarm.hour = if alarm.hour > 23 { 23 } else { alarm.hour };
                alarm.minute = if alarm.minute > 59 { 59 } else { alarm.minute };
                alarm.snooze_minutes = if alarm.snooze_minutes < 1 { 1 } else { alarm.snooze_minutes };
                alarm.snooze_until = None;
                match self.find_alarm(alarm.id) {
                    Some(i) => {
                        self.store.alarms.set(i, alarm);
                        proof {
                            assert(self.store.alarms@[i as int] == saved(edited));
                            assert(self.store.alarms@[i as int].id == edited.id);
                        }
                    },
                    None => {
                        let ghost before = self.store.alarms@;
                        let ghost x = alarm;
                        self.store.alarms.push(alarm);
                        proof {
                            if unique_ids(before) {
                                assert forall|a: int, b: int|
                                    0 <= a < b < self.store.alarms@.len() implies self.store.alarms@[a].id
                                    != self.store.alarms@[b].id by {
                                    if b < before.len() {
                                        assert(self.store.alarms@[a] == before[a]);
                                        assert(self.store.alarms@[b] == before[b]);
                                    } else {
                                        assert(self.store.alarms@[a] == before[a]);
                                    }
                                }
                            }
                        }
                        let sorted = sort_by_time(&self.store.alarms);
                        proof {
                            assert forall|k: int| 0 <= k < sorted@.len() implies (
                            #[trigger] sorted@[k]).wf() by {
                                lemma_sorted_members(self.store.alarms@, sorted@, k);
                                let j = choose|j: int|
                                    0 <= j < self.store.alarms@.len() && self.store.alarms@[j]
                                        == sorted@[k];
                                assert(self.store.alarms@[j].wf());
                            }
                        }
                        proof {
                            let pushed = self.store.alarms@;
                            let key = crate::ordering::time_key(x);
                            assert(pushed[pushed.len() - 1] == x);
                            pushed.lemma_filter_contains(crate::ordering::at_time(key), pushed.len() - 1);
                            assert(sorted@.filter(crate::ordering::at_time(key)) == pushed.filter(
                                crate::ordering::at_time(key),
                            ));
                            sorted@.lemma_filter_contains_rev(crate::ordering::at_time(key), x);
                            let k = choose|k: int| 0 <= k < sorted@.len() && sorted@[k] == x;
                            assert(x == saved(edited));
                            assert(sorted@[k].id == edited.id);
                        }
                        self.store.alarms = sorted;
                    },
                }
                self.status = String::from_str("Alarm saved.");
                true
            },
        }
    }

    /// What the ringing screen shows for alarm `id`: the first such alarm's name, clock time
    /// and snooze length (at least a minute); "Alarm", no time and five minutes when there is
    /// no such alarm.
    pub fn ringing_view(&self, id: u128) -> (r: RingingView)
        ensures
            no_alarm_with_id(self.store.alarms@, id) ==> {
                &&& r.title@ == "Alarm"@
                &&& r.time@.len() == 0
                &&& r.snooze_minutes == 5
            },
            !no_alarm_with_id(self.store.alarms@, id) ==> exists|i: int|
                {
                    &&& first_with_id(self.store.alarms@, id, i)
                    &&& r.title@ == display_name_of(self.store.alarms@[i].label@)
                    &&& r.time@ == hm_text(
                        self.store.alarms@[i].hour as nat,
                        self.store.alarms@[i].minute as nat,
                        self.store.use_12_hour,
                    )
                    &&& r.snooze_minutes == snooze_length(self.store.alarms@[i])
                },
    {
        match self.find_alarm(id) {
            None => RingingView {
                title: String::from_str("Alarm"),
                time: String::new(),
                snooze_minutes: 5,
            },
            Some(i) => {
                let a = &self.store.alarms[i];
                RingingView {
                    title: a.display_name(),
                    time: a.time_label_for(self.store.use_12_hour),
                    snooze_minutes: if a.snooze_minutes < 1 { 1 } else { a.snooze_minutes },
                }
            },
        }
    }

    /// Whether snoozing the ringing alarm at `now` stays within the calendar.
    pub open spec fn snooze_possible(&self, now: Moment) -> bool {
        self.ringing_id matches Some(id) ==> forall|i: int|
            first_with_id(self.store.alarms@, id, i) ==> now.secs + 60 * snooze_length(
                #[trigger] self.store.alarms@[i],
            ) <= last_calendar_second()
    }

    /// Stops the ringing: the ringing alarm loses its snooze, is marked rung at `now`, and is
    /// disabled when it rings only once.
    pub fn dismiss(&mut self, now: Moment)
        requires
            old(self).wf(),
            now.wf(),
        ensures
            final(self).wf(),
            final(self).ringing_id is None,
            final(self).status@ == "Alarm dismissed."@,
            final(self).editor == old(self).editor,
            final(self).editor_is_new == old(self).editor_is_new,
            final(self).store.default_snooze_minutes == old(self).store.default_snooze_minutes,
            final(self).store.use_12_hour == old(self).store.use_12_hour,
            final(self).store.last_checked == old(self).store.last_checked,
            final(self).store.alarms@.len() == old(self).store.alarms@.len(),
            forall|k: int|
                0 <= k < old(self).store.alarms@.len() ==> {
                    &&& (#[trigger] final(self).store.alarms@[k]).id == old(self).store.alarms@[k].id
                    &&& final(self).store.alarms@[k].repeat == old(self).store.alarms@[k].repeat
                    &&& old(self).store.alarms@[k].repeat != Repeat::Once
                        ==> final(self).store.alarms@[k].enabled == old(self).store.alarms@[k].enabled
                },
            match old(self).ringing_id {
                Some(id) => if no_alarm_with_id(old(self).store.alarms@, id) {
                    final(self).store.alarms@ == old(self).store.alarms@
                } else {
                    exists|i: int|
                        first_with_id(old(self).store.alarms@, id, i)
                            && final(self).store.alarms@ == old(self).store.alarms@.update(
                            i,
                            dismissed(old(self).store.alarms@[i], now),
                        )
                },
                None => final(self).store.alarms@ == old(self).store.alarms@,
            },
    {
        proof {
            reveal_strlit("Alarm dismissed.");
        }
        if let Some(id) = self.ringing_id.take() {
            if let Some(i) = self.find_alarm(id) {
                self.store.alarms[i].snooze_until = None;
                self.store.alarms[i].last_fired = Some(now);
                if self.store.alarms[i].repeat == Repeat::Once {
                    self.store.alarms[i].enabled = false;
                }
                assert(self.store.alarms@ =~= old(self).store.alarms@.update(
                    i as int,
                    dismissed(old(self).store.alarms@[i as int], now),
                ));
            }
        }
        self.status = String::from_str("Alarm dismissed.");
    }

    /// Whether snoozing the ringing alarm at `now` stays within the calendar.
    pub fn can_snooze(&self, now: Moment) -> (r: bool)
        ensures
            r == self.snooze_possible(now),
    {
        match self.ringing_id {
            None => true,
            Some(id) => match self.find_alarm(id) {
                None => true,
                Some(i) => {
                    let minutes: i64 = if self.store.alarms[i].snooze_minutes < 1 {
                        1
                    } else {
                        self.store.alarms[i].snooze_minutes as i64
                    };
                    let last: i64 = (LAST_DAY as i64 - UNIX_EPOCH_DAY + 1) * SECS_PER_DAY - 1;
                    let r = now.secs <= last - 60 * minutes;
                    proof {
                        assert forall|j: int|
                            first_with_id(self.store.alarms@, id, j) implies ((now.secs + 60
                            * snooze_length(#[trigger] self.store.alarms@[j])
                            <= last_calendar_second()) == r) by {
                            assert(j == i);
                        }
                    }
                    r
                },
            },
        }
    }

    /// Snoozes the ringing alarm: it is enabled, marked rung at `now`, and rings again one
    /// snooze length (at least a minute) later.
    pub fn snooze(&mut self, now: Moment)
        requires
            old(self).wf(),
            now.wf(),
            old(self).snooze_possible(now),
        ensures
            final(self).wf(),
            final(self).ringing_id is None,
            final(self).editor == old(self).editor,
            final(self).editor_is_new == old(self).editor_is_new,
            final(self).store.default_snooze_minutes == old(self).store.default_snooze_minutes,
            final(self).store.use_12_hour == old(self).store.use_12_hour,
            final(self).store.last_checked == old(self).store.last_checked,
            match old(self).ringing_id {
                Some(id) => if no_alarm_with_id(old(self).store.alarms@, id) {
                    &&& final(self).store.alarms@ == old(self).store.alarms@
                    &&& final(self).status == old(self).status
                } else {
                    exists|i: int|
                        {
                            &&& first_with_id(old(self).store.alarms@, id, i)
                            &&& final(self).store.alarms@ == old(self).store.alarms@.update(
                                i,
                                snoozed(old(self).store.alarms@[i], now),
                            )
                            &&& final(self).status@ == snoozed_status(
                                snooze_length(old(self).store.alarms@[i]) as nat,
                            )
                        }
                },
                None => {
                    &&& final(self).store.alarms@ == old(self).store.alarms@
                    &&& final(self).status == old(self).status
                },
            },
            forall|id: u128, i: int|
                old(self).ringing_id == Some(id) && #[trigger] first_with_id(
                    old(self).store.alarms@,
                    id,
                    i,
                ) ==> {
                    let m = old(self).store.alarms@[i].snooze_minutes;
                    let minutes: int = if m == 0 { 1 } else { m as int };
                    &&& final(self).store.alarms@[i].snooze_until == Some(
                        (Moment { secs: (now.secs + 60 * minutes) as i64, nanos: now.nanos }),
                    )
                    &&& final(self).status@ == "Snoozed for "@ + crate::text::decimal(
                        minutes as nat,
                    ) + " minutes."@
                },
    {
        proof {
            reveal_strlit("Snoozed for ");
            reveal_strlit(" minutes.");
        }
        if let Some(id) = self.ringing_id.take() {
            if let Some(i) = self.find_alarm(id) {
                let minutes: u32 = if self.store.alarms[i].snooze_minutes < 1 {
                    1
                } else {
                    self.store.alarms[i].snooze_minutes
                };
                assert(now.secs + 60 * snooze_length(old(self).store.alarms@[i as int])
                    <= last_calendar_second());
                self.store.alarms[i].snooze_until = Some(now.plus_seconds(60 * minutes as i64));
                self.store.alarms[i].last_fired = Some(now);
                self.store.alarms[i].enabled = true;
                let mut status = String::from_str("Snoozed for ");
                crate::text::append_decimal(&mut status, minutes);
                status.append(" minutes.");
                self.status = status;
                assert(self.store.alarms@ =~= old(self).store.alarms@.update(
                    i as int,
                    snoozed(old(self).store.alarms@[i as int], now),
                ));
            }
        }
    }

    /// Starts ringing alarm `id` at `now`, unless it is ringing already: marks it rung at
    /// `now`, drops its snooze, and says what to show and play.
    pub fn start_ringing(&mut self, id: u128, now: Moment) -> (r: Option<Ring>)
        requires
            old(self).wf(),
            now.wf(),
        ensures
            final(self).wf(),
            final(self).editor == old(self).editor,
            final(self).editor_is_new == old(self).editor_is_new,
            final(self).store.default_snooze_minutes == old(self).store.default_snooze_minutes,
            final(self).store.use_12_hour == old(self).store.use_12_hour,
            final(self).store.last_checked == old(self).store.last_checked,
            old(self).ringing_id == Some(id) || no_alarm_with_id(old(self).store.alarms@, id) ==> {
                &&& r is None
                &&& final(self).store.alarms@ == old(self).store.alarms@
                &&& final(self).ringing_id == old(self).ringing_id
                &&& final(self).status == old(self).status
            },
            old(self).ringing_id != Some(id) && !no_alarm_with_id(old(self).store.alarms@, id)
                ==> exists|i: int|
                {
                    &&& first_with_id(old(self).store.alarms@, id, i)
                    &&& final(self).store.alarms@ == old(self).store.alarms@.update(
                        i,
                        rung(old(self).store.alarms@[i], now),
                    )
                    &&& r matches Some(ring) && ring.label@ == display_name_of(
                        old(self).store.alarms@[i].label@,
                    ) && match ring.sound {
                        Some(p) => chosen_sound(old(self).store.alarms@[i].sound_path@) == Some(p@),
                        None => chosen_sound(old(self).store.alarms@[i].sound_path@) is None,
                    }
                    &&& final(self).ringing_id == Some(id)
                    &&& final(self).status@ == "Ringing: "@ + display_name_of(
                        old(self).store.alarms@[i].label@,
                    )
                },
    {
        if self.ringing_id == Some(id) {
            return None;
        }
        match self.find_alarm(id) {
            None => None,
            Some(i) => {
                proof {
                    reveal_strlit("Ringing: ");
                }
                let label = self.store.alarms[i].display_name();
                let sound = if trim_str(self.store.alarms[i].sound_path.as_str()).unicode_len() == 0 {
                    None
                } else {
                    Some(self.store.alarms[i].sound_path.clone())
                };
                self.store.alarms[i].last_fired = Some(now);
                self.store.alarms[i].snooze_until = None;
                let mut status = String::from_str("Ringing: ");
                status.append(label.as_str());
                self.status = status;
                self.ringing_id = Some(id);
                Some(Ring { label, sound })
            },
        }
    }
}

} // verus!
