use vstd::prelude::*;

use crate::calendar::{
    local_day_of, local_occurrence, wall_clock_secs, weekday_of, weekday_of_spec, Moment,
    FIRST_DAY, LAST_DAY, SECS_PER_DAY,
};
use crate::model::{repeat_matches, Alarm, CATCH_UP_SECS};

verus! {

/// Whether an alarm that last rang at `last_fired` has rung at or after instant `t`.
pub open spec fn fired_since(last_fired: Option<Moment>, t: Moment) -> bool {
    last_fired matches Some(f) && f.stamp() >= t.stamp()
}

/// The earliest instant a due check at `now` may look back to.
pub open spec fn catch_up_start(now: Moment) -> Moment {
    Moment { secs: (now.secs - CATCH_UP_SECS) as i64, nanos: now.nanos }
}

/// The exclusive lower end of the window a due check looks at: the later of the previous
/// check and the catch-up limit.
pub open spec fn window_start(last_poll: Moment, now: Moment) -> Moment {
    if last_poll.stamp() > catch_up_start(now).stamp() {
        last_poll
    } else {
        catch_up_start(now)
    }
}

/// Whether instant `t` is due: not yet rung for, and in the window `(lo, now]`.
pub open spec fn is_due(a: Alarm, t: Moment, lo: Moment, now: Moment) -> bool {
    &&& !fired_since(a.last_fired, t)
    &&& lo.stamp() < t.stamp()
    &&& t.stamp() <= now.stamp()
}

/// What a pending snooze decides about a due check with window `(lo, now]`: no ringing while
/// it lies in the future, and ringing when it has not been rung for and lies in the window;
/// otherwise (no snooze, a snooze rung for already, or one left behind before the window)
/// nothing, and the schedule decides (`None`).
pub open spec fn snooze_verdict(a: Alarm, lo: Moment, now: Moment) -> Option<bool> {
    match a.snooze_until {
        None => None,
        Some(u) => if u.stamp() > now.stamp() {
            Some(false)
        } else if !fired_since(a.last_fired, u) && lo.stamp() < u.stamp() {
            Some(true)
        } else {
            None
        },
    }
}

/// Whether one of the scheduled occurrences is due in the window `(lo, now]`.
pub open spec fn due_among(a: Alarm, occs: Seq<Option<Moment>>, lo: Moment, now: Moment) -> bool {
    exists|i: int|
        0 <= i < occs.len() && #[trigger] occs[i] is Some && is_due(a, occs[i]->0, lo, now)
}

/// Whether a due check that ran last at `last_poll` and runs now at `now` rings alarm `a`,
/// given the alarm's scheduled occurrences on the days the check looks at.
pub open spec fn fires(a: Alarm, last_poll: Moment, now: Moment, occs: Seq<Option<Moment>>) -> bool {
    &&& a.enabled
    &&& last_poll.stamp() < now.stamp()
    &&& match snooze_verdict(a, window_start(last_poll, now), now) {
        Some(b) => b,
        None => due_among(a, occs, window_start(last_poll, now), now),
    }
}

/// The first occurrence that has not been rung for and lies after `now`.
pub open spec fn first_upcoming(occs: Seq<Option<Moment>>, last_fired: Option<Moment>, now: Moment) -> Option<Moment>
    decreases occs.len(),
{
    if occs.len() == 0 {
        None
    } else if occs[0] is Some && !fired_since(last_fired, occs[0]->0) && now.stamp()
        < occs[0]->0.stamp() {
        occs[0]
    } else {
        first_upcoming(occs.drop_first(), last_fired, now)
    }
}

/// When alarm `a` rings next after `now`, given its scheduled occurrences on the days ahead:
/// never when disabled, at a pending snooze when there is one, else at the first occurrence
/// after `now` that has not been rung for.
pub open spec fn next_ring(a: Alarm, now: Moment, occs: Seq<Option<Moment>>) -> Option<Moment> {
    if !a.enabled {
        None
    } else if a.snooze_until is Some && a.snooze_until->0.stamp() > now.stamp() {
        a.snooze_until
    } else {
        first_upcoming(occs, a.last_fired, now)
    }
}

/// What holds of the verdict `r` of a due check of alarm `a` that ran last at `last_poll`
/// and runs now at `now`, by the local clock: no ringing when the alarm is disabled or the
/// clock has not moved on; otherwise the verdict of `fires` for the occurrences the local
/// clock gave, which are plausible ones (see `plausible_occurrence`) on a run of days that
/// starts one or two days before the window's start and ends on the day of `now`, by UTC date
/// give or take a day.
pub open spec fn due_check(a: Alarm, last_poll: Moment, now: Moment, r: bool) -> bool {
    &&& !a.enabled ==> !r
    &&& now.stamp() <= last_poll.stamp() ==> !r
    &&& a.enabled && last_poll.stamp() < now.stamp() ==> exists|first: int, occs: Seq<Option<Moment>>|
        {
            &&& plausible_occurrences(a, first, occs)
            &&& window_start(last_poll, now).utc_day() - 2 <= first
            &&& first <= window_start(last_poll, now).utc_day()
            &&& now.utc_day() - 1 <= first + occs.len() - 1 <= now.utc_day() + 1
            &&& r == fires(a, last_poll, now, occs)
        }
}

/// What holds of the occurrence the local clock gives for alarm `a` on day `day`, in any time
/// zone: none on a day the repeat setting skips or for an invalid clock time; otherwise a
/// whole-second instant within a day of the same clock reading taken in UTC.
pub open spec fn plausible_occurrence(a: Alarm, day: int, occ: Option<Moment>) -> bool {
    &&& (!repeat_matches(a.repeat, weekday_of_spec(day)) || a.hour >= 24 || a.minute >= 60)
        ==> occ is None
    &&& occ matches Some(t) ==> {
        &&& t.nanos == 0
        &&& wall_clock_secs(day, a.hour as int, a.minute as int) - SECS_PER_DAY < t.secs
        &&& t.secs < wall_clock_secs(day, a.hour as int, a.minute as int) + SECS_PER_DAY
    }
}

/// `occs[i]` is a plausible occurrence of `a` on day `first + i`, for each `i`.
pub open spec fn plausible_occurrences(a: Alarm, first: int, occs: Seq<Option<Moment>>) -> bool {
    forall|i: int| 0 <= i < occs.len() ==> plausible_occurrence(a, first + i, #[trigger] occs[i])
}

/// Every instant in the sequence is well formed.
pub open spec fn all_wf(occs: Seq<Option<Moment>>) -> bool {
    forall|i: int| 0 <= i < occs.len() && #[trigger] occs[i] is Some ==> occs[i]->0.wf()
}

proof fn lemma_plausible_wf(a: Alarm, first: int, occs: Seq<Option<Moment>>)
    requires
        plausible_occurrences(a, first, occs),
    ensures
        all_wf(occs),
{
    assert forall|i: int| 0 <= i < occs.len() && #[trigger] occs[i] is Some implies occs[i]->0.wf() by {
        assert(plausible_occurrence(a, first + i, occs[i]));
    }
}

/// A disabled alarm never rings and has no next ringing time.
pub proof fn lemma_disabled_never_rings(a: Alarm, last_poll: Moment, now: Moment, occs: Seq<Option<Moment>>)
    requires
        !a.enabled,
    ensures
        !fires(a, last_poll, now, occs),
        next_ring(a, now, occs) is None,
{
}

/// A due check rings only for an instant that has not been rung for and that lies after the
/// previous check, within the catch-up limit, and at or before now: a due snooze time or one
/// of the scheduled occurrences.
pub proof fn lemma_fires_only_in_window(a: Alarm, last_poll: Moment, now: Moment, occs: Seq<Option<Moment>>)
    requires
        fires(a, last_poll, now, occs),
    ensures
        exists|t: Moment|
            {
                &&& last_poll.stamp() < t.stamp()
                &&& catch_up_start(now).stamp() < t.stamp()
                &&& t.stamp() <= now.stamp()
                &&& !fired_since(a.last_fired, t)
                &&& (a.snooze_until == Some(t) || occs.contains(Some(t)))
            },
{
    let lo = window_start(last_poll, now);
    match snooze_verdict(a, lo, now) {
        Some(b) => {
            let u = a.snooze_until->0;
            assert(is_due(a, u, lo, now));
        },
        None => {
            let i = choose|i: int| 0 <= i < occs.len() && #[trigger] occs[i] is Some && is_due(a, occs[i]->0, lo, now);
            let t = occs[i]->0;
            assert(occs[i] == Some(t));
            assert(occs.contains(Some(t)));
            assert(is_due(a, t, lo, now));
        },
    }
}

/// Once an alarm has rung at or after `now`, a due check at `now` does not ring it again,
/// whatever its schedule.
pub proof fn lemma_no_ring_after_firing(a: Alarm, last_poll: Moment, now: Moment, occs: Seq<Option<Moment>>)
    requires
        a.last_fired matches Some(f) && f.stamp() >= now.stamp(),
    ensures
        !fires(a, last_poll, now, occs),
{
    if fires(a, last_poll, now, occs) {
        lemma_fires_only_in_window(a, last_poll, now, occs);
    }
}

/// A snooze that lies in the future keeps the alarm quiet, and is when it rings next.
pub proof fn lemma_future_snooze(a: Alarm, last_poll: Moment, now: Moment, occs: Seq<Option<Moment>>)
    requires
        a.enabled,
        a.snooze_until matches Some(u) && u.stamp() > now.stamp(),
    ensures
        !fires(a, last_poll, now, occs),
        next_ring(a, now, occs) == a.snooze_until,
{
}

/// A snooze time that has not been rung for and falls in the window rings the alarm.
pub proof fn lemma_due_snooze_rings(a: Alarm, last_poll: Moment, now: Moment, occs: Seq<Option<Moment>>)
    requires
        a.enabled,
        last_poll.stamp() < now.stamp(),
        a.snooze_until matches Some(u) && is_due(a, u, window_start(last_poll, now), now),
    ensures
        fires(a, last_poll, now, occs),
{
}

/// A snooze that lies at or before the window's start (rung for or not) leaves the verdict to
/// the schedule: the alarm rings exactly when a scheduled occurrence is due.
pub proof fn lemma_stale_snooze_defers_to_schedule(
    a: Alarm,
    last_poll: Moment,
    now: Moment,
    occs: Seq<Option<Moment>>,
)
    requires
        a.snooze_until matches Some(u) && u.stamp() <= window_start(last_poll, now).stamp(),
        window_start(last_poll, now).stamp() <= now.stamp(),
    ensures
        fires(a, last_poll, now, occs) == (a.enabled && last_poll.stamp() < now.stamp()
            && due_among(a, occs, window_start(last_poll, now), now)),
{
}

/// Without a snooze, a scheduled occurrence that has not been rung for and falls in the
/// window rings the alarm.
pub proof fn lemma_due_occurrence_rings(
    a: Alarm,
    last_poll: Moment,
    now: Moment,
    occs: Seq<Option<Moment>>,
    i: int,
)
    requires
        a.enabled,
        last_poll.stamp() < now.stamp(),
        a.snooze_until is None,
        0 <= i < occs.len(),
        occs[i] matches Some(t) && is_due(a, t, window_start(last_poll, now), now),
    ensures
        fires(a, last_poll, now, occs),
{
    assert(occs[i] is Some);
}

proof fn lemma_first_upcoming_stays(
    occs: Seq<Option<Moment>>,
    last_fired: Option<Moment>,
    t: Moment,
    t2: Moment,
    s: Moment,
)
    requires
        first_upcoming(occs, last_fired, t) == Some(s),
        t.stamp() <= t2.stamp() < s.stamp(),
    ensures
        first_upcoming(occs, last_fired, t2) == Some(s),
    decreases occs.len(),
{
    if occs.len() > 0 {
        if occs[0] is Some && !fired_since(last_fired, occs[0]->0) && t.stamp() < occs[0]->0.stamp() {
        } else {
            lemma_first_upcoming_stays(occs.drop_first(), last_fired, t, t2, s);
        }
    }
}

/// The announced next ringing time stays put until it is reached: a later look, before that
/// time, at the same occurrences announces the same time.
pub proof fn lemma_next_ring_stays(a: Alarm, t: Moment, t2: Moment, occs: Seq<Option<Moment>>, s: Moment)
    requires
        next_ring(a, t, occs) == Some(s),
        t.stamp() <= t2.stamp() < s.stamp(),
    ensures
        next_ring(a, t2, occs) == Some(s),
{
    if !(a.snooze_until is Some && a.snooze_until->0.stamp() > t.stamp()) {
        lemma_first_upcoming_stays(occs, a.last_fired, t, t2, s);
    }
}

/// The time announced as the next ringing is the time the alarm rings: when the alarm has
/// not rung since `t0`, a due check at `t1` that follows one at `t0` within the catch-up
/// limit, and whose occurrences include the announced time (or that time is the snooze),
/// rings the alarm once the announced time lies in `(t0, t1]`.
pub proof fn lemma_announced_time_rings(
    a: Alarm,
    t0: Moment,
    t1: Moment,
    occs_next: Seq<Option<Moment>>,
    occs_check: Seq<Option<Moment>>,
    s: Moment,
)
    requires
        t0.wf(),
        t1.in_range(),
        next_ring(a, t0, occs_next) == Some(s),
        t0.stamp() < s.stamp() <= t1.stamp(),
        t1.stamp() - t0.stamp() <= CATCH_UP_SECS * 1_000_000_000,
        a.last_fired matches Some(f) ==> f.stamp() <= t0.stamp(),
        a.snooze_until == Some(s) || occs_check.contains(Some(s)),
    ensures
        fires(a, t0, t1, occs_check),
{
    let lo = window_start(t0, t1);
    assert(catch_up_start(t1).stamp() == t1.stamp() - CATCH_UP_SECS * 1_000_000_000);
    assert(lo.stamp() == t0.stamp());
    assert(!fired_since(a.last_fired, s));
    if snooze_verdict(a, lo, t1) is None && a.snooze_until != Some(s) {
        let i = choose|i: int| 0 <= i < occs_check.len() && occs_check[i] == Some(s);
        assert(occs_check[i] is Some && is_due(a, occs_check[i]->0, lo, t1));
    }
}

proof fn lemma_first_upcoming_after(occs: Seq<Option<Moment>>, last_fired: Option<Moment>, now: Moment)
    requires
        all_wf(occs),
    ensures
        first_upcoming(occs, last_fired, now) matches Some(t) ==> t.wf() && now.stamp() < t.stamp(),
    decreases occs.len(),
{
    if occs.len() > 0 {
        assert(occs[0] is Some ==> occs[0]->0.wf());
        let rest = occs.drop_first();
        assert forall|i: int| 0 <= i < rest.len() && #[trigger] rest[i] is Some implies rest[i]->0.wf() by {
            assert(rest[i] == occs[i + 1]);
        }
        lemma_first_upcoming_after(rest, last_fired, now);
    }
}

/// Whenever an alarm is to ring next, that instant lies after `now`.
pub proof fn lemma_next_ring_after(a: Alarm, now: Moment, occs: Seq<Option<Moment>>)
    requires
        a.wf(),
        all_wf(occs),
    ensures
        next_ring(a, now, occs) matches Some(t) ==> t.wf() && now.stamp() < t.stamp(),
{
    lemma_first_upcoming_after(occs, a.last_fired, now);
}

proof fn lemma_first_upcoming_unrung(occs: Seq<Option<Moment>>, last_fired: Option<Moment>, now: Moment)
    ensures
        first_upcoming(occs, last_fired, now) matches Some(t) ==> !fired_since(last_fired, t)
            && occs.contains(Some(t)),
    decreases occs.len(),
{
    if occs.len() > 0 {
        let rest = occs.drop_first();
        lemma_first_upcoming_unrung(rest, last_fired, now);
        if first_upcoming(occs, last_fired, now) != first_upcoming(rest, last_fired, now) {
            assert(occs[0] == first_upcoming(occs, last_fired, now));
        } else if first_upcoming(rest, last_fired, now) is Some {
            let t = first_upcoming(rest, last_fired, now)->0;
            let j = choose|j: int| 0 <= j < rest.len() && rest[j] == Some(t);
            assert(occs[j + 1] == Some(t));
        }
    }
}

/// Without a pending snooze, the next ringing time is one of the scheduled occurrences that
/// has not been rung for: an occurrence already rung for is skipped.
pub proof fn lemma_next_ring_unrung(a: Alarm, now: Moment, occs: Seq<Option<Moment>>)
    requires
        !(a.snooze_until matches Some(u) && u.stamp() > now.stamp()),
    ensures
        next_ring(a, now, occs) matches Some(t) ==> !fired_since(a.last_fired, t) && occs.contains(
            Some(t),
        ),
{
    lemma_first_upcoming_unrung(occs, a.last_fired, now);
}

impl Alarm {
    /// When the alarm rings on day `day` by the local clock: `None` when the repeat setting
    /// skips that day's weekday, when the clock time is invalid, or when the local clock skips
    /// that reading; the earlier instant when the reading happens twice.
    pub fn occurrence_on(&self, day: i32) -> (r: Option<Moment>)
        requires
            FIRST_DAY <= day <= LAST_DAY,
        ensures
            plausible_occurrence(*self, day as int, r),
    {
        if !self.repeat.matches(weekday_of(day)) {
            return None;
        }
        if self.hour >= 24 || self.minute >= 60 {
            return None;
        }
        local_occurrence(day, self.hour, self.minute)
    }

    /// The window's lower end for a due check at `now` after one at `last_poll`.
    fn window_start_exec(last_poll: Moment, now: Moment) -> (r: Moment)
        requires
            last_poll.wf(),
            now.wf(),
            now.secs - CATCH_UP_SECS >= i64::MIN,
        ensures
            r == window_start(last_poll, now),
            r.wf(),
    {
        let grace_start = now.minus_seconds(CATCH_UP_SECS);
        if grace_start.is_before(last_poll) {
            last_poll
        } else {
            grace_start
        }
    }

    /// What a pending snooze decides about a due check with window `(lo, now]`.
    fn snooze_decision(&self, lo: Moment, now: Moment) -> (r: Option<bool>)
        requires
            self.wf(),
            lo.wf(),
            now.wf(),
        ensures
            r == snooze_verdict(*self, lo, now),
    {
        match self.snooze_until {
            None => None,
            Some(until) => {
                if now.is_before(until) {
                    return Some(false);
                }
                let already = match self.last_fired {
                    Some(fired) => until.is_at_or_before(fired),
                    None => false,
                };
                if !already && lo.is_before(until) {
                    Some(true)
                } else {
                    // Rung for already, or left behind before the window: the schedule decides.
                    None
                }
            },
        }
    }

    /// Whether the alarm has rung at or after instant `t`.
    fn has_fired_since(&self, t: Moment) -> (r: bool)
        requires
            self.wf(),
            t.wf(),
        ensures
            r == fired_since(self.last_fired, t),
    {
        match self.last_fired {
            Some(fired) => t.is_at_or_before(fired),
            None => false,
        }
    }

    /// Whether a due check that ran last at `last_poll` and runs now at `now` rings this
    /// alarm, given its scheduled occurrences on the days the check looks at.
    pub fn fires_among(&self, last_poll: Moment, now: Moment, occurrences: &Vec<Option<Moment>>) -> (r: bool)
        requires
            self.wf(),
            last_poll.wf(),
            now.wf(),
            now.secs - CATCH_UP_SECS >= i64::MIN,
            all_wf(occurrences@),
        ensures
            r == fires(*self, last_poll, now, occurrences@),
    {
        if !self.enabled {
            return false;
        }
        if now.is_at_or_before(last_poll) {
            return false;
        }
        let lo = Self::window_start_exec(last_poll, now);
        match self.snooze_decision(lo, now) {
            Some(b) => {
                return b;
            },
            None => {},
        }
        let n = occurrences.len();
        let mut i: usize = 0;
        while i < n
            invariant
                n == occurrences@.len(),
                i <= n,
                self.wf(),
                lo.wf(),
                now.wf(),
                all_wf(occurrences@),
                self.enabled,
                last_poll.stamp() < now.stamp(),
                lo == window_start(last_poll, now),
                snooze_verdict(*self, lo, now) is None,
                forall|k: int|
                    0 <= k < i && #[trigger] occurrences@[k] is Some ==> !is_due(
                        *self,
                        occurrences@[k]->0,
                        lo,
                        now,
                    ),
            decreases n - i,
        {
            match occurrences[i] {
                Some(scheduled) => {
                    assert(occurrences@[i as int] is Some);
                    let already = self.has_fired_since(scheduled);
                    if !already && lo.is_before(scheduled) && scheduled.is_at_or_before(now) {
                        assert(is_due(*self, occurrences@[i as int]->0, lo, now));
                        return true;
                    }
                },
                None => {},
            }
            i = i + 1;
        }
        false
    }

    /// The scheduled occurrences on days `first` to `last`, by the local clock.
    fn occurrences_between(&self, first: i32, last: i32) -> (v: Vec<Option<Moment>>)
        requires
            FIRST_DAY <= first,
            last <= LAST_DAY,
        ensures
            plausible_occurrences(*self, first as int, v@),
            v@.len() == if last >= first { last - first + 1 } else { 0 },
    {
        let mut v: Vec<Option<Moment>> = Vec::new();
        let mut day = first;
        while day <= last
            invariant
                FIRST_DAY <= first <= day,
                last <= LAST_DAY,
                day <= last + 1 || day == first,
                v@.len() == day - first,
                plausible_occurrences(*self, first as int, v@),
            decreases last + 1 - day,
        {
            let occ = self.occurrence_on(day);
            let ghost before = v@;
            v.push(occ);
            proof {
                assert forall|i: int| 0 <= i < v@.len() implies plausible_occurrence(
                    *self,
                    first + i,
                    #[trigger] v@[i],
                ) by {
                    if i < v@.len() - 1 {
                        assert(v@[i] == before[i]);
                    }
                }
            }
            day = day + 1;
        }
        v
    }

    /// True when a scheduled (or snooze) time falls in `(last_poll, now]` and within the
    /// catch-up limit, by the local clock. The scheduled times depend on the machine's time
    /// zone; the contract states the verdict for the occurrences the local clock gave, which
    /// are plausible ones (see `plausible_occurrence`) on a run of days that starts one or two
    /// days before the window's start and ends on the day of `now`, by UTC date give or take a
    /// day. `fires_among` states the verdict for any given occurrences.
    pub fn should_fire(&self, last_poll: Moment, now: Moment) -> (r: bool)
        requires
            self.wf(),
            last_poll.wf(),
            now.wf(),
            self.enabled && last_poll.stamp() < now.stamp() ==> now.in_range(),
        ensures
            due_check(*self, last_poll, now, r),
    {
        if !self.enabled {
            return false;
        }
        if now.is_at_or_before(last_poll) {
            return false;
        }
        let lo = Self::window_start_exec(last_poll, now);
        proof {
            assert(now.secs - CATCH_UP_SECS <= lo.secs <= now.secs);
            assert(now.utc_day() - 1 <= lo.utc_day() <= now.utc_day());
        }
        match self.snooze_decision(lo, now) {
            Some(b) => {
                proof {
                    let first = lo.utc_day() - 1;
                    let occs = Seq::new((now.utc_day() - first + 1) as nat, |i: int| None::<Moment>);
                    assert(plausible_occurrences(*self, first, occs));
                    assert(b == fires(*self, last_poll, now, occs));
                }
                return b;
            },
            None => {},
        }
        let start = local_day_of(lo) - 1;
        let end = local_day_of(now);
        let occurrences = self.occurrences_between(start, end);
        proof {
            lemma_plausible_wf(*self, start as int, occurrences@);
        }
        let r = self.fires_among(last_poll, now, &occurrences);
        proof {
            assert(start + occurrences@.len() - 1 == end);
        }
        r
    }

    /// When the alarm rings next after `now`, given its scheduled occurrences on the days
    /// ahead: never when disabled, at a pending snooze, else at the first occurrence after
    /// `now` that has not been rung for.
    pub fn upcoming_among(&self, now: Moment, occurrences: &Vec<Option<Moment>>) -> (r: Option<Moment>)
        requires
            self.wf(),
            now.wf(),
            all_wf(occurrences@),
        ensures
            r == next_ring(*self, now, occurrences@),
    {
        if !self.enabled {
            return None;
        }
        if let Some(until) = self.snooze_until {
            if now.is_before(until) {
                return Some(until);
            }
        }
        let n = occurrences.len();
        let mut i: usize = 0;
        proof {
            assert(occurrences@.subrange(0, n as int) =~= occurrences@);
        }
        while i < n
            invariant
                n == occurrences@.len(),
                i <= n,
                self.wf(),
                now.wf(),
                all_wf(occurrences@),
                next_ring(*self, now, occurrences@) == first_upcoming(
                    occurrences@,
                    self.last_fired,
                    now,
                ),
                first_upcoming(occurrences@, self.last_fired, now) == first_upcoming(
                    occurrences@.subrange(i as int, n as int),
                    self.last_fired,
                    now,
                ),
            decreases n - i,
        {
            let ghost rest = occurrences@.subrange(i as int, n as int);
            proof {
                assert(rest[0] == occurrences@[i as int]);
                assert(rest.drop_first() =~= occurrences@.subrange(i + 1, n as int));
            }
            match occurrences[i] {
                Some(candidate) => {
                    assert(occurrences@[i as int] is Some);
                    let already = self.has_fired_since(candidate);
                    if !already && now.is_before(candidate) {
                        return Some(candidate);
                    }
                },
                None => {},
            }
            i = i + 1;
        }
        proof {
            assert(occurrences@.subrange(n as int, n as int).len() == 0);
        }
        None
    }

    /// Next time this alarm should ring, if enabled: a pending snooze, or the first
    /// scheduled time after `now` in the coming eight local days that has not been rung for.
    /// The scheduled times depend on the machine's time zone; the contract states the answer
    /// for the occurrences the local clock gave, which are plausible ones (see
    /// `plausible_occurrence`) on eight days starting with the day of `now`, by UTC date give
    /// or take a day. `upcoming_among` states the answer for any given occurrences.
    pub fn next_trigger(&self, now: Moment) -> (r: Option<Moment>)
        requires
            self.wf(),
            now.wf(),
            self.enabled && !(self.snooze_until matches Some(u) && u.stamp() > now.stamp())
                ==> now.in_week_range(),
        ensures
            !self.enabled ==> r is None,
            self.enabled && (self.snooze_until matches Some(u) && u.stamp() > now.stamp()) ==> r
                == self.snooze_until,
            r matches Some(t) ==> t.wf() && now.stamp() < t.stamp(),
            exists|first: int, occs: Seq<Option<Moment>>|
                {
                    &&& plausible_occurrences(*self, first, occs)
                    &&& occs.len() == 8
                    &&& now.utc_day() - 1 <= first <= now.utc_day() + 1
                    &&& r == next_ring(*self, now, occs)
                },
    {
        if !self.enabled || (self.snooze_until.is_some() && now.is_before(
            self.snooze_until.unwrap(),
        )) {
            proof {
                let occs = Seq::new(8, |i: int| None::<Moment>);
                assert(plausible_occurrences(*self, now.utc_day(), occs));
            }
            return if !self.enabled {
                None
            } else {
                self.snooze_until
            };
        }
        let today = local_day_of(now);
        let occurrences = self.occurrences_between(today, today + 7);
        proof {
            lemma_plausible_wf(*self, today as int, occurrences@);
        }
        let r = self.upcoming_among(now, &occurrences);
        proof {
            lemma_next_ring_after(*self, now, occurrences@);
        }
        r
    }
}

} // verus!
