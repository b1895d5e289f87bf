use vstd::prelude::*;

use crate::model::Alarm;

verus! {

/// The sort key of an alarm: its clock time, hour first, then minute.
pub open spec fn time_key(a: Alarm) -> int {
    a.hour as int * 0x1_0000_0000 + a.minute as int
}

/// Whether an alarm's clock time has sort key `k`.
pub open spec fn at_time(k: int) -> spec_fn(Alarm) -> bool {
    |a: Alarm| time_key(a) == k
}

/// The alarms are in order of clock time.
pub open spec fn sorted_by_time(s: Seq<Alarm>) -> bool {
    forall|i: int, j: int| 0 <= i < j < s.len() ==> time_key(s[i]) <= time_key(s[j])
}

/// `r` is `s` sorted by clock time, alarms with the same clock time keeping their order: the
/// result is in order, and for each clock time it holds the same alarms in the same order.
pub open spec fn stably_sorted_by_time(s: Seq<Alarm>, r: Seq<Alarm>) -> bool {
    &&& sorted_by_time(r)
    &&& forall|k: int| #[trigger] r.filter(at_time(k)) == s.filter(at_time(k))
}

/// No two alarms share an identifier.
pub open spec fn unique_ids(s: Seq<Alarm>) -> bool {
    forall|i: int, j: int| 0 <= i < j < s.len() ==> s[i].id != s[j].id
}

/// Each alarm of `out` is one of the first `n` alarms of `v`.
pub open spec fn drawn_from(out: Seq<Alarm>, v: Seq<Alarm>, n: int) -> bool {
    forall|p: int| 0 <= p < out.len() ==> exists|k: int| 0 <= k < n && #[trigger] out[p] == v[k]
}

/// Sorting keeps the alarms it was given: each alarm of the result is one of them.
pub proof fn lemma_sorted_members(s: Seq<Alarm>, r: Seq<Alarm>, i: int)
    requires
        stably_sorted_by_time(s, r),
        0 <= i < r.len(),
    ensures
        s.contains(r[i]),
{
    let k = time_key(r[i]);
    r.lemma_filter_contains(at_time(k), i);
    assert(r.filter(at_time(k)) == s.filter(at_time(k)));
    s.lemma_filter_contains_rev(at_time(k), r[i]);
}

proof fn lemma_filter_none(s: Seq<Alarm>, f: spec_fn(Alarm) -> bool)
    requires
        forall|j: int| 0 <= j < s.len() ==> !f(#[trigger] s[j]),
    ensures
        s.filter(f) == Seq::<Alarm>::empty(),
    decreases s.len(),
{
    reveal(Seq::filter);
    if s.len() > 0 {
        let t = s.drop_last();
        assert forall|j: int| 0 <= j < t.len() implies !f(#[trigger] t[j]) by {
            assert(t[j] == s[j]);
        }
        lemma_filter_none(t, f);
        assert(!f(s[s.len() - 1]));
    }
}

proof fn lemma_filter_single(x: Alarm, f: spec_fn(Alarm) -> bool)
    ensures
        seq![x].filter(f) == (if f(x) { seq![x] } else { Seq::<Alarm>::empty() }),
{
    reveal_with_fuel(Seq::filter, 2);
    assert(seq![x].drop_last() =~= Seq::<Alarm>::empty());
}

/// Inserting `x` after the alarms at or before its time and before the later ones extends
/// exactly the run of alarms at its time.
proof fn lemma_insert_filter(t: Seq<Alarm>, p: int, x: Alarm, k: int)
    requires
        0 <= p <= t.len(),
        forall|j: int| p <= j < t.len() ==> time_key(#[trigger] t[j]) > time_key(x),
    ensures
        (t.take(p) + seq![x] + t.skip(p)).filter(at_time(k)) == (if time_key(x) == k {
            t.filter(at_time(k)).push(x)
        } else {
            t.filter(at_time(k))
        }),
{
    let f = at_time(k);
    broadcast use Seq::filter_distributes_over_add;

    assert(t =~= t.take(p) + t.skip(p));
    assert((t.take(p) + t.skip(p)).filter(f) == t.take(p).filter(f) + t.skip(p).filter(f));
    assert((t.take(p) + seq![x] + t.skip(p)).filter(f) == (t.take(p) + seq![x]).filter(f) + t.skip(
        p,
    ).filter(f));
    assert((t.take(p) + seq![x]).filter(f) == t.take(p).filter(f) + seq![x].filter(f));
    lemma_filter_single(x, f);
    if time_key(x) == k {
        let u = t.skip(p);
        assert forall|j: int| 0 <= j < u.len() implies !f(#[trigger] u[j]) by {
            assert(u[j] == t[p + j]);
        }
        lemma_filter_none(u, f);
        assert(t.filter(f) =~= t.take(p).filter(f));
        assert((t.take(p) + seq![x] + t.skip(p)).filter(f) =~= t.filter(f).push(x));
    } else {
        assert((t.take(p) + seq![x] + t.skip(p)).filter(f) =~= t.filter(f));
    }
}

/// The first position in the sorted `t` holding a later clock time than `x`.
fn insertion_point(t: &Vec<Alarm>, x: &Alarm) -> (p: usize)
    requires
        sorted_by_time(t@),
    ensures
        p <= t@.len(),
        forall|j: int| 0 <= j < p ==> time_key(#[trigger] t@[j]) <= time_key(*x),
        forall|j: int| p <= j < t@.len() ==> time_key(#[trigger] t@[j]) > time_key(*x),
{
    let n = t.len();
    let mut p: usize = 0;
    while p < n && (t[p].hour < x.hour || (t[p].hour == x.hour && t[p].minute <= x.minute))
        invariant
            n == t@.len(),
            p <= n,
            sorted_by_time(t@),
            forall|j: int| 0 <= j < p ==> time_key(#[trigger] t@[j]) <= time_key(*x),
        decreases n - p,
    {
        p = p + 1;
    }
    proof {
        if p < n {
            assert(time_key(t@[p as int]) > time_key(*x));
            assert forall|j: int| p <= j < t@.len() implies time_key(#[trigger] t@[j]) > time_key(
                *x,
            ) by {
                assert(time_key(t@[p as int]) <= time_key(t@[j]));
            }
        }
    }
    p
}

/// The alarms sorted by clock time, alarms with the same clock time keeping their order.
pub fn sort_by_time(v: &Vec<Alarm>) -> (r: Vec<Alarm>)
    ensures
        stably_sorted_by_time(v@, r@),
        drawn_from(r@, v@, v@.len() as int),
        unique_ids(v@) ==> unique_ids(r@),
{
    let n = v.len();
    let mut out: Vec<Alarm> = Vec::new();
    let mut i: usize = 0;
    proof {
        reveal(Seq::filter);
        assert(v@.take(0) =~= Seq::<Alarm>::empty());
        assert forall|k: int| #[trigger] out@.filter(at_time(k)) == v@.take(0).filter(at_time(k)) by {}
    }
    while i < n
        invariant
            n == v@.len(),
            i <= n,
            sorted_by_time(out@),
            forall|k: int| #[trigger] out@.filter(at_time(k)) == v@.take(i as int).filter(at_time(k)),
            drawn_from(out@, v@, i as int),
            unique_ids(v@) ==> unique_ids(out@),
        decreases n - i,
    {
        let x = v[i].copy();
        let p = insertion_point(&out, &x);
        let ghost before = out@;
        out.insert(p, x);
        proof {
            assert(out@ =~= before.take(p as int) + seq![x] + before.skip(p as int));
            assert forall|a: int, b: int| 0 <= a < b < out@.len() implies time_key(out@[a])
                <= time_key(out@[b]) by {
                if b < p {
                } else if b == p {
                } else if a < p {
                    assert(time_key(out@[a]) <= time_key(x));
                    assert(time_key(out@[b]) > time_key(x));
                } else if a == p {
                    assert(out@[b] == before[b - 1]);
                } else {
                    assert(out@[a] == before[a - 1]);
                    assert(out@[b] == before[b - 1]);
                }
            }
            assert forall|q: int| 0 <= q < out@.len() implies exists|k: int|
                0 <= k < i + 1 && #[trigger] out@[q] == v@[k] by {
                if q < p {
                    assert(out@[q] == before[q]);
                } else if q == p {
                    assert(out@[q] == v@[i as int]);
                } else {
                    assert(out@[q] == before[q - 1]);
                }
            }
            if unique_ids(v@) {
                assert forall|a: int, b: int| 0 <= a < b < out@.len() implies out@[a].id
                    != out@[b].id by {
                    if a != p && b != p {
                        let a0 = if a < p { a } else { a - 1 };
                        let b0 = if b < p { b } else { b - 1 };
                        assert(out@[a] == before[a0]);
                        assert(out@[b] == before[b0]);
                    } else {
                        let q = if a == p { b } else { a };
                        let q0 = if q < p { q } else { q - 1 };
                        assert(out@[q] == before[q0]);
                        let k = choose|k: int| 0 <= k < i && #[trigger] before[q0] == v@[k];
                        assert(v@[k].id != v@[i as int].id);
                    }
                }
            }
            assert(v@.take(i + 1) =~= v@.take(i as int) + seq![x]);
            assert forall|k: int| #[trigger] out@.filter(at_time(k)) == v@.take(i + 1).filter(
                at_time(k),
            ) by {
                lemma_insert_filter(before, p as int, x, k);
                Seq::filter_distributes_over_add(v@.take(i as int), seq![x], at_time(k));
                lemma_filter_single(x, at_time(k));
                if time_key(x) == k {
                    assert(v@.take(i as int).filter(at_time(k)) + seq![x] =~= v@.take(
                        i as int,
                    ).filter(at_time(k)).push(x));
                } else {
                    assert(v@.take(i as int).filter(at_time(k)) + Seq::<Alarm>::empty() =~= v@.take(
                        i as int,
                    ).filter(at_time(k)));
                }
            }
        }
        i = i + 1;
    }
    proof {
        assert(v@.take(n as int) =~= v@);
    }
    out
}

} // verus!
