//! Frecency scoring and ranking.
//!
//! A record's score blends visit frequency, deliberately typed visits and
//! recency decay.  The weights of the design are 0.80 per visit, 0.10 per
//! typed visit and -0.10 per day of age; scores here are kept in tenths of
//! a point, so every score is an exact integer (`8*visits + typed - age`)
//! and recomputing it is bit-identical by construction.

use vstd::prelude::*;
use vstd::multiset::Multiset;

use crate::browser::HistoryEntry;

verus! {

/// Seconds per day, the unit of recency decay.
pub const SECONDS_PER_DAY: u64 = 86400;

/// The ranked output never holds more than this many records.
pub const RANK_LIMIT: usize = 11;

/// Whole days elapsed between `last_visit` and `now`, truncated toward
/// zero; a visit stamped in the future counts as age 0 (clock-skew
/// tolerance).
pub open spec fn age_days_spec(now: int, last_visit: int) -> int {
    if last_visit > now {
        0
    } else {
        (now - last_visit) / (SECONDS_PER_DAY as int)
    }
}

/// Frecency score in tenths of a point.  A record with no recorded visits
/// or no typed visits scores exactly 0 (a policy exclusion, not a clamped
/// computation); otherwise the weighted blend is clamped at 0 from below.
pub open spec fn score_tenths_spec(visit_count: int, typed_count: int, age_days: int) -> int {
    if visit_count <= 0 || typed_count <= 0 {
        0
    } else {
        let s = 8 * visit_count + typed_count - age_days;
        if s <= 0 {
            0
        } else {
            s
        }
    }
}

/// The score of one record against wall-clock time `now`: a pure function
/// of the record's counts and timestamp alone.
pub open spec fn entry_score(e: HistoryEntry, now: int) -> int {
    score_tenths_spec(
        e.visit_count as int,
        e.typed_count as int,
        age_days_spec(now, e.last_visit_time as int),
    )
}

/// Whole days between `last_visit` and `now`, 0 when the visit is in the
/// future.
pub fn age_days(now: u64, last_visit: i64) -> (r: u64)
    ensures
        r == age_days_spec(now as int, last_visit as int),
        last_visit > now ==> r == 0,
{
    let n: i128 = now as i128;
    let l: i128 = last_visit as i128;
    if l > n {
        0
    } else {
        let diff: i128 = n - l;
        let days: i128 = diff / (SECONDS_PER_DAY as i128);
        proof {
            vstd::arithmetic::div_mod::lemma_div_is_ordered_by_denominator(
                diff as int,
                1,
                SECONDS_PER_DAY as int,
            );
        }
        days as u64
    }
}

/// The frecency score of `entry` at time `now`, in tenths of a point.
pub fn calculate_frecency(entry: &HistoryEntry, now: u64) -> (r: i128)
    ensures
        r == entry_score(*entry, now as int),
        entry.visit_count <= 0 || entry.typed_count <= 0 ==> r == 0,
        r >= 0,
{
    let age: u64 = age_days(now, entry.last_visit_time);
    if entry.visit_count <= 0 || entry.typed_count <= 0 {
        0
    } else {
        let s: i128 = 8 * (entry.visit_count as i128) + (entry.typed_count as i128)
            - (age as i128);
        if s <= 0 {
            0
        } else {
            s
        }
    }
}

/// A record whose counts are non-positive scores exactly 0, whatever its
/// age: such records are excluded from ranking consideration entirely.
pub proof fn lemma_nonpositive_counts_score_zero(visit_count: int, typed_count: int, age_days: int)
    requires
        visit_count <= 0 || typed_count <= 0,
    ensures
        score_tenths_spec(visit_count, typed_count, age_days) == 0,
{
}

/// A record with no recorded visits or no typed visits cannot stand in a
/// ranked output: it scores exactly 0, and every ranked record scores
/// positively — which is what [`rank`] ensures of everything it returns.
pub proof fn lemma_nonpositive_counts_excluded(out: Seq<HistoryEntry>, e: HistoryEntry, now: int)
    requires
        forall|i: int| 0 <= i < out.len() ==> entry_score(#[trigger] out[i], now) > 0,
        e.visit_count <= 0 || e.typed_count <= 0,
    ensures
        forall|i: int| 0 <= i < out.len() ==> out[i] != e,
{
    assert(entry_score(e, now) == 0);
}

/// Scoring is pure: two records that agree on the three fields the score
/// reads (visit count, typed count, last visit time) score identically at
/// the same `now`, whatever their other fields hold.
pub proof fn lemma_score_pure(e1: HistoryEntry, e2: HistoryEntry, now: int)
    requires
        e1.visit_count == e2.visit_count,
        e1.typed_count == e2.typed_count,
        e1.last_visit_time == e2.last_visit_time,
    ensures
        entry_score(e1, now) == entry_score(e2, now),
{
}

/// No record at an earlier position scores less than one at a later
/// position.
pub open spec fn sorted_desc(s: Seq<HistoryEntry>, now: int) -> bool {
    forall|i: int, j: int|
        0 <= i <= j < s.len() ==> entry_score(s[i], now) >= entry_score(s[j], now)
}

/// The records of `s` that qualify for ranking — positive score at `now` —
/// in their original order.
pub open spec fn qualifying(s: Seq<HistoryEntry>, now: int) -> Seq<HistoryEntry>
    decreases s.len(),
{
    if s.len() == 0 {
        Seq::empty()
    } else {
        let rest = qualifying(s.drop_last(), now);
        if entry_score(s.last(), now) > 0 {
            rest.push(s.last())
        } else {
            rest
        }
    }
}

/// Every qualifying record scores positively, and qualifying takes no
/// record more often than the input holds it.
proof fn lemma_qualifying_facts(s: Seq<HistoryEntry>, now: int)
    ensures
        forall|i: int|
            0 <= i < qualifying(s, now).len() ==> entry_score(
                #[trigger] qualifying(s, now)[i],
                now,
            ) > 0,
        forall|x: HistoryEntry|
            #[trigger] qualifying(s, now).to_multiset().count(x) <= s.to_multiset().count(x),
    decreases s.len(),
{
    broadcast use vstd::seq_lib::group_to_multiset_ensures;
    broadcast use vstd::multiset::group_multiset_axioms;

    let q = qualifying(s, now);
    if s.len() == 0 {
        assert(q.to_multiset() =~= Multiset::empty());
        assert(s.to_multiset() =~= Multiset::empty());
    } else {
        let prefix = s.drop_last();
        let rest = qualifying(prefix, now);
        lemma_qualifying_facts(prefix, now);
        assert(prefix.push(s.last()) =~= s);
        assert(prefix.push(s.last()).to_multiset() == s.to_multiset());
        assert(s.to_multiset() == prefix.to_multiset().insert(s.last()));
        if entry_score(s.last(), now) > 0 {
            assert(q == rest.push(s.last()));
            assert(q.to_multiset() == rest.to_multiset().insert(s.last()));
            assert forall|i: int| 0 <= i < q.len() implies entry_score(
                #[trigger] q[i],
                now,
            ) > 0 by {
                if i < rest.len() {
                    assert(q[i] == rest[i]);
                } else {
                    assert(q[i] == s.last());
                }
            }
        } else {
            assert(q == rest);
        }
        assert forall|x: HistoryEntry| #[trigger]
            q.to_multiset().count(x) <= s.to_multiset().count(x) by {
            assert(rest.to_multiset().count(x) <= prefix.to_multiset().count(x));
        }
    }
}

/// Insertion sort by descending score.  The comparison shifts a record
/// only past strictly lower-scored ones, so records with equal scores keep
/// their relative (input) order.
fn sort_desc_by_score(entries: Vec<HistoryEntry>, now: u64) -> (r: Vec<HistoryEntry>)
    ensures
        r@.len() == entries@.len(),
        r@.to_multiset() == entries@.to_multiset(),
        sorted_desc(r@, now as int),
{
    broadcast use vstd::seq_lib::group_to_multiset_ensures;
    broadcast use vstd::multiset::group_multiset_axioms;

    let mut v = entries;
    if v.len() <= 1 {
        return v;
    }
    let mut i: usize = 1;
    while i < v.len()
        invariant
            1 <= i <= v@.len(),
            v@.len() == entries@.len(),
            v@.to_multiset() == entries@.to_multiset(),
            sorted_desc(v@.take(i as int), now as int),
        decreases v@.len() - i,
    {
        let ghost full = v@;
        let e = v.remove(i);
        let ghost before = v@;
        proof {
            assert(before.take(i as int) =~= full.take(i as int));
            assert(full[i as int] == e);
            assert(full.contains(e));
            vstd::seq_lib::to_multiset_contains(full, e);
            assert(full.to_multiset().count(e) > 0);
            vstd::seq_lib::to_multiset_remove(full, i as int);
        }
        let mut j: usize = i;
        while j > 0 && calculate_frecency(&v[j - 1], now) < calculate_frecency(&e, now)
            invariant
                j <= i,
                i < full.len(),
                v@ == before,
                before.len() + 1 == full.len(),
                forall|k: int|
                    j <= k < i ==> entry_score(#[trigger] before[k], now as int) < entry_score(
                        e,
                        now as int,
                    ),
            decreases j,
        {
            j = j - 1;
        }
        v.insert(j, e);
        proof {
            let w = v@;
            let n: int = now as int;
            assert(w =~= before.take(j as int) + seq![e] + before.skip(j as int));
            assert forall|a: int, b: int| 0 <= a <= b < i + 1 implies entry_score(
                #[trigger] w[a],
                n,
            ) >= entry_score(#[trigger] w[b], n) by {
                assert(forall|x: int| 0 <= x < j ==> #[trigger] w[x] == before[x]);
                assert(w[j as int] == e);
                assert(forall|x: int|
                    j < x <= before.len() ==> #[trigger] w[x] == before[x - 1]);
                assert(forall|x: int, y: int|
                    0 <= x <= y < i ==> entry_score(#[trigger] before[x], n) >= entry_score(
                        #[trigger] before[y],
                        n,
                    ));
                if j > 0 {
                    assert(entry_score(before[j - 1], n) >= entry_score(e, n));
                }
            }
            assert(sorted_desc(w.take(i + 1), n));
            vstd::seq_lib::to_multiset_insert(before, j as int, e);
            assert(w.to_multiset() == before.to_multiset().insert(e));
            assert(before.to_multiset() == full.to_multiset().remove(e));
            assert(full.to_multiset().remove(e).insert(e) =~= full.to_multiset());
        }
        i = i + 1;
    }
    proof {
        assert(v@.take(v@.len() as int) =~= v@);
    }
    v
}

/// Ranks a collection of records at time `now`: records scoring 0 are
/// discarded, the rest are sorted by score descending, and the output is
/// truncated to [`RANK_LIMIT`] records.  Ties keep their input
/// (collation) order: the sort is stable.
///
/// The contract pins the output down: it is exactly `RANK_LIMIT` records
/// or every qualifying record, whichever is fewer; it is sorted; every
/// output record qualifies and is drawn from the input (no record more
/// often than the input holds it); when nothing is cut, the output is a
/// permutation of the qualifying records; and every qualifying record
/// that was cut scores no more than the last record kept.
pub fn rank(entries: Vec<HistoryEntry>, now: u64) -> (r: Vec<HistoryEntry>)
    ensures
        r@.len() == (if qualifying(entries@, now as int).len() < RANK_LIMIT {
            qualifying(entries@, now as int).len() as int
        } else {
            RANK_LIMIT as int
        }),
        sorted_desc(r@, now as int),
        forall|i: int| 0 <= i < r@.len() ==> entry_score(#[trigger] r@[i], now as int) > 0,
        forall|x: HistoryEntry|
            #[trigger] r@.to_multiset().count(x) <= entries@.to_multiset().count(x),
        qualifying(entries@, now as int).len() <= RANK_LIMIT ==> r@.to_multiset() == qualifying(
            entries@,
            now as int,
        ).to_multiset(),
        forall|x: HistoryEntry|
            qualifying(entries@, now as int).to_multiset().count(x) > #[trigger] r@.to_multiset()
                .count(x) ==> entry_score(x, now as int) <= entry_score(
                r@[r@.len() - 1],
                now as int,
            ),
{
    broadcast use vstd::seq_lib::group_to_multiset_ensures;
    broadcast use vstd::multiset::group_multiset_axioms;

    let ghost orig = entries@;
    let ghost n: int = now as int;
    let mut pending = entries;
    let mut kept: Vec<HistoryEntry> = Vec::new();
    while pending.len() > 0
        invariant
            pending@.len() <= orig.len(),
            pending@ == orig.skip(orig.len() - pending@.len()),
            kept@ == qualifying(orig.take(orig.len() - pending@.len()), n),
            n == now as int,
        decreases pending@.len(),
    {
        let ghost k: int = orig.len() - pending@.len();
        let e = pending.remove(0);
        proof {
            assert(e == orig[k]);
            assert(pending@ =~= orig.skip(k + 1));
            let t1 = orig.take(k + 1);
            assert(t1.drop_last() =~= orig.take(k as int));
            assert(t1.last() == orig[k]);
        }
        let score: i128 = calculate_frecency(&e, now);
        if score > 0 {
            kept.push(e);
        }
    }
    proof {
        assert(orig.take(orig.len() as int) =~= orig);
        assert(kept@ == qualifying(orig, n));
        lemma_qualifying_facts(orig, n);
    }
    let sorted = sort_desc_by_score(kept, now);
    let mut r = sorted;
    if r.len() > RANK_LIMIT {
        r.truncate(RANK_LIMIT);
        proof {
            let q = qualifying(orig, n);
            let s = sorted@;
            assert(r@ == s.subrange(0, RANK_LIMIT as int));
            assert(s =~= r@ + s.skip(RANK_LIMIT as int));
            vstd::seq_lib::lemma_multiset_commutative(r@, s.skip(RANK_LIMIT as int));
            assert forall|x: HistoryEntry|
                q.to_multiset().count(x) > #[trigger] r@.to_multiset().count(x) implies entry_score(
                x,
                n,
            ) <= entry_score(r@[r@.len() - 1], n) by {
                let rest = s.skip(RANK_LIMIT as int);
                assert(rest.to_multiset().count(x) > 0);
                assert(rest.contains(x));
                let idx = choose|idx: int| 0 <= idx < rest.len() && rest[idx] == x;
                assert(s[RANK_LIMIT + idx] == x);
                assert(entry_score(s[RANK_LIMIT + idx], n) <= entry_score(
                    s[RANK_LIMIT - 1],
                    n,
                ));
                assert(r@[r@.len() - 1] == s[RANK_LIMIT - 1]);
            }
            assert forall|i: int| 0 <= i < r@.len() implies entry_score(
                #[trigger] r@[i],
                n,
            ) > 0 by {
                assert(r@[i] == s[i]);
                assert(s.to_multiset().count(s[i]) > 0);
                assert(q.to_multiset().count(s[i]) > 0);
                assert(q.contains(s[i]));
            }
        }
    }
    proof {
        let q = qualifying(orig, n);
        assert forall|i: int| 0 <= i < r@.len() implies entry_score(#[trigger] r@[i], n) > 0 by {
            if r@.len() == sorted@.len() {
                assert(r@[i] == sorted@[i]);
                assert(sorted@.to_multiset().count(sorted@[i]) > 0);
                assert(q.to_multiset().count(sorted@[i]) > 0);
                assert(q.contains(sorted@[i]));
            }
        }
        assert forall|x: HistoryEntry|
            #[trigger] r@.to_multiset().count(x) <= orig.to_multiset().count(x) by {
            if r@.len() < sorted@.len() {
                assert(r@.to_multiset().count(x) <= sorted@.to_multiset().count(x));
            }
        }
    }
    r
}

} // verus!
