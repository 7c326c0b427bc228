//! Placement of the merged boundaries of the unwind extractor.
//!
//! [`crate::unwind::merge_boundaries`] collapses each maximal run of
//! consecutive entries with one canonical start into a single boundary.
//! This module states where each boundary comes from, for runs embedded
//! anywhere in a table: boundary number k is the k-th run, and it spans
//! the run's own first start and last end.

use crate::unwind::{lemma_merge_boundaries_len, merge_boundaries, BoundaryEntry};
use vstd::prelude::*;

verus! {

/// `i` starts a run: it is the first entry, or its canonical start
/// differs from its predecessor's.
pub open spec fn is_run_start(entries: Seq<BoundaryEntry>, i: int) -> bool {
    0 <= i < entries.len() && (i == 0 || entries[i - 1].canonical_start != entries[
        i
    ].canonical_start)
}

/// `j` ends a run: it is the last entry, or its canonical start differs
/// from its successor's.
pub open spec fn is_run_end(entries: Seq<BoundaryEntry>, j: int) -> bool {
    0 <= j < entries.len() && (j == entries.len() - 1 || entries[j].canonical_start != entries[
        j + 1
    ].canonical_start)
}

/// The number of run starts among the first `i` entries.
pub open spec fn runs_before(entries: Seq<BoundaryEntry>, i: int) -> int
    decreases i,
{
    if i <= 0 {
        0
    } else {
        runs_before(entries, i - 1) + if is_run_start(entries, i - 1) {
            1int
        } else {
            0int
        }
    }
}

/// One step of the run count.
proof fn lemma_runs_before_step(entries: Seq<BoundaryEntry>, i: int)
    requires
        i >= 0,
    ensures
        runs_before(entries, i + 1) == runs_before(entries, i) + if is_run_start(entries, i) {
            1int
        } else {
            0int
        },
{
}

/// Dropping the last entry changes neither whether a proper-prefix index
/// starts a run nor the run count of a proper prefix.
proof fn lemma_runs_before_prefix(entries: Seq<BoundaryEntry>, i: int)
    requires
        entries.len() >= 1,
        0 <= i <= entries.len() - 1,
    ensures
        runs_before(entries.drop_last(), i) == runs_before(entries, i),
        forall|t: int|
            0 <= t < entries.len() - 1 ==> is_run_start(entries.drop_last(), t)
                == #[trigger] is_run_start(entries, t),
    decreases i,
{
    let prev = entries.drop_last();
    assert forall|t: int|
        0 <= t < entries.len() - 1 implies is_run_start(prev, t) == #[trigger] is_run_start(
        entries,
        t,
    ) by {
        assert(prev[t] == entries[t]);
        if t > 0 {
            assert(prev[t - 1] == entries[t - 1]);
        }
    }
    if i > 0 {
        lemma_runs_before_prefix(entries, i - 1);
        lemma_runs_before_step(entries, i - 1);
        lemma_runs_before_step(prev, i - 1);
    }
}

/// The run count never decreases along the table.
proof fn lemma_runs_before_mono(entries: Seq<BoundaryEntry>, i: int, j: int)
    requires
        0 <= i <= j,
    ensures
        runs_before(entries, i) <= runs_before(entries, j),
    decreases j - i,
{
    if i < j {
        lemma_runs_before_mono(entries, i, j - 1);
        lemma_runs_before_step(entries, j - 1);
    }
}

/// The run count is constant over a stretch without run starts.
proof fn lemma_runs_before_flat(entries: Seq<BoundaryEntry>, a: int, b: int)
    requires
        0 <= a <= b,
        forall|t: int| a <= t < b ==> !is_run_start(entries, t),
    ensures
        runs_before(entries, b) == runs_before(entries, a),
    decreases b - a,
{
    if a < b {
        lemma_runs_before_flat(entries, a, b - 1);
        lemma_runs_before_step(entries, b - 1);
        assert(!is_run_start(entries, b - 1));
    }
}

/// Where each merged boundary comes from: the merged list holds exactly
/// one pair per run of equal canonical starts; the pair of the run whose
/// first entry is `i` carries that entry's own start, and the pair of
/// the run whose last entry is `j` carries that entry's own end.
#[verifier::spinoff_prover]
pub proof fn lemma_merge_boundaries_runs(entries: Seq<BoundaryEntry>)
    ensures
        merge_boundaries(entries).len() == runs_before(entries, entries.len() as int),
        forall|i: int| #[trigger] is_run_start(entries, i) ==> merge_boundaries(entries)[
            runs_before(entries, i)
        ].0 == entries[i].start,
        forall|j: int| #[trigger] is_run_end(entries, j) ==> merge_boundaries(entries)[
            runs_before(entries, j + 1) - 1
        ].1 == entries[j].end,
    decreases entries.len(),
{
    let n = entries.len() as int;
    let m = merge_boundaries(entries);
    if n == 0 {
    } else if n == 1 {
        assert(runs_before(entries, 0) == 0);
        assert(is_run_start(entries, 0));
        lemma_runs_before_step(entries, 0);
    } else {
        let prev = entries.drop_last();
        lemma_merge_boundaries_runs(prev);
        lemma_merge_boundaries_len(prev);
        let pm = merge_boundaries(prev);
        let last = entries.last();
        lemma_runs_before_prefix(entries, n - 1);
        lemma_runs_before_step(entries, n - 1);
        assert(pm.len() == runs_before(prev, n - 1));
        assert(runs_before(prev, n - 1) == runs_before(entries, n - 1));
        if last.canonical_start == entries[n - 2].canonical_start {
            assert(m == pm.update(pm.len() - 1, (pm.last().0, last.end)));
            assert(!is_run_start(entries, n - 1));
            assert(m.len() == runs_before(entries, n));
            assert forall|i: int| #[trigger] is_run_start(entries, i) implies m[runs_before(
                entries,
                i,
            )].0 == entries[i].start by {
                assert(i < n - 1);
                assert(prev[i] == entries[i]);
                if i > 0 {
                    assert(prev[i - 1] == entries[i - 1]);
                }
                assert(is_run_start(prev, i));
                lemma_runs_before_prefix(entries, i);
                let k = runs_before(prev, i);
                lemma_runs_before_mono(prev, 0, i);
                assert(k >= 0);
                assert(pm[k].0 == prev[i].start);
                lemma_runs_before_step(prev, i);
                lemma_runs_before_mono(prev, i + 1, n - 1);
                assert(k < pm.len());
                assert(m[k].0 == pm[k].0);
            }
            assert forall|j: int| #[trigger] is_run_end(entries, j) implies m[runs_before(
                entries,
                j + 1,
            ) - 1].1 == entries[j].end by {
                if j == n - 1 {
                    assert(m[pm.len() - 1].1 == last.end);
                } else {
                    assert(j < n - 2);
                    assert(prev[j] == entries[j]);
                    assert(prev[j + 1] == entries[j + 1]);
                    assert(is_run_end(prev, j));
                    lemma_runs_before_prefix(entries, j + 1);
                    let k = runs_before(prev, j + 1) - 1;
                    assert(is_run_start(prev, 0));
                    lemma_runs_before_step(prev, 0);
                    lemma_runs_before_mono(prev, 1, j + 1);
                    assert(k >= 0);
                    assert(pm[k].1 == prev[j].end);
                    assert(is_run_start(prev, j + 1));
                    lemma_runs_before_step(prev, j + 1);
                    lemma_runs_before_mono(prev, j + 2, n - 1);
                    assert(k < pm.len() - 1);
                    assert(m[k].1 == pm[k].1);
                }
            }
        } else {
            assert(m == pm.push((last.start, last.end)));
            assert(is_run_start(entries, n - 1));
            assert(m.len() == runs_before(entries, n));
            assert forall|i: int| #[trigger] is_run_start(entries, i) implies m[runs_before(
                entries,
                i,
            )].0 == entries[i].start by {
                if i < n - 1 {
                    assert(prev[i] == entries[i]);
                    if i > 0 {
                        assert(prev[i - 1] == entries[i - 1]);
                    }
                    assert(is_run_start(prev, i));
                    lemma_runs_before_prefix(entries, i);
                    let k = runs_before(prev, i);
                    lemma_runs_before_mono(prev, 0, i);
                    assert(k >= 0);
                    assert(pm[k].0 == prev[i].start);
                    lemma_runs_before_step(prev, i);
                    lemma_runs_before_mono(prev, i + 1, n - 1);
                    assert(k < pm.len());
                    assert(m[k].0 == pm[k].0);
                } else {
                    assert(m[pm.len() as int].0 == last.start);
                }
            }
            assert forall|j: int| #[trigger] is_run_end(entries, j) implies m[runs_before(
                entries,
                j + 1,
            ) - 1].1 == entries[j].end by {
                if j == n - 1 {
                    assert(m[pm.len() as int].1 == last.end);
                } else {
                    assert(prev[j] == entries[j]);
                    if j < n - 2 {
                        assert(prev[j + 1] == entries[j + 1]);
                    }
                    assert(is_run_end(prev, j));
                    lemma_runs_before_prefix(entries, j + 1);
                    let k = runs_before(prev, j + 1) - 1;
                    assert(is_run_start(prev, 0));
                    lemma_runs_before_step(prev, 0);
                    lemma_runs_before_mono(prev, 1, j + 1);
                    assert(k >= 0);
                    assert(pm[k].1 == prev[j].end);
                    lemma_runs_before_mono(prev, j + 1, n - 1);
                    assert(0 <= k < pm.len());
                    assert(m[k].1 == pm[k].1);
                }
            }
        }
    }
}

/// Law: a maximal run of consecutive records that resolve to one
/// canonical start emits exactly one boundary, spanning the run's first
/// own start and last own end — also when the run is embedded anywhere
/// in a longer table. The boundary's position is the number of runs
/// before it.
#[verifier::spinoff_prover]
pub proof fn lemma_run_emits_one_boundary(entries: Seq<BoundaryEntry>, i: int, j: int)
    requires
        0 <= i <= j < entries.len(),
        forall|t: int| i <= t <= j ==> #[trigger] entries[t].canonical_start == entries[
            i
        ].canonical_start,
        is_run_start(entries, i),
        is_run_end(entries, j),
    ensures
        ({
            let k = runs_before(entries, i);
            &&& 0 <= k < merge_boundaries(entries).len()
            &&& merge_boundaries(entries)[k].0 == entries[i].start
            &&& merge_boundaries(entries)[k].1 == entries[j].end
        }),
{
    lemma_merge_boundaries_runs(entries);
    assert forall|t: int| i + 1 <= t < j + 1 implies !is_run_start(entries, t) by {
        assert(entries[t].canonical_start == entries[i].canonical_start);
        assert(entries[t - 1].canonical_start == entries[i].canonical_start);
    }
    lemma_runs_before_flat(entries, i + 1, j + 1);
    lemma_runs_before_step(entries, i);
    lemma_runs_before_mono(entries, i, i);
    lemma_runs_before_mono(entries, j + 1, entries.len() as int);
    assert(runs_before(entries, j + 1) == runs_before(entries, i) + 1);
    assert(runs_before(entries, i) >= 0) by {
        lemma_runs_before_mono(entries, 0, i);
    }
}

} // verus!
