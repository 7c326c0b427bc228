//! Function boundaries from exception-unwind metadata.
//!
//! The unwind table of a PE image is a dense array of fixed-size records
//! `{begin, end, unwind-info address}`. A record may chain to a parent
//! record (the compiler folded identical function bodies); following the
//! chain yields a canonical start address. Consecutive records that resolve
//! to the same canonical start are merged into one boundary spanning the
//! first record's own start to the last record's own end.

use vstd::bytes::{spec_u32_from_le_bytes, u32_from_le_bytes};
use vstd::prelude::*;
use vstd::seq_lib::group_seq_properties;
use vstd::set_lib::{lemma_int_range, lemma_len_subset, set_int_range};
use vstd::slice::slice_subrange;

verus! {

/// One decoded unwind-table record.
#[derive(Clone, Copy, Debug, PartialEq, Eq, Structural)]
pub struct UnwindRecord {
    pub begin: u32,
    pub end: u32,
    pub unwind_info: u32,
}

/// A record together with the canonical start its chain resolves to.
#[derive(Clone, Copy, Debug, PartialEq, Eq, Structural)]
pub struct BoundaryEntry {
    pub start: u32,
    pub end: u32,
    pub canonical_start: u32,
}

/// The `i`-th record of a table of 12-byte little-endian triplets.
pub open spec fn record_at(table: Seq<u8>, i: int) -> UnwindRecord {
    UnwindRecord {
        begin: spec_u32_from_le_bytes(table.subrange(12 * i, 12 * i + 4)),
        end: spec_u32_from_le_bytes(table.subrange(12 * i + 4, 12 * i + 8)),
        unwind_info: spec_u32_from_le_bytes(table.subrange(12 * i + 8, 12 * i + 12)),
    }
}

/// What the unwind info record at address `unwind_rva` in `image` chains
/// to: the parent runtime-function triple, or `None` when the record cannot
/// be dereferenced, does not parse, or declares no chained parent. The
/// result is a function of the image bytes and the address alone.
pub uninterp spec fn chain_link_of(image: Seq<u8>, unwind_rva: u32) -> Option<UnwindRecord>;

/// Relies on `object::read::pe::PeFile64::parse`, `SectionTable::pe_data_at`
/// and `pe_unwind_info::x86_64::UnwindInfo::parse`/`trailer`: dereferences
/// the unwind info at `unwind_rva` and returns its chained parent record,
/// if any. Every failure (image or record unparseable, address outside all
/// sections, no chain trailer) is `None`, matching `chain_link_of`.
#[verifier::external_body]
fn chained_unwind_link(image: &[u8], unwind_rva: u32) -> (r: Option<UnwindRecord>)
    ensures
        r == chain_link_of(image@, unwind_rva),
{
    let file = object::read::pe::PeFile64::parse(image).ok()?;
    let data = file.section_table().pe_data_at(image, unwind_rva)?;
    let info = pe_unwind_info::x86_64::UnwindInfo::parse(data)?;
    match info.trailer() {
        Some(pe_unwind_info::x86_64::UnwindInfoTrailer::ChainedUnwindInfo { chained }) => Some(
            UnwindRecord {
                begin: chained.begin_address.get(),
                end: chained.end_address.get(),
                unwind_info: chained.unwind_info_address.get(),
            },
        ),
        _ => None,
    }
}

/// Follow the chain from `cur`, treating a link address that was already
/// followed (`seen`) as chain termination, with at most `fuel` steps.
/// With fuel `0x1_0000_0000` the fuel can never run out before a repeated
/// address does, so this defines the canonical start exactly.
pub open spec fn follow_chain(image: Seq<u8>, cur: UnwindRecord, seen: Seq<u32>, fuel: nat) -> u32
    decreases fuel,
{
    if fuel == 0 {
        cur.begin
    } else if seen.contains(cur.unwind_info) {
        cur.begin
    } else {
        match chain_link_of(image, cur.unwind_info) {
            None => cur.begin,
            Some(parent) => follow_chain(
                image,
                parent,
                seen.push(cur.unwind_info),
                (fuel - 1) as nat,
            ),
        }
    }
}

/// The canonical start address of the function `rec` belongs to.
pub open spec fn canonical_start_of(image: Seq<u8>, rec: UnwindRecord) -> u32 {
    follow_chain(image, rec, Seq::empty(), 0x1_0000_0000nat)
}

/// A sequence of distinct `u32` values cannot be longer than the number of
/// `u32` values.
proof fn lemma_distinct_u32_len_bound(seen: Seq<u32>)
    requires
        seen.no_duplicates(),
    ensures
        seen.len() <= 0x1_0000_0000,
{
    broadcast use group_seq_properties;

    let f = |v: u32| v as int;
    let ints = seen.map_values(f);
    seen.lemma_no_duplicates_injective(f);
    ints.unique_seq_to_set();
    let r = set_int_range(0, 0x1_0000_0000);
    lemma_int_range(0, 0x1_0000_0000);
    assert forall|x: int| ints.to_set().contains(x) implies r.contains(x) by {
        let i = choose|i: int| 0 <= i < ints.len() && ints[i] == x;
        assert(0 <= seen[i] <= 0xffff_ffffu32);
    }
    lemma_len_subset(ints.to_set(), r);
}

/// Whether `x` occurs in `v`.
fn contains_u32(v: &Vec<u32>, x: u32) -> (r: bool)
    ensures
        r == v@.contains(x),
{
    let mut i: usize = 0;
    while i < v.len()
        invariant
            i <= v@.len(),
            forall|j: int| 0 <= j < i ==> v@[j] != x,
        decreases v@.len() - i,
    {
        if v[i] == x {
            return true;
        }
        i = i + 1;
    }
    false
}

/// Resolve the canonical start of `rec` by following its chain of unwind
/// records through `image`. A repeated link address terminates the chain,
/// so malformed (cyclic) chains cannot loop forever.
pub fn resolve_canonical_start(image: &[u8], rec: UnwindRecord) -> (r: u32)
    ensures
        r == canonical_start_of(image@, rec),
{
    let mut cur = rec;
    let mut seen: Vec<u32> = Vec::new();
    loop
        invariant
            seen@.no_duplicates(),
            seen@.len() <= 0x1_0000_0000,
            follow_chain(image@, cur, seen@, (0x1_0000_0000 - seen@.len()) as nat)
                == canonical_start_of(image@, rec),
        decreases 0x1_0000_0000 - seen@.len(),
    {
        if contains_u32(&seen, cur.unwind_info) {
            return cur.begin;
        }
        proof {
            let x = cur.unwind_info;
            let pushed = seen@.push(x);
            assert forall|i: int, j: int|
                0 <= i < pushed.len() && 0 <= j < pushed.len() && i != j implies pushed[i]
                != pushed[j] by {
                if i < seen@.len() && seen@[i] == x {
                    assert(seen@.contains(x));
                }
                if j < seen@.len() && seen@[j] == x {
                    assert(seen@.contains(x));
                }
            }
            assert(pushed.no_duplicates());
            lemma_distinct_u32_len_bound(pushed);
            assert(seen@.len() < 0x1_0000_0000);
        }
        match chained_unwind_link(image, cur.unwind_info) {
            None => {
                return cur.begin;
            },
            Some(parent) => {
                let ghost old_seen = seen@;
                seen.push(cur.unwind_info);
                proof {
                    assert(seen@ == old_seen.push(cur.unwind_info));
                }
                cur = parent;
            },
        }
    }
}

/// Decode the raw unwind table into records. Rejects a table whose length
/// is not a multiple of the record size instead of dropping a partial
/// trailing record.
pub fn parse_unwind_table(table: &Vec<u8>) -> (r: Option<Vec<UnwindRecord>>)
    ensures
        match r {
            Some(v) => table@.len() % 12 == 0 && v@.len() == table@.len() / 12 && forall|i: int|
                0 <= i < v@.len() ==> v@[i] == record_at(table@, i),
            None => table@.len() % 12 != 0,
        },
{
    let n = table.len();
    if n % 12 != 0 {
        return None;
    }
    let mut v: Vec<UnwindRecord> = Vec::new();
    let mut off: usize = 0;
    while n - off >= 12
        invariant
            off <= n,
            n == table@.len(),
            n % 12 == 0,
            off == 12 * v@.len(),
            forall|i: int| 0 <= i < v@.len() ==> v@[i] == record_at(table@, i),
        decreases n - off,
    {
        let begin = u32_from_le_bytes(slice_subrange(table.as_slice(), off, off + 4));
        let end = u32_from_le_bytes(slice_subrange(table.as_slice(), off + 4, off + 8));
        let unwind_info = u32_from_le_bytes(slice_subrange(table.as_slice(), off + 8, off + 12));
        let ghost k = v@.len() as int;
        v.push(UnwindRecord { begin, end, unwind_info });
        proof {
            assert(table@.subrange(off as int, off + 4) =~= table@.subrange(12 * k, 12 * k + 4));
            assert(table@.subrange(off + 4, off + 8) =~= table@.subrange(12 * k + 4, 12 * k + 8));
            assert(table@.subrange(off + 8, off + 12) =~= table@.subrange(
                12 * k + 8,
                12 * k + 12,
            ));
        }
        off = off + 12;
    }
    proof {
        assert(n - off < 12 && off <= n && off % 12 == 0 && n % 12 == 0) by {
            assert(off == 12 * v@.len());
            assert(off % 12 == 0) by (nonlinear_arith)
                requires
                    off == 12 * v@.len(),
            ;
        }
        assert(off == n) by (nonlinear_arith)
            requires
                n - off < 12,
                off <= n,
                off % 12 == 0,
                n % 12 == 0,
        ;
        assert(v@.len() == n / 12) by (nonlinear_arith)
            requires
                n == 12 * v@.len(),
        ;
    }
    Some(v)
}

/// Merge consecutive entries that share a canonical start: each maximal run
/// of equal canonical starts becomes one `(start, end)` boundary, taking the
/// run's first own start and last own end.
pub open spec fn merge_boundaries(entries: Seq<BoundaryEntry>) -> Seq<(u32, u32)>
    decreases entries.len(),
{
    if entries.len() == 0 {
        Seq::empty()
    } else if entries.len() == 1 {
        seq![(entries[0].start, entries[0].end)]
    } else {
        let prev = merge_boundaries(entries.drop_last());
        let last = entries.last();
        if last.canonical_start == entries[entries.len() - 2].canonical_start {
            prev.update(prev.len() - 1, (prev.last().0, last.end))
        } else {
            prev.push((last.start, last.end))
        }
    }
}

/// Merging never produces more boundaries than entries, and at least one
/// boundary per nonempty input.
pub proof fn lemma_merge_boundaries_len(entries: Seq<BoundaryEntry>)
    ensures
        merge_boundaries(entries).len() <= entries.len(),
        entries.len() > 0 ==> merge_boundaries(entries).len() >= 1,
    decreases entries.len(),
{
    if entries.len() > 1 {
        lemma_merge_boundaries_len(entries.drop_last());
    }
}

/// Group consecutive entries by canonical start and emit the merged
/// boundaries as two parallel vectors of start and end addresses.
pub fn group_function_boundaries(entries: &Vec<BoundaryEntry>) -> (r: (Vec<u32>, Vec<u32>))
    ensures
        r.0@.len() == merge_boundaries(entries@).len(),
        r.1@.len() == merge_boundaries(entries@).len(),
        forall|i: int|
            0 <= i < r.0@.len() ==> r.0@[i] == #[trigger] merge_boundaries(entries@)[i].0
                && r.1@[i] == merge_boundaries(entries@)[i].1,
{
    let mut starts: Vec<u32> = Vec::new();
    let mut ends: Vec<u32> = Vec::new();
    let mut i: usize = 0;
    while i < entries.len()
        invariant
            i <= entries@.len(),
            starts@.len() == merge_boundaries(entries@.take(i as int)).len(),
            ends@.len() == merge_boundaries(entries@.take(i as int)).len(),
            forall|j: int|
                0 <= j < starts@.len() ==> starts@[j] == #[trigger] merge_boundaries(
                    entries@.take(i as int),
                )[j].0 && ends@[j] == merge_boundaries(entries@.take(i as int))[j].1,
        decreases entries@.len() - i,
    {
        let e = entries[i];
        proof {
            assert(entries@.take(i + 1).drop_last() =~= entries@.take(i as int));
            assert(entries@.take(i + 1).last() == entries@[i as int]);
            lemma_merge_boundaries_len(entries@.take(i as int));
        }
        if i == 0 {
            starts.push(e.start);
            ends.push(e.end);
        } else if e.canonical_start == entries[i - 1].canonical_start {
            proof {
                assert(entries@.take(i + 1)[i - 1] == entries@[i - 1]);
            }
            let last_idx = ends.len() - 1;
            ends.set(last_idx, e.end);
        } else {
            starts.push(e.start);
            ends.push(e.end);
        }
        i = i + 1;
    }
    proof {
        assert(entries@.take(i as int) =~= entries@);
        assert forall|j: int| 0 <= j < starts@.len() implies starts@[j]
            == #[trigger] merge_boundaries(entries@)[j].0 && ends@[j] == merge_boundaries(
            entries@,
        )[j].1 by {
            assert(starts@[j] == merge_boundaries(entries@.take(i as int))[j].0);
        }
    }
    (starts, ends)
}

/// The decoded entries of a table, each with its resolved canonical start.
pub open spec fn resolved_entries(image: Seq<u8>, table: Seq<u8>) -> Seq<BoundaryEntry> {
    Seq::new(
        (table.len() / 12) as nat,
        |i: int|
            BoundaryEntry {
                start: record_at(table, i).begin,
                end: record_at(table, i).end,
                canonical_start: canonical_start_of(image, record_at(table, i)),
            },
    )
}

/// Derive function `(start, end)` boundaries from the raw unwind table of
/// `image`: decode the records, resolve each record's chain to a canonical
/// start, and merge consecutive records with equal canonical starts.
/// Rejects a table whose length is not a multiple of the record size.
pub fn function_start_and_end_addresses(image: &[u8], table: &Vec<u8>) -> (r: Option<
    (Vec<u32>, Vec<u32>),
>)
    ensures
        match r {
            Some((starts, ends)) => {
                let merged = merge_boundaries(resolved_entries(image@, table@));
                &&& table@.len() % 12 == 0
                &&& starts@.len() == merged.len()
                &&& ends@.len() == merged.len()
                &&& forall|i: int|
                    0 <= i < merged.len() ==> starts@[i] == #[trigger] merged[i].0 && ends@[i]
                        == merged[i].1
            },
            None => table@.len() % 12 != 0,
        },
{
    let records = match parse_unwind_table(table) {
        Some(v) => v,
        None => {
            return None;
        },
    };
    let mut entries: Vec<BoundaryEntry> = Vec::new();
    let mut i: usize = 0;
    while i < records.len()
        invariant
            i <= records@.len(),
            records@.len() == table@.len() / 12,
            table@.len() % 12 == 0,
            forall|j: int| 0 <= j < records@.len() ==> records@[j] == record_at(table@, j),
            entries@.len() == i,
            forall|j: int|
                0 <= j < i ==> entries@[j] == #[trigger] resolved_entries(image@, table@)[j],
        decreases records@.len() - i,
    {
        let rec = records[i];
        let canonical_start = resolve_canonical_start(image, rec);
        entries.push(BoundaryEntry { start: rec.begin, end: rec.end, canonical_start });
        i = i + 1;
    }
    proof {
        assert(entries@ =~= resolved_entries(image@, table@));
    }
    Some(group_function_boundaries(&entries))
}


/// Law: consecutive records that all resolve to one canonical start merge
/// into exactly one boundary, spanning the first record's own start and the
/// last record's own end.
pub proof fn lemma_same_canonical_merges_to_one(entries: Seq<BoundaryEntry>)
    requires
        entries.len() >= 1,
        forall|i: int|
            0 <= i < entries.len() ==> #[trigger] entries[i].canonical_start
                == entries[0].canonical_start,
    ensures
        merge_boundaries(entries) =~= seq![
            (entries[0].start, entries[entries.len() - 1].end),
        ],
    decreases entries.len(),
{
    if entries.len() > 1 {
        lemma_same_canonical_merges_to_one(entries.drop_last());
        lemma_merge_boundaries_len(entries.drop_last());
    }
}

/// Law: records whose adjacent canonical starts all differ never merge:
/// each record yields its own boundary, unchanged.
pub proof fn lemma_distinct_canonical_never_merges(entries: Seq<BoundaryEntry>)
    requires
        forall|i: int|
            0 <= i < entries.len() - 1 ==> #[trigger] entries[i].canonical_start != entries[
                i + 1
            ].canonical_start,
    ensures
        merge_boundaries(entries).len() == entries.len(),
        forall|i: int|
            0 <= i < entries.len() ==> #[trigger] merge_boundaries(entries)[i] == (
                entries[i].start,
                entries[i].end,
            ),
    decreases entries.len(),
{
    if entries.len() > 1 {
        let prev = entries.drop_last();
        assert forall|i: int| 0 <= i < prev.len() - 1 implies #[trigger] prev[i].canonical_start
            != prev[i + 1].canonical_start by {
            assert(prev[i] == entries[i]);
            assert(prev[i + 1] == entries[i + 1]);
        }
        lemma_distinct_canonical_never_merges(prev);
        assert(entries.last().canonical_start != entries[entries.len() - 2].canonical_start);
    }
}

} // verus!
