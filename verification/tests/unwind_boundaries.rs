use samply_symbols::unwind::{
    function_start_and_end_addresses, group_function_boundaries, parse_unwind_table,
    resolve_canonical_start, BoundaryEntry, UnwindRecord,
};

fn record_bytes(begin: u32, end: u32, unwind_info: u32) -> Vec<u8> {
    let mut v = Vec::new();
    v.extend_from_slice(&begin.to_le_bytes());
    v.extend_from_slice(&end.to_le_bytes());
    v.extend_from_slice(&unwind_info.to_le_bytes());
    v
}

#[test]
fn decodes_little_endian_records() {
    let mut table = record_bytes(0x1000, 0x1010, 0x5000);
    table.extend(record_bytes(0x1010, 0x1020, 0x5008));
    let records = parse_unwind_table(&table).unwrap();
    assert_eq!(records.len(), 2);
    assert_eq!(records[0], UnwindRecord { begin: 0x1000, end: 0x1010, unwind_info: 0x5000 });
    assert_eq!(records[1], UnwindRecord { begin: 0x1010, end: 0x1020, unwind_info: 0x5008 });
}

#[test]
fn rejects_partial_trailing_record() {
    let mut table = record_bytes(0x1000, 0x1010, 0x5000);
    table.push(0xff);
    assert!(parse_unwind_table(&table).is_none());
    assert!(parse_unwind_table(&vec![0u8; 11]).is_none());
    assert_eq!(parse_unwind_table(&Vec::new()).unwrap().len(), 0);
}

#[test]
fn consecutive_same_canonical_start_merges_to_one_boundary() {
    let entries = vec![
        BoundaryEntry { start: 0x1000, end: 0x1010, canonical_start: 0x1000 },
        BoundaryEntry { start: 0x1010, end: 0x1024, canonical_start: 0x1000 },
    ];
    let (starts, ends) = group_function_boundaries(&entries);
    assert_eq!(starts, vec![0x1000]);
    assert_eq!(ends, vec![0x1024]);
}

#[test]
fn distinct_canonical_starts_never_merge() {
    let entries = vec![
        BoundaryEntry { start: 0x1000, end: 0x1010, canonical_start: 0x1000 },
        BoundaryEntry { start: 0x2000, end: 0x2010, canonical_start: 0x2000 },
        BoundaryEntry { start: 0x3000, end: 0x3010, canonical_start: 0x3000 },
    ];
    let (starts, ends) = group_function_boundaries(&entries);
    assert_eq!(starts, vec![0x1000, 0x2000, 0x3000]);
    assert_eq!(ends, vec![0x1010, 0x2010, 0x3010]);
}

#[test]
fn grouping_is_consecutive_only() {
    // The same canonical start, interrupted by a different one, starts a
    // new boundary: grouping never reorders or joins across a break.
    let entries = vec![
        BoundaryEntry { start: 0x1000, end: 0x1010, canonical_start: 0x1000 },
        BoundaryEntry { start: 0x2000, end: 0x2010, canonical_start: 0x2000 },
        BoundaryEntry { start: 0x1010, end: 0x1020, canonical_start: 0x1000 },
    ];
    let (starts, ends) = group_function_boundaries(&entries);
    assert_eq!(starts, vec![0x1000, 0x2000, 0x1010]);
    assert_eq!(ends, vec![0x1010, 0x2010, 0x1020]);
}

#[test]
fn undereferenceable_unwind_info_terminates_chain() {
    // An image that is not a parseable PE: every chain link dereference
    // fails, so each record is its own canonical start.
    let image = vec![0u8; 64];
    let rec = UnwindRecord { begin: 0x4321, end: 0x4400, unwind_info: 0x9000 };
    assert_eq!(resolve_canonical_start(&image, rec), 0x4321);
}

#[test]
fn extractor_merges_records_with_equal_resolved_starts() {
    // With no dereferenceable unwind info, the canonical start is the
    // record's own begin address; two consecutive records with the same
    // begin merge into one [first.start, last.end) boundary.
    let image = vec![0u8; 64];
    let mut table = record_bytes(0x1000, 0x1010, 0x5000);
    table.extend(record_bytes(0x1000, 0x1030, 0x5008));
    table.extend(record_bytes(0x2000, 0x2010, 0x5010));
    let (starts, ends) = function_start_and_end_addresses(&image, &table).unwrap();
    assert_eq!(starts, vec![0x1000, 0x2000]);
    assert_eq!(ends, vec![0x1030, 0x2010]);

    let mut bad = table.clone();
    bad.pop();
    assert!(function_start_and_end_addresses(&image, &bad).is_none());
}
