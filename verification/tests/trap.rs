use lucet_core::module_data::{TrapCode, TrapManifestRecord, TrapSite};
use lucet_core::trap::lookup_trapcode;

fn record(func_addr: u64, func_len: u64, sites: Vec<(u32, TrapCode)>) -> TrapManifestRecord {
    TrapManifestRecord {
        func_addr,
        func_len,
        trap_sites: sites
            .into_iter()
            .map(|(offset, code)| TrapSite { offset, code })
            .collect(),
    }
}

#[test]
fn resolves_site_at_exact_offset() {
    let manifest = vec![record(
        0x1000,
        100,
        vec![(42, TrapCode::HeapOutOfBounds)],
    )];
    assert_eq!(
        lookup_trapcode(&manifest, 0x1000 + 42),
        Some(TrapCode::HeapOutOfBounds)
    );
    assert_eq!(lookup_trapcode(&manifest, 0x1000 + 43), None);
}

#[test]
fn lookup_is_idempotent() {
    let manifest = vec![
        record(0x1000, 100, vec![(0, TrapCode::Unreachable), (42, TrapCode::IntegerOverflow)]),
        record(0x2000, 100, vec![(10, TrapCode::BadSignature)]),
    ];
    for addr in [0x1000, 0x1000 + 42, 0x1000 + 7, 0x2000 + 10, 0x5000] {
        let first = lookup_trapcode(&manifest, addr);
        let second = lookup_trapcode(&manifest, addr);
        assert_eq!(first, second);
    }
}

#[test]
fn scan_stops_at_first_containing_record() {
    // Both records carry a site at offset 24, so the later record would
    // match the same offset arithmetic; the address lies in the first
    // record, which has no site at that offset, and must answer None.
    let manifest = vec![
        record(0x1000, 256, vec![(50, TrapCode::IntegerOverflow)]),
        record(0x2000, 256, vec![(24, TrapCode::HeapOutOfBounds)]),
    ];
    assert_eq!(lookup_trapcode(&manifest, 0x1000 + 24), None);
    // The same offset arithmetic inside the second record does match.
    assert_eq!(
        lookup_trapcode(&manifest, 0x2000 + 24),
        Some(TrapCode::HeapOutOfBounds)
    );
    // And the first record still answers for its own site.
    assert_eq!(
        lookup_trapcode(&manifest, 0x1000 + 50),
        Some(TrapCode::IntegerOverflow)
    );
}

#[test]
fn address_outside_every_record_is_unclassified() {
    let manifest = vec![
        record(0x1000, 100, vec![(1, TrapCode::IntegerDivByZero)]),
        record(0x2000, 100, vec![(2, TrapCode::StackOverflow)]),
    ];
    assert_eq!(lookup_trapcode(&manifest, 0x0fff), None);
    assert_eq!(lookup_trapcode(&manifest, 0x1000 + 100), None);
    assert_eq!(lookup_trapcode(&manifest, 0x9000), None);
    assert_eq!(lookup_trapcode(&[], 0x1000), None);
}

#[test]
fn record_range_is_half_open() {
    let manifest = vec![record(0x1000, 100, vec![(0, TrapCode::Unreachable)])];
    // First byte is inside and matches the offset-zero site.
    assert_eq!(lookup_trapcode(&manifest, 0x1000), Some(TrapCode::Unreachable));
    // One past the end is outside.
    assert_eq!(lookup_trapcode(&manifest, 0x1000 + 100), None);
    // Last byte is inside but has no site.
    assert_eq!(lookup_trapcode(&manifest, 0x1000 + 99), None);
}

#[test]
fn containing_record_with_no_sites_answers_none() {
    let manifest = vec![record(0x1000, 100, vec![])];
    assert_eq!(lookup_trapcode(&manifest, 0x1000 + 10), None);
}

#[test]
fn first_site_with_offset_wins() {
    let rec = record(
        0x1000,
        100,
        vec![(5, TrapCode::OutOfBounds), (5, TrapCode::BadConversionToInteger)],
    );
    assert_eq!(rec.lookup_addr(0x1000 + 5), Some(TrapCode::OutOfBounds));
}

#[test]
fn contains_addr_matches_range() {
    let rec = record(0x1000, 100, vec![]);
    assert!(!rec.contains_addr(0x0fff));
    assert!(rec.contains_addr(0x1000));
    assert!(rec.contains_addr(0x1000 + 99));
    assert!(!rec.contains_addr(0x1000 + 100));
}
