//! Trap resolution: turning a faulting instruction address into a typed
//! trap code by consulting the module's trap manifest.
//!
//! `lookup_trapcode` must be safe to call from an asynchronous signal
//! handler: it allocates nothing, takes no lock, and performs one bounded
//! scan over an immutable table.  The scan stops at the first record that
//! contains the address — the manifest's non-overlap invariant means no
//! other record may claim it, so looking further would be wrong.

use vstd::prelude::*;

use crate::module_data::TrapCode;
use crate::module_data::TrapManifestRecord;

verus! {

/// Whether two function records claim non-overlapping address ranges.
pub open spec fn records_disjoint(a: TrapManifestRecord, b: TrapManifestRecord) -> bool {
    a.func_addr + a.func_len <= b.func_addr || b.func_addr + b.func_len <= a.func_addr
}

/// The manifest invariant: address ranges of distinct records never
/// overlap, so at most one record contains any given address.
pub open spec fn manifest_disjoint(manifest: Seq<TrapManifestRecord>) -> bool {
    forall|i: int, j: int|
        0 <= i < manifest.len() && 0 <= j < manifest.len() && i != j
            ==> #[trigger] records_disjoint(manifest[i], manifest[j])
}

/// The trap code the manifest assigns to `addr`: the answer of the first
/// record that contains `addr`, and nothing if no record does.  A
/// containing record whose trap-site table has no site at the faulting
/// offset answers `None`, and later records are never consulted.
pub open spec fn spec_lookup_trapcode(manifest: Seq<TrapManifestRecord>, addr: u64) -> Option<
    TrapCode,
>
    decreases manifest.len(),
{
    if manifest.len() == 0 {
        None
    } else if manifest[0].spec_contains_addr(addr) {
        manifest[0].spec_lookup_addr(addr)
    } else {
        spec_lookup_trapcode(manifest.skip(1), addr)
    }
}

/// Look a faulting instruction address up in the trap manifest.
///
/// Signal-safe: stack state only, no allocation, no locking, one bounded
/// scan.  Returning `None` is not an error; it means the fault is not a
/// classified trap of this module and must be treated as fatal to the
/// faulting instance by the dispatcher.
pub fn lookup_trapcode(manifest: &[TrapManifestRecord], addr: u64) -> (r: Option<TrapCode>)
    ensures
        r == spec_lookup_trapcode(manifest@, addr),
{
    let n: usize = manifest.len();
    proof {
        assert(manifest@.skip(0) =~= manifest@);
    }
    let mut i: usize = 0;
    while i < n
        invariant
            n == manifest@.len(),
            0 <= i <= n,
            spec_lookup_trapcode(manifest@.skip(i as int), addr) == spec_lookup_trapcode(
                manifest@,
                addr,
            ),
        decreases n - i,
    {
        let record = &manifest[i];
        proof {
            assert(manifest@.skip(i as int)[0] == manifest@[i as int]);
        }
        if record.contains_addr(addr) {
            // The trap falls within a known function; whatever this
            // record answers is the final answer.  Only one record may
            // ever contain a given address, so scanning further after a
            // miss here would be wrong.
            return record.lookup_addr(addr);
        }
        proof {
            assert(manifest@.skip(i as int).skip(1) =~= manifest@.skip(i as int + 1));
        }
        i = i + 1;
    }
    proof {
        assert(manifest@.skip(n as int) =~= Seq::<TrapManifestRecord>::empty());
    }
    None
}

/// Trap resolution is a pure function of the manifest and the address:
/// any two results that satisfy the resolver's contract for the same
/// manifest and address are equal, so calling `lookup_trapcode` twice
/// yields the same answer both times.
pub proof fn lemma_lookup_trapcode_deterministic(
    manifest: Seq<TrapManifestRecord>,
    addr: u64,
    r1: Option<TrapCode>,
    r2: Option<TrapCode>,
)
    requires
        r1 == spec_lookup_trapcode(manifest, addr),
        r2 == spec_lookup_trapcode(manifest, addr),
    ensures
        r1 == r2,
{
}

/// Records before `i` that do not contain `addr` do not influence the
/// lookup: the scan result equals the result of scanning from `i` on.
proof fn lemma_lookup_skips_noncontaining(
    manifest: Seq<TrapManifestRecord>,
    addr: u64,
    i: int,
)
    requires
        0 <= i <= manifest.len(),
        forall|j: int| 0 <= j < i ==> !(#[trigger] manifest[j]).spec_contains_addr(addr),
    ensures
        spec_lookup_trapcode(manifest, addr) == spec_lookup_trapcode(manifest.skip(i), addr),
    decreases i,
{
    if i > 0 {
        assert(!manifest[0].spec_contains_addr(addr));
        assert(forall|j: int|
            0 <= j < i - 1 ==> !(#[trigger] manifest.skip(1)[j]).spec_contains_addr(addr));
        lemma_lookup_skips_noncontaining(manifest.skip(1), addr, i - 1);
        assert(manifest.skip(1).skip(i - 1) =~= manifest.skip(i));
    } else {
        assert(manifest.skip(0) =~= manifest);
    }
}

/// Locality of trap resolution: in a manifest whose records do not
/// overlap, if the record containing `addr` has no trap site at the
/// faulting offset, the whole lookup answers `None` — even when a later,
/// disjoint record would have matched the same offset arithmetic.  The
/// scan must stop at the first containing record.
pub proof fn lemma_lookup_stops_at_containing_record(
    manifest: Seq<TrapManifestRecord>,
    addr: u64,
    i: int,
)
    requires
        manifest_disjoint(manifest),
        0 <= i < manifest.len(),
        manifest[i].spec_contains_addr(addr),
        manifest[i].spec_lookup_addr(addr) is None,
    ensures
        spec_lookup_trapcode(manifest, addr) is None,
{
    assert forall|j: int| 0 <= j < i implies !(#[trigger] manifest[j]).spec_contains_addr(
        addr,
    ) by {
        assert(records_disjoint(manifest[i], manifest[j]));
    }
    lemma_lookup_skips_noncontaining(manifest, addr, i);
    assert(manifest.skip(i)[0] == manifest[i]);
}

/// An address outside every function record of the manifest is never
/// classified: the lookup answers `None`.
pub proof fn lemma_lookup_outside_every_record(manifest: Seq<TrapManifestRecord>, addr: u64)
    requires
        forall|i: int|
            0 <= i < manifest.len() ==> !(#[trigger] manifest[i]).spec_contains_addr(addr),
    ensures
        spec_lookup_trapcode(manifest, addr) is None,
{
    lemma_lookup_skips_noncontaining(manifest, addr, manifest.len() as int);
    assert(manifest.skip(manifest.len() as int) =~= Seq::<TrapManifestRecord>::empty());
}

} // verus!
