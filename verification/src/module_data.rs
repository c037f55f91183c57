//! The read-only metadata a compiler produces for one module: its linear
//! memory requirements, its global slots, and its trap manifest.
//!
//! Function and fault addresses are carried as opaque integers; nothing in
//! this crate ever dereferences one.

use vstd::prelude::*;

verus! {

/// A module's linear memory requirements, in bytes.
///
/// The fields are 64 bits wide in the descriptor, but the runtime's
/// sandbox model is a 32-bit address space, so a well-formed spec keeps
/// `reserved_size` and `guard_size` within that span.  Structurally,
/// `initial_size` may not exceed `reserved_size`; the validator enforces
/// both bounds.
#[derive(Clone, Copy, Debug, PartialEq, Eq, Structural)]
pub struct HeapSpec {
    /// Bytes of address space reserved for the heap.
    pub reserved_size: u64,
    /// Bytes of guard region placed after the reserved span.
    pub guard_size: u64,
    /// Bytes of heap memory present at instantiation.
    pub initial_size: u64,
}

/// The definition of one module-level storage slot.
#[derive(Clone, Debug)]
pub enum Global {
    /// A global defined by the module itself, with its initial value.
    Def { init_val: i64 },
    /// A global imported from another module, by module and field name.
    Import { module: String, field: String },
}

/// One entry of the module's ordered global section.  The position of a
/// `GlobalSpec` in that sequence is the global's WebAssembly index.
#[derive(Clone, Debug)]
pub struct GlobalSpec {
    pub global: Global,
    /// Name under which the slot is exported, if it is.
    pub export: Option<String>,
}

/// The kind of sandbox violation a trapping instruction raises.  The
/// enumeration is produced by the compiler and passed through unchanged.
#[derive(Clone, Copy, Debug, PartialEq, Eq, Structural)]
pub enum TrapCode {
    StackOverflow,
    HeapOutOfBounds,
    OutOfBounds,
    IndirectCallToNull,
    BadSignature,
    IntegerOverflow,
    IntegerDivByZero,
    BadConversionToInteger,
    Unreachable,
}

/// One trapping instruction: its code offset within the function it
/// belongs to, and the trap kind raised there.
#[derive(Clone, Copy, Debug, PartialEq, Eq, Structural)]
pub struct TrapSite {
    pub offset: u32,
    pub code: TrapCode,
}

/// The address of one compiled function, as an opaque, non-dereferenced
/// numeric handle.
#[derive(Clone, Copy, Debug, PartialEq, Eq, Structural)]
pub struct FunctionHandle(pub u64);

/// Where one compiled function's code lives, and which of its
/// instructions trap.
///
/// Distinct records of one manifest never claim overlapping address
/// ranges (`manifest_disjoint` in the `trap` module); the trap sites are
/// ordered by offset.
#[derive(Clone, Debug)]
pub struct TrapManifestRecord {
    /// Address of the function's first instruction.
    pub func_addr: u64,
    /// Length of the function's code, in bytes.
    pub func_len: u64,
    /// The function's trap sites, ordered by `offset`.
    pub trap_sites: Vec<TrapSite>,
}

impl TrapManifestRecord {
    /// Whether `addr` falls inside this record's code range
    /// `[func_addr, func_addr + func_len)`.
    pub open spec fn spec_contains_addr(self, addr: u64) -> bool {
        self.func_addr <= addr && addr < self.func_addr + self.func_len
    }

    /// The trap code of the first site of `sites` at exactly `offset`,
    /// if any site matches.
    pub open spec fn spec_lookup_site(sites: Seq<TrapSite>, offset: u64) -> Option<TrapCode>
        decreases sites.len(),
    {
        if sites.len() == 0 {
            None
        } else if sites[0].offset == offset {
            Some(sites[0].code)
        } else {
            Self::spec_lookup_site(sites.skip(1), offset)
        }
    }

    /// The trap code this record assigns to `addr`: the first site whose
    /// offset equals `addr - func_addr`, provided the record contains
    /// `addr` at all.
    pub open spec fn spec_lookup_addr(self, addr: u64) -> Option<TrapCode> {
        if self.spec_contains_addr(addr) {
            Self::spec_lookup_site(self.trap_sites@, (addr - self.func_addr) as u64)
        } else {
            None
        }
    }

    pub fn contains_addr(&self, addr: u64) -> (r: bool)
        ensures
            r == self.spec_contains_addr(addr),
    {
        addr >= self.func_addr && addr - self.func_addr < self.func_len
    }

    /// Search the record's trap-site table for the site at exactly the
    /// faulting offset.  Signal-safe: a bounded scan over an immutable
    /// table, with no allocation.
    pub fn lookup_addr(&self, addr: u64) -> (r: Option<TrapCode>)
        ensures
            r == self.spec_lookup_addr(addr),
    {
        if !self.contains_addr(addr) {
            return None;
        }
        let offset: u64 = addr - self.func_addr;
        let n: usize = self.trap_sites.len();
        proof {
            assert(self.trap_sites@.skip(0) =~= self.trap_sites@);
        }
        let mut i: usize = 0;
        while i < n
            invariant
                n == self.trap_sites@.len(),
                0 <= i <= n,
                self.spec_contains_addr(addr),
                offset == (addr - self.func_addr) as u64,
                Self::spec_lookup_site(self.trap_sites@.skip(i as int), offset)
                    == Self::spec_lookup_site(self.trap_sites@, offset),
            decreases n - i,
        {
            let site = self.trap_sites[i];
            if site.offset as u64 == offset {
                proof {
                    assert(self.trap_sites@.skip(i as int)[0] == site);
                    assert(Self::spec_lookup_site(self.trap_sites@.skip(i as int), offset)
                        == Some(site.code));
                }
                return Some(site.code);
            }
            proof {
                assert(self.trap_sites@.skip(i as int).skip(1)
                    =~= self.trap_sites@.skip(i as int + 1));
                assert(self.trap_sites@.skip(i as int)[0] == self.trap_sites@[i as int]);
            }
            i = i + 1;
        }
        proof {
            assert(self.trap_sites@.skip(n as int) =~= Seq::<TrapSite>::empty());
        }
        None
    }
}

} // verus!
