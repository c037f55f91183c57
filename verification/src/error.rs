//! The error taxonomy of the safety boundary.
//!
//! A malformed module specification is distinguished from one that is
//! well-formed but exceeds the configured limits, so a caller can decide
//! to reject the module outright or to retry with different limits.
//! Every variant carries the offending numeric values, so a failure can
//! be diagnosed without re-deriving them.

use vstd::prelude::*;

verus! {

/// A structural invariant of the module's own specification is violated.
/// Such a module must never be instantiated, under any limits.
#[derive(Clone, Copy, Debug, PartialEq, Eq, Structural)]
pub enum ModuleSpecDefect {
    /// `reserved_size` or `guard_size` does not fit the runtime's 32-bit
    /// address-space model.
    HeapSizeOverflow { reserved_size: u64, guard_size: u64 },
    /// `initial_size` exceeds `reserved_size`.
    InitialExceedsReserved { initial_size: u64, reserved_size: u64 },
}

/// The module's specification is well-formed but does not fit the
/// configured limits.  Retrying with larger limits may succeed.
#[derive(Clone, Copy, Debug, PartialEq, Eq, Structural)]
pub enum LimitDefect {
    /// `reserved_size + guard_size` exceeds the address-space ceiling.
    HeapAddressSpace { reserved_size: u64, guard_size: u64, limit: u64 },
    /// `initial_size` exceeds the heap memory ceiling.
    HeapMemory { initial_size: u64, limit: u64 },
    /// Eight bytes per global slot exceed the globals ceiling.
    Globals { count: usize, limit: u64 },
}

/// Everything the safety boundary can report to its callers.
#[derive(Clone, Copy, Debug, PartialEq, Eq, Structural)]
pub enum Error {
    /// The module specification is internally invalid (fatal to the
    /// instantiation attempt; never retried).
    ModuleSpecInvalid(ModuleSpecDefect),
    /// The module specification exceeds the configured limits
    /// (recoverable: the caller may retry with different limits).
    LimitsExceeded(LimitDefect),
    /// `get_export_func`: the module exports no function under the
    /// requested symbol name.
    SymbolNotFound,
    /// `get_func_from_idx`: the table or function index is out of
    /// bounds.
    FuncNotFound { table_id: u32, func_id: u32 },
    /// The underlying module storage is unreadable or corrupt.
    ModuleDataUnreadable,
    /// A host-API failure while resolving address details; distinct from
    /// "could not resolve", which is not an error.
    AddrResolutionFailed,
}

} // verus!
