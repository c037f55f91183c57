//! Pre-instantiation validation: may a module with this descriptor be
//! instantiated under these limits?
//!
//! The checks run in a fixed order and the first failure wins.  The
//! overflow guard on `reserved_size` and `guard_size` runs first, so the
//! address-space sum that follows can never overflow; the structural
//! check `initial_size <= reserved_size` is independent of limits but
//! catches producer bugs early.  A module without a heap spec never
//! touches linear memory, so every heap check is skipped for it and only
//! the globals footprint is examined.

use vstd::prelude::*;

use crate::error::Error;
use crate::error::LimitDefect;
use crate::error::ModuleSpecDefect;
use crate::limits::Limits;
use crate::module_data::GlobalSpec;
use crate::module_data::HeapSpec;

verus! {

/// The size of the runtime's 32-bit sandbox address space, in bytes.
/// `reserved_size` and `guard_size` may not exceed this span.
pub const WASM32_ADDRESS_SPAN: u64 = 0x1_0000_0000;

/// Bytes of storage one global slot occupies: globals are fixed 64-bit
/// slots.
pub const GLOBAL_SLOT_SIZE: u64 = 8;

/// The verdict of the heap checks alone, in order: address-space
/// overflow guard, reserved-plus-guard ceiling, initial-size ceiling,
/// initial-within-reserved structure.
pub open spec fn spec_validate_heap(heap: HeapSpec, limits: Limits) -> Result<(), Error> {
    if heap.reserved_size > WASM32_ADDRESS_SPAN || heap.guard_size > WASM32_ADDRESS_SPAN {
        Err(
            Error::ModuleSpecInvalid(
                ModuleSpecDefect::HeapSizeOverflow {
                    reserved_size: heap.reserved_size,
                    guard_size: heap.guard_size,
                },
            ),
        )
    } else if heap.reserved_size + heap.guard_size > limits.heap_address_space_size {
        Err(
            Error::LimitsExceeded(
                LimitDefect::HeapAddressSpace {
                    reserved_size: heap.reserved_size,
                    guard_size: heap.guard_size,
                    limit: limits.heap_address_space_size,
                },
            ),
        )
    } else if heap.initial_size > limits.heap_memory_size {
        Err(
            Error::LimitsExceeded(
                LimitDefect::HeapMemory {
                    initial_size: heap.initial_size,
                    limit: limits.heap_memory_size,
                },
            ),
        )
    } else if heap.initial_size > heap.reserved_size {
        Err(
            Error::ModuleSpecInvalid(
                ModuleSpecDefect::InitialExceedsReserved {
                    initial_size: heap.initial_size,
                    reserved_size: heap.reserved_size,
                },
            ),
        )
    } else {
        Ok(())
    }
}

/// The verdict of the globals check: eight bytes per slot must fit the
/// configured globals ceiling.
pub open spec fn spec_validate_globals(n_globals: nat, limits: Limits) -> Result<(), Error> {
    if n_globals * GLOBAL_SLOT_SIZE > limits.globals_size {
        Err(
            Error::LimitsExceeded(
                LimitDefect::Globals { count: n_globals as usize, limit: limits.globals_size },
            ),
        )
    } else {
        Ok(())
    }
}

/// The verdict of the whole validation: the heap checks first (skipped
/// entirely when the module has no heap spec), then the globals check.
pub open spec fn spec_validate_runtime_spec(
    heap: Option<HeapSpec>,
    n_globals: nat,
    limits: Limits,
) -> Result<(), Error> {
    match heap {
        Some(h) => match spec_validate_heap(h, limits) {
            Ok(_) => spec_validate_globals(n_globals, limits),
            Err(e) => Err(e),
        },
        None => spec_validate_globals(n_globals, limits),
    }
}

/// The heap spec an optional borrowed descriptor field denotes.
pub open spec fn heap_of(heap: Option<&HeapSpec>) -> Option<HeapSpec> {
    match heap {
        Some(h) => Some(*h),
        None => None,
    }
}

/// Check that a module's specifications are valid under the given
/// `Limits`.  Pure and deterministic; runs once per instantiation,
/// before any instance may be created from the descriptor.
///
/// Returns `Ok(())` exactly when every check of
/// `spec_validate_runtime_spec` passes, and otherwise the first failing
/// check's error, carrying the offending values.
pub fn validate_runtime_spec(
    heap: Option<&HeapSpec>,
    globals: &[GlobalSpec],
    limits: &Limits,
) -> (r: Result<(), Error>)
    ensures
        r == spec_validate_runtime_spec(heap_of(heap), globals@.len(), *limits),
{
    // Modules without heap specs will not access the heap.
    if let Some(heap) = heap {
        // The first check pins both sizes to the 32-bit sandbox model
        // and thereby keeps the sum below from overflowing.
        if heap.reserved_size > WASM32_ADDRESS_SPAN || heap.guard_size > WASM32_ADDRESS_SPAN {
            return Err(
                Error::ModuleSpecInvalid(
                    ModuleSpecDefect::HeapSizeOverflow {
                        reserved_size: heap.reserved_size,
                        guard_size: heap.guard_size,
                    },
                ),
            );
        }
        if heap.reserved_size + heap.guard_size > limits.heap_address_space_size {
            return Err(
                Error::LimitsExceeded(
                    LimitDefect::HeapAddressSpace {
                        reserved_size: heap.reserved_size,
                        guard_size: heap.guard_size,
                        limit: limits.heap_address_space_size,
                    },
                ),
            );
        }
        if heap.initial_size > limits.heap_memory_size {
            return Err(
                Error::LimitsExceeded(
                    LimitDefect::HeapMemory {
                        initial_size: heap.initial_size,
                        limit: limits.heap_memory_size,
                    },
                ),
            );
        }
        if heap.initial_size > heap.reserved_size {
            return Err(
                Error::ModuleSpecInvalid(
                    ModuleSpecDefect::InitialExceedsReserved {
                        initial_size: heap.initial_size,
                        reserved_size: heap.reserved_size,
                    },
                ),
            );
        }
    }
    // Globals are fixed 64-bit slots; the product cannot overflow at
    // 128 bits.
    if (globals.len() as u128) * (GLOBAL_SLOT_SIZE as u128) > (limits.globals_size as u128) {
        return Err(
            Error::LimitsExceeded(
                LimitDefect::Globals { count: globals.len(), limit: limits.globals_size },
            ),
        );
    }
    Ok(())
}

/// A heap spec that fits the 32-bit sandbox, is structurally sound, and
/// fits both heap ceilings passes validation, provided the globals
/// footprint fits its ceiling as well.
pub proof fn lemma_validation_accepts(heap: HeapSpec, n_globals: nat, limits: Limits)
    requires
        heap.reserved_size <= u32::MAX as u64,
        heap.guard_size <= u32::MAX as u64,
        heap.initial_size <= heap.reserved_size,
        heap.reserved_size + heap.guard_size <= limits.heap_address_space_size,
        heap.initial_size <= limits.heap_memory_size,
        n_globals * GLOBAL_SLOT_SIZE <= limits.globals_size,
    ensures
        spec_validate_runtime_spec(Some(heap), n_globals, limits) is Ok,
{
}

/// A heap spec whose reserved size exceeds the 32-bit address span is
/// rejected as malformed, regardless of the configured limits and of the
/// globals.
pub proof fn lemma_validation_rejects_reserved_overflow(
    heap: HeapSpec,
    n_globals: nat,
    limits: Limits,
)
    requires
        heap.reserved_size > u32::MAX as u64 + 1,
    ensures
        spec_validate_runtime_spec(Some(heap), n_globals, limits) == Err::<(), Error>(
            Error::ModuleSpecInvalid(
                ModuleSpecDefect::HeapSizeOverflow {
                    reserved_size: heap.reserved_size,
                    guard_size: heap.guard_size,
                },
            ),
        ),
{
}

/// A heap spec whose initial size exceeds its reserved size never passes
/// validation, whatever the limits.
pub proof fn lemma_validation_rejects_initial_exceeding_reserved(
    heap: HeapSpec,
    n_globals: nat,
    limits: Limits,
)
    requires
        heap.initial_size > heap.reserved_size,
    ensures
        spec_validate_runtime_spec(Some(heap), n_globals, limits) is Err,
{
}

/// When the limits would otherwise permit the heap spec, an initial size
/// exceeding the reserved size is reported as a malformed spec — not as
/// a limits failure.
pub proof fn lemma_validation_reports_initial_exceeding_reserved_as_malformed(
    heap: HeapSpec,
    n_globals: nat,
    limits: Limits,
)
    requires
        heap.initial_size > heap.reserved_size,
        heap.reserved_size <= WASM32_ADDRESS_SPAN,
        heap.guard_size <= WASM32_ADDRESS_SPAN,
        heap.reserved_size + heap.guard_size <= limits.heap_address_space_size,
        heap.initial_size <= limits.heap_memory_size,
    ensures
        spec_validate_runtime_spec(Some(heap), n_globals, limits) == Err::<(), Error>(
            Error::ModuleSpecInvalid(
                ModuleSpecDefect::InitialExceedsReserved {
                    initial_size: heap.initial_size,
                    reserved_size: heap.reserved_size,
                },
            ),
        ),
{
}

/// Without a heap spec every heap check is skipped: the verdict is the
/// globals check's verdict alone.  It does not depend on the heap
/// ceilings at all, and it passes exactly when eight bytes per global
/// fit the globals ceiling.
pub proof fn lemma_validation_without_heap(n_globals: nat, limits: Limits, other: Limits)
    requires
        other.globals_size == limits.globals_size,
    ensures
        spec_validate_runtime_spec(None, n_globals, limits) == spec_validate_runtime_spec(
            None,
            n_globals,
            other,
        ),
        spec_validate_runtime_spec(None, n_globals, limits) is Ok <==> n_globals
            * GLOBAL_SLOT_SIZE <= limits.globals_size,
{
}

} // verus!
