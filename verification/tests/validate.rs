use lucet_core::error::{Error, LimitDefect, ModuleSpecDefect};
use lucet_core::limits::Limits;
use lucet_core::module_data::{Global, GlobalSpec, HeapSpec};
use lucet_core::validate::validate_runtime_spec;

fn globals(n: usize) -> Vec<GlobalSpec> {
    let mut v = Vec::new();
    for _ in 0..n {
        v.push(GlobalSpec { global: Global::Def { init_val: 0 }, export: None });
    }
    v
}

#[test]
fn accepts_spec_within_limits() {
    let heap = HeapSpec { reserved_size: 4, guard_size: 0, initial_size: 4 };
    let limits = Limits { heap_address_space_size: 4, heap_memory_size: 4, globals_size: 0 };
    let r = validate_runtime_spec(Some(&heap), &globals(0), &limits);
    assert_eq!(r, Ok(()));
}

#[test]
fn accepts_generous_spec_with_globals() {
    let heap = HeapSpec { reserved_size: 0x10000, guard_size: 0x1000, initial_size: 0x8000 };
    let limits = Limits {
        heap_address_space_size: 0x20000,
        heap_memory_size: 0x10000,
        globals_size: 64,
    };
    let r = validate_runtime_spec(Some(&heap), &globals(8), &limits);
    assert_eq!(r, Ok(()));
}

#[test]
fn rejects_heap_memory_limit_citing_initial_size() {
    let heap = HeapSpec { reserved_size: 4, guard_size: 0, initial_size: 4 };
    let limits = Limits { heap_address_space_size: 4, heap_memory_size: 3, globals_size: 0 };
    let r = validate_runtime_spec(Some(&heap), &globals(0), &limits);
    assert_eq!(
        r,
        Err(Error::LimitsExceeded(LimitDefect::HeapMemory { initial_size: 4, limit: 3 }))
    );
}

#[test]
fn rejects_reserved_size_overflow_regardless_of_limits() {
    let heap = HeapSpec {
        reserved_size: (u32::MAX as u64) + 2,
        guard_size: 0,
        initial_size: 0,
    };
    let limits = Limits {
        heap_address_space_size: u64::MAX,
        heap_memory_size: u64::MAX,
        globals_size: u64::MAX,
    };
    let r = validate_runtime_spec(Some(&heap), &globals(0), &limits);
    assert_eq!(
        r,
        Err(Error::ModuleSpecInvalid(ModuleSpecDefect::HeapSizeOverflow {
            reserved_size: (u32::MAX as u64) + 2,
            guard_size: 0,
        }))
    );
}

#[test]
fn rejects_guard_size_overflow() {
    let heap = HeapSpec {
        reserved_size: 0x10000,
        guard_size: (u32::MAX as u64) + 2,
        initial_size: 0,
    };
    let limits = Limits {
        heap_address_space_size: u64::MAX,
        heap_memory_size: u64::MAX,
        globals_size: 0,
    };
    let r = validate_runtime_spec(Some(&heap), &globals(0), &limits);
    assert_eq!(
        r,
        Err(Error::ModuleSpecInvalid(ModuleSpecDefect::HeapSizeOverflow {
            reserved_size: 0x10000,
            guard_size: (u32::MAX as u64) + 2,
        }))
    );
}

#[test]
fn rejects_initial_exceeding_reserved_as_malformed() {
    // Limits would permit everything; the defect is structural.
    let heap = HeapSpec { reserved_size: 5, guard_size: 0, initial_size: 10 };
    let limits = Limits {
        heap_address_space_size: 0x1000,
        heap_memory_size: 0x1000,
        globals_size: 0,
    };
    let r = validate_runtime_spec(Some(&heap), &globals(0), &limits);
    assert_eq!(
        r,
        Err(Error::ModuleSpecInvalid(ModuleSpecDefect::InitialExceedsReserved {
            initial_size: 10,
            reserved_size: 5,
        }))
    );
}

#[test]
fn rejects_address_space_limit() {
    let heap = HeapSpec { reserved_size: 0x10000, guard_size: 0x1000, initial_size: 0 };
    let limits = Limits {
        heap_address_space_size: 0x10000,
        heap_memory_size: 0x10000,
        globals_size: 0,
    };
    let r = validate_runtime_spec(Some(&heap), &globals(0), &limits);
    assert_eq!(
        r,
        Err(Error::LimitsExceeded(LimitDefect::HeapAddressSpace {
            reserved_size: 0x10000,
            guard_size: 0x1000,
            limit: 0x10000,
        }))
    );
}

#[test]
fn no_heap_skips_heap_checks() {
    // Heap ceilings of zero do not matter for a module with no heap.
    let limits = Limits { heap_address_space_size: 0, heap_memory_size: 0, globals_size: 16 };
    assert_eq!(validate_runtime_spec(None, &globals(2), &limits), Ok(()));
}

#[test]
fn no_heap_still_checks_globals() {
    let limits = Limits { heap_address_space_size: 0, heap_memory_size: 0, globals_size: 8 };
    let r = validate_runtime_spec(None, &globals(2), &limits);
    assert_eq!(r, Err(Error::LimitsExceeded(LimitDefect::Globals { count: 2, limit: 8 })));
}

#[test]
fn globals_boundary_exact_fit_succeeds() {
    let limits = Limits { heap_address_space_size: 0, heap_memory_size: 0, globals_size: 24 };
    assert_eq!(validate_runtime_spec(None, &globals(3), &limits), Ok(()));
}

#[test]
fn globals_boundary_one_byte_short_fails() {
    let limits = Limits { heap_address_space_size: 0, heap_memory_size: 0, globals_size: 23 };
    let r = validate_runtime_spec(None, &globals(3), &limits);
    assert_eq!(r, Err(Error::LimitsExceeded(LimitDefect::Globals { count: 3, limit: 23 })));
}
