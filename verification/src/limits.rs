//! Resource ceilings the embedding application configures for a runtime
//! region.  A module may only be instantiated if its descriptor fits
//! these limits; see the `validate` module.

use vstd::prelude::*;

verus! {

/// Caller-chosen ceilings on a module's address-space and memory
/// footprint, in bytes.  Supplied once per runtime region and immutable
/// for the region's lifetime.
#[derive(Clone, Copy, Debug, PartialEq, Eq, Structural)]
pub struct Limits {
    /// Ceiling on the heap's reserved plus guard address-space span.
    pub heap_address_space_size: u64,
    /// Ceiling on the heap memory present at instantiation.
    pub heap_memory_size: u64,
    /// Ceiling on the total storage of the module's globals.
    pub globals_size: u64,
}

} // verus!
