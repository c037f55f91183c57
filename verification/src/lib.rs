//! Safety boundary of an ahead-of-time WebAssembly execution engine.
//!
//! The crate decides whether a compiled, untrusted module may be
//! instantiated under caller-supplied resource limits, and classifies
//! runtime faults by looking a faulting instruction address up in the
//! module's trap manifest.  The trap lookup is written so that it is safe
//! to run inside an asynchronous signal handler: it allocates nothing,
//! takes no lock, and is a pure function of the manifest and the address.

pub mod config;
pub mod error;
pub mod limits;
pub mod module;
pub mod module_data;
pub mod output;
pub mod trap;
pub mod util;
pub mod validate;
