//! The module capability contract: the uniform, read-only view of a
//! compiled module that every module source must expose, and a synthetic
//! in-memory source for testing.
//!
//! The safety checks every instantiation depends on — `lookup_trapcode`
//! and `validate_runtime_spec` — are provided once, in terms of the
//! contract's primitive accessors, so every module source gets the same,
//! centrally audited behavior.

use vstd::prelude::*;

use crate::error::Error;
use crate::limits::Limits;
use crate::module_data::FunctionHandle;
use crate::module_data::GlobalSpec;
use crate::module_data::HeapSpec;
use crate::module_data::TrapCode;
use crate::module_data::TrapManifestRecord;
use crate::trap::spec_lookup_trapcode;
use crate::util::bytes_eq;
use crate::validate::heap_of;
use crate::validate::spec_validate_runtime_spec;

verus! {

/// One element of the module's indirect-call table: a type tag and a
/// reference, both opaque 64-bit values produced by the compiler.
#[derive(Clone, Copy, Debug)]
pub struct TableElement {
    ty: u64,
    rf: u64,
}

impl TableElement {
    /// The element's type tag.
    pub closed spec fn spec_ty(self) -> u64 {
        self.ty
    }

    /// The element's reference value.
    pub closed spec fn spec_rf(self) -> u64 {
        self.rf
    }

    pub fn new(ty: u64, rf: u64) -> (r: TableElement)
        ensures
            r.spec_ty() == ty,
            r.spec_rf() == rf,
    {
        TableElement { ty, rf }
    }

    pub fn ty(&self) -> (r: u64)
        ensures
            r == self.spec_ty(),
    {
        self.ty
    }

    pub fn rf(&self) -> (r: u64)
        ensures
            r == self.spec_rf(),
    {
        self.rf
    }
}

/// Details about a program address, for diagnostics only.
///
/// Whether an address lies within the module's code can be determined
/// when the module was loaded from a shared object; statically linked
/// modules are not resolvable.  Symbol and file names are best effort —
/// an absent name is a resolution limitation, not an error.
#[derive(Clone, Debug)]
pub struct AddrDetails {
    pub in_module_code: bool,
    pub file_name: Option<String>,
    pub sym_name: Option<String>,
}

/// The read-only parts of a compiled module, including its code and
/// initial heap configuration.  Types that implement this trait are
/// suitable for creating instances from.
pub trait Module: ModuleInternal {

}

/// The capability contract every module source implements.
///
/// The spec functions are the source's abstract state: the descriptor
/// the compiler produced for it.  Each accessor is tied to that state,
/// so the provided safety checks below have exact contracts no matter
/// where the module came from.  A descriptor is immutable once
/// constructed and shared, read-only, by every instance on every
/// thread, hence `Send + Sync`.
pub trait ModuleInternal: Send + Sync {
    /// The module's heap spec; a module without one never accesses
    /// linear memory.
    spec fn spec_heap_spec(&self) -> Option<HeapSpec>;

    /// The module's globals, in WebAssembly index order.
    spec fn spec_globals(&self) -> Seq<GlobalSpec>;

    /// The lazily materialized heap initialization pages; an absent
    /// page is all zero.
    spec fn spec_sparse_page_data(&self) -> Seq<Option<Seq<u8>>>;

    /// The module's indirect-call table elements, or the error raised
    /// when the underlying storage is unreadable.
    spec fn spec_table_elements(&self) -> Result<Seq<TableElement>, Error>;

    /// The function exported under a symbol name, if any.
    spec fn spec_export_func(&self, sym: Seq<u8>) -> Option<FunctionHandle>;

    /// The function at an index of an indirect-call table, if both
    /// indices are in bounds.
    spec fn spec_func_from_idx(&self, table_id: u32, func_id: u32) -> Option<FunctionHandle>;

    /// The module's start function (a module need not have one), or the
    /// error raised when the symbol cannot be read.
    spec fn spec_start_func(&self) -> Result<Option<FunctionHandle>, Error>;

    /// The module's trap manifest, in the order the compiler emitted.
    spec fn spec_trap_manifest(&self) -> Seq<TrapManifestRecord>;

    /// The details the source resolves an address to: `Ok(None)` when
    /// the module is not resolvable at all, an error only on host-API
    /// failures.
    spec fn spec_addr_details(&self, addr: u64) -> Result<Option<AddrDetails>, Error>;

    fn heap_spec(&self) -> (r: Option<&HeapSpec>)
        ensures
            heap_of(r) == self.spec_heap_spec(),
    ;

    /// The WebAssembly globals of the module; the indices into the
    /// returned slice are the WebAssembly indices of the globals.
    fn globals(&self) -> (r: &[GlobalSpec])
        ensures
            r@ == self.spec_globals(),
    ;

    fn get_sparse_page_data(&self, page: usize) -> (r: Option<&[u8]>)
        ensures
            match r {
                Some(d) => page < self.spec_sparse_page_data().len()
                    && self.spec_sparse_page_data()[page as int] == Some(d@),
                None => page >= self.spec_sparse_page_data().len()
                    || self.spec_sparse_page_data()[page as int] is None,
            },
    ;

    /// The number of pages in the sparse page data.
    fn sparse_page_data_len(&self) -> (r: usize)
        ensures
            r == self.spec_sparse_page_data().len(),
    ;

    /// The table elements of the module; fails only when the underlying
    /// module storage is unreadable.
    fn table_elements(&self) -> (r: Result<&[TableElement], Error>)
        ensures
            match r {
                Ok(t) => self.spec_table_elements() == Ok::<Seq<TableElement>, Error>(t@),
                Err(e) => self.spec_table_elements() == Err::<Seq<TableElement>, Error>(e),
            },
    ;

    /// Resolve an exported function by symbol name; fails with
    /// `Error::SymbolNotFound` exactly when no export carries the name.
    fn get_export_func(&self, sym: &[u8]) -> (r: Result<FunctionHandle, Error>)
        ensures
            r == match self.spec_export_func(sym@) {
                Some(h) => Ok::<FunctionHandle, Error>(h),
                None => Err::<FunctionHandle, Error>(Error::SymbolNotFound),
            },
    ;

    /// Resolve a function through an indirect-call table; fails with
    /// `Error::FuncNotFound` exactly when either index is out of bounds.
    fn get_func_from_idx(&self, table_id: u32, func_id: u32) -> (r: Result<
        FunctionHandle,
        Error,
    >)
        ensures
            r == match self.spec_func_from_idx(table_id, func_id) {
                Some(h) => Ok::<FunctionHandle, Error>(h),
                None => Err::<FunctionHandle, Error>(Error::FuncNotFound { table_id, func_id }),
            },
    ;

    fn get_start_func(&self) -> (r: Result<Option<FunctionHandle>, Error>)
        ensures
            r == self.spec_start_func(),
    ;

    fn trap_manifest(&self) -> (r: &[TrapManifestRecord])
        ensures
            r@ == self.spec_trap_manifest(),
    ;

    /// Best-effort, diagnostic-only details for an address.  Not on the
    /// signal path; may allocate and consult the host's loader.  `Ok(None)`
    /// means the module is not resolvable at all, which is legitimate.
    fn addr_details(&self, addr: u64) -> (r: Result<Option<AddrDetails>, Error>)
        ensures
            r == self.spec_addr_details(addr),
    ;

    /// Look up an instruction pointer in the trap manifest.
    ///
    /// This function must be signal-safe, and is: it is a bounded scan
    /// over the immutable manifest, with no allocation and no locking.
    /// `None` means the fault is not a classified trap of this module.
    fn lookup_trapcode(&self, rip: u64) -> (r: Option<TrapCode>)
        ensures
            r == spec_lookup_trapcode(self.spec_trap_manifest(), rip),
    {
        crate::trap::lookup_trapcode(self.trap_manifest(), rip)
    }

    /// Check that the specifications of the module are valid given
    /// certain `Limits`.  Returns a `Result` rather than a boolean so
    /// the caller learns which check failed and with which values.
    fn validate_runtime_spec(&self, limits: &Limits) -> (r: Result<(), Error>)
        ensures
            r == spec_validate_runtime_spec(
                self.spec_heap_spec(),
                self.spec_globals().len(),
                *limits,
            ),
    {
        crate::validate::validate_runtime_spec(self.heap_spec(), self.globals(), limits)
    }
}

/// One exported function of a synthetic module: a symbol name and the
/// opaque address it resolves to.
#[derive(Clone, Debug)]
pub struct ExportFunc {
    pub sym: Vec<u8>,
    pub func: FunctionHandle,
}

/// The function the export table resolves a symbol to: the first entry
/// carrying the name wins.
pub open spec fn spec_export_lookup(exports: Seq<ExportFunc>, sym: Seq<u8>) -> Option<
    FunctionHandle,
>
    decreases exports.len(),
{
    if exports.len() == 0 {
        None
    } else if exports[0].sym@ == sym {
        Some(exports[0].func)
    } else {
        spec_export_lookup(exports.skip(1), sym)
    }
}

/// A synthetic, in-memory module source with directly constructed
/// specs.  It satisfies the same contract and the same invariants as a
/// module loaded from a shared object, and therefore gets the same
/// validation and trap lookup.
#[derive(Clone, Debug)]
pub struct MockModule {
    pub heap: Option<HeapSpec>,
    pub global_specs: Vec<GlobalSpec>,
    pub sparse_page_data: Vec<Option<Vec<u8>>>,
    pub elements: Vec<TableElement>,
    pub exports: Vec<ExportFunc>,
    pub tables: Vec<Vec<FunctionHandle>>,
    pub start: Option<FunctionHandle>,
    pub manifest: Vec<TrapManifestRecord>,
}

impl MockModule {
    /// A module with no heap, no globals, no code and no exports; the
    /// starting point for building a synthetic module.
    pub fn empty() -> (r: MockModule)
        ensures
            r.spec_heap_spec() is None,
            r.spec_globals() == Seq::<GlobalSpec>::empty(),
            r.spec_sparse_page_data() == Seq::<Option<Seq<u8>>>::empty(),
            r.spec_table_elements() == Ok::<Seq<TableElement>, Error>(Seq::empty()),
            r.exports@ == Seq::<ExportFunc>::empty(),
            r.tables@ == Seq::<Vec<FunctionHandle>>::empty(),
            r.spec_start_func() == Ok::<Option<FunctionHandle>, Error>(None),
            r.spec_trap_manifest() == Seq::<TrapManifestRecord>::empty(),
    {
        let r = MockModule {
            heap: None,
            global_specs: Vec::new(),
            sparse_page_data: Vec::new(),
            elements: Vec::new(),
            exports: Vec::new(),
            tables: Vec::new(),
            start: None,
            manifest: Vec::new(),
        };
        proof {
            assert(r.spec_sparse_page_data() =~= Seq::<Option<Seq<u8>>>::empty());
        }
        r
    }
}

impl ModuleInternal for MockModule {
    open spec fn spec_heap_spec(&self) -> Option<HeapSpec> {
        self.heap
    }

    open spec fn spec_globals(&self) -> Seq<GlobalSpec> {
        self.global_specs@
    }

    open spec fn spec_sparse_page_data(&self) -> Seq<Option<Seq<u8>>> {
        self.sparse_page_data@.map(
            |i: int, p: Option<Vec<u8>>|
                match p {
                    Some(v) => Some(v@),
                    None => None::<Seq<u8>>,
                },
        )
    }

    open spec fn spec_table_elements(&self) -> Result<Seq<TableElement>, Error> {
        Ok(self.elements@)
    }

    open spec fn spec_export_func(&self, sym: Seq<u8>) -> Option<FunctionHandle> {
        spec_export_lookup(self.exports@, sym)
    }

    open spec fn spec_func_from_idx(&self, table_id: u32, func_id: u32) -> Option<
        FunctionHandle,
    > {
        if table_id < self.tables@.len() && func_id < self.tables@[table_id as int]@.len() {
            Some(self.tables@[table_id as int]@[func_id as int])
        } else {
            None
        }
    }

    open spec fn spec_start_func(&self) -> Result<Option<FunctionHandle>, Error> {
        Ok(self.start)
    }

    open spec fn spec_trap_manifest(&self) -> Seq<TrapManifestRecord> {
        self.manifest@
    }

    /// A synthetic module is not loaded from a shared object, so it is
    /// never resolvable: no address has details, and in particular no
    /// address is ever claimed as module code.
    open spec fn spec_addr_details(&self, addr: u64) -> Result<Option<AddrDetails>, Error> {
        Ok(None)
    }

    fn heap_spec(&self) -> (r: Option<&HeapSpec>) {
        self.heap.as_ref()
    }

    fn globals(&self) -> (r: &[GlobalSpec]) {
        self.global_specs.as_slice()
    }

    fn get_sparse_page_data(&self, page: usize) -> (r: Option<&[u8]>) {
        if page < self.sparse_page_data.len() {
            match &self.sparse_page_data[page] {
                Some(data) => Some(data.as_slice()),
                None => None,
            }
        } else {
            None
        }
    }

    fn sparse_page_data_len(&self) -> (r: usize) {
        self.sparse_page_data.len()
    }

    fn table_elements(&self) -> (r: Result<&[TableElement], Error>) {
        Ok(self.elements.as_slice())
    }

    fn get_export_func(&self, sym: &[u8]) -> (r: Result<FunctionHandle, Error>) {
        let n: usize = self.exports.len();
        proof {
            assert(self.exports@.skip(0) =~= self.exports@);
        }
        let mut i: usize = 0;
        while i < n
            invariant
                n == self.exports@.len(),
                0 <= i <= n,
                spec_export_lookup(self.exports@.skip(i as int), sym@) == spec_export_lookup(
                    self.exports@,
                    sym@,
                ),
            decreases n - i,
        {
            proof {
                assert(self.exports@.skip(i as int)[0] == self.exports@[i as int]);
            }
            if bytes_eq(self.exports[i].sym.as_slice(), sym) {
                return Ok(self.exports[i].func);
            }
            proof {
                assert(self.exports@.skip(i as int).skip(1) =~= self.exports@.skip(i as int + 1));
            }
            i = i + 1;
        }
        proof {
            assert(self.exports@.skip(n as int) =~= Seq::<ExportFunc>::empty());
        }
        Err(Error::SymbolNotFound)
    }

    fn get_func_from_idx(&self, table_id: u32, func_id: u32) -> (r: Result<
        FunctionHandle,
        Error,
    >) {
        if (table_id as usize) < self.tables.len() {
            let table = &self.tables[table_id as usize];
            if (func_id as usize) < table.len() {
                Ok(table[func_id as usize])
            } else {
                Err(Error::FuncNotFound { table_id, func_id })
            }
        } else {
            Err(Error::FuncNotFound { table_id, func_id })
        }
    }

    fn get_start_func(&self) -> (r: Result<Option<FunctionHandle>, Error>) {
        Ok(self.start)
    }

    fn trap_manifest(&self) -> (r: &[TrapManifestRecord]) {
        self.manifest.as_slice()
    }

    fn addr_details(&self, addr: u64) -> (r: Result<Option<AddrDetails>, Error>) {
        Ok(None)
    }
}

impl Module for MockModule {

}

} // verus!
