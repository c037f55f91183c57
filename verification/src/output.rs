//! Assembly of the function manifest an object file carries: one
//! metadata record per compiled function that may trap.
//!
//! The compiler reports, per function, a trap sink — the function's
//! name, its code size and its trap sites.  The stack probe is defined
//! separately and after the manifest was first drawn up, so it gets an
//! explicit final entry; since the probe may trap, a sink bearing its
//! symbol must exist, and its site count is taken from there.

use vstd::prelude::*;

use crate::module_data::TrapSite;
use crate::util::str_eq;

verus! {

/// The record the function manifest stores for one compiled function:
/// where its code and its trap table live, and how large both are.
/// Addresses are zero until the object file is written and linked.
#[derive(Clone, Copy, Debug, PartialEq, Eq, Structural)]
pub struct FunctionSpec {
    pub code_addr: u64,
    pub code_len: u32,
    pub traps_addr: u64,
    pub traps_len: u64,
}

impl FunctionSpec {
    pub fn new(code_addr: u64, code_len: u32, traps_addr: u64, traps_len: u64) -> (r:
        FunctionSpec)
        ensures
            r == (FunctionSpec { code_addr, code_len, traps_addr, traps_len }),
    {
        FunctionSpec { code_addr, code_len, traps_addr, traps_len }
    }
}

/// What the code generator reports about one compiled function: its
/// symbol name, the size of its code, and its trap sites.
#[derive(Clone, Debug)]
pub struct TrapSink {
    pub name: String,
    pub code_size: u32,
    pub sites: Vec<TrapSite>,
}

/// Failure of the function-manifest assembly.
#[derive(Clone, Copy, Debug, PartialEq, Eq, Structural)]
pub enum OutputError {
    /// The stack probe may trap, so a trap sink bearing its symbol must
    /// exist; none did.
    StackProbeSinkMissing,
}

/// The manifest entry a trap sink stands for: its code size and its
/// site count, with the addresses still unknown.
pub open spec fn spec_sink_entry(s: TrapSink) -> FunctionSpec {
    FunctionSpec {
        code_addr: 0,
        code_len: s.code_size,
        traps_addr: 0,
        traps_len: s.sites@.len() as u64,
    }
}

/// The first trap sink bearing `name`, if any does.
pub open spec fn spec_find_sink(sinks: Seq<TrapSink>, name: Seq<char>) -> Option<TrapSink>
    decreases sinks.len(),
{
    if sinks.len() == 0 {
        None
    } else if sinks[0].name@ == name {
        Some(sinks[0])
    } else {
        spec_find_sink(sinks.skip(1), name)
    }
}

/// The number of trap sites of the first sink bearing `name`, or
/// nothing when no sink does.
fn find_sink_sites(sinks: &Vec<TrapSink>, name: &str) -> (r: Option<usize>)
    ensures
        match r {
            Some(len) => spec_find_sink(sinks@, name@) matches Some(s) && len == s.sites@.len(),
            None => spec_find_sink(sinks@, name@) is None,
        },
{
    let n: usize = sinks.len();
    proof {
        assert(sinks@.skip(0) =~= sinks@);
    }
    let mut j: usize = 0;
    while j < n
        invariant
            n == sinks@.len(),
            0 <= j <= n,
            spec_find_sink(sinks@.skip(j as int), name@) == spec_find_sink(sinks@, name@),
        decreases n - j,
    {
        proof {
            assert(sinks@.skip(j as int)[0] == sinks@[j as int]);
        }
        if str_eq(sinks[j].name.as_str(), name) {
            return Some(sinks[j].sites.len());
        }
        proof {
            assert(sinks@.skip(j as int).skip(1) =~= sinks@.skip(j as int + 1));
        }
        j = j + 1;
    }
    proof {
        assert(sinks@.skip(n as int) =~= Seq::<TrapSink>::empty());
    }
    None
}

/// Assemble the function manifest: one entry per reported trap sink, in
/// report order, and a final entry for the stack probe of `probe_len`
/// bytes of code, whose trap count comes from the sink bearing
/// `probe_sym`.  Fails, touching nothing, exactly when no sink bears
/// the probe's symbol.
pub fn function_manifest(sinks: &Vec<TrapSink>, probe_sym: &str, probe_len: u32) -> (r: Result<
    Vec<(String, FunctionSpec)>,
    OutputError,
>)
    ensures
        match r {
            Ok(entries) => {
                &&& spec_find_sink(sinks@, probe_sym@) is Some
                &&& entries@.len() == sinks@.len() + 1
                &&& forall|i: int|
                    0 <= i < sinks@.len() ==> (#[trigger] entries@[i]).0@ == sinks@[i].name@
                        && entries@[i].1 == spec_sink_entry(sinks@[i])
                &&& entries@[sinks@.len() as int].0@ == probe_sym@
                &&& entries@[sinks@.len() as int].1 == (FunctionSpec {
                    code_addr: 0,
                    code_len: probe_len,
                    traps_addr: 0,
                    traps_len: spec_find_sink(
                        sinks@,
                        probe_sym@,
                    ).unwrap().sites@.len() as u64,
                })
            },
            Err(e) => {
                &&& e == OutputError::StackProbeSinkMissing
                &&& spec_find_sink(sinks@, probe_sym@) is None
            },
        },
{
    let n: usize = sinks.len();
    // The probe's sink first: fail before assembling anything.
    let probe_traps_len: usize = match find_sink_sites(sinks, probe_sym) {
        Some(len) => len,
        None => {
            return Err(OutputError::StackProbeSinkMissing);
        },
    };
    let mut entries: Vec<(String, FunctionSpec)> = Vec::new();
    let mut i: usize = 0;
    while i < n
        invariant
            n == sinks@.len(),
            0 <= i <= n,
            entries@.len() == i,
            forall|k: int|
                0 <= k < i ==> (#[trigger] entries@[k]).0@ == sinks@[k].name@ && entries@[k].1
                    == spec_sink_entry(sinks@[k]),
        decreases n - i,
    {
        let name = sinks[i].name.clone();
        let spec = FunctionSpec::new(0, sinks[i].code_size, 0, sinks[i].sites.len() as u64);
        entries.push((name, spec));
        i = i + 1;
    }
    let probe_name = probe_sym.to_owned();
    entries.push((probe_name, FunctionSpec::new(0, probe_len, 0, probe_traps_len as u64)));
    Ok(entries)
}

} // verus!
