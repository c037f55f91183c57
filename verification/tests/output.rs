use lucet_core::module_data::{TrapCode, TrapSite};
use lucet_core::output::{function_manifest, FunctionSpec, OutputError, TrapSink};

const PROBE: &str = "lucet_probestack";

fn sink(name: &str, code_size: u32, n_sites: usize) -> TrapSink {
    TrapSink {
        name: name.to_string(),
        code_size,
        sites: (0..n_sites)
            .map(|i| TrapSite { offset: i as u32, code: TrapCode::StackOverflow })
            .collect(),
    }
}

#[test]
fn manifest_lists_every_sink_and_the_probe() {
    let sinks = vec![
        sink("guest_func_0", 100, 2),
        sink("guest_func_1", 50, 0),
        sink(PROBE, 40, 1),
    ];
    let entries = function_manifest(&sinks, PROBE, 40).unwrap();
    assert_eq!(entries.len(), 4);
    assert_eq!(entries[0].0, "guest_func_0");
    assert_eq!(
        entries[0].1,
        FunctionSpec { code_addr: 0, code_len: 100, traps_addr: 0, traps_len: 2 }
    );
    assert_eq!(entries[1].0, "guest_func_1");
    assert_eq!(
        entries[1].1,
        FunctionSpec { code_addr: 0, code_len: 50, traps_addr: 0, traps_len: 0 }
    );
    assert_eq!(entries[2].0, PROBE);
    assert_eq!(
        entries[2].1,
        FunctionSpec { code_addr: 0, code_len: 40, traps_addr: 0, traps_len: 1 }
    );
    // The final entry is the stack probe itself, with its trap count
    // taken from the sink bearing its symbol.
    assert_eq!(entries[3].0, PROBE);
    assert_eq!(
        entries[3].1,
        FunctionSpec { code_addr: 0, code_len: 40, traps_addr: 0, traps_len: 1 }
    );
}

#[test]
fn missing_probe_sink_is_an_error() {
    let sinks = vec![sink("guest_func_0", 100, 2)];
    let r = function_manifest(&sinks, PROBE, 40);
    assert_eq!(r, Err(OutputError::StackProbeSinkMissing));
}

#[test]
fn empty_sink_list_is_an_error() {
    let r = function_manifest(&Vec::new(), PROBE, 40);
    assert_eq!(r, Err(OutputError::StackProbeSinkMissing));
}

#[test]
fn first_sink_with_probe_symbol_wins() {
    let sinks = vec![sink(PROBE, 40, 3), sink(PROBE, 41, 5)];
    let entries = function_manifest(&sinks, PROBE, 40).unwrap();
    assert_eq!(entries.len(), 3);
    assert_eq!(entries[2].1.traps_len, 3);
}

#[test]
fn function_spec_new_keeps_its_fields() {
    let spec = FunctionSpec::new(0x1000, 64, 0x2000, 4);
    assert_eq!(
        spec,
        FunctionSpec { code_addr: 0x1000, code_len: 64, traps_addr: 0x2000, traps_len: 4 }
    );
}
