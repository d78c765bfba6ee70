use caphost::errors::HostError;
use caphost::errors::LinkError;
use caphost::host::Host;
use caphost::registry::CapabilityRegistry;

fn module(wat_text: &str) -> Vec<u8> {
    wat::parse_str(wat_text).expect("test module is well-formed")
}

fn adder_module() -> Vec<u8> {
    module(
        "(module\n\
           (func (export \"add\") (param i32 i32) (result i32)\n\
             local.get 0 local.get 1 i32.add))",
    )
}

fn counter_module() -> Vec<u8> {
    module(
        "(module\n\
           (global $g (mut i32) (i32.const 0))\n\
           (func (export \"set\") (param i32) local.get 0 global.set $g)\n\
           (func (export \"get\") (result i32) global.get $g))",
    )
}

#[test]
fn initialize_makes_exports_callable() {
    let mut host = Host::new();
    let h = host.create();
    host.initialize(h, "adder", &adder_module(), CapabilityRegistry::new()).expect("links");
    assert_eq!(host.invoke2_ret(h, "add", 19, 23), Ok(42));
}

#[test]
fn initialize_rejects_malformed_source() {
    let mut host = Host::new();
    let h = host.create();
    let err = host
        .initialize(h, "bad", &vec![1u8, 2, 3, 4], CapabilityRegistry::new())
        .unwrap_err();
    assert!(matches!(err, HostError::CompileError(_)));
}

#[test]
fn initialize_reports_the_first_unmet_import() {
    let source = module(
        "(module\n\
           (import \"render\" \"draw\" (func))\n\
           (import \"input\" \"poll\" (func)))",
    );
    let mut host = Host::new();
    let h = host.create();
    let err = host.initialize(h, "orphan", &source, CapabilityRegistry::new()).unwrap_err();
    assert_eq!(
        err,
        HostError::LinkError(LinkError::MissingNamespace("render".to_string()))
    );
}

#[test]
fn initialize_reports_a_missing_capability_by_both_names() {
    let source = module("(module (import \"a\" \"absent\" (func)))");
    let mut host = Host::new();
    let a = host.create();
    host.initialize(a, "a", &adder_module(), CapabilityRegistry::new()).expect("links");
    let exports = host.export_capability_module(a);
    let mut reg = CapabilityRegistry::new();
    reg.add_namespace("a".to_string(), exports);

    let h = host.create();
    let err = host.initialize(h, "wants_absent", &source, reg).unwrap_err();
    assert_eq!(
        err,
        HostError::LinkError(LinkError::MissingCapability(
            "a".to_string(),
            "absent".to_string()
        ))
    );
}

#[test]
fn get_export_fails_on_an_uninitialized_unit() {
    let mut host = Host::new();
    let h = host.create();
    let err = host.get_export(h, "anything").unwrap_err();
    assert_eq!(err, HostError::ExportNotFound("anything".to_string(), String::new()));
}

#[test]
fn get_export_names_the_missing_export_and_the_unit() {
    let mut host = Host::new();
    let h = host.create();
    host.initialize(h, "adder", &adder_module(), CapabilityRegistry::new()).expect("links");
    let err = host.get_export(h, "mul").unwrap_err();
    assert_eq!(err, HostError::ExportNotFound("mul".to_string(), "adder".to_string()));
}

#[test]
fn exported_capability_module_holds_exactly_the_function_exports() {
    let source = module(
        "(module\n\
           (func (export \"f1\"))\n\
           (func (export \"f2\") (result i32) i32.const 1)\n\
           (memory (export \"memory\") 1))",
    );
    let mut host = Host::new();
    let h = host.create();
    host.initialize(h, "mixed", &source, CapabilityRegistry::new()).expect("links");
    let exports = host.export_capability_module(h);
    assert_eq!(exports.names(), vec!["f1".to_string(), "f2".to_string()]);
    assert!(exports.contains(&"f1".to_string()));
    assert!(exports.contains(&"f2".to_string()));
    assert!(!exports.contains(&"memory".to_string()));
}

#[test]
fn composition_round_trip_observes_the_exporters_arithmetic() {
    let importer = module(
        "(module\n\
           (import \"a\" \"add\" (func $add (param i32 i32) (result i32)))\n\
           (func (export \"run\") (result i32)\n\
             i32.const 2 i32.const 3 call $add))",
    );
    let mut host = Host::new();
    let a = host.create();
    host.initialize(a, "a", &adder_module(), CapabilityRegistry::new()).expect("links");
    let mut reg = CapabilityRegistry::new();
    reg.add_namespace("a".to_string(), host.export_capability_module(a));

    let b = host.create();
    host.initialize(b, "b", &importer, reg).expect("links");
    assert_eq!(host.invoke0_ret(b, "run"), Ok(5));
}

#[test]
fn read_memory_matches_the_live_content_up_to_the_exact_size() {
    let source = module(
        "(module (memory (export \"memory\") 1) (data (i32.const 0) \"abc\"))",
    );
    let mut host = Host::new();
    let h = host.create();
    host.initialize(h, "mem", &source, CapabilityRegistry::new()).expect("links");

    assert_eq!(host.read_memory(h, 0, 3), Ok(b"abc".to_vec()));
    // One page is 65536 bytes; a range ending exactly at the size succeeds...
    assert_eq!(host.read_memory(h, 65533, 3), Ok(vec![0u8, 0, 0]));
    // ...and a range reaching one byte beyond it does not.
    assert_eq!(host.read_memory(h, 65534, 3), Err(HostError::OutOfBounds));
}

#[test]
fn read_memory_without_a_memory_export_fails() {
    let mut host = Host::new();
    let h = host.create();
    host.initialize(h, "adder", &adder_module(), CapabilityRegistry::new()).expect("links");
    assert_eq!(host.read_memory(h, 0, 1), Err(HostError::NoMemoryExport));
    let empty = host.create();
    assert_eq!(host.read_memory(empty, 0, 1), Err(HostError::NoMemoryExport));
}

#[test]
fn construct_allocates_dense_handles_in_order() {
    let template = counter_module();
    let mut host = Host::new();
    for expected in 0..3usize {
        assert_eq!(host.next_handle(), expected);
        let h = host
            .construct("counter", &template, CapabilityRegistry::new())
            .expect("template links");
        assert_eq!(h, expected);
    }
}

#[test]
fn invoke_forwards_to_the_unit_the_handle_names() {
    let template = counter_module();
    let mut host = Host::new();
    let h0 = host.construct("counter", &template, CapabilityRegistry::new()).unwrap();
    let h1 = host.construct("counter", &template, CapabilityRegistry::new()).unwrap();
    host.invoke1(h0, "set", 5).expect("forwarded");
    host.invoke1(h1, "set", 9).expect("forwarded");
    assert_eq!(host.invoke0_ret(h0, "get"), Ok(5));
    assert_eq!(host.invoke0_ret(h1, "get"), Ok(9));
}

#[test]
fn invoke_on_an_unallocated_handle_fails_with_invalid_handle() {
    let template = counter_module();
    let mut host = Host::new();
    let n = 2usize;
    for _ in 0..n {
        host.construct("counter", &template, CapabilityRegistry::new()).unwrap();
    }
    assert_eq!(host.invoke0(n, "get"), Err(HostError::InvalidHandle(n)));
    assert_eq!(
        host.invoke2_ret(n + 7, "get", 0, 0),
        Err(HostError::InvalidHandle(n + 7))
    );
}

#[test]
fn guest_exit_unwinds_the_call_with_the_guest_code() {
    let source = module(
        "(module\n\
           (import \"sys\" \"exit\" (func $exit (param i32)))\n\
           (func (export \"go\") i32.const 7 call $exit))",
    );
    let mut host = Host::new();
    let h = host.create();
    // The registry holds nothing: the system-call namespace alone links it.
    host.initialize(h, "quitter", &source, CapabilityRegistry::new()).expect("links");
    assert_eq!(host.invoke0(h, "go"), Err(HostError::GuestExit(7)));
    // The recorded code is taken by the failing call and does not leak into
    // a later one.
    let template = counter_module();
    let c = host.construct("counter", &template, CapabilityRegistry::new()).unwrap();
    assert_eq!(host.invoke0_ret(c, "get"), Ok(0));
}

#[test]
fn guest_exit_in_the_start_routine_surfaces_from_initialize() {
    let source = module(
        "(module\n\
           (import \"sys\" \"exit\" (func $exit (param i32)))\n\
           (func $boot i32.const 3 call $exit)\n\
           (start $boot))",
    );
    let mut host = Host::new();
    let h = host.create();
    let err = host.initialize(h, "early_quitter", &source, CapabilityRegistry::new()).unwrap_err();
    assert_eq!(err, HostError::GuestExit(3));
}

#[test]
fn a_trapping_start_routine_is_an_instantiation_error() {
    let source = module("(module (func $boot unreachable) (start $boot))");
    let mut host = Host::new();
    let h = host.create();
    let err = host.initialize(h, "trapper", &source, CapabilityRegistry::new()).unwrap_err();
    assert!(matches!(err, HostError::InstantiationError(_)));
}

#[test]
fn a_trapping_export_is_reported_as_a_trap() {
    let source = module("(module (func (export \"boom\") unreachable))");
    let mut host = Host::new();
    let h = host.create();
    host.initialize(h, "bomb", &source, CapabilityRegistry::new()).expect("links");
    assert!(matches!(host.invoke0(h, "boom"), Err(HostError::Trap(_))));
}

#[test]
fn invoke_trampolines_cover_the_fixed_arities() {
    let source = module(
        "(module\n\
           (global $acc (mut i32) (i32.const 0))\n\
           (func (export \"zero\"))\n\
           (func (export \"one\") (param i32)\n\
             local.get 0 global.set $acc)\n\
           (func (export \"two\") (param i32 i32)\n\
             local.get 0 local.get 1 i32.add global.set $acc)\n\
           (func (export \"three\") (param i32 i32 i32)\n\
             local.get 0 local.get 1 i32.add local.get 2 i32.add global.set $acc)\n\
           (func (export \"acc\") (result i32) global.get $acc))",
    );
    let mut host = Host::new();
    let h = host.create();
    host.initialize(h, "arities", &source, CapabilityRegistry::new()).expect("links");
    assert_eq!(host.invoke0(h, "zero"), Ok(()));
    host.invoke1(h, "one", 11).unwrap();
    assert_eq!(host.invoke0_ret(h, "acc"), Ok(11));
    host.invoke2(h, "two", 11, 22).unwrap();
    assert_eq!(host.invoke0_ret(h, "acc"), Ok(33));
    host.invoke3(h, "three", 11, 22, 33).unwrap();
    assert_eq!(host.invoke0_ret(h, "acc"), Ok(66));
}

#[test]
fn a_unit_reading_its_own_memory_through_composition() {
    // A unit that exposes its memory, and a peer that reaches that memory's
    // content through the first unit's exported accessor: composition wires
    // the exporter's functions into the importer's imports.
    let exporter = module(
        "(module\n\
           (memory (export \"memory\") 1)\n\
           (data (i32.const 8) \"\\2a\")\n\
           (func (export \"peek\") (param i32) (result i32)\n\
             local.get 0 i32.load8_u))",
    );
    let importer = module(
        "(module\n\
           (import \"peer\" \"peek\" (func $peek (param i32) (result i32)))\n\
           (func (export \"probe\") (result i32) i32.const 8 call $peek))",
    );
    let mut host = Host::new();
    let a = host.create();
    host.initialize(a, "exporter", &exporter, CapabilityRegistry::new()).expect("links");
    let mut reg = CapabilityRegistry::new();
    reg.add_namespace("peer".to_string(), host.export_capability_module(a));
    let b = host.create();
    host.initialize(b, "importer", &importer, reg).expect("links");
    assert_eq!(host.invoke0_ret(b, "probe"), Ok(42));
    assert_eq!(host.read_memory(a, 8, 1), Ok(vec![42u8]));
}
