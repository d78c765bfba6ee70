use caphost::capability::CapabilityModule;
use caphost::errors::LinkError;
use caphost::registry::CapabilityRegistry;
use caphost::registry::ImportKey;

/// Mints callables told apart by the constant each returns.
fn tagged_funcs(store: &mut wasmtime::Store<()>, n: i32) -> Vec<wasmtime::Func> {
    (0..n).map(|k| wasmtime::Func::wrap(&mut *store, move || -> i32 { k })).collect()
}

fn tag_of(store: &mut wasmtime::Store<()>, f: wasmtime::Func) -> i32 {
    f.typed::<(), i32>(&*store).expect("tagged func").call(&mut *store, ()).expect("no trap")
}

fn fresh_store() -> wasmtime::Store<()> {
    wasmtime::Store::new(&wasmtime::Engine::default(), ())
}

fn key(ns: &str, name: &str) -> ImportKey {
    ImportKey { namespace: ns.to_string(), name: name.to_string() }
}

#[test]
fn resolve_succeeds_when_every_import_is_met() {
    let mut store = fresh_store();
    let fs = tagged_funcs(&mut store, 2);
    let mut render = CapabilityModule::new();
    render.add_func("draw".to_string(), fs[0]);
    render.add_func("clear".to_string(), fs[1]);
    let mut reg = CapabilityRegistry::new();
    reg.add_namespace("render".to_string(), render);

    let imports = vec![key("render", "clear"), key("render", "draw"), key("render", "clear")];
    let resolved = reg.resolve(&imports).expect("all imports are met");
    assert_eq!(resolved.len(), 3);
}

#[test]
fn resolve_is_positional_and_ordered() {
    let mut store = fresh_store();
    let fs = tagged_funcs(&mut store, 3);
    let mut m = CapabilityModule::new();
    m.add_func("a".to_string(), fs[0]);
    m.add_func("b".to_string(), fs[1]);
    m.add_func("c".to_string(), fs[2]);
    let mut reg = CapabilityRegistry::new();
    reg.add_namespace("ns".to_string(), m);

    let imports = vec![key("ns", "c"), key("ns", "a"), key("ns", "b")];
    let resolved = reg.resolve(&imports).expect("all imports are met");
    let tags: Vec<i32> = resolved.into_iter().map(|f| tag_of(&mut store, f)).collect();
    assert_eq!(tags, vec![2, 0, 1]);
}

#[test]
fn resolve_fails_on_a_missing_namespace() {
    let reg = CapabilityRegistry::new();
    let imports = vec![key("render", "draw")];
    let err = reg.resolve(&imports).unwrap_err();
    assert_eq!(err, LinkError::MissingNamespace("render".to_string()));
}

#[test]
fn resolve_fails_on_a_missing_capability() {
    let mut store = fresh_store();
    let fs = tagged_funcs(&mut store, 1);
    let mut render = CapabilityModule::new();
    render.add_func("draw".to_string(), fs[0]);
    let mut reg = CapabilityRegistry::new();
    reg.add_namespace("render".to_string(), render);

    let imports = vec![key("render", "draw"), key("render", "clear")];
    let err = reg.resolve(&imports).unwrap_err();
    assert_eq!(err, LinkError::MissingCapability("render".to_string(), "clear".to_string()));
}

#[test]
fn resolve_names_the_first_unmet_import_in_declared_order() {
    let mut store = fresh_store();
    let fs = tagged_funcs(&mut store, 1);
    let mut a = CapabilityModule::new();
    a.add_func("f".to_string(), fs[0]);
    let mut reg = CapabilityRegistry::new();
    reg.add_namespace("a".to_string(), a);

    // Both the second and the third import are unmet; the second, being
    // first in declared order, names the failure.
    let imports = vec![key("a", "f"), key("b", "g"), key("a", "nope")];
    let err = reg.resolve(&imports).unwrap_err();
    assert_eq!(err, LinkError::MissingNamespace("b".to_string()));
}

#[test]
fn resolve_of_no_imports_succeeds_on_any_registry() {
    let reg = CapabilityRegistry::new();
    let resolved = reg.resolve(&Vec::new()).expect("nothing to resolve");
    assert!(resolved.is_empty());
}

#[test]
fn module_lookup_follows_last_write_wins() {
    let mut store = fresh_store();
    let fs = tagged_funcs(&mut store, 2);
    let mut m = CapabilityModule::new();
    m.add_func("f".to_string(), fs[0]);
    m.add_func("f".to_string(), fs[1]);
    let winner = m.lookup(&"f".to_string()).expect("name is bound");
    assert_eq!(tag_of(&mut store, winner), 1);
    assert!(m.lookup(&"g".to_string()).is_none());
}

#[test]
fn registry_namespace_follows_last_write_wins() {
    let mut store = fresh_store();
    let fs = tagged_funcs(&mut store, 2);
    let mut first = CapabilityModule::new();
    first.add_func("only_in_first".to_string(), fs[0]);
    let mut second = CapabilityModule::new();
    second.add_func("only_in_second".to_string(), fs[1]);
    let mut reg = CapabilityRegistry::new();
    reg.add_namespace("ns".to_string(), first);
    reg.add_namespace("ns".to_string(), second);

    assert!(reg.resolve(&vec![key("ns", "only_in_second")]).is_ok());
    let err = reg.resolve(&vec![key("ns", "only_in_first")]).unwrap_err();
    assert_eq!(err, LinkError::MissingCapability("ns".to_string(), "only_in_first".to_string()));
}

#[test]
fn module_from_vec_matches_incremental_build() {
    let mut store = fresh_store();
    let fs = tagged_funcs(&mut store, 2);
    let m = CapabilityModule::from_vec(vec![("x".to_string(), fs[0]), ("y".to_string(), fs[1])]);
    assert!(m.contains(&"x".to_string()));
    assert!(m.contains(&"y".to_string()));
    assert!(!m.contains(&"z".to_string()));
    assert_eq!(m.names(), vec!["x".to_string(), "y".to_string()]);
}
