use minion::cache::{ModuleCache, Probe};
use minion::sandbox::run_module;

fn store_and_module(src: &str) -> (wasmer::Store, wasmer::Module) {
    let store = wasmer::Store::default();
    let bytes = wasmer::wat2wasm(src.as_bytes()).unwrap();
    let module = wasmer::Module::new(&store, bytes).unwrap();
    (store, module)
}

const RETURNS_ONE: &str = r#"(module (func (export "run") (result i32) i32.const 41))"#;

#[test]
fn fresh_cache_has_nothing() {
    let cache = ModuleCache::new();
    match cache.probe(&b"/m".to_vec()) {
        Probe::Absent => {}
        _ => panic!("expected nothing recorded"),
    }
}

#[test]
fn single_flight_marks_then_records_one_outcome() {
    let mut cache = ModuleCache::new();
    let uri = b"/m".to_vec();

    // The first of two racing requests begins the one fetch.
    cache.begin_fetch(&uri);
    // The second finds the mark and issues no fetch of its own.
    match cache.probe(&uri) {
        Probe::Pending => {}
        _ => panic!("expected the in-flight mark"),
    }

    // The one fetch completes; both requests observe the recorded module.
    let (mut store, module) = store_and_module(RETURNS_ONE);
    cache.complete(&uri, Some(module));
    for _ in 0..2 {
        match cache.probe(&uri) {
            Probe::Ready(m) => assert_eq!(run_module(&mut store, &m).unwrap(), vec![41]),
            _ => panic!("expected the recorded module"),
        }
    }
}

#[test]
fn failure_is_recorded_and_observed() {
    let mut cache = ModuleCache::new();
    let uri = b"/gone".to_vec();
    cache.begin_fetch(&uri);
    cache.complete(&uri, None);
    match cache.probe(&uri) {
        Probe::Failed => {}
        _ => panic!("expected the recorded failure"),
    }
}

#[test]
fn keys_are_compared_byte_for_byte() {
    let mut cache = ModuleCache::new();
    cache.begin_fetch(&b"/m".to_vec());
    cache.complete(&b"/m".to_vec(), None);
    match cache.probe(&b"/M".to_vec()) {
        Probe::Absent => {}
        _ => panic!("expected no normalization of keys"),
    }
    match cache.probe(&b"/m/".to_vec()) {
        Probe::Absent => {}
        _ => panic!("expected exact-length comparison"),
    }
}
