//! Persistent handles: the one handle kind that crosses scope boundaries.

use bigfish::error::DartError;
use bigfish::persistent::PersistentHandle;
use bigfish::runtime::{Isolate, Runtime, RuntimeConfig, ScriptSource};

fn loaded_isolate() -> Isolate {
    let mut runtime = Runtime::initialize(RuntimeConfig::new(5858, false)).unwrap();
    let script = ScriptSource {
        uri: "package:app/main.dart".to_owned(),
        functions: vec!["main".to_owned(), "on_tick".to_owned()],
        classes: vec![],
    };
    runtime.load_script(&script, "pkg.json").unwrap()
}

#[test]
fn a_stored_callback_survives_its_scope_and_runs_later() {
    let mut isolate = loaded_isolate();

    let mut scope1 = isolate.enter().unwrap();
    let library = scope1.library("package:app/main.dart").unwrap();
    let name = scope1.new_string("on_tick").unwrap();
    let closure = library.get_field(&mut scope1, name).unwrap();
    assert!(closure.is_closure(&scope1));
    let stored = PersistentHandle::new(closure, &scope1).unwrap();
    scope1.exit(&mut isolate);

    let mut scope2 = isolate.enter().unwrap();
    let result = stored.invoke(&mut scope2, &vec![]).unwrap();
    assert!(result.is_null(&scope2));
    scope2.exit(&mut isolate);
}

#[test]
fn invoking_anything_but_a_closure_fails() {
    let mut isolate = loaded_isolate();
    let mut scope = isolate.enter().unwrap();
    let n = scope.new_integer(5).unwrap();
    let p = PersistentHandle::new(n, &scope).unwrap();
    assert_eq!(p.raw(), n.raw());
    match p.invoke(&mut scope, &vec![]) {
        Err(DartError::Api(m)) => assert_eq!(m, "Dart_InvokeClosure expects a closure"),
        other => panic!("expected Api error, got {:?}", other),
    }
}

#[test]
fn a_persistent_handle_stays_with_its_isolate() {
    let mut runtime = Runtime::initialize(RuntimeConfig::new(5858, false)).unwrap();
    let script = ScriptSource {
        uri: "package:app/main.dart".to_owned(),
        functions: vec!["main".to_owned()],
        classes: vec![],
    };
    let mut a = runtime.load_script(&script, "pkg.json").unwrap();
    let mut b = runtime.load_script(&script, "pkg.json").unwrap();

    let mut scope_a = a.enter().unwrap();
    let n = scope_a.new_integer(5).unwrap();
    let p = PersistentHandle::new(n, &scope_a).unwrap();
    scope_a.exit(&mut a);

    let mut scope_b = b.enter().unwrap();
    assert!(matches!(
        p.invoke(&mut scope_b, &vec![]),
        Err(DartError::Api(_))
    ));
    scope_b.exit(&mut b);
}

#[test]
fn promotion_of_a_stale_handle_is_refused() {
    let mut isolate = loaded_isolate();
    let mut scope1 = isolate.enter().unwrap();
    let n = scope1.new_integer(5).unwrap();
    scope1.exit(&mut isolate);
    let scope2 = isolate.enter().unwrap();
    assert!(matches!(
        PersistentHandle::new(n, &scope2),
        Err(DartError::Api(_))
    ));
}
