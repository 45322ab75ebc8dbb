//! The isolate lifecycle and the scope-bounded validity of handles.

use bigfish::error::DartError;
use bigfish::runtime::{Isolate, Runtime, RuntimeConfig, ScriptSource};

fn loaded_isolate() -> Isolate {
    let mut runtime = Runtime::initialize(RuntimeConfig::new(5858, false)).unwrap();
    let script = ScriptSource {
        uri: "package:app/main.dart".to_owned(),
        functions: vec!["main".to_owned()],
        classes: vec![],
    };
    runtime.load_script(&script, "pkg.json").unwrap()
}

#[test]
fn shutdown_twice_is_a_no_op_the_second_time() {
    let mut isolate = loaded_isolate();
    isolate.shutdown();
    assert!(isolate.shut_down);
    isolate.shutdown();
    assert!(isolate.shut_down);
}

#[test]
fn enter_after_shutdown_fails() {
    let mut isolate = loaded_isolate();
    isolate.shutdown();
    assert!(matches!(isolate.enter(), Err(DartError::Api(_))));
}

#[test]
fn entering_twice_without_an_exit_fails() {
    let mut isolate = loaded_isolate();
    let scope = isolate.enter().unwrap();
    assert!(matches!(isolate.enter(), Err(DartError::Api(_))));
    scope.exit(&mut isolate);
    assert!(isolate.enter().is_ok());
}

#[test]
fn a_handle_is_rejected_after_its_scope_exits() {
    let mut isolate = loaded_isolate();
    let mut scope1 = isolate.enter().unwrap();
    let h = scope1.new_string("short lived").unwrap();
    assert!(h.is_string(&scope1));
    scope1.exit(&mut isolate);

    let scope2 = isolate.enter().unwrap();
    assert!(!h.is_string(&scope2));
    match h.to_string_lossy(&scope2) {
        Err(DartError::Api(m)) => assert_eq!(m, "handle used outside its scope"),
        other => panic!("expected the stale-handle error, got {:?}", other),
    }
}

#[test]
fn objects_persist_across_scopes_and_revalidate() {
    let mut isolate = loaded_isolate();
    let mut scope1 = isolate.enter().unwrap();
    let h = scope1.new_string("durable").unwrap();
    let raw = h.raw();
    scope1.exit(&mut isolate);

    let scope2 = isolate.enter().unwrap();
    let again = scope2.check(raw).unwrap();
    assert_eq!(again.to_string_lossy(&scope2).unwrap(), "durable");
}
