//! The end-to-end scenario: initialize, load, enter, invoke.

use bigfish::error::DartError;
use bigfish::runtime::{Runtime, RuntimeConfig, ScriptSource};

#[test]
fn initialize_load_enter_invoke() {
    let config = RuntimeConfig::new(5858, false);
    let mut runtime = Runtime::initialize(config).unwrap();
    assert_eq!(runtime.service_port, 5858);
    assert!(!runtime.start_service_isolate);

    let script = ScriptSource {
        uri: "package:app/main.dart".to_owned(),
        functions: vec!["main".to_owned()],
        classes: vec![],
    };
    let mut isolate = runtime.load_script(&script, "pkg.json").unwrap();
    let mut scope = isolate.enter().unwrap();

    let library = scope.library("package:app/main.dart").unwrap();
    let result = scope.invoke(library, "main", &vec![]).unwrap();
    assert!(result.is_null(&scope));

    match scope.invoke(library, "definitely_not_there", &vec![]) {
        Err(DartError::Api(m)) => assert_eq!(m, "NoSuchMethod: definitely_not_there"),
        other => panic!("expected Api error, got {:?}", other),
    }

    let drained = runtime.drain_microtask_queue(&scope).unwrap();
    assert!(drained.is_null(&scope));

    scope.exit(&mut isolate);
    isolate.shutdown();
}

#[test]
fn unknown_library_url_is_not_found() {
    let mut runtime = Runtime::initialize(RuntimeConfig::new(5858, false)).unwrap();
    let script = ScriptSource {
        uri: "package:app/main.dart".to_owned(),
        functions: vec!["main".to_owned()],
        classes: vec![],
    };
    let mut isolate = runtime.load_script(&script, "pkg.json").unwrap();
    let mut scope = isolate.enter().unwrap();
    match scope.library("package:elsewhere/other.dart") {
        Err(DartError::Api(m)) => assert_eq!(m, "Dart_LookupLibrary returned null library"),
        other => panic!("expected Api error, got {:?}", other),
    }
}

#[test]
fn each_isolate_gets_a_fresh_id() {
    let mut runtime = Runtime::initialize(RuntimeConfig::new(5858, false)).unwrap();
    let script = ScriptSource {
        uri: "package:app/main.dart".to_owned(),
        functions: vec!["main".to_owned()],
        classes: vec![],
    };
    let a = runtime.load_script(&script, "pkg.json").unwrap();
    let b = runtime.load_script(&script, "pkg.json").unwrap();
    assert_ne!(a.id, b.id);
}
