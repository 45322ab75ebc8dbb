//! The engine facade: bundle start-up, guards and the wrapper types.

use bigfish::engine::{DartEngine, DartHandle, DartIsolateGuard, DartObjectComparison, DartString};
use bigfish::error::DartError;
use bigfish::runtime::ScriptSource;

fn tick_script() -> ScriptSource {
    ScriptSource {
        uri: "package:app/main.dart".to_owned(),
        functions: vec!["main".to_owned(), "tick".to_owned()],
        classes: vec!["MyClass".to_owned()],
    }
}

#[test]
fn the_engine_loads_a_script_and_ticks() {
    let mut engine = DartEngine::new(&tick_script(), "pkg.json", false).unwrap();
    assert_eq!(engine.runtime.service_port, 5858);

    let isolate = engine.isolate();
    let mut guard = isolate.enter().unwrap();
    let result = guard.invoke("tick", &vec![]).unwrap();
    let scope = &guard.scope;
    assert!(result.is_null(scope));
    match guard.invoke("absent", &vec![]) {
        Err(DartError::Api(m)) => assert_eq!(m, "NoSuchMethod: absent"),
        other => panic!("expected Api error, got {:?}", other),
    }
    guard.drain_microtask_queue();
    guard.exit(isolate);
    isolate.inner.shutdown();
}

#[test]
fn guards_refuse_a_second_entry() {
    let mut engine = DartEngine::new(&tick_script(), "pkg.json", false).unwrap();
    let isolate = engine.isolate();
    let guard = DartIsolateGuard::new(isolate).unwrap();
    assert!(matches!(
        DartIsolateGuard::new(isolate),
        Err(DartError::Api(_))
    ));
    guard.exit(isolate);
}

#[test]
fn strings_and_classification_through_the_facade() {
    let mut engine = DartEngine::new(&tick_script(), "pkg.json", true).unwrap();
    assert!(engine.runtime.start_service_isolate);
    let isolate = engine.isolate();
    let mut guard = isolate.enter().unwrap();

    let ds = DartString::new(&mut guard.scope, "facade");
    let dh = DartHandle::new(ds.handle());
    assert!(dh.is_string(&guard.scope));
    assert!(!dh.is_integer(&guard.scope));
    assert!(dh.is_instance(&guard.scope));

    let back = DartString::from_handle(DartHandle::new(ds.handle()), &guard.scope).unwrap();
    assert_eq!(back.handle().to_string_lossy(&guard.scope).unwrap(), "facade");

    let n = guard.scope.new_integer(2).unwrap();
    assert!(matches!(
        DartString::from_handle(DartHandle::new(n), &guard.scope),
        Err(DartError::Api(_))
    ));

    let lib = guard.library;
    assert!(DartHandle::new(lib).is_library(&guard.scope));
    assert!(!DartHandle::new(lib).is_instance(&guard.scope));
    guard.exit(isolate);
}

#[test]
fn facade_comparisons_report_all_three_verdicts() {
    let mut engine = DartEngine::new(&tick_script(), "pkg.json", false).unwrap();
    let isolate = engine.isolate();
    let mut guard = isolate.enter().unwrap();

    let a = DartHandle::new(guard.scope.new_integer(1).unwrap());
    let b = DartHandle::new(guard.scope.new_integer(1).unwrap());
    let c = DartHandle::new(guard.scope.new_integer(2).unwrap());
    assert_eq!(a.object_equals(&b, &guard.scope), DartObjectComparison::Equal);
    assert_eq!(
        a.object_equals(&c, &guard.scope),
        DartObjectComparison::NotEqual
    );

    let lib = DartHandle::new(guard.library);
    assert_eq!(
        a.object_equals(&lib, &guard.scope),
        DartObjectComparison::CannotCompare
    );
    assert!(a.identity_equals(&a));
    assert!(!a.identity_equals(&b));
    guard.exit(isolate);
}

#[test]
fn facade_type_queries_use_the_class_objects() {
    let mut engine = DartEngine::new(&tick_script(), "pkg.json", false).unwrap();
    let isolate = engine.isolate();
    let mut guard = isolate.enter().unwrap();

    let library = guard.library;
    let class = guard.scope.get_class(library, "MyClass").unwrap();
    let ctor = guard.scope.new_string("").unwrap();
    let obj = guard.scope.new_object(class, ctor, &vec![]).unwrap();

    let dh = DartHandle::new(obj);
    let ty = dh.instance_get_type(&mut guard.scope).unwrap();
    assert!(ty.is_type(&guard.scope));
    assert!(dh.object_is_type(&ty, &guard.scope));

    let name = ty.class_name(&mut guard.scope).unwrap();
    assert_eq!(
        name.handle().to_string_lossy(&guard.scope).unwrap(),
        "MyClass"
    );

    let other = DartHandle::new(guard.scope.new_integer(1).unwrap());
    assert!(!other.object_is_type(&ty, &guard.scope));
    assert!(other.is_number(&guard.scope));
    guard.exit(isolate);
}
