//! The validation gate: null pointers, error handles, valid handles.

use bigfish::error::DartError;
use bigfish::runtime::{Runtime, RuntimeConfig, ScriptSource};
use bigfish::scope::Scope;
use bigfish::value::{Handle, RawHandle};

fn entered_scope() -> Scope {
    let config = RuntimeConfig::new(5858, false);
    let mut runtime = Runtime::initialize(config).unwrap();
    let script = ScriptSource {
        uri: "package:app/main.dart".to_owned(),
        functions: vec!["main".to_owned()],
        classes: vec![],
    };
    let mut isolate = runtime
        .load_script(&script, "package_config.json")
        .unwrap();
    isolate.enter().unwrap()
}

#[test]
fn check_null_pointer_fails_with_null_handle() {
    let scope = entered_scope();
    let r = scope.check(RawHandle::null());
    assert!(matches!(r, Err(DartError::NullHandle)));
}

#[test]
fn check_error_handle_fails_with_api_message() {
    let mut scope = entered_scope();
    let raw = scope.new_api_error("something went wrong");
    match scope.check(raw) {
        Err(DartError::Api(m)) => assert_eq!(m, "something went wrong"),
        other => panic!("expected Api error, got {:?}", other),
    }
}

#[test]
fn check_valid_handle_returns_it_unchanged() {
    let mut scope = entered_scope();
    let h = scope.new_integer(7).unwrap();
    let again = scope.check(h.raw()).unwrap();
    assert_eq!(again.raw(), h.raw());
    let third = scope.check(again.raw()).unwrap();
    assert_eq!(third.raw(), h.raw());
}

#[test]
fn get_error_message_reads_the_diagnostic() {
    let mut scope = entered_scope();
    let raw = scope.new_api_error("boom");
    let h = Handle {
        ptr: raw,
        tag: scope.tag,
    };
    assert_eq!(h.get_error_message(&scope), "boom");
    let ok = scope.new_integer(1).unwrap();
    assert_eq!(ok.get_error_message(&scope), "<Dart_GetError returned null>");
}

#[test]
fn error_messages_are_exposed() {
    assert_eq!(
        DartError::NullHandle.message(),
        "dart api returned null handle"
    );
    assert_eq!(DartError::Api("text".to_owned()).message(), "text");
}
