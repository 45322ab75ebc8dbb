//! Construct-then-read round trips for the primitive value kinds.

use bigfish::error::DartError;
use bigfish::runtime::{Runtime, RuntimeConfig, ScriptSource};
use bigfish::scope::Scope;

fn entered_scope() -> Scope {
    let mut runtime = Runtime::initialize(RuntimeConfig::new(5858, false)).unwrap();
    let script = ScriptSource {
        uri: "package:app/main.dart".to_owned(),
        functions: vec!["main".to_owned()],
        classes: vec![],
    };
    let mut isolate = runtime.load_script(&script, "pkg.json").unwrap();
    isolate.enter().unwrap()
}

#[test]
fn string_round_trip() {
    let mut scope = entered_scope();
    let h = scope.new_string("x").unwrap();
    assert_eq!(h.to_string_lossy(&scope).unwrap(), "x");
}

#[test]
fn longer_string_round_trip() {
    let mut scope = entered_scope();
    let h = scope.new_string("hello, world").unwrap();
    assert_eq!(h.to_string_lossy(&scope).unwrap(), "hello, world");
    assert!(h.is_string(&scope));
    assert!(!h.is_integer(&scope));
}

#[test]
fn string_utf8_bytes() {
    let mut scope = entered_scope();
    let h = scope.new_string("xy").unwrap();
    assert_eq!(h.to_utf8(&scope).unwrap(), b"xy".to_vec());
}

#[test]
fn string_with_interior_nul_is_refused() {
    let mut scope = entered_scope();
    match scope.new_string("a\0b") {
        Err(DartError::Api(m)) => assert_eq!(m, "string contained interior NUL"),
        other => panic!("expected Api error, got {:?}", other),
    }
}

#[test]
fn integer_round_trip() {
    let mut scope = entered_scope();
    let h = scope.new_integer(-42).unwrap();
    assert_eq!(h.to_i64(&scope).unwrap(), -42);
    assert!(h.is_integer(&scope));
}

#[test]
fn unsigned_read_rejects_negative_integers() {
    let mut scope = entered_scope();
    let pos = scope.new_integer(42).unwrap();
    assert_eq!(pos.to_u64(&scope).unwrap(), 42);
    let neg = scope.new_integer(-1).unwrap();
    assert!(matches!(neg.to_u64(&scope), Err(DartError::Api(_))));
}

#[test]
fn boolean_round_trip() {
    let mut scope = entered_scope();
    let t = scope.new_boolean(true).unwrap();
    let f = scope.new_boolean(false).unwrap();
    assert!(t.to_bool(&scope).unwrap());
    assert!(!f.to_bool(&scope).unwrap());
    assert!(t.is_boolean(&scope));
}

#[test]
fn type_mismatched_read_fails() {
    let mut scope = entered_scope();
    let n = scope.new_integer(1).unwrap();
    assert!(matches!(n.to_bool(&scope), Err(DartError::Api(_))));
    assert!(matches!(n.to_string_lossy(&scope), Err(DartError::Api(_))));
    let s = scope.new_string("a").unwrap();
    assert!(matches!(s.to_i64(&scope), Err(DartError::Api(_))));
}

#[test]
fn null_handle_refers_to_the_null_object() {
    let scope = entered_scope();
    let h = scope.null_handle().unwrap();
    assert!(h.is_null(&scope));
    let free = bigfish::scope::null_handle(&scope);
    assert!(free.is_null(&scope));
    assert!(h.identity_equals(free));
}
