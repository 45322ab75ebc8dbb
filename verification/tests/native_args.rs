//! The argument and return-value channel of a native invocation.

use bigfish::args::NativeArguments;
use bigfish::error::DartError;
use bigfish::runtime::{Runtime, RuntimeConfig, ScriptSource};
use bigfish::scope::Scope;
use bigfish::value::{FieldSlot, InstanceData, RawHandle, VmValue};

fn entered_scope() -> Scope {
    let mut runtime = Runtime::initialize(RuntimeConfig::new(5858, false)).unwrap();
    let script = ScriptSource {
        uri: "package:app/main.dart".to_owned(),
        functions: vec!["main".to_owned()],
        classes: vec![],
    };
    let mut isolate = runtime.load_script(&script, "pkg.json").unwrap();
    isolate.enter().unwrap()
}

#[test]
fn typed_accessors_read_the_arguments() {
    let mut scope = entered_scope();
    let s = scope.new_string("query").unwrap();
    let n = scope.new_integer(31).unwrap();
    let b = scope.new_boolean(true).unwrap();
    let args = NativeArguments::from_raw(vec![s.raw(), n.raw(), b.raw()], &scope);

    assert_eq!(args.get_arg_count(), 3);
    let s2 = args.get_string_arg(&scope, 0).unwrap();
    assert_eq!(s2.to_string_lossy(&scope).unwrap(), "query");
    assert_eq!(args.get_integer_arg(&scope, 1).unwrap(), 31);
    assert!(args.get_boolean_arg(&scope, 2).unwrap());

    assert!(matches!(
        args.get_integer_arg(&scope, 0),
        Err(DartError::Api(_))
    ));
    assert!(matches!(
        args.get_arg(&scope, 9),
        Err(DartError::Api(_))
    ));
}

#[test]
fn a_null_argument_reports_null_handle() {
    let scope = entered_scope();
    let args = NativeArguments::from_raw(vec![RawHandle::null()], &scope);
    assert!(matches!(args.get_arg(&scope, 0), Err(DartError::NullHandle)));
}

#[test]
fn an_error_argument_reports_the_api_error() {
    let mut scope = entered_scope();
    let raw = scope.new_api_error("bad argument");
    let args = NativeArguments::from_raw(vec![raw], &scope);
    match args.get_arg(&scope, 0) {
        Err(DartError::Api(m)) => assert_eq!(m, "bad argument"),
        other => panic!("expected Api error, got {:?}", other),
    }
}

#[test]
fn the_return_slot_keeps_the_last_write() {
    let mut scope = entered_scope();
    let a = scope.new_integer(1).unwrap();
    let b = scope.new_integer(2).unwrap();
    let mut args = NativeArguments::from_raw(vec![], &scope);
    assert_eq!(args.return_value().addr, 1);
    args.set_return_value(a);
    args.set_return_value(b);
    assert_eq!(args.return_value(), b.raw());
}

#[test]
fn typed_return_setters_allocate_the_value() {
    let mut scope = entered_scope();
    let mut args = NativeArguments::from_raw(vec![], &scope);
    args.set_int_return_value(&mut scope, 77);
    let h = scope.check(args.return_value()).unwrap();
    assert_eq!(h.to_i64(&scope).unwrap(), 77);
    args.set_bool_return_value(&mut scope, true);
    let h2 = scope.check(args.return_value()).unwrap();
    assert!(h2.to_bool(&scope).unwrap());
}

fn scope_with_native_backed_receiver() -> (Scope, RawHandle) {
    let mut scope = entered_scope();
    scope.objects.push(VmValue::Instance(InstanceData {
        class: "Device".to_owned(),
        fields: Vec::<FieldSlot>::new(),
        native_fields: vec![11, 22, 33],
        peer: None,
        finalizer: None,
    }));
    let raw = RawHandle {
        addr: scope.objects.len(),
    };
    (scope, raw)
}

#[test]
fn the_receiver_hands_out_its_first_native_field() {
    let (scope, raw) = scope_with_native_backed_receiver();
    let args = NativeArguments::from_raw(vec![raw], &scope);
    assert_eq!(args.get_native_receiver(&scope).unwrap(), 11);
}

#[test]
fn native_fields_fill_the_caller_buffer() {
    let (scope, raw) = scope_with_native_backed_receiver();
    let args = NativeArguments::from_raw(vec![raw], &scope);
    let mut out = vec![0i64; 2];
    args.get_native_fields_of_arg(&scope, 0, &mut out).unwrap();
    assert_eq!(out, vec![11, 22]);

    let mut too_many = vec![0i64; 4];
    assert!(matches!(
        args.get_native_fields_of_arg(&scope, 0, &mut too_many),
        Err(DartError::Api(_))
    ));
    assert_eq!(too_many, vec![0, 0, 0, 0]);
}
