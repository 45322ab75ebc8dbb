//! Classes, instances, fields, peers, lists and comparisons.

use bigfish::error::DartError;
use bigfish::list::List;
use bigfish::runtime::{Runtime, RuntimeConfig, ScriptSource};
use bigfish::scope::Scope;
use bigfish::value::Handle;

fn entered_scope() -> Scope {
    let mut runtime = Runtime::initialize(RuntimeConfig::new(5858, false)).unwrap();
    let script = ScriptSource {
        uri: "package:app/main.dart".to_owned(),
        functions: vec!["main".to_owned()],
        classes: vec!["MyClass".to_owned()],
    };
    let mut isolate = runtime.load_script(&script, "pkg.json").unwrap();
    isolate.enter().unwrap()
}

fn fresh_instance(scope: &mut Scope) -> Handle {
    let library = scope.library("package:app/main.dart").unwrap();
    let class = scope.get_class(library, "MyClass").unwrap();
    let ctor = scope.new_string("").unwrap();
    scope.new_object(class, ctor, &vec![]).unwrap()
}

#[test]
fn class_lookup_and_construction() {
    let mut scope = entered_scope();
    let library = scope.library("package:app/main.dart").unwrap();
    assert!(matches!(
        scope.get_class(library, "NotAClass"),
        Err(DartError::Api(_))
    ));
    let class = scope.get_class(library, "MyClass").unwrap();
    let ctor = scope.new_string("").unwrap();
    let obj = scope.new_object(class, ctor, &vec![]).unwrap();

    let ty = obj.instance_get_type(&mut scope).unwrap();
    let name = ty.class_name(&mut scope).unwrap();
    assert_eq!(name.to_string_lossy(&scope).unwrap(), "MyClass");
    assert!(obj.object_is_type(ty, &scope).unwrap());
}

#[test]
fn fields_are_written_and_read_back() {
    let mut scope = entered_scope();
    let obj = fresh_instance(&mut scope);
    let name = scope.new_string("count").unwrap();
    let value = scope.new_integer(12).unwrap();
    obj.set_field(&mut scope, name, &value);
    let read = obj.get_field(&mut scope, name).unwrap();
    assert_eq!(read.to_i64(&scope).unwrap(), 12);

    let absent = scope.new_string("missing").unwrap();
    assert!(matches!(
        obj.get_field(&mut scope, absent),
        Err(DartError::NullHandle)
    ));
}

#[test]
fn peers_attach_native_payloads_to_instances() {
    let mut scope = entered_scope();
    let obj = fresh_instance(&mut scope);
    assert!(matches!(obj.get_peer(&scope), Err(DartError::NullHandle)));
    obj.set_peer(&mut scope, 0xBEEF);
    assert_eq!(obj.get_peer(&scope).unwrap(), 0xBEEF);
    obj.new_finalizable_handle(&mut scope, 0xBEEF);
    let n = scope.new_integer(4).unwrap();
    assert!(matches!(n.get_peer(&scope), Err(DartError::Api(_))));
}

#[test]
fn object_equality_follows_the_value_kinds() {
    let mut scope = entered_scope();
    let a = scope.new_integer(3).unwrap();
    let b = scope.new_integer(3).unwrap();
    let c = scope.new_integer(4).unwrap();
    assert!(a.object_equals(b, &scope).unwrap());
    assert!(!a.object_equals(c, &scope).unwrap());
    assert!(!a.identity_equals(b));
    assert!(a.identity_equals(a));

    let s1 = scope.new_string("eq").unwrap();
    let s2 = scope.new_string("eq").unwrap();
    assert!(s1.object_equals(s2, &scope).unwrap());
    assert!(!s1.object_equals(a, &scope).unwrap());

    let o1 = fresh_instance(&mut scope);
    let o2 = fresh_instance(&mut scope);
    assert!(!o1.object_equals(o2, &scope).unwrap());
    assert!(o1.object_equals(o1, &scope).unwrap());

    let buf = scope.new_typed_data(1).unwrap();
    assert!(matches!(
        buf.object_equals(a, &scope),
        Err(DartError::Api(_))
    ));
}

#[test]
fn lists_hold_and_return_their_elements() {
    let mut scope = entered_scope();
    let raw_list = scope.new_list(3).unwrap();
    let list = List::new(&scope, raw_list).unwrap();
    assert_eq!(list.len(&scope).unwrap(), 3);

    let first = list.get(&scope, 0).unwrap();
    assert!(first.is_null(&scope));

    let v = scope.new_integer(9).unwrap();
    list.set(&mut scope, 1, v).unwrap();
    let read = list.get(&scope, 1).unwrap();
    assert_eq!(read.to_i64(&scope).unwrap(), 9);

    assert!(matches!(list.get(&scope, 3), Err(DartError::Api(_))));
    assert!(matches!(
        list.set(&mut scope, 3, v),
        Err(DartError::Api(_))
    ));

    let n = scope.new_integer(1).unwrap();
    assert!(matches!(List::new(&scope, n), Err(DartError::Api(_))));
}

#[test]
fn closures_carry_their_function_name() {
    let mut scope = entered_scope();
    let library = scope.library("package:app/main.dart").unwrap();
    let name = scope.new_string("main").unwrap();
    let closure = library.get_field(&mut scope, name).unwrap();
    assert!(closure.is_closure(&scope));
    let fname = closure.function_name(&mut scope).unwrap();
    assert_eq!(fname.to_string_lossy(&scope).unwrap(), "main");

    let n = scope.new_integer(1).unwrap();
    assert!(matches!(
        n.function_name(&mut scope),
        Err(DartError::Api(_))
    ));
}

#[test]
fn primitive_values_report_their_builtin_types() {
    let mut scope = entered_scope();
    let n = scope.new_integer(1).unwrap();
    let ty = n.instance_get_type(&mut scope).unwrap();
    let name = ty.class_name(&mut scope).unwrap();
    assert_eq!(name.to_string_lossy(&scope).unwrap(), "int");

    let s = scope.new_string("a").unwrap();
    let ty2 = s.instance_get_type(&mut scope).unwrap();
    let name2 = ty2.class_name(&mut scope).unwrap();
    assert_eq!(name2.to_string_lossy(&scope).unwrap(), "String");
    assert!(s.object_is_type(ty2, &scope).unwrap());
    assert!(!n.object_is_type(ty2, &scope).unwrap());
}
