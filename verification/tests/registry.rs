//! The native-function registry: append-only, first match wins.

use bigfish::registry::{native_resolver, NativeFunction, NativeRegistry};
use bigfish::runtime::{Runtime, RuntimeConfig, ScriptSource};
use bigfish::scope::Scope;

fn entered_scope() -> Scope {
    let mut runtime = Runtime::initialize(RuntimeConfig::new(5858, false)).unwrap();
    let script = ScriptSource {
        uri: "package:app/main.dart".to_owned(),
        functions: vec!["main".to_owned()],
        classes: vec![],
    };
    let mut isolate = runtime.load_script(&script, "pkg.json").unwrap();
    isolate.enter().unwrap()
}

#[test]
fn lookup_finds_registered_names() {
    let mut reg = NativeRegistry::new();
    reg.register(NativeFunction::new("a".to_owned(), 10));
    reg.register(NativeFunction::new("b".to_owned(), 20));
    assert_eq!(reg.resolve("a"), Some(10));
    assert_eq!(reg.resolve("b"), Some(20));
    assert_eq!(reg.resolve("c"), None);
}

#[test]
fn reregistering_a_name_never_replaces_the_first_binding() {
    let mut reg = NativeRegistry::new();
    reg.register(NativeFunction::new("a".to_owned(), 10));
    reg.register(NativeFunction::new("a".to_owned(), 99));
    assert_eq!(reg.resolve("a"), Some(10));
}

#[test]
fn resolver_converts_the_name_handle_and_scans() {
    let mut scope = entered_scope();
    let mut reg = NativeRegistry::new();
    reg.register(NativeFunction::new("hello".to_owned(), 7));
    let name = scope.new_string("hello").unwrap();
    assert_eq!(native_resolver(&scope, name, &reg), Some(7));
    let missing = scope.new_string("nope").unwrap();
    assert_eq!(native_resolver(&scope, missing, &reg), None);
    let not_a_string = scope.new_integer(3).unwrap();
    assert_eq!(native_resolver(&scope, not_a_string, &reg), None);
}

#[test]
fn resolver_is_installed_per_library() {
    let mut scope = entered_scope();
    let lib = scope.library("package:app/main.dart").unwrap();
    scope.set_native_resolver(lib, 42);
}
