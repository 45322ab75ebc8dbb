//! The acquire-release bracket over VM byte buffers.

use bigfish::error::DartError;
use bigfish::runtime::{Runtime, RuntimeConfig, ScriptSource};
use bigfish::scope::Scope;
use bigfish::typed_data::TypedDataView;

fn entered_scope() -> Scope {
    let mut runtime = Runtime::initialize(RuntimeConfig::new(5858, false)).unwrap();
    let script = ScriptSource {
        uri: "package:app/main.dart".to_owned(),
        functions: vec!["main".to_owned()],
        classes: vec![],
    };
    let mut isolate = runtime.load_script(&script, "pkg.json").unwrap();
    isolate.enter().unwrap()
}

#[test]
fn written_bytes_are_observed_after_release() {
    let mut scope = entered_scope();
    let buffer = scope.new_typed_data(16).unwrap();

    let mut view = TypedDataView::acquire(buffer, &mut scope).unwrap();
    assert_eq!(view.as_bytes().len(), 16);
    {
        let bytes = view.as_bytes_mut();
        for i in 0..16u8 {
            bytes[i as usize] = i;
        }
    }
    view.release(&mut scope).unwrap();

    let fresh = TypedDataView::acquire(buffer, &mut scope).unwrap();
    let expected: Vec<u8> = (0..16u8).collect();
    assert_eq!(fresh.as_bytes(), &expected);
    fresh.release(&mut scope).unwrap();
}

#[test]
fn a_second_acquisition_inside_the_bracket_is_refused() {
    let mut scope = entered_scope();
    let buffer = scope.new_typed_data(4).unwrap();
    let view = TypedDataView::acquire(buffer, &mut scope).unwrap();
    match TypedDataView::acquire(buffer, &mut scope) {
        Err(DartError::Api(m)) => assert_eq!(m, "typed data is already acquired"),
        Err(other) => panic!("expected Api error, got {:?}", other),
        Ok(_) => panic!("expected Api error, got a second view"),
    }
    view.release(&mut scope).unwrap();
    let reopened = TypedDataView::acquire(buffer, &mut scope).unwrap();
    reopened.release(&mut scope).unwrap();
}

#[test]
fn release_happens_once_even_on_an_error_path() {
    let mut scope = entered_scope();
    let buffer = scope.new_typed_data(2).unwrap();
    let outcome = (|| -> Result<(), DartError> {
        let mut view = TypedDataView::acquire(buffer, &mut scope)?;
        let failed = view.as_bytes_mut().len() != 99;
        if failed {
            view.release(&mut scope)?;
            return Err(DartError::NullHandle);
        }
        view.release(&mut scope)?;
        Ok(())
    })();
    assert!(outcome.is_err());
    let view = TypedDataView::acquire(buffer, &mut scope).unwrap();
    view.release(&mut scope).unwrap();
}

#[test]
fn acquiring_anything_but_typed_data_fails() {
    let mut scope = entered_scope();
    let n = scope.new_integer(3).unwrap();
    match TypedDataView::acquire(n, &mut scope) {
        Err(DartError::Api(m)) => assert_eq!(m, "Dart_TypedDataAcquireData expects typed data"),
        Err(other) => panic!("expected Api error, got {:?}", other),
        Ok(_) => panic!("expected Api error, got a view"),
    }
}

#[test]
fn handles_classify_typed_data() {
    let mut scope = entered_scope();
    let buffer = scope.new_typed_data(1).unwrap();
    assert!(buffer.is_typed_data(&scope));
    let n = scope.new_integer(3).unwrap();
    assert!(!n.is_typed_data(&scope));
}
