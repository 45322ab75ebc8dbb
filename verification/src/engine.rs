//! A higher-level facade over runtime, isolate and scope.
//!
//! The engine bundles VM start-up and script loading, runs the script's
//! `main` once, and hands out guards that pair an entered scope with the
//! root library, so callers invoke top-level functions without holding the
//! lower-level pieces themselves.

use vstd::prelude::*;

use crate::error::{is_api_err, DartError};
use crate::runtime::{Isolate, Runtime, RuntimeConfig, ScriptSource};
use crate::scope::{stale_msg, str_has_nul, Scope};
use crate::value::{
    class_of, next_handle, spec_object_equals, Handle, LibraryV, RawHandle, ScopeTag, VmVal,
    VmValue,
};

verus! {

/// The verdict of a VM-level value comparison: equal, unequal, or not
/// comparable by the VM at all.
#[derive(Clone, Copy, PartialEq, Eq, Structural, Debug)]
pub enum DartObjectComparison {
    Equal,
    NotEqual,
    CannotCompare,
}

/// A bare wrapper around a handle, carrying the facade's comparison and
/// classification operations.
pub struct DartHandle(pub Handle);

impl DartHandle {
    pub fn new(handle: Handle) -> (r: DartHandle)
        ensures
            r.0 == handle,
    {
        DartHandle(handle)
    }

    /// Object identity of the two referents.
    pub fn identity_equals(&self, other: &DartHandle) -> (r: bool)
        ensures
            r == (self.0.ptr == other.0.ptr),
    {
        self.0.identity_equals(other.0)
    }

    /// VM-level value comparison; where the VM cannot decide, the verdict
    /// is `CannotCompare` rather than an error.
    pub fn object_equals(&self, other: &DartHandle, scope: &Scope) -> (r: DartObjectComparison)
        requires
            scope.wf(),
        ensures
            !(scope.valid(self.0) && scope.valid(other.0)) ==> r
                == DartObjectComparison::CannotCompare,
            scope.valid(self.0) && scope.valid(other.0) ==> match spec_object_equals(
                scope@,
                self.0,
                other.0,
            ) {
                Some(true) => r == DartObjectComparison::Equal,
                Some(false) => r == DartObjectComparison::NotEqual,
                None => r == DartObjectComparison::CannotCompare,
            },
    {
        match self.0.object_equals(other.0, scope) {
            Ok(true) => DartObjectComparison::Equal,
            Ok(false) => DartObjectComparison::NotEqual,
            Err(_) => DartObjectComparison::CannotCompare,
        }
    }

    /// Whether this object is of the type `type_` names; every failure is
    /// folded into `false`.
    pub fn object_is_type(&self, type_: &DartHandle, scope: &Scope) -> (r: bool)
        requires
            scope.wf(),
        ensures
            !(scope.valid(self.0) && scope.valid(type_.0)) ==> !r,
            scope.valid(self.0) && scope.valid(type_.0) && !(scope.obj(type_.0) is Class) ==> !r,
            scope.obj(type_.0) matches VmVal::Class(c) ==> (scope.valid(self.0) && scope.valid(
                type_.0,
            )) ==> r == (match class_of(scope.obj(self.0)) {
                Some(k) => k == c,
                None => false,
            }),
    {
        match self.0.object_is_type(type_.0, scope) {
            Ok(b) => b,
            Err(_) => false,
        }
    }

    /// The referent is an instance value rather than a library, a type or
    /// an error.
    pub fn is_instance(&self, scope: &Scope) -> (r: bool)
        ensures
            r == (scope.valid(self.0) && !(scope.obj(self.0) is Library) && !(scope.obj(self.0)
                is Class) && !(scope.obj(self.0) is ErrorVal)),
    {
        scope.is_live(self.0) && match &scope.objects[self.0.ptr.addr - 1] {
            VmValue::Library(_) => false,
            VmValue::Class(_) => false,
            VmValue::ErrorVal(_) => false,
            _ => true,
        }
    }

    /// The referent is a number.  The model's numbers are its integers.
    pub fn is_number(&self, scope: &Scope) -> (r: bool)
        ensures
            r == (scope.valid(self.0) && scope.obj(self.0) is Int),
    {
        self.0.is_integer(scope)
    }

    pub fn is_integer(&self, scope: &Scope) -> (r: bool)
        ensures
            r == (scope.valid(self.0) && scope.obj(self.0) is Int),
    {
        self.0.is_integer(scope)
    }

    pub fn is_boolean(&self, scope: &Scope) -> (r: bool)
        ensures
            r == (scope.valid(self.0) && scope.obj(self.0) is Bool),
    {
        self.0.is_boolean(scope)
    }

    pub fn is_string(&self, scope: &Scope) -> (r: bool)
        ensures
            r == (scope.valid(self.0) && scope.obj(self.0) is Str),
    {
        self.0.is_string(scope)
    }

    pub fn is_list(&self, scope: &Scope) -> (r: bool)
        ensures
            r == (scope.valid(self.0) && scope.obj(self.0) is List),
    {
        self.0.is_list(scope)
    }

    pub fn is_library(&self, scope: &Scope) -> (r: bool)
        ensures
            r == (scope.valid(self.0) && scope.obj(self.0) is Library),
    {
        scope.is_live(self.0) && match &scope.objects[self.0.ptr.addr - 1] {
            VmValue::Library(_) => true,
            _ => false,
        }
    }

    /// The referent is a type object.
    pub fn is_type(&self, scope: &Scope) -> (r: bool)
        ensures
            r == (scope.valid(self.0) && scope.obj(self.0) is Class),
    {
        scope.is_live(self.0) && match &scope.objects[self.0.ptr.addr - 1] {
            VmValue::Class(_) => true,
            _ => false,
        }
    }

    pub fn is_closure(&self, scope: &Scope) -> (r: bool)
        ensures
            r == (scope.valid(self.0) && scope.obj(self.0) is Closure),
    {
        self.0.is_closure(scope)
    }

    pub fn is_typed_data(&self, scope: &Scope) -> (r: bool)
        ensures
            r == (scope.valid(self.0) && scope.obj(self.0) is Bytes),
    {
        self.0.is_typed_data(scope)
    }

    /// The type of the instance behind the handle.
    pub fn instance_get_type(&self, scope: &mut Scope) -> (r: Result<DartHandle, DartError>)
        requires
            old(scope).wf(),
            old(scope)@.len() < usize::MAX,
        ensures
            final(scope).wf(),
            final(scope).tag == old(scope).tag,
            final(scope).root == old(scope).root,
            !old(scope).valid(self.0) ==> final(scope)@ == old(scope)@ && is_api_err(
                r,
                stale_msg(),
            ),
            old(scope).valid(self.0) && class_of(old(scope).obj(self.0)) is None ==> final(scope)@ == old(scope)@ && is_api_err(r, "Dart_InstanceGetType expects an instance"@),
            class_of(old(scope).obj(self.0)) matches Some(k) ==> old(scope).valid(self.0) ==> {
                &&& final(scope)@ == old(scope)@.push(VmVal::Class(k))
                &&& r matches Ok(dh) && dh.0 == next_handle(old(scope)@, old(scope).tag)
            },
    {
        match self.0.instance_get_type(scope) {
            Ok(h) => Ok(DartHandle(h)),
            Err(e) => Err(e),
        }
    }

    /// The name of the type behind the handle, as a string value.
    pub fn class_name(&self, scope: &mut Scope) -> (r: Result<DartString, DartError>)
        requires
            old(scope).wf(),
            old(scope)@.len() < usize::MAX,
        ensures
            final(scope).wf(),
            final(scope).tag == old(scope).tag,
            final(scope).root == old(scope).root,
            !old(scope).valid(self.0) ==> final(scope)@ == old(scope)@ && is_api_err(
                r,
                stale_msg(),
            ),
            old(scope).valid(self.0) && !(old(scope).obj(self.0) is Class) ==> final(scope)@
                == old(scope)@ && is_api_err(r, "Dart_ClassName expects a type"@),
            old(scope).obj(self.0) matches VmVal::Class(c) ==> old(scope).valid(self.0) ==> {
                &&& final(scope)@ == old(scope)@.push(VmVal::Str(c))
                &&& r matches Ok(ds) && ds.0 == next_handle(old(scope)@, old(scope).tag)
            },
    {
        match self.0.class_name(scope) {
            Ok(h) => Ok(DartString(h)),
            Err(e) => Err(e),
        }
    }

    /// The name of the closure behind the handle, as a string value.
    pub fn function_name(&self, scope: &mut Scope) -> (r: Result<DartString, DartError>)
        requires
            old(scope).wf(),
            old(scope)@.len() < usize::MAX,
        ensures
            final(scope).wf(),
            final(scope).tag == old(scope).tag,
            final(scope).root == old(scope).root,
            !old(scope).valid(self.0) ==> final(scope)@ == old(scope)@ && is_api_err(
                r,
                stale_msg(),
            ),
            old(scope).valid(self.0) && !(old(scope).obj(self.0) is Closure) ==> final(scope)@
                == old(scope)@ && is_api_err(r, "Dart_FunctionName expects a closure"@),
            old(scope).obj(self.0) matches VmVal::Closure(n) ==> old(scope).valid(self.0) ==> {
                &&& final(scope)@ == old(scope)@.push(VmVal::Str(n))
                &&& r matches Ok(ds) && ds.0 == next_handle(old(scope)@, old(scope).tag)
            },
    {
        match self.0.function_name(scope) {
            Ok(h) => Ok(DartString(h)),
            Err(e) => Err(e),
        }
    }
}

/// A handle known, at construction time, to refer to a VM string.
pub struct DartString(pub Handle);

impl DartString {
    /// Constructs a fresh VM string.  The caller keeps NUL out of `s`; the
    /// raw interface's string constructor cannot carry one.
    pub fn new(scope: &mut Scope, s: &str) -> (r: DartString)
        requires
            old(scope).wf(),
            old(scope)@.len() < usize::MAX,
            !str_has_nul(s),
        ensures
            final(scope).wf(),
            final(scope).tag == old(scope).tag,
            final(scope).root == old(scope).root,
            final(scope)@ == old(scope)@.push(VmVal::Str(s@)),
            r.0 == next_handle(old(scope)@, old(scope).tag),
    {
        match scope.new_string(s) {
            Ok(h) => DartString(h),
            Err(_) => unreached(),
        }
    }

    /// Wraps `handle` after classifying it: anything but a live string
    /// handle is refused.
    pub fn from_handle(handle: DartHandle, scope: &Scope) -> (r: Result<DartString, DartError>)
        ensures
            scope.valid(handle.0) && scope.obj(handle.0) is Str ==> (r matches Ok(ds) && ds.0
                == handle.0),
            !(scope.valid(handle.0) && scope.obj(handle.0) is Str) ==> is_api_err(
                r,
                "DartString::from_handle: handle is not a string"@,
            ),
    {
        if handle.0.is_string(scope) {
            Ok(DartString(handle.0))
        } else {
            Err(DartError::Api("DartString::from_handle: handle is not a string".to_owned()))
        }
    }

    /// The underlying handle.
    pub fn handle(&self) -> (r: Handle)
        ensures
            r == self.0,
    {
        self.0
    }
}

/// An entered isolate: a live scope paired with the root library, so
/// invocations need no further lookups.  Exiting the guard exits the scope
/// and the isolate, in that order.
pub struct DartIsolateGuard {
    pub scope: Scope,
    pub library: Handle,
}

impl DartIsolateGuard {
    /// The guard's scope is well formed and its library handle is the
    /// root library under the live tag.
    pub open spec fn wf(self) -> bool {
        &&& self.scope.wf()
        &&& self.library.tag == self.scope.tag
        &&& self.library.ptr == self.scope.root
    }

    /// Enters `isolate` and pairs the scope with the root library.
    pub fn new(isolate: &mut DartIsolate) -> (r: Result<DartIsolateGuard, DartError>)
        requires
            old(isolate).inner.wf(),
            old(isolate).inner.next_entry < u64::MAX,
        ensures
            final(isolate).inner.wf(),
            old(isolate).inner.shut_down ==> *final(isolate) == *old(isolate) && is_api_err(
                r,
                "isolate was shut down"@,
            ),
            !old(isolate).inner.shut_down && old(isolate).inner.entered ==> *final(isolate)
                == *old(isolate) && is_api_err(r, "isolate is already entered"@),
            !old(isolate).inner.shut_down && !old(isolate).inner.entered ==> r is Ok,
            r matches Ok(g) ==> (!old(isolate).inner.shut_down && !old(isolate).inner.entered)
                ==> {
                &&& g.wf()
                &&& g.scope@ == old(isolate).inner.heap()
                &&& g.scope.tag == (ScopeTag {
                    iso: old(isolate).inner.id,
                    entry: old(isolate).inner.next_entry,
                })
                &&& g.scope.root == old(isolate).inner.root
                &&& final(isolate).inner.id == old(isolate).inner.id
                &&& final(isolate).inner.root == old(isolate).inner.root
                &&& final(isolate).inner.next_entry == old(isolate).inner.next_entry + 1
                &&& final(isolate).inner.entered
                &&& !final(isolate).inner.shut_down
            },
    {
        match isolate.inner.enter() {
            Ok(scope) => {
                let library = Handle { ptr: scope.root, tag: scope.tag };
                Ok(DartIsolateGuard { scope, library })
            },
            Err(e) => Err(e),
        }
    }

    /// Exits the guard: the scope closes and the object store returns to
    /// the isolate.
    pub fn exit(self, isolate: &mut DartIsolate)
        requires
            self.scope.wf(),
            old(isolate).inner.entered,
            self.scope.tag.iso == old(isolate).inner.id,
            self.scope.root == old(isolate).inner.root,
        ensures
            final(isolate).inner.wf(),
            final(isolate).inner.id == old(isolate).inner.id,
            final(isolate).inner.root == old(isolate).inner.root,
            final(isolate).inner.next_entry == old(isolate).inner.next_entry,
            final(isolate).inner.shut_down == old(isolate).inner.shut_down,
            !final(isolate).inner.entered,
            final(isolate).inner.heap() == self.scope@,
    {
        let DartIsolateGuard { scope, library: _ } = self;
        scope.exit(&mut isolate.inner);
    }

    /// Invokes the named top-level function of the root library.
    pub fn invoke(&mut self, name: &str, args: &Vec<RawHandle>) -> (r: Result<Handle, DartError>)
        requires
            old(self).wf(),
            old(self).scope@.len() < usize::MAX,
        ensures
            final(self).wf(),
            final(self).scope.tag == old(self).scope.tag,
            final(self).scope.root == old(self).scope.root,
            final(self).library == old(self).library,
            str_has_nul(name) ==> final(self).scope@ == old(self).scope@ && is_api_err(
                r,
                "string contained interior NUL"@,
            ),
            old(self).scope@[old(self).scope.root.addr - 1] matches VmVal::Library(l)
                ==> !str_has_nul(name) ==> {
                &&& final(self).scope@ == old(self).scope@.push(VmVal::Str(name@))
                &&& l.functions.contains(name@) ==> r == Ok::<Handle, DartError>(
                    Handle { ptr: RawHandle { addr: 1 }, tag: old(self).scope.tag },
                )
                &&& !l.functions.contains(name@) ==> is_api_err(r, "NoSuchMethod: "@ + name@)
            },
    {
        let library = self.library;
        self.scope.invoke(library, name, args)
    }

    /// Drains the isolate's microtask queue.  The model queue is always
    /// empty, so there is nothing to run.
    pub fn drain_microtask_queue(&mut self)
        ensures
            *final(self) == *old(self),
    {
    }
}

/// One VM execution context under the facade.
pub struct DartIsolate {
    pub inner: Isolate,
}

impl DartIsolate {
    /// Adopts a freshly loaded isolate and runs its `main` once.  The
    /// script must expose `main`: the run is unconditional, so an isolate
    /// without it cannot be adopted.
    pub fn new(inner: Isolate) -> (r: DartIsolate)
        requires
            inner.wf(),
            !inner.entered,
            !inner.shut_down,
            inner.next_entry < u64::MAX,
            inner.heap().len() < usize::MAX,
            inner.heap()[inner.root.addr - 1] matches VmVal::Library(l) && l.functions.contains(
                "main"@,
            ),
        ensures
            r.inner.wf(),
            r.inner.id == inner.id,
            r.inner.root == inner.root,
            !r.inner.entered,
            !r.inner.shut_down,
            r.inner.next_entry == inner.next_entry + 1,
            r.inner.heap() == inner.heap().push(VmVal::Str("main"@)),
    {
        proof {
            reveal_strlit("main");
            assert(!"main"@.contains('\0'));
        }
        let mut iso = DartIsolate { inner };
        let mut guard = match DartIsolateGuard::new(&mut iso) {
            Ok(g) => g,
            Err(_) => unreached(),
        };
        let args: Vec<RawHandle> = Vec::new();
        match guard.invoke("main", &args) {
            Ok(_) => {},
            Err(_) => unreached(),
        }
        guard.exit(&mut iso);
        iso
    }

    /// Enters the isolate.
    pub fn enter(&mut self) -> (r: Result<DartIsolateGuard, DartError>)
        requires
            old(self).inner.wf(),
            old(self).inner.next_entry < u64::MAX,
        ensures
            final(self).inner.wf(),
            old(self).inner.shut_down ==> *final(self) == *old(self) && is_api_err(
                r,
                "isolate was shut down"@,
            ),
            !old(self).inner.shut_down && old(self).inner.entered ==> *final(self) == *old(self)
                && is_api_err(r, "isolate is already entered"@),
            !old(self).inner.shut_down && !old(self).inner.entered ==> r is Ok,
            r matches Ok(g) ==> (!old(self).inner.shut_down && !old(self).inner.entered) ==> {
                &&& g.wf()
                &&& g.scope@ == old(self).inner.heap()
                &&& g.scope.tag == (ScopeTag {
                    iso: old(self).inner.id,
                    entry: old(self).inner.next_entry,
                })
                &&& g.scope.root == old(self).inner.root
                &&& final(self).inner.id == old(self).inner.id
                &&& final(self).inner.root == old(self).inner.root
                &&& final(self).inner.next_entry == old(self).inner.next_entry + 1
                &&& final(self).inner.entered
                &&& !final(self).inner.shut_down
            },
    {
        DartIsolateGuard::new(self)
    }
}

/// The facade's top: one initialized VM with one loaded isolate whose
/// `main` has run.
pub struct DartEngine {
    pub runtime: Runtime,
    pub isolate: DartIsolate,
}

impl DartEngine {
    /// Initializes the VM on the conventional service port, loads `script`
    /// and runs its `main` once.  `hmr` starts the auxiliary service
    /// isolate for hot reloading.
    pub fn new(script: &ScriptSource, package_config: &str, hmr: bool) -> (r: Result<
        DartEngine,
        DartError,
    >)
        requires
            script.functions.deep_view().contains("main"@),
        ensures
            r matches Ok(e) && {
                &&& e.runtime.service_port == 5858
                &&& e.runtime.start_service_isolate == hmr
                &&& e.runtime.next_isolate == 1
                &&& e.isolate.inner.wf()
                &&& !e.isolate.inner.entered
                &&& !e.isolate.inner.shut_down
                &&& e.isolate.inner.id == 0
                &&& e.isolate.inner.next_entry == 1
                &&& e.isolate.inner.root == (RawHandle { addr: 2 })
                &&& e.isolate.inner.heap() == seq![
                    VmVal::Null,
                    VmVal::Library(
                        LibraryV {
                            url: script.uri@,
                            functions: script.functions.deep_view(),
                            classes: script.classes.deep_view(),
                            resolver: None,
                        },
                    ),
                ].push(VmVal::Str("main"@))
            },
    {
        let config = RuntimeConfig::new(5858, hmr);
        let mut runtime = match Runtime::initialize(config) {
            Ok(rt) => rt,
            Err(_) => unreached(),
        };
        let loaded = match runtime.load_script(script, package_config) {
            Ok(i) => i,
            Err(_) => unreached(),
        };
        let isolate = DartIsolate::new(loaded);
        Ok(DartEngine { runtime, isolate })
    }

    /// The engine's isolate, for entering and shutting down.
    pub fn isolate(&mut self) -> (r: &mut DartIsolate)
        ensures
            *r == old(self).isolate,
            final(self).isolate == *final(r),
            final(self).runtime == old(self).runtime,
    {
        &mut self.isolate
    }
}

} // verus!
