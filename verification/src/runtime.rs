//! VM-instance and execution-context lifecycle.
//!
//! A [`Runtime`] stands for the one initialized VM of the process.  Loading
//! a script produces an [`Isolate`]; entering an isolate produces a
//! [`Scope`], which owns the isolate's object store until it exits.  The
//! isolate's lifecycle is loaded, then entered and exited any number of
//! times, then shut down at most once: a second shutdown is a no-op and an
//! entry after shutdown fails.

use vstd::prelude::*;

use core::mem::swap;

use crate::error::DartError;
use crate::scope::Scope;
use crate::value::{
    clone_strings, heap_of, heap_wf, Handle, LibraryData, LibraryV, RawHandle, ScopeTag, VmVal,
    VmValue,
};

verus! {

/// Configuration handed to [`Runtime::initialize`]: the debug-service port
/// and whether the auxiliary service isolate starts.
pub struct RuntimeConfig {
    pub service_port: u16,
    pub start_service_isolate: bool,
}

impl RuntimeConfig {
    pub fn new(service_port: u16, start_service_isolate: bool) -> (r: Self)
        ensures
            r.service_port == service_port,
            r.start_service_isolate == start_service_isolate,
    {
        Self { service_port, start_service_isolate }
    }
}

/// The embedder's description of a compiled script: the url under which its
/// root library resolves, and the top-level functions and classes that
/// library exposes.  The VM compiles source text; the model takes the
/// compiled picture as the input.
pub struct ScriptSource {
    pub uri: String,
    pub functions: Vec<String>,
    pub classes: Vec<String>,
}

/// One initialized VM instance.
pub struct Runtime {
    pub service_port: u16,
    pub start_service_isolate: bool,
    /// The id the next loaded isolate receives.
    pub next_isolate: u64,
}

/// One VM execution context.  Between scopes it holds its object store;
/// while entered, the live [`Scope`] holds the store instead.
pub struct Isolate {
    /// Identity, unique per runtime; scope tags carry it.
    pub id: u64,
    /// The object store, meaningful only while no scope is live.
    pub objects: Vec<VmValue>,
    /// The raw handle of the root library.
    pub root: RawHandle,
    /// The entry counter: each successful `enter` uses one value.
    pub next_entry: u64,
    /// A scope is currently live.
    pub entered: bool,
    /// The isolate has been torn down.
    pub shut_down: bool,
}

impl Isolate {
    /// The spec picture of the object store.
    pub open spec fn heap(self) -> Seq<VmVal> {
        heap_of(self.objects@)
    }

    /// Between scopes, a live isolate's store is well formed, with the
    /// canonical null object first and the root library in place.
    pub open spec fn wf(self) -> bool {
        !self.entered && !self.shut_down ==> {
            &&& heap_wf(self.heap())
            &&& self.heap().len() >= 1
            &&& self.heap()[0] is Null
            &&& 1 <= self.root.addr <= self.heap().len()
            &&& self.heap()[self.root.addr - 1] is Library
        }
    }

    /// Enters the isolate and opens a handle scope.  Fails once the isolate
    /// is shut down, and while a previous scope is still live; otherwise the
    /// returned scope owns the object store and stamps its handles with a
    /// tag no earlier scope of this isolate ever used.
    pub fn enter(&mut self) -> (r: Result<Scope, DartError>)
        requires
            old(self).wf(),
            old(self).next_entry < u64::MAX,
        ensures
            final(self).wf(),
            old(self).shut_down ==> *final(self) == *old(self) && crate::error::is_api_err(
                r,
                "isolate was shut down"@,
            ),
            !old(self).shut_down && old(self).entered ==> *final(self) == *old(self)
                && crate::error::is_api_err(r, "isolate is already entered"@),
            !old(self).shut_down && !old(self).entered ==> r is Ok,
            r matches Ok(sc) ==> (!old(self).shut_down && !old(self).entered) ==> {
                &&& sc.wf()
                &&& sc@ == old(self).heap()
                &&& sc.tag == (ScopeTag { iso: old(self).id, entry: old(self).next_entry })
                &&& sc.root == old(self).root
                &&& final(self).id == old(self).id
                &&& final(self).root == old(self).root
                &&& final(self).next_entry == old(self).next_entry + 1
                &&& final(self).entered
                &&& !final(self).shut_down
            },
    {
        if self.shut_down {
            return Err(DartError::Api("isolate was shut down".to_owned()));
        }
        if self.entered {
            return Err(DartError::Api("isolate is already entered".to_owned()));
        }
        let mut objs: Vec<VmValue> = Vec::new();
        swap(&mut self.objects, &mut objs);
        self.entered = true;
        let tag = ScopeTag { iso: self.id, entry: self.next_entry };
        self.next_entry = self.next_entry + 1;
        Ok(Scope { objects: objs, tag, root: self.root })
    }

    /// Tears the isolate down.  The first call marks it shut down; every
    /// later call is a no-op, and nothing is torn down twice.
    pub fn shutdown(&mut self)
        ensures
            final(self).shut_down,
            final(self).id == old(self).id,
            final(self).root == old(self).root,
            final(self).next_entry == old(self).next_entry,
            final(self).entered == old(self).entered,
            final(self).heap() == old(self).heap(),
            old(self).shut_down ==> *final(self) == *old(self),
    {
        self.shut_down = true;
    }
}

impl Scope {
    /// Exits the scope: closes the handle region and hands the object store
    /// back to the isolate the scope entered.  Handles stamped with this
    /// scope's tag are stale from here on: no later scope carries the same
    /// tag.
    pub fn exit(self, isolate: &mut Isolate)
        requires
            self.wf(),
            old(isolate).entered,
            self.tag.iso == old(isolate).id,
            self.root == old(isolate).root,
        ensures
            final(isolate).wf(),
            final(isolate).id == old(isolate).id,
            final(isolate).root == old(isolate).root,
            final(isolate).next_entry == old(isolate).next_entry,
            final(isolate).shut_down == old(isolate).shut_down,
            !final(isolate).entered,
            final(isolate).heap() == self@,
    {
        let Scope { objects, tag: _, root: _ } = self;
        isolate.objects = objects;
        isolate.entered = false;
    }
}

impl Runtime {
    /// Initializes the VM with `config`.  The model VM always comes up;
    /// the configuration is recorded for the process's lifetime.
    pub fn initialize(config: RuntimeConfig) -> (r: Result<Runtime, DartError>)
        ensures
            r matches Ok(rt) && {
                &&& rt.service_port == config.service_port
                &&& rt.start_service_isolate == config.start_service_isolate
                &&& rt.next_isolate == 0
            },
    {
        Ok(Runtime {
            service_port: config.service_port,
            start_service_isolate: config.start_service_isolate,
            next_isolate: 0,
        })
    }

    /// Loads `script` into a fresh isolate.  The isolate starts in the
    /// loaded state with a store holding exactly the canonical null object
    /// and the script's root library, and an id no earlier isolate of this
    /// runtime received.
    #[allow(unused_variables)]
    pub fn load_script(&mut self, script: &ScriptSource, package_config: &str) -> (r: Result<
        Isolate,
        DartError,
    >)
        requires
            old(self).next_isolate < u64::MAX,
        ensures
            final(self).service_port == old(self).service_port,
            final(self).start_service_isolate == old(self).start_service_isolate,
            final(self).next_isolate == old(self).next_isolate + 1,
            r matches Ok(iso) && {
                &&& iso.id == old(self).next_isolate
                &&& !iso.entered
                &&& !iso.shut_down
                &&& iso.next_entry == 0
                &&& iso.root == (RawHandle { addr: 2 })
                &&& iso.heap() == seq![
                    VmVal::Null,
                    VmVal::Library(
                        LibraryV {
                            url: script.uri@,
                            functions: script.functions.deep_view(),
                            classes: script.classes.deep_view(),
                            resolver: None,
                        },
                    ),
                ]
                &&& iso.wf()
            },
    {
        let mut objects: Vec<VmValue> = Vec::new();
        objects.push(VmValue::Null);
        objects.push(
            VmValue::Library(
                LibraryData {
                    url: script.uri.clone(),
                    functions: clone_strings(&script.functions),
                    classes: clone_strings(&script.classes),
                    resolver: None,
                },
            ),
        );
        let iso = Isolate {
            id: self.next_isolate,
            objects,
            root: RawHandle { addr: 2 },
            next_entry: 0,
            entered: false,
            shut_down: false,
        };
        self.next_isolate = self.next_isolate + 1;
        proof {
            assert(iso.heap() =~~= seq![
                VmVal::Null,
                VmVal::Library(
                    LibraryV {
                        url: script.uri@,
                        functions: script.functions.deep_view(),
                        classes: script.classes.deep_view(),
                        resolver: None,
                    },
                ),
            ]);
        }
        Ok(iso)
    }

    /// Drains the isolate's microtask queue from within `scope`.  The model
    /// queue is always empty, so the drain completes at once with the null
    /// object.
    pub fn drain_microtask_queue(&self, scope: &Scope) -> (r: Result<Handle, DartError>)
        requires
            scope.wf(),
        ensures
            r == Ok::<Handle, DartError>(Handle { ptr: RawHandle { addr: 1 }, tag: scope.tag }),
    {
        scope.null_handle()
    }
}

} // verus!
