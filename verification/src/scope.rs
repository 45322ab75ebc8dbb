//! The scope: an entered-VM region that bounds handle validity.
//!
//! Every handle is produced by some scope and carries that scope's tag.  All
//! raw values an operation yields pass through the single validation gate
//! [`Scope::check`] before they are wrapped as handles, and every accessor
//! rejects a handle whose tag is not the live scope's.

use vstd::prelude::*;

use vstd::std_specs::iter::IteratorSpec;

use crate::error::{is_api_err, res_view, DartError};
use crate::value::{
    clone_strings, heap_of, heap_wf, lemma_heap_of_push, lemma_heap_of_update, lemma_heap_wf_push,
    lemma_heap_wf_update, next_handle, raw_ok, spec_check, val_wf, vec_has_string, Handle,
    InstanceData, InstanceV, LibraryData, LibraryV, RawHandle, ScopeTag, VmVal, VmValue,
};

verus! {

/// The diagnostic attached to every rejection of a handle whose producing
/// scope is no longer the live one.
pub open spec fn stale_msg() -> Seq<char> {
    "handle used outside its scope"@
}

/// `s` contains an interior NUL character, which the VM's C boundary
/// cannot carry.
pub open spec fn str_has_nul(s: &str) -> bool {
    s@.contains('\0')
}

/// An entered-VM region.  It owns its isolate's object store for as long as
/// it is live; exiting hands the store back to the isolate.
pub struct Scope {
    /// The isolate's object store, owned while the scope is live.
    pub objects: Vec<VmValue>,
    /// The identity stamped into every handle this scope produces.
    pub tag: ScopeTag,
    /// The raw handle of the isolate's root library.
    pub root: RawHandle,
}

impl View for Scope {
    type V = Seq<VmVal>;

    open spec fn view(&self) -> Seq<VmVal> {
        heap_of(self.objects@)
    }
}

impl Scope {
    /// The scope's object store is well formed: internally consistent, with
    /// the canonical null object first and the root library in place.
    pub open spec fn wf(self) -> bool {
        &&& heap_wf(self@)
        &&& self@.len() >= 1
        &&& self@[0] is Null
        &&& 1 <= self.root.addr <= self@.len()
        &&& self@[self.root.addr - 1] is Library
    }

    /// `h` is live in this scope: stamped with this scope's tag and
    /// addressing an object of the store.
    pub open spec fn valid(self, h: Handle) -> bool {
        h.tag == self.tag && 1 <= h.ptr.addr <= self@.len()
    }

    /// The object `h` refers to.
    pub open spec fn obj(self, h: Handle) -> VmVal
        recommends
            self.valid(h),
    {
        self@[h.ptr.addr - 1]
    }

    /// Whether `h` is live in this scope, as [`Scope::valid`] states.
    /// Callers outside verified code can test a handle before using it.
    pub fn is_live(&self, h: Handle) -> (r: bool)
        ensures
            r == self.valid(h),
    {
        h.tag == self.tag && h.ptr.addr >= 1 && h.ptr.addr <= self.objects.len()
    }

    /// The validation gate.  Every raw VM value passes through here: the
    /// null pointer fails with `NullHandle`, an error object fails with
    /// `Api` carrying the VM's own diagnostic, and anything else is wrapped
    /// as a handle stamped with this scope's tag.
    pub fn check(&self, raw: RawHandle) -> (r: Result<Handle, DartError>)
        requires
            raw_ok(raw, self@.len()),
        ensures
            res_view(r) == spec_check(self@, self.tag, raw),
    {
        if raw.addr == 0 {
            return Err(DartError::NullHandle);
        }
        let i = raw.addr - 1;
        match &self.objects[i] {
            VmValue::ErrorVal(m) => Err(DartError::Api(m.clone())),
            _ => Ok(Handle { ptr: raw, tag: self.tag }),
        }
    }

    /// Appends one object to the store and returns its raw handle.
    pub(crate) fn store(&mut self, v: VmValue) -> (r: RawHandle)
        requires
            heap_wf(old(self)@),
            old(self)@.len() < usize::MAX,
            val_wf(v@, old(self)@.len() + 1),
        ensures
            final(self)@ == old(self)@.push(v@),
            r.addr == old(self)@.len() + 1,
            final(self).tag == old(self).tag,
            final(self).root == old(self).root,
            heap_wf(final(self)@),
    {
        let addr = self.objects.len() + 1;
        proof {
            lemma_heap_of_push(self.objects@, v);
            lemma_heap_wf_push(self@, v@);
        }
        self.objects.push(v);
        RawHandle { addr }
    }

    /// Whether `s` contains the NUL character.
    fn contains_nul(s: &str) -> (r: bool)
        ensures
            r == str_has_nul(s),
    {
        broadcast use vstd::string::axiom_spec_iter, vstd::string::next_postcondition;

        let mut it = s.chars();
        let ghost mut seen: int = 0;
        loop
            invariant
                it.obeys_prophetic_iter_laws(),
                0 <= seen <= s@.len(),
                it.remaining() == s@.skip(seen),
                forall|j: int| 0 <= j < seen ==> s@[j] != '\0',
            decreases s@.len() - seen,
        {
            match it.next() {
                Some(c) => {
                    proof {
                        assert(s@.skip(seen)[0] == s@[seen]);
                    }
                    if c == '\0' {
                        proof {
                            assert(s@.contains('\0'));
                        }
                        return true;
                    }
                    proof {
                        assert(s@.skip(seen).drop_first() =~= s@.skip(seen + 1));
                        seen = seen + 1;
                    }
                },
                None => {
                    proof {
                        assert(s@.skip(seen).len() == 0);
                        assert(!s@.contains('\0'));
                    }
                    return false;
                },
            }
        }
    }

    /// Constructs a VM string holding the characters of `s`.  Succeeds for
    /// every `s` free of interior NUL characters; like every constructor, the
    /// fresh raw value goes through [`Scope::check`].
    pub fn new_string(&mut self, s: &str) -> (r: Result<Handle, DartError>)
        requires
            old(self).wf(),
            old(self)@.len() < usize::MAX,
        ensures
            final(self).wf(),
            final(self).tag == old(self).tag,
            final(self).root == old(self).root,
            str_has_nul(s) ==> final(self)@ == old(self)@ && is_api_err(
                r,
                "string contained interior NUL"@,
            ),
            !str_has_nul(s) ==> final(self)@ == old(self)@.push(VmVal::Str(s@)) && r
                == Ok::<Handle, DartError>(next_handle(old(self)@, old(self).tag)),
    {
        if Self::contains_nul(s) {
            return Err(DartError::Api("string contained interior NUL".to_owned()));
        }
        let raw = self.store(VmValue::Str(s.to_owned()));
        self.check(raw)
    }

    /// Constructs a VM integer.
    pub fn new_integer(&mut self, value: i64) -> (r: Result<Handle, DartError>)
        requires
            old(self).wf(),
            old(self)@.len() < usize::MAX,
        ensures
            final(self).wf(),
            final(self).tag == old(self).tag,
            final(self).root == old(self).root,
            final(self)@ == old(self)@.push(VmVal::Int(value)),
            r == Ok::<Handle, DartError>(next_handle(old(self)@, old(self).tag)),
    {
        let raw = self.store(VmValue::Int(value));
        self.check(raw)
    }

    /// Constructs a VM boolean.
    pub fn new_boolean(&mut self, value: bool) -> (r: Result<Handle, DartError>)
        requires
            old(self).wf(),
            old(self)@.len() < usize::MAX,
        ensures
            final(self).wf(),
            final(self).tag == old(self).tag,
            final(self).root == old(self).root,
            final(self)@ == old(self)@.push(VmVal::Bool(value)),
            r == Ok::<Handle, DartError>(next_handle(old(self)@, old(self).tag)),
    {
        let raw = self.store(VmValue::Bool(value));
        self.check(raw)
    }

    /// A handle to the canonical null object.
    pub fn null_handle(&self) -> (r: Result<Handle, DartError>)
        requires
            self.wf(),
        ensures
            r == Ok::<Handle, DartError>(Handle { ptr: RawHandle { addr: 1 }, tag: self.tag }),
    {
        self.check(RawHandle { addr: 1 })
    }

    /// Models the VM minting an error handle that carries `message`.  The
    /// result is deliberately left raw: [`Scope::check`] must reject it, which is
    /// how callers exercise the error path.
    pub fn new_api_error(&mut self, message: &str) -> (r: RawHandle)
        requires
            old(self).wf(),
            old(self)@.len() < usize::MAX,
        ensures
            final(self).wf(),
            final(self).tag == old(self).tag,
            final(self).root == old(self).root,
            final(self)@ == old(self)@.push(VmVal::ErrorVal(message@)),
            r.addr == old(self)@.len() + 1,
    {
        self.store(VmValue::ErrorVal(message.to_owned()))
    }

    /// Constructs a zero-filled VM byte buffer of `len` bytes.
    pub fn new_typed_data(&mut self, len: usize) -> (r: Result<Handle, DartError>)
        requires
            old(self).wf(),
            old(self)@.len() < usize::MAX,
        ensures
            final(self).wf(),
            final(self).tag == old(self).tag,
            final(self).root == old(self).root,
            final(self)@ == old(self)@.push(
                VmVal::Bytes { data: Seq::new(len as nat, |i: int| 0u8), acquired: false },
            ),
            r == Ok::<Handle, DartError>(next_handle(old(self)@, old(self).tag)),
    {
        let data: Vec<u8> = vec![0u8; len];
        proof {
            assert(data@ =~= Seq::new(len as nat, |i: int| 0u8));
        }
        let raw = self.store(VmValue::Bytes { data, acquired: false });
        self.check(raw)
    }

    /// Constructs a VM list of `len` elements, each initially the null
    /// object.
    pub fn new_list(&mut self, len: usize) -> (r: Result<Handle, DartError>)
        requires
            old(self).wf(),
            old(self)@.len() < usize::MAX,
        ensures
            final(self).wf(),
            final(self).tag == old(self).tag,
            final(self).root == old(self).root,
            final(self)@ == old(self)@.push(
                VmVal::List(Seq::new(len as nat, |i: int| RawHandle { addr: 1 })),
            ),
            r == Ok::<Handle, DartError>(next_handle(old(self)@, old(self).tag)),
    {
        let elems: Vec<RawHandle> = vec![RawHandle { addr: 1 }; len];
        proof {
            assert(elems@ =~= Seq::new(len as nat, |i: int| RawHandle { addr: 1 }));
        }
        let raw = self.store(VmValue::List(elems));
        self.check(raw)
    }

    /// Resolves the named compilation unit.  The model isolate holds one
    /// root library, found exactly when `name` is its url.
    pub fn library(&mut self, name: &str) -> (r: Result<Handle, DartError>)
        requires
            old(self).wf(),
            old(self)@.len() < usize::MAX,
        ensures
            final(self).wf(),
            final(self).tag == old(self).tag,
            final(self).root == old(self).root,
            str_has_nul(name) ==> final(self)@ == old(self)@ && is_api_err(
                r,
                "string contained interior NUL"@,
            ),
            !str_has_nul(name) ==> final(self)@ == old(self)@.push(VmVal::Str(name@)),
            old(self)@[old(self).root.addr - 1] matches VmVal::Library(l) ==> {
                &&& !str_has_nul(name) && l.url == name@ ==> r == Ok::<Handle, DartError>(
                    Handle { ptr: old(self).root, tag: old(self).tag },
                )
                &&& !str_has_nul(name) && l.url != name@ ==> is_api_err(
                    r,
                    "Dart_LookupLibrary returned null library"@,
                )
            },
    {
        let _ = self.new_string(name)?;
        let matched = match &self.objects[self.root.addr - 1] {
            VmValue::Library(lib) => {
                let needle = name.to_owned();
                lib.url.eq(&needle)
            },
            _ => false,
        };
        if matched {
            Ok(Handle { ptr: self.root, tag: self.tag })
        } else {
            Err(DartError::Api("Dart_LookupLibrary returned null library".to_owned()))
        }
    }

    /// Calls the named top-level function of `library`.  In the model every
    /// exported function completes normally with the null object as its
    /// result; an unexported name fails the way the VM reports an unknown
    /// method, and the arguments contribute no further effect.
    #[allow(unused_variables)]
    pub fn invoke(&mut self, library: Handle, name: &str, args: &Vec<RawHandle>) -> (r: Result<
        Handle,
        DartError,
    >)
        requires
            old(self).wf(),
            old(self)@.len() < usize::MAX,
        ensures
            final(self).wf(),
            final(self).tag == old(self).tag,
            final(self).root == old(self).root,
            !old(self).valid(library) ==> final(self)@ == old(self)@ && is_api_err(r, stale_msg()),
            old(self).valid(library) && !(old(self).obj(library) is Library) ==> final(self)@
                == old(self)@ && is_api_err(r, "Dart_Invoke expects a library"@),
            old(self).valid(library) && old(self).obj(library) is Library && str_has_nul(name)
                ==> final(self)@ == old(self)@ && is_api_err(r, "string contained interior NUL"@),
            old(self).obj(library) matches VmVal::Library(l) ==> (old(self).valid(library)
                && !str_has_nul(name)) ==> {
                &&& final(self)@ == old(self)@.push(VmVal::Str(name@))
                &&& l.functions.contains(name@) ==> r == Ok::<Handle, DartError>(
                    Handle { ptr: RawHandle { addr: 1 }, tag: old(self).tag },
                )
                &&& !l.functions.contains(name@) ==> is_api_err(r, "NoSuchMethod: "@ + name@)
            },
    {
        if library.tag != self.tag || library.ptr.addr == 0 || library.ptr.addr
            > self.objects.len() {
            return Err(DartError::Api("handle used outside its scope".to_owned()));
        }
        let exported = match &self.objects[library.ptr.addr - 1] {
            VmValue::Library(lib) => Some(vec_has_string(&lib.functions, name)),
            _ => None,
        };
        match exported {
            None => Err(DartError::Api("Dart_Invoke expects a library".to_owned())),
            Some(found) => {
                let _ = self.new_string(name)?;
                if found {
                    self.null_handle()
                } else {
                    let mut m = "NoSuchMethod: ".to_owned();
                    m.append(name);
                    Err(DartError::Api(m))
                }
            },
        }
    }

    /// Looks the named class up in `library`.
    pub fn get_class(&mut self, library: Handle, class_name: &str) -> (r: Result<
        Handle,
        DartError,
    >)
        requires
            old(self).wf(),
            old(self)@.len() + 1 < usize::MAX,
        ensures
            final(self).wf(),
            final(self).tag == old(self).tag,
            final(self).root == old(self).root,
            !old(self).valid(library) ==> final(self)@ == old(self)@ && is_api_err(r, stale_msg()),
            old(self).valid(library) && !(old(self).obj(library) is Library) ==> final(self)@
                == old(self)@ && is_api_err(r, "Dart_GetClass expects a library"@),
            old(self).valid(library) && old(self).obj(library) is Library && str_has_nul(class_name)
                ==> final(self)@ == old(self)@ && is_api_err(r, "string contained interior NUL"@),
            old(self).obj(library) matches VmVal::Library(l) ==> (old(self).valid(library)
                && !str_has_nul(class_name)) ==> {
                &&& !l.classes.contains(class_name@) ==> final(self)@ == old(self)@.push(
                    VmVal::Str(class_name@),
                ) && is_api_err(r, "class not found: "@ + class_name@)
                &&& l.classes.contains(class_name@) ==> final(self)@ == old(self)@.push(
                    VmVal::Str(class_name@),
                ).push(VmVal::Class(class_name@)) && r == Ok::<Handle, DartError>(
                    Handle {
                        ptr: RawHandle { addr: (old(self)@.len() + 2) as usize },
                        tag: old(self).tag,
                    },
                )
            },
    {
        if library.tag != self.tag || library.ptr.addr == 0 || library.ptr.addr
            > self.objects.len() {
            return Err(DartError::Api("handle used outside its scope".to_owned()));
        }
        let known = match &self.objects[library.ptr.addr - 1] {
            VmValue::Library(lib) => Some(vec_has_string(&lib.classes, class_name)),
            _ => None,
        };
        match known {
            None => Err(DartError::Api("Dart_GetClass expects a library".to_owned())),
            Some(found) => {
                let _ = self.new_string(class_name)?;
                if found {
                    let raw = self.store(VmValue::Class(class_name.to_owned()));
                    self.check(raw)
                } else {
                    let mut m = "class not found: ".to_owned();
                    m.append(class_name);
                    Err(DartError::Api(m))
                }
            },
        }
    }

    /// Constructs a fresh instance of the class `type_` names.  The model
    /// constructor body contributes no effect: the instance starts with no
    /// fields, no native field slots and no peer, and the arguments are not
    /// recorded.
    #[allow(unused_variables)]
    pub fn new_object(
        &mut self,
        type_: Handle,
        constructor_name: Handle,
        args: &Vec<RawHandle>,
    ) -> (r: Result<Handle, DartError>)
        requires
            old(self).wf(),
            old(self)@.len() < usize::MAX,
        ensures
            final(self).wf(),
            final(self).tag == old(self).tag,
            final(self).root == old(self).root,
            !(old(self).valid(type_) && old(self).valid(constructor_name)) ==> final(self)@
                == old(self)@ && is_api_err(r, stale_msg()),
            old(self).valid(type_) && old(self).valid(constructor_name) && !(old(self).obj(type_)
                is Class) ==> final(self)@ == old(self)@ && is_api_err(r, "Dart_New expects a type"@),
            old(self).valid(type_) && old(self).valid(constructor_name) && old(self).obj(type_)
                is Class && !(old(self).obj(constructor_name) is Str) ==> final(self)@ == old(
                self,
            )@ && is_api_err(r, "Dart_New expects a constructor name"@),
            old(self).obj(type_) matches VmVal::Class(c) ==> (old(self).valid(type_) && old(
                self,
            ).valid(constructor_name) && old(self).obj(constructor_name) is Str) ==> {
                &&& final(self)@ == old(self)@.push(
                    VmVal::Instance(
                        InstanceV {
                            class: c,
                            fields: Seq::empty(),
                            native_fields: Seq::empty(),
                            peer: None,
                            finalizer: None,
                        },
                    ),
                )
                &&& r == Ok::<Handle, DartError>(next_handle(old(self)@, old(self).tag))
            },
    {
        if type_.tag != self.tag || type_.ptr.addr == 0 || type_.ptr.addr > self.objects.len()
            || constructor_name.tag != self.tag || constructor_name.ptr.addr == 0
            || constructor_name.ptr.addr > self.objects.len() {
            return Err(DartError::Api("handle used outside its scope".to_owned()));
        }
        let class = match &self.objects[type_.ptr.addr - 1] {
            VmValue::Class(c) => Some(c.clone()),
            _ => None,
        };
        let ctor_ok = match &self.objects[constructor_name.ptr.addr - 1] {
            VmValue::Str(_) => true,
            _ => false,
        };
        match class {
            None => Err(DartError::Api("Dart_New expects a type".to_owned())),
            Some(c) => {
                if !ctor_ok {
                    return Err(DartError::Api("Dart_New expects a constructor name".to_owned()));
                }
                let ghost target = VmVal::Instance(
                    InstanceV {
                        class: c@,
                        fields: Seq::empty(),
                        native_fields: Seq::empty(),
                        peer: None,
                        finalizer: None,
                    },
                );
                let v = VmValue::Instance(
                    InstanceData {
                        class: c,
                        fields: Vec::new(),
                        native_fields: Vec::new(),
                        peer: None,
                        finalizer: None,
                    },
                );
                proof {
                    assert(v@ =~~= target);
                }
                let raw = self.store(v);
                self.check(raw)
            },
        }
    }

    /// Installs the name-to-entry-point resolver for `library`, recording
    /// the resolver's token.  The embedder installs the resolver eagerly,
    /// once per library, right after the script loads and before anything
    /// is invoked.  Like the raw call, this reports no failure: a handle
    /// that is stale or not a library leaves the store untouched.
    pub fn set_native_resolver(&mut self, library: Handle, resolver: u64)
        requires
            old(self).wf(),
        ensures
            final(self).wf(),
            final(self).tag == old(self).tag,
            final(self).root == old(self).root,
            old(self).obj(library) matches VmVal::Library(l) ==> old(self).valid(library)
                ==> final(self)@ == old(self)@.update(
                library.ptr.addr - 1,
                VmVal::Library((LibraryV { resolver: Some(resolver), ..l })),
            ),
            !(old(self).valid(library) && old(self).obj(library) is Library) ==> final(self)@
                == old(self)@,
    {
        if library.tag != self.tag || library.ptr.addr == 0 || library.ptr.addr
            > self.objects.len() {
            return;
        }
        let i = library.ptr.addr - 1;
        let replacement = match &self.objects[i] {
            VmValue::Library(lib) => Some(
                VmValue::Library(
                    LibraryData {
                        url: lib.url.clone(),
                        functions: clone_strings(&lib.functions),
                        classes: clone_strings(&lib.classes),
                        resolver: Some(resolver),
                    },
                ),
            ),
            _ => None,
        };
        match replacement {
            Some(v) => {
                proof {
                    lemma_heap_of_update(self.objects@, i as int, v);
                    lemma_heap_wf_update(self@, i as int, v@);
                }
                self.objects.set(i, v);
            },
            None => {},
        }
    }
}

/// Convenience: a handle to the canonical null object of `scope`.
pub fn null_handle(scope: &Scope) -> (r: Handle)
    requires
        scope.wf(),
    ensures
        r == (Handle { ptr: RawHandle { addr: 1 }, tag: scope.tag }),
{
    match scope.null_handle() {
        Ok(h) => h,
        Err(_) => Handle { ptr: RawHandle { addr: 0 }, tag: scope.tag },
    }
}

} // verus!
