//! Read and write accessors on handles.
//!
//! Every accessor takes the scope it is used in.  A handle whose tag is not
//! the live scope's is rejected: predicate accessors answer `false`, fallible
//! accessors fail with the stale-handle diagnostic, and writers leave the
//! store untouched.

use vstd::prelude::*;

use vstd::utf8::encode_utf8;

use crate::error::{is_api_err, res_view, DartError};
use crate::scope::{stale_msg, Scope};
use crate::value::{
    class_of, class_string, clone_instance, has_field, is_primitive, lemma_fields_get_in,
    lemma_fields_get_step, lemma_heap_of_update, lemma_heap_wf_update, next_handle, spec_check,
    spec_fields_get, spec_fields_set, spec_object_equals, val_wf, vec_has_string, FieldSlot,
    FieldV, Handle, InstanceV, RawHandle, VmVal, VmValue,
};

verus! {

/// What a field read found behind the target handle.
enum Looked {
    Exported(bool),
    Slot(Option<RawHandle>),
    Neither,
}

impl Handle {
    /// The handle refers to a VM string.  Pure classification: a stale
    /// handle answers `false`, never an error.
    pub fn is_string(self, scope: &Scope) -> (r: bool)
        ensures
            r == (scope.valid(self) && scope.obj(self) is Str),
    {
        scope.is_live(self) && match &scope.objects[self.ptr.addr - 1] {
            VmValue::Str(_) => true,
            _ => false,
        }
    }

    /// The handle refers to a VM integer.
    pub fn is_integer(self, scope: &Scope) -> (r: bool)
        ensures
            r == (scope.valid(self) && scope.obj(self) is Int),
    {
        scope.is_live(self) && match &scope.objects[self.ptr.addr - 1] {
            VmValue::Int(_) => true,
            _ => false,
        }
    }

    /// The handle refers to a VM boolean.
    pub fn is_boolean(self, scope: &Scope) -> (r: bool)
        ensures
            r == (scope.valid(self) && scope.obj(self) is Bool),
    {
        scope.is_live(self) && match &scope.objects[self.ptr.addr - 1] {
            VmValue::Bool(_) => true,
            _ => false,
        }
    }

    /// The handle refers to a VM list.
    pub fn is_list(self, scope: &Scope) -> (r: bool)
        ensures
            r == (scope.valid(self) && scope.obj(self) is List),
    {
        scope.is_live(self) && match &scope.objects[self.ptr.addr - 1] {
            VmValue::List(_) => true,
            _ => false,
        }
    }

    /// The handle refers to a VM byte buffer.
    pub fn is_typed_data(self, scope: &Scope) -> (r: bool)
        ensures
            r == (scope.valid(self) && scope.obj(self) is Bytes),
    {
        scope.is_live(self) && match &scope.objects[self.ptr.addr - 1] {
            VmValue::Bytes { .. } => true,
            _ => false,
        }
    }

    /// The handle refers to the null object.
    pub fn is_null(self, scope: &Scope) -> (r: bool)
        ensures
            r == (scope.valid(self) && scope.obj(self) is Null),
    {
        scope.is_live(self) && match &scope.objects[self.ptr.addr - 1] {
            VmValue::Null => true,
            _ => false,
        }
    }

    /// The handle refers to a closure.
    pub fn is_closure(self, scope: &Scope) -> (r: bool)
        ensures
            r == (scope.valid(self) && scope.obj(self) is Closure),
    {
        scope.is_live(self) && match &scope.objects[self.ptr.addr - 1] {
            VmValue::Closure(_) => true,
            _ => false,
        }
    }

    /// Object identity: two handles refer to the very same VM object.
    pub fn identity_equals(self, other: Handle) -> (r: bool)
        ensures
            r == (self.ptr == other.ptr),
    {
        self.ptr.addr == other.ptr.addr
    }

    /// VM-level value comparison, which can itself fail: primitives compare
    /// by content, instances by identity, and on anything else the VM
    /// cannot decide, which is reported as `Api`, distinct from `false`.
    pub fn object_equals(self, other: Handle, scope: &Scope) -> (r: Result<bool, DartError>)
        requires
            scope.wf(),
        ensures
            !(scope.valid(self) && scope.valid(other)) ==> is_api_err(r, stale_msg()),
            scope.valid(self) && scope.valid(other) ==> match spec_object_equals(
                scope@,
                self,
                other,
            ) {
                Some(b) => r == Ok::<bool, DartError>(b),
                None => is_api_err(r, "objects cannot be compared"@),
            },
    {
        if !scope.is_live(self) || !scope.is_live(other) {
            return Err(DartError::Api("handle used outside its scope".to_owned()));
        }
        let va = &scope.objects[self.ptr.addr - 1];
        let vb = &scope.objects[other.ptr.addr - 1];
        match (va, vb) {
            (VmValue::Null, VmValue::Null) => Ok(true),
            (VmValue::Bool(x), VmValue::Bool(y)) => Ok(*x == *y),
            (VmValue::Int(x), VmValue::Int(y)) => Ok(*x == *y),
            (VmValue::Str(x), VmValue::Str(y)) => Ok(x.eq(y)),
            (VmValue::Instance(_), VmValue::Instance(_)) => Ok(self.ptr.addr == other.ptr.addr),
            _ => {
                if Self::is_primitive_value(va) && Self::is_primitive_value(vb) {
                    Ok(false)
                } else {
                    Err(DartError::Api("objects cannot be compared".to_owned()))
                }
            },
        }
    }

    /// Whether `v` is a by-content value.
    fn is_primitive_value(v: &VmValue) -> (r: bool)
        ensures
            r == is_primitive(v@),
    {
        match v {
            VmValue::Null => true,
            VmValue::Bool(_) => true,
            VmValue::Int(_) => true,
            VmValue::Str(_) => true,
            _ => false,
        }
    }

    /// Whether this object is of the type `type_obj` names.  Fails on a
    /// handle that names no type and on an object whose type the VM does
    /// not report.
    pub fn object_is_type(self, type_obj: Handle, scope: &Scope) -> (r: Result<bool, DartError>)
        requires
            scope.wf(),
        ensures
            !(scope.valid(self) && scope.valid(type_obj)) ==> is_api_err(r, stale_msg()),
            scope.valid(self) && scope.valid(type_obj) && !(scope.obj(type_obj) is Class)
                ==> is_api_err(r, "Dart_ObjectIsType expects a type"@),
            scope.obj(type_obj) matches VmVal::Class(c) ==> (scope.valid(self) && scope.valid(
                type_obj,
            )) ==> match class_of(scope.obj(self)) {
                Some(k) => r == Ok::<bool, DartError>(k == c),
                None => is_api_err(r, "object has no type"@),
            },
    {
        if !scope.is_live(self) || !scope.is_live(type_obj) {
            return Err(DartError::Api("handle used outside its scope".to_owned()));
        }
        let c = match &scope.objects[type_obj.ptr.addr - 1] {
            VmValue::Class(c) => Some(c.clone()),
            _ => None,
        };
        match c {
            None => Err(DartError::Api("Dart_ObjectIsType expects a type".to_owned())),
            Some(c) => {
                match class_string(&scope.objects[self.ptr.addr - 1]) {
                    Some(k) => Ok(k.eq(&c)),
                    None => Err(DartError::Api("object has no type".to_owned())),
                }
            },
        }
    }

    /// Reads the boolean behind the handle; a handle to anything else fails
    /// with the VM's own conversion error.
    pub fn to_bool(self, scope: &Scope) -> (r: Result<bool, DartError>)
        requires
            scope.wf(),
        ensures
            !scope.valid(self) ==> is_api_err(r, stale_msg()),
            scope.valid(self) && !(scope.obj(self) is Bool) ==> is_api_err(
                r,
                "Dart_BooleanValue expects a boolean"@,
            ),
            scope.obj(self) matches VmVal::Bool(b) ==> scope.valid(self) ==> r == Ok::<
                bool,
                DartError,
            >(b),
    {
        if !scope.is_live(self) {
            return Err(DartError::Api("handle used outside its scope".to_owned()));
        }
        match &scope.objects[self.ptr.addr - 1] {
            VmValue::Bool(b) => Ok(*b),
            _ => Err(DartError::Api("Dart_BooleanValue expects a boolean".to_owned())),
        }
    }

    /// Reads the integer behind the handle as a signed 64-bit value.
    pub fn to_i64(self, scope: &Scope) -> (r: Result<i64, DartError>)
        requires
            scope.wf(),
        ensures
            !scope.valid(self) ==> is_api_err(r, stale_msg()),
            scope.valid(self) && !(scope.obj(self) is Int) ==> is_api_err(
                r,
                "Dart_IntegerToInt64 expects an integer"@,
            ),
            scope.obj(self) matches VmVal::Int(v) ==> scope.valid(self) ==> r == Ok::<
                i64,
                DartError,
            >(v),
    {
        if !scope.is_live(self) {
            return Err(DartError::Api("handle used outside its scope".to_owned()));
        }
        match &scope.objects[self.ptr.addr - 1] {
            VmValue::Int(v) => Ok(*v),
            _ => Err(DartError::Api("Dart_IntegerToInt64 expects an integer".to_owned())),
        }
    }

    /// Reads the integer behind the handle as an unsigned 64-bit value,
    /// which the VM refuses for negative integers.
    pub fn to_u64(self, scope: &Scope) -> (r: Result<u64, DartError>)
        requires
            scope.wf(),
        ensures
            !scope.valid(self) ==> is_api_err(r, stale_msg()),
            scope.valid(self) && !(scope.obj(self) is Int) ==> is_api_err(
                r,
                "Dart_IntegerToUint64 expects an integer"@,
            ),
            scope.obj(self) matches VmVal::Int(v) ==> scope.valid(self) ==> {
                &&& v >= 0 ==> r == Ok::<u64, DartError>(v as u64)
                &&& v < 0 ==> is_api_err(r, "Dart_IntegerToUint64 expects a non-negative integer"@)
            },
    {
        if !scope.is_live(self) {
            return Err(DartError::Api("handle used outside its scope".to_owned()));
        }
        match &scope.objects[self.ptr.addr - 1] {
            VmValue::Int(v) => {
                if *v >= 0 {
                    Ok(*v as u64)
                } else {
                    Err(
                        DartError::Api(
                            "Dart_IntegerToUint64 expects a non-negative integer".to_owned(),
                        ),
                    )
                }
            },
            _ => Err(DartError::Api("Dart_IntegerToUint64 expects an integer".to_owned())),
        }
    }

    /// Reads the string behind the handle as its UTF-8 bytes.
    pub fn to_utf8(self, scope: &Scope) -> (r: Result<Vec<u8>, DartError>)
        requires
            scope.wf(),
        ensures
            !scope.valid(self) ==> is_api_err(r, stale_msg()),
            scope.valid(self) && !(scope.obj(self) is Str) ==> is_api_err(
                r,
                "Dart_StringToUTF8 expects a string"@,
            ),
            scope.obj(self) matches VmVal::Str(cs) ==> scope.valid(self) ==> (r matches Ok(b)
                && b@ == encode_utf8(cs)),
    {
        if !scope.is_live(self) {
            return Err(DartError::Api("handle used outside its scope".to_owned()));
        }
        match &scope.objects[self.ptr.addr - 1] {
            VmValue::Str(s) => Ok(s.as_str().as_bytes_vec()),
            _ => Err(DartError::Api("Dart_StringToUTF8 expects a string".to_owned())),
        }
    }

    /// Reads the string behind the handle.
    pub fn to_string_lossy(self, scope: &Scope) -> (r: Result<String, DartError>)
        requires
            scope.wf(),
        ensures
            !scope.valid(self) ==> is_api_err(r, stale_msg()),
            scope.valid(self) && !(scope.obj(self) is Str) ==> is_api_err(
                r,
                "Dart_StringToUTF8 expects a string"@,
            ),
            scope.obj(self) matches VmVal::Str(cs) ==> scope.valid(self) ==> (r matches Ok(t)
                && t@ == cs),
    {
        if !scope.is_live(self) {
            return Err(DartError::Api("handle used outside its scope".to_owned()));
        }
        match &scope.objects[self.ptr.addr - 1] {
            VmValue::Str(s) => Ok(s.clone()),
            _ => Err(DartError::Api("Dart_StringToUTF8 expects a string".to_owned())),
        }
    }

    /// The diagnostic text of an error handle, or the fixed fallback phrase
    /// for a handle that carries no error.
    pub fn get_error_message(self, scope: &Scope) -> (r: String)
        requires
            scope.wf(),
        ensures
            scope.obj(self) matches VmVal::ErrorVal(m) ==> scope.valid(self) ==> r@ == m,
            !(scope.valid(self) && scope.obj(self) is ErrorVal) ==> r@
                == "<Dart_GetError returned null>"@,
    {
        if !scope.is_live(self) {
            return "<Dart_GetError returned null>".to_owned();
        }
        match &scope.objects[self.ptr.addr - 1] {
            VmValue::ErrorVal(m) => m.clone(),
            _ => "<Dart_GetError returned null>".to_owned(),
        }
    }

    /// The type of the instance behind the handle, as a fresh type handle.
    pub fn instance_get_type(self, scope: &mut Scope) -> (r: Result<Handle, DartError>)
        requires
            old(scope).wf(),
            old(scope)@.len() < usize::MAX,
        ensures
            final(scope).wf(),
            final(scope).tag == old(scope).tag,
            final(scope).root == old(scope).root,
            !old(scope).valid(self) ==> final(scope)@ == old(scope)@ && is_api_err(r, stale_msg()),
            old(scope).valid(self) && class_of(old(scope).obj(self)) is None ==> final(scope)@
                == old(scope)@ && is_api_err(r, "Dart_InstanceGetType expects an instance"@),
            class_of(old(scope).obj(self)) matches Some(k) ==> old(scope).valid(self) ==> {
                &&& final(scope)@ == old(scope)@.push(VmVal::Class(k))
                &&& r == Ok::<Handle, DartError>(next_handle(old(scope)@, old(scope).tag))
            },
    {
        if !scope.is_live(self) {
            return Err(DartError::Api("handle used outside its scope".to_owned()));
        }
        match class_string(&scope.objects[self.ptr.addr - 1]) {
            None => Err(DartError::Api("Dart_InstanceGetType expects an instance".to_owned())),
            Some(k) => {
                let raw = scope.store(VmValue::Class(k));
                scope.check(raw)
            },
        }
    }

    /// The name of the type behind the handle, as a fresh string handle.
    pub fn class_name(self, scope: &mut Scope) -> (r: Result<Handle, DartError>)
        requires
            old(scope).wf(),
            old(scope)@.len() < usize::MAX,
        ensures
            final(scope).wf(),
            final(scope).tag == old(scope).tag,
            final(scope).root == old(scope).root,
            !old(scope).valid(self) ==> final(scope)@ == old(scope)@ && is_api_err(r, stale_msg()),
            old(scope).valid(self) && !(old(scope).obj(self) is Class) ==> final(scope)@ == old(
                scope,
            )@ && is_api_err(r, "Dart_ClassName expects a type"@),
            old(scope).obj(self) matches VmVal::Class(c) ==> old(scope).valid(self) ==> {
                &&& final(scope)@ == old(scope)@.push(VmVal::Str(c))
                &&& r == Ok::<Handle, DartError>(next_handle(old(scope)@, old(scope).tag))
            },
    {
        if !scope.is_live(self) {
            return Err(DartError::Api("handle used outside its scope".to_owned()));
        }
        let c = match &scope.objects[self.ptr.addr - 1] {
            VmValue::Class(c) => Some(c.clone()),
            _ => None,
        };
        match c {
            None => Err(DartError::Api("Dart_ClassName expects a type".to_owned())),
            Some(c) => {
                let raw = scope.store(VmValue::Str(c));
                scope.check(raw)
            },
        }
    }

    /// The name of the closure behind the handle, as a fresh string handle.
    pub fn function_name(self, scope: &mut Scope) -> (r: Result<Handle, DartError>)
        requires
            old(scope).wf(),
            old(scope)@.len() < usize::MAX,
        ensures
            final(scope).wf(),
            final(scope).tag == old(scope).tag,
            final(scope).root == old(scope).root,
            !old(scope).valid(self) ==> final(scope)@ == old(scope)@ && is_api_err(r, stale_msg()),
            old(scope).valid(self) && !(old(scope).obj(self) is Closure) ==> final(scope)@ == old(
                scope,
            )@ && is_api_err(r, "Dart_FunctionName expects a closure"@),
            old(scope).obj(self) matches VmVal::Closure(n) ==> old(scope).valid(self) ==> {
                &&& final(scope)@ == old(scope)@.push(VmVal::Str(n))
                &&& r == Ok::<Handle, DartError>(next_handle(old(scope)@, old(scope).tag))
            },
    {
        if !scope.is_live(self) {
            return Err(DartError::Api("handle used outside its scope".to_owned()));
        }
        let n = match &scope.objects[self.ptr.addr - 1] {
            VmValue::Closure(n) => Some(n.clone()),
            _ => None,
        };
        match n {
            None => Err(DartError::Api("Dart_FunctionName expects a closure".to_owned())),
            Some(n) => {
                let raw = scope.store(VmValue::Str(n));
                scope.check(raw)
            },
        }
    }

    /// Attaches the native payload token `peer` to the instance behind the
    /// handle.  Like the raw call, this reports no failure: a stale handle
    /// or a non-instance leaves the store untouched.
    pub fn set_peer(self, scope: &mut Scope, peer: u64)
        requires
            old(scope).wf(),
        ensures
            final(scope).wf(),
            final(scope).tag == old(scope).tag,
            final(scope).root == old(scope).root,
            old(scope).obj(self) matches VmVal::Instance(d) ==> old(scope).valid(self)
                ==> final(scope)@ == old(scope)@.update(
                self.ptr.addr - 1,
                VmVal::Instance((InstanceV { peer: Some(peer), ..d })),
            ),
            !(old(scope).valid(self) && old(scope).obj(self) is Instance) ==> final(scope)@ == old(
                scope,
            )@,
    {
        if !scope.is_live(self) {
            return;
        }
        let i = self.ptr.addr - 1;
        let replacement = match &scope.objects[i] {
            VmValue::Instance(d) => {
                let mut c = clone_instance(d);
                c.peer = Some(peer);
                Some(VmValue::Instance(c))
            },
            _ => None,
        };
        match replacement {
            Some(v) => {
                proof {
                    lemma_heap_of_update(scope.objects@, i as int, v);
                    lemma_heap_wf_update(scope@, i as int, v@);
                }
                scope.objects.set(i, v);
            },
            None => {},
        }
    }

    /// Reads the native payload token attached to the instance behind the
    /// handle; an instance with no payload yields `NullHandle`.
    pub fn get_peer(self, scope: &Scope) -> (r: Result<u64, DartError>)
        requires
            scope.wf(),
        ensures
            !scope.valid(self) ==> is_api_err(r, stale_msg()),
            scope.valid(self) && !(scope.obj(self) is Instance) ==> is_api_err(
                r,
                "Dart_GetPeer expects an instance"@,
            ),
            scope.obj(self) matches VmVal::Instance(d) ==> scope.valid(self) ==> match d.peer {
                Some(p) => r == Ok::<u64, DartError>(p),
                None => r == Err::<u64, DartError>(DartError::NullHandle),
            },
    {
        if !scope.is_live(self) {
            return Err(DartError::Api("handle used outside its scope".to_owned()));
        }
        match &scope.objects[self.ptr.addr - 1] {
            VmValue::Instance(d) => match d.peer {
                Some(p) => Ok(p),
                None => Err(DartError::NullHandle),
            },
            _ => Err(DartError::Api("Dart_GetPeer expects an instance".to_owned())),
        }
    }

    /// Registers the native payload token `peer` for release when the VM
    /// collects the instance behind the handle.  The collector's timing is
    /// the VM's own; the registration records that exactly this payload is
    /// released then.  A stale handle or a non-instance leaves the store
    /// untouched.
    pub fn new_finalizable_handle(self, scope: &mut Scope, peer: u64)
        requires
            old(scope).wf(),
        ensures
            final(scope).wf(),
            final(scope).tag == old(scope).tag,
            final(scope).root == old(scope).root,
            old(scope).obj(self) matches VmVal::Instance(d) ==> old(scope).valid(self)
                ==> final(scope)@ == old(scope)@.update(
                self.ptr.addr - 1,
                VmVal::Instance((InstanceV { finalizer: Some(peer), ..d })),
            ),
            !(old(scope).valid(self) && old(scope).obj(self) is Instance) ==> final(scope)@ == old(
                scope,
            )@,
    {
        if !scope.is_live(self) {
            return;
        }
        let i = self.ptr.addr - 1;
        let replacement = match &scope.objects[i] {
            VmValue::Instance(d) => {
                let mut c = clone_instance(d);
                c.finalizer = Some(peer);
                Some(VmValue::Instance(c))
            },
            _ => None,
        };
        match replacement {
            Some(v) => {
                proof {
                    lemma_heap_of_update(scope.objects@, i as int, v);
                    lemma_heap_wf_update(scope@, i as int, v@);
                }
                scope.objects.set(i, v);
            },
            None => {},
        }
    }

    /// Writes field `name` of the instance behind the handle.  Like the raw
    /// call, this reports no failure: when the handles are stale, `name` is
    /// no string, or the target is no instance, the store is untouched.
    pub fn set_field(self, scope: &mut Scope, name: Handle, value: &Handle)
        requires
            old(scope).wf(),
        ensures
            final(scope).wf(),
            final(scope).tag == old(scope).tag,
            final(scope).root == old(scope).root,
            old(scope).obj(self) matches VmVal::Instance(d) ==> (old(scope).obj(name) matches
                VmVal::Str(n) ==> (old(scope).valid(self) && old(scope).valid(name) && old(
                scope,
            ).valid(*value)) ==> final(scope)@ == old(scope)@.update(
                self.ptr.addr - 1,
                VmVal::Instance(
                    (InstanceV { fields: spec_fields_set(d.fields, n, value.ptr), ..d }),
                ),
            )),
            !(old(scope).valid(self) && old(scope).valid(name) && old(scope).valid(*value) && old(
                scope,
            ).obj(self) is Instance && old(scope).obj(name) is Str) ==> final(scope)@ == old(
                scope,
            )@,
    {
        if !scope.is_live(self) || !scope.is_live(name) || !scope.is_live(*value) {
            return;
        }
        let n = match &scope.objects[name.ptr.addr - 1] {
            VmValue::Str(n) => Some(n.clone()),
            _ => None,
        };
        let n = match n {
            Some(n) => n,
            None => {
                return;
            },
        };
        let i = self.ptr.addr - 1;
        let replacement = match &scope.objects[i] {
            VmValue::Instance(d) => {
                let mut c = clone_instance(d);
                c.fields = Self::fields_with(&d.fields, &n, value.ptr);
                Some(VmValue::Instance(c))
            },
            _ => None,
        };
        match replacement {
            Some(v) => {
                proof {
                    lemma_heap_of_update(scope.objects@, i as int, v);
                    lemma_heap_wf_update(scope@, i as int, v@);
                }
                scope.objects.set(i, v);
            },
            None => {},
        }
    }

    /// The slots of `fields` with `n` written to `v`.
    fn fields_with(fields: &Vec<FieldSlot>, n: &String, v: RawHandle) -> (r: Vec<FieldSlot>)
        ensures
            r.deep_view() == spec_fields_set(fields.deep_view(), n@, v),
    {
        let ghost orig = fields.deep_view();
        let ghost updated = Seq::new(
            orig.len(),
            |j: int|
                if orig[j].name == n@ {
                    FieldV { name: n@, value: v }
                } else {
                    orig[j]
                },
        );
        let len = fields.len();
        let mut out: Vec<FieldSlot> = Vec::new();
        let mut found = false;
        let mut i: usize = 0;
        while i < len
            invariant
                len == fields.len(),
                orig == fields.deep_view(),
                updated == Seq::new(
                    orig.len(),
                    |j: int|
                        if orig[j].name == n@ {
                            FieldV { name: n@, value: v }
                        } else {
                            orig[j]
                        },
                ),
                0 <= i <= len,
                out.len() == i,
                out.deep_view() == updated.take(i as int),
                found == exists|j: int| 0 <= j < i && (#[trigger] orig[j]).name == n@,
            decreases len - i,
        {
            if fields[i].name.eq(n) {
                out.push(FieldSlot { name: n.clone(), value: v });
                found = true;
                proof {
                    assert((orig[i as int]).name == n@);
                }
            } else {
                out.push(FieldSlot { name: fields[i].name.clone(), value: fields[i].value });
                proof {
                    assert((orig[i as int]).name != n@);
                }
            }
            proof {
                assert(out.deep_view() =~= updated.take(i + 1));
            }
            i = i + 1;
        }
        proof {
            assert(updated.take(len as int) =~= updated);
        }
        if !found {
            out.push(FieldSlot { name: n.clone(), value: v });
            proof {
                assert(!has_field(orig, n@));
                assert(updated =~= orig);
                assert(out.deep_view() =~= orig.push(FieldV { name: n@, value: v }));
            }
        } else {
            proof {
                assert(has_field(orig, n@));
            }
        }
        out
    }

    /// Reads field `name`.  On a library, an exported function's name
    /// yields a fresh closure; on an instance, the first slot so named is
    /// read and its raw value is validated; a name that is bound nowhere
    /// yields `NullHandle`.
    pub fn get_field(self, scope: &mut Scope, name: Handle) -> (r: Result<Handle, DartError>)
        requires
            old(scope).wf(),
            old(scope)@.len() < usize::MAX,
        ensures
            final(scope).wf(),
            final(scope).tag == old(scope).tag,
            final(scope).root == old(scope).root,
            !(old(scope).valid(self) && old(scope).valid(name)) ==> final(scope)@ == old(scope)@
                && is_api_err(r, stale_msg()),
            old(scope).valid(self) && old(scope).valid(name) && !(old(scope).obj(name) is Str)
                ==> final(scope)@ == old(scope)@ && is_api_err(r, "Dart_GetField expects a field name"@),
            old(scope).obj(name) matches VmVal::Str(n) ==> (old(scope).valid(self) && old(
                scope,
            ).valid(name)) ==> {
                &&& old(scope).obj(self) matches VmVal::Library(l) ==> {
                    &&& l.functions.contains(n) ==> final(scope)@ == old(scope)@.push(
                        VmVal::Closure(n),
                    ) && r == Ok::<Handle, DartError>(next_handle(old(scope)@, old(scope).tag))
                    &&& !l.functions.contains(n) ==> final(scope)@ == old(scope)@ && r == Err::<
                        Handle,
                        DartError,
                    >(DartError::NullHandle)
                }
                &&& old(scope).obj(self) matches VmVal::Instance(d) ==> final(scope)@ == old(
                    scope,
                )@ && (match spec_fields_get(d.fields, n) {
                    Some(raw) => res_view(r) == spec_check(old(scope)@, old(scope).tag, raw),
                    None => r == Err::<Handle, DartError>(DartError::NullHandle),
                })
                &&& !(old(scope).obj(self) is Library || old(scope).obj(self) is Instance)
                    ==> final(scope)@ == old(scope)@ && is_api_err(
                    r,
                    "Dart_GetField expects a library or instance"@,
                )
            },
    {
        if !scope.is_live(self) || !scope.is_live(name) {
            return Err(DartError::Api("handle used outside its scope".to_owned()));
        }
        let n = match &scope.objects[name.ptr.addr - 1] {
            VmValue::Str(n) => Some(n.clone()),
            _ => None,
        };
        let n = match n {
            Some(n) => n,
            None => {
                return Err(DartError::Api("Dart_GetField expects a field name".to_owned()));
            },
        };
        let looked = match &scope.objects[self.ptr.addr - 1] {
            VmValue::Library(l) => Looked::Exported(
                vec_has_string(&l.functions, n.as_str()),
            ),
            VmValue::Instance(d) => {
                let fr = Self::fields_find(&d.fields, &n);
                proof {
                    lemma_fields_get_in(d.fields.deep_view(), n@);
                    assert(val_wf(scope@[self.ptr.addr - 1], scope@.len()));
                }
                Looked::Slot(fr)
            },
            _ => Looked::Neither,
        };
        match looked {
            Looked::Exported(true) => {
                let raw = scope.store(VmValue::Closure(n));
                scope.check(raw)
            },
            Looked::Exported(false) => Err(DartError::NullHandle),
            Looked::Slot(Some(raw)) => scope.check(raw),
            Looked::Slot(None) => Err(DartError::NullHandle),
            Looked::Neither => Err(
                DartError::Api("Dart_GetField expects a library or instance".to_owned()),
            ),
        }
    }

    /// The value of the first slot of `fields` named `n`, if any.
    fn fields_find(fields: &Vec<FieldSlot>, n: &String) -> (r: Option<RawHandle>)
        ensures
            r == spec_fields_get(fields.deep_view(), n@),
    {
        let len = fields.len();
        let mut i: usize = 0;
        proof {
            assert(fields.deep_view().skip(0) =~= fields.deep_view());
        }
        while i < len
            invariant
                len == fields.len(),
                0 <= i <= len,
                spec_fields_get(fields.deep_view(), n@) == spec_fields_get(
                    fields.deep_view().skip(i as int),
                    n@,
                ),
            decreases len - i,
        {
            if fields[i].name.eq(n) {
                proof {
                    assert(fields.deep_view().skip(i as int)[0] == fields.deep_view()[i as int]);
                }
                return Some(fields[i].value);
            }
            proof {
                lemma_fields_get_step(fields.deep_view(), n@, i as int);
            }
            i = i + 1;
        }
        proof {
            assert(fields.deep_view().skip(len as int) =~= Seq::<FieldV>::empty());
        }
        None
    }
}

} // verus!
