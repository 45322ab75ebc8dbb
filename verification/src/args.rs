//! The argument and return-value channel of one VM-to-native invocation.
//!
//! For each call of a native function the VM supplies the positional raw
//! arguments and one return slot.  Typed accessors read an argument and
//! pass it through the validation gate in one step; the return-value
//! setters overwrite the single slot, so the VM observes the last write,
//! and a call that writes no slot returns the null object.

use vstd::prelude::*;

use crate::error::{is_api_err, res_view, DartError};
use crate::scope::{stale_msg, Scope};
use crate::value::{raw_ok, spec_check, Handle, RawHandle, ScopeTag, VmVal, VmValue};

verus! {

/// The call context of one VM-to-native invocation, valid only for the
/// scope in which the invocation runs.
pub struct NativeArguments {
    /// The positional raw arguments the VM supplied.
    pub args: Vec<RawHandle>,
    /// The single return slot; initially the null object.
    pub ret: RawHandle,
    /// The tag of the scope the invocation runs in.
    pub tag: ScopeTag,
}

impl NativeArguments {
    /// Wraps the raw argument array of one invocation running in `scope`.
    /// The return slot starts at the null object: a native function that
    /// writes no return value returns null.
    pub fn from_raw(raw: Vec<RawHandle>, scope: &Scope) -> (r: NativeArguments)
        ensures
            r.args@ == raw@,
            r.ret == (RawHandle { addr: 1 }),
            r.tag == scope.tag,
    {
        NativeArguments { args: raw, ret: RawHandle { addr: 1 }, tag: scope.tag }
    }

    /// The raw argument array.
    pub fn raw(&self) -> (r: &Vec<RawHandle>)
        ensures
            r@ == self.args@,
    {
        &self.args
    }

    /// The return slot as the VM observes it when the call returns.
    pub fn return_value(&self) -> (r: RawHandle)
        ensures
            r == self.ret,
    {
        self.ret
    }

    /// The number of positional arguments.
    pub fn get_arg_count(&self) -> (r: usize)
        ensures
            r == self.args@.len(),
    {
        self.args.len()
    }

    /// Reads argument `index` through the validation gate.
    pub fn get_arg(&self, scope: &Scope, index: usize) -> (r: Result<Handle, DartError>)
        requires
            scope.wf(),
        ensures
            self.tag != scope.tag ==> is_api_err(r, stale_msg()),
            self.tag == scope.tag ==> {
                &&& index >= self.args@.len() ==> is_api_err(
                    r,
                    "native argument index out of range"@,
                )
                &&& index < self.args@.len() ==> {
                    &&& !raw_ok(self.args@[index as int], scope@.len()) ==> is_api_err(
                        r,
                        stale_msg(),
                    )
                    &&& raw_ok(self.args@[index as int], scope@.len()) ==> res_view(r)
                        == spec_check(scope@, scope.tag, self.args@[index as int])
                }
            },
    {
        if self.tag != scope.tag {
            return Err(DartError::Api("handle used outside its scope".to_owned()));
        }
        if index >= self.args.len() {
            return Err(DartError::Api("native argument index out of range".to_owned()));
        }
        let raw = self.args[index];
        if raw.addr > scope.objects.len() {
            return Err(DartError::Api("handle used outside its scope".to_owned()));
        }
        scope.check(raw)
    }

    /// Reads argument `index` as a string handle in one step.
    pub fn get_string_arg(&self, scope: &Scope, index: usize) -> (r: Result<Handle, DartError>)
        requires
            scope.wf(),
        ensures
            self.tag != scope.tag ==> is_api_err(r, stale_msg()),
            self.tag == scope.tag && index >= self.args@.len() ==> is_api_err(
                r,
                "native argument index out of range"@,
            ),
            self.tag == scope.tag && index < self.args@.len() && !raw_ok(
                self.args@[index as int],
                scope@.len(),
            ) ==> is_api_err(r, stale_msg()),
            spec_check(scope@, scope.tag, self.args@[index as int]) matches Ok(h) ==> (self.tag
                == scope.tag && index < self.args@.len() && raw_ok(
                self.args@[index as int],
                scope@.len(),
            )) ==> {
                &&& scope.obj(h) is Str ==> r == Ok::<Handle, DartError>(h)
                &&& !(scope.obj(h) is Str) ==> is_api_err(
                    r,
                    "Dart_GetNativeStringArgument expects a string"@,
                )
            },
            spec_check(scope@, scope.tag, self.args@[index as int]) matches Err(e) ==> (self.tag
                == scope.tag && index < self.args@.len() && raw_ok(
                self.args@[index as int],
                scope@.len(),
            )) ==> (r matches Err(e2) && e2@ == e),
    {
        let h = match self.get_arg(scope, index) {
            Ok(h) => h,
            Err(e) => {
                return Err(e);
            },
        };
        if h.is_string(scope) {
            Ok(h)
        } else {
            Err(DartError::Api("Dart_GetNativeStringArgument expects a string".to_owned()))
        }
    }

    /// Reads argument `index` as an integer in one step, with no
    /// intermediate handle round-trip.
    pub fn get_integer_arg(&self, scope: &Scope, index: usize) -> (r: Result<i64, DartError>)
        requires
            scope.wf(),
        ensures
            self.tag != scope.tag ==> is_api_err(r, stale_msg()),
            self.tag == scope.tag && index >= self.args@.len() ==> is_api_err(
                r,
                "native argument index out of range"@,
            ),
            self.tag == scope.tag && index < self.args@.len() && !raw_ok(
                self.args@[index as int],
                scope@.len(),
            ) ==> is_api_err(r, stale_msg()),
            spec_check(scope@, scope.tag, self.args@[index as int]) matches Ok(h) ==> (self.tag
                == scope.tag && index < self.args@.len() && raw_ok(
                self.args@[index as int],
                scope@.len(),
            )) ==> {
                &&& scope.obj(h) matches VmVal::Int(v) ==> r == Ok::<i64, DartError>(v)
                &&& !(scope.obj(h) is Int) ==> is_api_err(
                    r,
                    "Dart_GetNativeIntegerArgument expects an integer"@,
                )
            },
            spec_check(scope@, scope.tag, self.args@[index as int]) matches Err(e) ==> (self.tag
                == scope.tag && index < self.args@.len() && raw_ok(
                self.args@[index as int],
                scope@.len(),
            )) ==> (r matches Err(e2) && e2@ == e),
    {
        let h = match self.get_arg(scope, index) {
            Ok(h) => h,
            Err(e) => {
                return Err(e);
            },
        };
        match &scope.objects[h.ptr.addr - 1] {
            VmValue::Int(v) => Ok(*v),
            _ => Err(DartError::Api("Dart_GetNativeIntegerArgument expects an integer".to_owned())),
        }
    }

    /// Reads argument `index` as a boolean in one step.
    pub fn get_boolean_arg(&self, scope: &Scope, index: usize) -> (r: Result<bool, DartError>)
        requires
            scope.wf(),
        ensures
            self.tag != scope.tag ==> is_api_err(r, stale_msg()),
            self.tag == scope.tag && index >= self.args@.len() ==> is_api_err(
                r,
                "native argument index out of range"@,
            ),
            self.tag == scope.tag && index < self.args@.len() && !raw_ok(
                self.args@[index as int],
                scope@.len(),
            ) ==> is_api_err(r, stale_msg()),
            spec_check(scope@, scope.tag, self.args@[index as int]) matches Ok(h) ==> (self.tag
                == scope.tag && index < self.args@.len() && raw_ok(
                self.args@[index as int],
                scope@.len(),
            )) ==> {
                &&& scope.obj(h) matches VmVal::Bool(v) ==> r == Ok::<bool, DartError>(v)
                &&& !(scope.obj(h) is Bool) ==> is_api_err(
                    r,
                    "Dart_GetNativeBooleanArgument expects a boolean"@,
                )
            },
            spec_check(scope@, scope.tag, self.args@[index as int]) matches Err(e) ==> (self.tag
                == scope.tag && index < self.args@.len() && raw_ok(
                self.args@[index as int],
                scope@.len(),
            )) ==> (r matches Err(e2) && e2@ == e),
    {
        let h = match self.get_arg(scope, index) {
            Ok(h) => h,
            Err(e) => {
                return Err(e);
            },
        };
        match &scope.objects[h.ptr.addr - 1] {
            VmValue::Bool(v) => Ok(*v),
            _ => Err(DartError::Api("Dart_GetNativeBooleanArgument expects a boolean".to_owned())),
        }
    }

    /// Reads the receiver's first native field slot: the conventional place
    /// for the native pointer of a VM-native-backed instance.
    pub fn get_native_receiver(&self, scope: &Scope) -> (r: Result<i64, DartError>)
        requires
            scope.wf(),
        ensures
            self.tag != scope.tag ==> is_api_err(r, stale_msg()),
            self.tag == scope.tag && self.args@.len() == 0 ==> is_api_err(
                r,
                "native argument index out of range"@,
            ),
            self.tag == scope.tag && self.args@.len() > 0 && !raw_ok(self.args@[0], scope@.len())
                ==> is_api_err(r, stale_msg()),
            self.tag == scope.tag && self.args@.len() > 0 && raw_ok(self.args@[0], scope@.len())
                && (spec_check(scope@, scope.tag, self.args@[0]) matches Err(_)) ==> r is Err,
            spec_check(scope@, scope.tag, self.args@[0]) matches Ok(h) ==> (self.tag == scope.tag
                && self.args@.len() > 0 && raw_ok(self.args@[0], scope@.len())) ==> {
                &&& scope.obj(h) matches VmVal::Instance(d) ==> {
                    &&& d.native_fields.len() > 0 ==> r == Ok::<i64, DartError>(
                        d.native_fields[0],
                    )
                    &&& d.native_fields.len() == 0 ==> is_api_err(
                        r,
                        "receiver has no native fields"@,
                    )
                }
                &&& !(scope.obj(h) is Instance) ==> is_api_err(
                    r,
                    "Dart_GetNativeReceiver expects an instance"@,
                )
            },
    {
        let h = match self.get_arg(scope, 0) {
            Ok(h) => h,
            Err(e) => {
                return Err(e);
            },
        };
        match &scope.objects[h.ptr.addr - 1] {
            VmValue::Instance(d) => {
                if d.native_fields.len() > 0 {
                    Ok(d.native_fields[0])
                } else {
                    Err(DartError::Api("receiver has no native fields".to_owned()))
                }
            },
            _ => Err(DartError::Api("Dart_GetNativeReceiver expects an instance".to_owned())),
        }
    }

    /// Fills `fields` with the leading native field slots of argument
    /// `index`: as many as `fields` has room for, which the instance must
    /// have.  On any failure `fields` is left as it was.
    pub fn get_native_fields_of_arg(
        &self,
        scope: &Scope,
        index: usize,
        fields: &mut Vec<i64>,
    ) -> (r: Result<(), DartError>)
        requires
            scope.wf(),
        ensures
            r is Err ==> final(fields)@ == old(fields)@,
            self.tag != scope.tag ==> is_api_err(r, stale_msg()),
            self.tag == scope.tag && index >= self.args@.len() ==> is_api_err(
                r,
                "native argument index out of range"@,
            ),
            spec_check(scope@, scope.tag, self.args@[index as int]) matches Ok(h) ==> (self.tag
                == scope.tag && index < self.args@.len() && raw_ok(
                self.args@[index as int],
                scope@.len(),
            )) ==> {
                &&& scope.obj(h) matches VmVal::Instance(d) ==> {
                    &&& old(fields)@.len() <= d.native_fields.len() ==> r == Ok::<(), DartError>(
                        (),
                    ) && final(fields)@ == d.native_fields.take(old(fields)@.len() as int)
                    &&& old(fields)@.len() > d.native_fields.len() ==> is_api_err(
                        r,
                        "instance has too few native fields"@,
                    )
                }
                &&& !(scope.obj(h) is Instance) ==> is_api_err(
                    r,
                    "Dart_GetNativeFieldsOfArgument expects an instance"@,
                )
            },
    {
        let h = match self.get_arg(scope, index) {
            Ok(h) => h,
            Err(e) => {
                return Err(e);
            },
        };
        match &scope.objects[h.ptr.addr - 1] {
            VmValue::Instance(d) => {
                let want = fields.len();
                if want > d.native_fields.len() {
                    return Err(DartError::Api("instance has too few native fields".to_owned()));
                }
                let mut j: usize = 0;
                while j < want
                    invariant
                        0 <= j <= want,
                        want == fields.len(),
                        want <= d.native_fields@.len(),
                        forall|k: int| 0 <= k < j ==> fields@[k] == d.native_fields@[k],
                    decreases want - j,
                {
                    fields.set(j, d.native_fields[j]);
                    j = j + 1;
                }
                proof {
                    assert(fields@ =~= d.native_fields@.take(want as int));
                }
                Ok(())
            },
            _ => Err(
                DartError::Api("Dart_GetNativeFieldsOfArgument expects an instance".to_owned()),
            ),
        }
    }

    /// Writes `handle` into the return slot, replacing any earlier write.
    pub fn set_return_value(&mut self, handle: Handle)
        ensures
            final(self).ret == handle.ptr,
            final(self).args@ == old(self).args@,
            final(self).tag == old(self).tag,
    {
        self.ret = handle.ptr;
    }

    /// Constructs a fresh VM boolean in `scope` and writes it into the
    /// return slot.
    pub fn set_bool_return_value(&mut self, scope: &mut Scope, value: bool)
        requires
            old(scope).wf(),
            old(scope)@.len() < usize::MAX,
        ensures
            final(scope).wf(),
            final(scope).tag == old(scope).tag,
            final(scope).root == old(scope).root,
            final(scope)@ == old(scope)@.push(VmVal::Bool(value)),
            final(self).ret == (RawHandle { addr: (old(scope)@.len() + 1) as usize }),
            final(self).args@ == old(self).args@,
            final(self).tag == old(self).tag,
    {
        let raw = scope.store(VmValue::Bool(value));
        self.ret = raw;
    }

    /// Constructs a fresh VM integer in `scope` and writes it into the
    /// return slot.
    pub fn set_int_return_value(&mut self, scope: &mut Scope, value: i64)
        requires
            old(scope).wf(),
            old(scope)@.len() < usize::MAX,
        ensures
            final(scope).wf(),
            final(scope).tag == old(scope).tag,
            final(scope).root == old(scope).root,
            final(scope)@ == old(scope)@.push(VmVal::Int(value)),
            final(self).ret == (RawHandle { addr: (old(scope)@.len() + 1) as usize }),
            final(self).args@ == old(self).args@,
            final(self).tag == old(self).tag,
    {
        let raw = scope.store(VmValue::Int(value));
        self.ret = raw;
    }
}

} // verus!
