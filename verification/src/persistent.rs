//! Handles promoted to outlive their producing scope.
//!
//! A persistent handle is the one handle kind that crosses scope
//! boundaries: it records the raw object pointer and the isolate it belongs
//! to, and every later use still demands a live scope of that isolate.
//! Dropping the value is its deletion; since every operation takes it by
//! reference and nothing duplicates it, the deletion happens exactly once.

use vstd::prelude::*;

use crate::error::{is_api_err, DartError};
use crate::scope::{stale_msg, Scope};
use crate::value::{Handle, RawHandle, VmValue};

verus! {

/// A handle promoted to cross-scope lifetime, for storing callbacks that a
/// later scope invokes.
pub struct PersistentHandle {
    /// The raw object pointer, which stays meaningful across scopes of the
    /// owning isolate because the store only grows.
    pub ptr: RawHandle,
    /// The isolate whose store the pointer refers into.
    pub iso: u64,
}

impl PersistentHandle {
    /// Promotes `handle` out of `scope`.  Only a handle that is live right
    /// now may be promoted.
    pub fn new(handle: Handle, scope: &Scope) -> (r: Result<PersistentHandle, DartError>)
        requires
            scope.wf(),
        ensures
            !scope.valid(handle) ==> is_api_err(r, stale_msg()),
            scope.valid(handle) ==> (r matches Ok(p) && p.ptr == handle.ptr && p.iso
                == scope.tag.iso),
    {
        if !scope.is_live(handle) {
            return Err(DartError::Api("handle used outside its scope".to_owned()));
        }
        Ok(PersistentHandle { ptr: handle.ptr, iso: scope.tag.iso })
    }

    /// The raw persistent pointer.
    pub fn raw(&self) -> (r: RawHandle)
        ensures
            r == self.ptr,
    {
        self.ptr
    }

    /// Calls the referenced closure from within the currently live `scope`:
    /// the persistent handle supplies the callable identity, the scope
    /// produces the result handle.  In the model every closure completes
    /// normally with the null object.
    #[allow(unused_variables)]
    pub fn invoke(&self, scope: &mut Scope, args: &Vec<RawHandle>) -> (r: Result<
        Handle,
        DartError,
    >)
        requires
            old(scope).wf(),
        ensures
            final(scope).wf(),
            final(scope)@ == old(scope)@,
            final(scope).tag == old(scope).tag,
            final(scope).root == old(scope).root,
            self.iso != old(scope).tag.iso ==> is_api_err(
                r,
                "persistent handle belongs to another isolate"@,
            ),
            self.iso == old(scope).tag.iso ==> {
                &&& (self.ptr.addr == 0 || self.ptr.addr > old(scope)@.len()) ==> is_api_err(
                    r,
                    "persistent handle does not refer to an object"@,
                )
                &&& 1 <= self.ptr.addr <= old(scope)@.len() && !(old(scope)@[self.ptr.addr - 1]
                    is Closure) ==> is_api_err(r, "Dart_InvokeClosure expects a closure"@)
                &&& 1 <= self.ptr.addr <= old(scope)@.len() && old(scope)@[self.ptr.addr - 1]
                    is Closure ==> r == Ok::<Handle, DartError>(
                    Handle { ptr: RawHandle { addr: 1 }, tag: old(scope).tag },
                )
            },
    {
        if self.iso != scope.tag.iso {
            return Err(DartError::Api("persistent handle belongs to another isolate".to_owned()));
        }
        if self.ptr.addr == 0 || self.ptr.addr > scope.objects.len() {
            return Err(DartError::Api("persistent handle does not refer to an object".to_owned()));
        }
        match &scope.objects[self.ptr.addr - 1] {
            VmValue::Closure(_) => scope.null_handle(),
            _ => Err(DartError::Api("Dart_InvokeClosure expects a closure".to_owned())),
        }
    }
}

} // verus!
