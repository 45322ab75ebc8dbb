//! A typed wrapper for handles that refer to VM lists.

use vstd::prelude::*;

use crate::error::{is_api_err, res_view, DartError};
use crate::scope::{stale_msg, Scope};
use crate::value::{
    clone_raws, lemma_heap_of_update, lemma_heap_wf_update, raw_ok, spec_check, val_wf, Handle,
    VmVal, VmValue,
};

verus! {

/// A handle known, at construction time, to refer to a VM list.
pub struct List(pub Handle);

impl List {
    /// Wraps `handle` after classifying it: anything but a live list
    /// handle is refused.
    pub fn new(scope: &Scope, handle: Handle) -> (r: Result<List, DartError>)
        ensures
            scope.valid(handle) && scope.obj(handle) is List ==> (r matches Ok(l) && l.0
                == handle),
            !(scope.valid(handle) && scope.obj(handle) is List) ==> is_api_err(
                r,
                "expected a Dart List"@,
            ),
    {
        if handle.is_list(scope) {
            Ok(List(handle))
        } else {
            Err(DartError::Api("expected a Dart List".to_owned()))
        }
    }

    /// The number of elements.
    pub fn len(&self, scope: &Scope) -> (r: Result<usize, DartError>)
        requires
            scope.wf(),
        ensures
            !scope.valid(self.0) ==> is_api_err(r, stale_msg()),
            scope.valid(self.0) && !(scope.obj(self.0) is List) ==> is_api_err(
                r,
                "Dart_ListLength expects a list"@,
            ),
            scope.obj(self.0) matches VmVal::List(hs) ==> scope.valid(self.0) ==> r == Ok::<
                usize,
                DartError,
            >(hs.len() as usize),
    {
        if !scope.is_live(self.0) {
            return Err(DartError::Api("handle used outside its scope".to_owned()));
        }
        match &scope.objects[self.0.ptr.addr - 1] {
            VmValue::List(hs) => Ok(hs.len()),
            _ => Err(DartError::Api("Dart_ListLength expects a list".to_owned())),
        }
    }

    /// Reads the element at `index`; the stored raw value is validated
    /// before it is handed out.
    pub fn get(&self, scope: &Scope, index: usize) -> (r: Result<Handle, DartError>)
        requires
            scope.wf(),
        ensures
            !scope.valid(self.0) ==> is_api_err(r, stale_msg()),
            scope.valid(self.0) && !(scope.obj(self.0) is List) ==> is_api_err(
                r,
                "Dart_ListGetAt expects a list"@,
            ),
            scope.obj(self.0) matches VmVal::List(hs) ==> scope.valid(self.0) ==> {
                &&& index >= hs.len() ==> is_api_err(r, "list index out of range"@)
                &&& index < hs.len() ==> res_view(r) == spec_check(
                    scope@,
                    scope.tag,
                    hs[index as int],
                )
            },
    {
        if !scope.is_live(self.0) {
            return Err(DartError::Api("handle used outside its scope".to_owned()));
        }
        let elem = match &scope.objects[self.0.ptr.addr - 1] {
            VmValue::List(hs) => {
                if index < hs.len() {
                    proof {
                        assert(val_wf(scope@[self.0.ptr.addr - 1], scope@.len()));
                        assert(raw_ok(hs@[index as int], scope@.len()));
                    }
                    Some(Some(hs[index]))
                } else {
                    Some(None)
                }
            },
            _ => None,
        };
        match elem {
            None => Err(DartError::Api("Dart_ListGetAt expects a list".to_owned())),
            Some(None) => Err(DartError::Api("list index out of range".to_owned())),
            Some(Some(raw)) => scope.check(raw),
        }
    }

    /// Writes `value` at `index`.
    pub fn set(&self, scope: &mut Scope, index: usize, value: Handle) -> (r: Result<
        (),
        DartError,
    >)
        requires
            old(scope).wf(),
        ensures
            final(scope).wf(),
            final(scope).tag == old(scope).tag,
            final(scope).root == old(scope).root,
            !(old(scope).valid(self.0) && old(scope).valid(value)) ==> final(scope)@ == old(
                scope,
            )@ && is_api_err(r, stale_msg()),
            old(scope).valid(self.0) && old(scope).valid(value) && !(old(scope).obj(self.0)
                is List) ==> final(scope)@ == old(scope)@ && is_api_err(
                r,
                "Dart_ListSetAt expects a list"@,
            ),
            old(scope).obj(self.0) matches VmVal::List(hs) ==> (old(scope).valid(self.0) && old(
                scope,
            ).valid(value)) ==> {
                &&& index >= hs.len() ==> final(scope)@ == old(scope)@ && is_api_err(
                    r,
                    "list index out of range"@,
                )
                &&& index < hs.len() ==> final(scope)@ == old(scope)@.update(
                    self.0.ptr.addr - 1,
                    VmVal::List(hs.update(index as int, value.ptr)),
                ) && r == Ok::<(), DartError>(())
            },
    {
        if !scope.is_live(self.0) || !scope.is_live(value) {
            return Err(DartError::Api("handle used outside its scope".to_owned()));
        }
        let i = self.0.ptr.addr - 1;
        let updated = match &scope.objects[i] {
            VmValue::List(hs) => {
                if index < hs.len() {
                    let mut copy = clone_raws(hs);
                    copy.set(index, value.ptr);
                    Some(Some(VmValue::List(copy)))
                } else {
                    Some(None)
                }
            },
            _ => None,
        };
        match updated {
            None => Err(DartError::Api("Dart_ListSetAt expects a list".to_owned())),
            Some(None) => Err(DartError::Api("list index out of range".to_owned())),
            Some(Some(v)) => {
                proof {
                    assert(val_wf(scope@[i as int], scope@.len()));
                    assert forall|j: int| 0 <= j < v@->List_0.len() implies raw_ok(
                        #[trigger] v@->List_0[j],
                        scope@.len(),
                    ) by {}
                    lemma_heap_of_update(scope.objects@, i as int, v);
                    lemma_heap_wf_update(scope@, i as int, v@);
                }
                scope.objects.set(i, v);
                Ok(())
            },
        }
    }
}

} // verus!
