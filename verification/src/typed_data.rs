//! Exclusive, bracketed views over VM byte buffers.
//!
//! Acquiring a view takes the buffer's bytes out of the VM's hands; while
//! the view is held, the buffer is marked acquired and every second
//! acquisition is refused.  Releasing the view, exactly once, writes the
//! bytes back and lifts the mark.  The view must be released by value, so a
//! released view cannot be released again.

use vstd::prelude::*;

use crate::error::{is_api_err, DartError};
use crate::scope::{stale_msg, Scope};
use crate::value::{clone_bytes, lemma_heap_of_update, lemma_heap_wf_update, Handle, VmVal, VmValue};

verus! {

/// The element kind of an acquired buffer.  The model's buffers are byte
/// buffers.
#[derive(Clone, Copy, PartialEq, Eq, Structural, Debug)]
pub enum TypedDataKind {
    Uint8,
}

/// An exclusive view over one VM byte buffer, bracketed between
/// [`TypedDataView::acquire`] and [`TypedDataView::release`].
pub struct TypedDataView {
    /// The handle of the buffer object the view was acquired from.
    pub object: Handle,
    /// The element kind the VM reported.
    pub ty: TypedDataKind,
    /// The buffer's bytes, exclusively held until release.
    pub data: Vec<u8>,
}

impl TypedDataView {
    /// Requests exclusive raw access to the byte buffer behind `object`.
    /// While acquired, the buffer's bytes live in the view alone, the
    /// object is marked, and acquiring it again fails; the bracket is
    /// closed by [`TypedDataView::release`].
    pub fn acquire(object: Handle, scope: &mut Scope) -> (r: Result<TypedDataView, DartError>)
        requires
            old(scope).wf(),
        ensures
            final(scope).wf(),
            final(scope).tag == old(scope).tag,
            final(scope).root == old(scope).root,
            !old(scope).valid(object) ==> final(scope)@ == old(scope)@ && is_api_err(
                r,
                stale_msg(),
            ),
            old(scope).valid(object) && !(old(scope).obj(object) is Bytes) ==> final(scope)@
                == old(scope)@ && is_api_err(r, "Dart_TypedDataAcquireData expects typed data"@),
            old(scope).obj(object) matches VmVal::Bytes { data, acquired } ==> old(scope).valid(
                object,
            ) ==> {
                &&& acquired ==> final(scope)@ == old(scope)@ && is_api_err(
                    r,
                    "typed data is already acquired"@,
                )
                &&& !acquired ==> {
                    &&& final(scope)@ == old(scope)@.update(
                        object.ptr.addr - 1,
                        VmVal::Bytes { data: Seq::empty(), acquired: true },
                    )
                    &&& r matches Ok(view) && view.object == object && view.ty
                        == TypedDataKind::Uint8 && view.data@ == data
                }
            },
    {
        if !scope.is_live(object) {
            return Err(DartError::Api("handle used outside its scope".to_owned()));
        }
        let i = object.ptr.addr - 1;
        let taken = match &scope.objects[i] {
            VmValue::Bytes { data, acquired } => {
                if *acquired {
                    Some(None)
                } else {
                    Some(Some(clone_bytes(data)))
                }
            },
            _ => None,
        };
        match taken {
            None => Err(DartError::Api("Dart_TypedDataAcquireData expects typed data".to_owned())),
            Some(None) => Err(DartError::Api("typed data is already acquired".to_owned())),
            Some(Some(bytes)) => {
                let v = VmValue::Bytes { data: Vec::new(), acquired: true };
                proof {
                    lemma_heap_of_update(scope.objects@, i as int, v);
                    lemma_heap_wf_update(scope@, i as int, v@);
                }
                scope.objects.set(i, v);
                Ok(TypedDataView { object, ty: TypedDataKind::Uint8, data: bytes })
            },
        }
    }

    /// The bytes of the view.
    pub fn as_bytes(&self) -> (r: &Vec<u8>)
        ensures
            r@ == self.data@,
    {
        &self.data
    }

    /// The bytes of the view, writable in place; what stands here when the
    /// view is released is what the buffer holds afterwards.
    pub fn as_bytes_mut(&mut self) -> (r: &mut Vec<u8>)
        ensures
            *r == old(self).data,
            final(self).data == *final(r),
            final(self).object == old(self).object,
            final(self).ty == old(self).ty,
    {
        &mut self.data
    }

    /// Closes the bracket: writes the view's bytes back into the buffer
    /// object and lifts the acquired mark.  Taking the view by value, this
    /// is the one release of the acquisition that produced it.
    pub fn release(self, scope: &mut Scope) -> (r: Result<(), DartError>)
        requires
            old(scope).wf(),
        ensures
            final(scope).wf(),
            final(scope).tag == old(scope).tag,
            final(scope).root == old(scope).root,
            !old(scope).valid(self.object) ==> final(scope)@ == old(scope)@ && is_api_err(
                r,
                stale_msg(),
            ),
            old(scope).valid(self.object) && !(old(scope).obj(self.object) is Bytes)
                ==> final(scope)@ == old(scope)@ && is_api_err(
                r,
                "Dart_TypedDataReleaseData expects typed data"@,
            ),
            old(scope).obj(self.object) matches VmVal::Bytes { data, acquired } ==> old(
                scope,
            ).valid(self.object) ==> {
                &&& !acquired ==> final(scope)@ == old(scope)@ && is_api_err(
                    r,
                    "typed data is not acquired"@,
                )
                &&& acquired ==> final(scope)@ == old(scope)@.update(
                    self.object.ptr.addr - 1,
                    VmVal::Bytes { data: self.data@, acquired: false },
                ) && r == Ok::<(), DartError>(())
            },
    {
        if !scope.is_live(self.object) {
            return Err(DartError::Api("handle used outside its scope".to_owned()));
        }
        let i = self.object.ptr.addr - 1;
        let held = match &scope.objects[i] {
            VmValue::Bytes { data: _, acquired } => Some(*acquired),
            _ => None,
        };
        match held {
            None => Err(DartError::Api("Dart_TypedDataReleaseData expects typed data".to_owned())),
            Some(false) => Err(DartError::Api("typed data is not acquired".to_owned())),
            Some(true) => {
                let v = VmValue::Bytes { data: self.data, acquired: false };
                proof {
                    lemma_heap_of_update(scope.objects@, i as int, v);
                    lemma_heap_wf_update(scope@, i as int, v@);
                }
                scope.objects.set(i, v);
                Ok(())
            },
        }
    }
}

} // verus!
