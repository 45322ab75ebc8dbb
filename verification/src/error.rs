//! The two-variant error taxonomy used by every fallible operation.

use vstd::prelude::*;

verus! {

/// Spec-level picture of a failure: no value at all, or a VM-reported
/// diagnostic carried as its character sequence.
pub enum DartErrV {
    NullHandle,
    Api(Seq<char>),
}

/// Error returned by every fallible operation of this crate.
///
/// `NullHandle` means an operation produced no value at all; `Api` means the
/// VM signalled an error handle, and carries the VM's own diagnostic text
/// verbatim.
#[derive(Debug, PartialEq, Eq)]
pub enum DartError {
    NullHandle,
    Api(String),
}

impl View for DartError {
    type V = DartErrV;

    open spec fn view(&self) -> DartErrV {
        match self {
            DartError::NullHandle => DartErrV::NullHandle,
            DartError::Api(m) => DartErrV::Api(m@),
        }
    }
}

impl DartError {
    /// The diagnostic text: the VM's message for `Api`, a fixed phrase for
    /// `NullHandle`.
    pub fn message(&self) -> (r: String)
        ensures
            self matches DartError::Api(m) ==> r@ == m@,
            self matches DartError::NullHandle ==> r@ == "dart api returned null handle"@,
    {
        match self {
            DartError::NullHandle => "dart api returned null handle".to_owned(),
            DartError::Api(m) => m.clone(),
        }
    }
}

/// The spec picture of a fallible result: errors are taken to their views.
pub open spec fn res_view<T>(r: Result<T, DartError>) -> Result<T, DartErrV> {
    match r {
        Ok(v) => Ok(v),
        Err(e) => Err(e@),
    }
}

/// `r` failed with the `Api` diagnostic `m`.
pub open spec fn is_api_err<T>(r: Result<T, DartError>, m: Seq<char>) -> bool {
    r matches Err(e) && e@ == DartErrV::Api(m)
}

} // verus!
