//! Laws that tie the constructors to the read accessors.
//!
//! Each constructor's contract says which value the store gains and which
//! handle comes back; each accessor's contract reads the store through the
//! handle.  The lemmas here close the loop: what was constructed is what a
//! read through the fresh handle observes.

use vstd::prelude::*;

use crate::value::{next_handle, spec_check, Handle, ScopeTag, VmVal};

verus! {

/// A freshly constructed object is what its handle refers to: pushing `v`
/// onto a store of picture `heap` and reading the store back through the
/// handle the constructors return yields exactly `v`.  With the accessors'
/// contracts this gives the construct-then-read round trip for strings
/// (`new_string` and `to_string_lossy`), integers (`new_integer` and
/// `to_i64`) and booleans (`new_boolean` and `to_bool`).
pub proof fn lemma_fresh_handle_reads_back(heap: Seq<VmVal>, tag: ScopeTag, v: VmVal)
    requires
        heap.len() < usize::MAX,
    ensures
        1 <= next_handle(heap, tag).ptr.addr <= heap.push(v).len(),
        next_handle(heap, tag).tag == tag,
        heap.push(v)[next_handle(heap, tag).ptr.addr - 1] == v,
{
}

/// Validation accepts every freshly constructed non-error object and hands
/// back exactly the constructors' handle.
pub proof fn lemma_fresh_handle_accepted(heap: Seq<VmVal>, tag: ScopeTag, v: VmVal)
    requires
        heap.len() < usize::MAX,
        !(v is ErrorVal),
    ensures
        spec_check(heap.push(v), tag, next_handle(heap, tag).ptr) == Ok::<
            Handle,
            crate::error::DartErrV,
        >(next_handle(heap, tag)),
{
}

/// Validation rejects a freshly minted error object with exactly the error's
/// own diagnostic.
pub proof fn lemma_fresh_error_rejected(heap: Seq<VmVal>, tag: ScopeTag, m: Seq<char>)
    requires
        heap.len() < usize::MAX,
    ensures
        spec_check(heap.push(VmVal::ErrorVal(m)), tag, next_handle(heap, tag).ptr) == Err::<
            Handle,
            crate::error::DartErrV,
        >(crate::error::DartErrV::Api(m)),
{
}

/// Released bytes are the buffer's contents: after a release writes `data`
/// back at index `i`, the store holds exactly those bytes there,
/// unacquired, so a fresh acquisition of the same object yields them.
pub proof fn lemma_release_then_read(heap: Seq<VmVal>, i: int, data: Seq<u8>)
    requires
        0 <= i < heap.len(),
    ensures
        heap.update(i, VmVal::Bytes { data, acquired: false })[i] == (VmVal::Bytes {
            data,
            acquired: false,
        }),
{
}

/// A handle stamped by one scope entry is never live under another entry
/// of the same isolate: scope tags differ as soon as the entry counters
/// do, and every accessor rejects a handle whose tag is not the live
/// scope's.
pub proof fn lemma_stale_tag_never_matches(iso: u64, e1: u64, e2: u64)
    requires
        e1 != e2,
    ensures
        (ScopeTag { iso, entry: e1 }) != (ScopeTag { iso, entry: e2 }),
{
}

} // verus!
