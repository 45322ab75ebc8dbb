//! The native-function registry.
//!
//! A process-wide, append-only table of name-to-entry-point bindings,
//! populated by an explicit registration step before the VM starts
//! resolving names, and read-only afterwards.  Lookup scans front to back
//! and the first match wins: registering a name a second time appends a
//! binding that lookup never reaches, so no earlier binding is ever
//! replaced.

use vstd::prelude::*;

use crate::registry_order::lemma_resolve_unmoved_by_append;
use crate::scope::Scope;
use crate::value::{Handle, VmValue};

verus! {

/// One exported binding: the name script code uses, and the entry-point
/// token handed back to the VM.
pub struct NativeFunction {
    pub name: String,
    pub function: u64,
}

impl NativeFunction {
    pub fn new(name: String, function: u64) -> (r: Self)
        ensures
            r.name == name,
            r.function == function,
    {
        Self { name, function }
    }
}

impl View for NativeFunction {
    type V = (Seq<char>, u64);

    open spec fn view(&self) -> (Seq<char>, u64) {
        (self.name@, self.function)
    }
}

impl DeepView for NativeFunction {
    type V = (Seq<char>, u64);

    open spec fn deep_view(&self) -> (Seq<char>, u64) {
        self@
    }
}

/// First-match lookup over a table of bindings.
pub open spec fn spec_resolve(entries: Seq<(Seq<char>, u64)>, name: Seq<char>) -> Option<u64>
    decreases entries.len(),
{
    if entries.len() == 0 {
        None
    } else if entries[0].0 == name {
        Some(entries[0].1)
    } else {
        spec_resolve(entries.drop_first(), name)
    }
}

/// The append-only registry of native functions.
pub struct NativeRegistry {
    pub entries: Vec<NativeFunction>,
}

impl View for NativeRegistry {
    type V = Seq<(Seq<char>, u64)>;

    open spec fn view(&self) -> Seq<(Seq<char>, u64)> {
        self.entries.deep_view()
    }
}

impl NativeRegistry {
    /// An empty registry, for the explicit population step at process
    /// start.
    pub fn new() -> (r: NativeRegistry)
        ensures
            r@ == Seq::<(Seq<char>, u64)>::empty(),
    {
        let r = NativeRegistry { entries: Vec::new() };
        proof {
            assert(r@ =~= Seq::<(Seq<char>, u64)>::empty());
        }
        r
    }

    /// Appends one binding.  Nothing is removed or replaced: a name bound
    /// earlier keeps resolving to its first binding.
    pub fn register(&mut self, f: NativeFunction)
        ensures
            final(self)@ == old(self)@.push(f@),
            forall|n: Seq<char>|
                #[trigger] spec_resolve(old(self)@, n) is Some ==> spec_resolve(final(self)@, n)
                    == spec_resolve(old(self)@, n),
    {
        let ghost before = self@;
        let ghost fv = f@;
        self.entries.push(f);
        proof {
            assert(self@ =~= before.push(fv));
            assert forall|n: Seq<char>| #[trigger] spec_resolve(before, n) is Some implies
                spec_resolve(self@, n) == spec_resolve(before, n) by {
                lemma_resolve_unmoved_by_append(before, fv, n);
            }
        }
    }

    /// Resolves `name` to the entry point of the first binding so named,
    /// or nothing if no binding carries the name.
    pub fn resolve(&self, name: &str) -> (r: Option<u64>)
        ensures
            r == spec_resolve(self@, name@),
    {
        let needle = name.to_owned();
        let len = self.entries.len();
        let mut i: usize = 0;
        proof {
            assert(self@.skip(0) =~= self@);
        }
        while i < len
            invariant
                len == self.entries.len(),
                needle@ == name@,
                0 <= i <= len,
                spec_resolve(self@, name@) == spec_resolve(self@.skip(i as int), name@),
            decreases len - i,
        {
            if self.entries[i].name.eq(&needle) {
                proof {
                    assert(self@.skip(i as int)[0] == self@[i as int]);
                }
                return Some(self.entries[i].function);
            }
            proof {
                crate::registry_order::lemma_resolve_step(self@, name@, i as int);
            }
            i = i + 1;
        }
        proof {
            assert(self@.skip(len as int) =~= Seq::<(Seq<char>, u64)>::empty());
        }
        None
    }
}

/// The VM's native-name-resolution callback: given the VM string handle of
/// an unresolved native reference, scan the registry and hand back the
/// entry point of the first binding with that name, or nothing.  A handle
/// that is stale or no string resolves to nothing.
pub fn native_resolver(scope: &Scope, name: Handle, registry: &NativeRegistry) -> (r: Option<u64>)
    requires
        scope.wf(),
    ensures
        scope.obj(name) matches crate::value::VmVal::Str(n) ==> scope.valid(name) ==> r
            == spec_resolve(registry@, n),
        !(scope.valid(name) && scope.obj(name) is Str) ==> r is None,
{
    if !scope.is_live(name) {
        return None;
    }
    match &scope.objects[name.ptr.addr - 1] {
        VmValue::Str(s) => registry.resolve(s.as_str()),
        _ => None,
    }
}

} // verus!
