//! Laws of registry lookup.
//!
//! Lookup takes the first match of an append-only table, so whatever is
//! registered later never masks or replaces an earlier binding.

use vstd::prelude::*;

use crate::registry::spec_resolve;

verus! {

/// One step of a front-to-back scan that has not yet matched.
pub proof fn lemma_resolve_step(entries: Seq<(Seq<char>, u64)>, name: Seq<char>, i: int)
    requires
        0 <= i < entries.len(),
        entries[i].0 != name,
    ensures
        spec_resolve(entries.skip(i), name) == spec_resolve(entries.skip(i + 1), name),
{
    assert(entries.skip(i)[0] == entries[i]);
    assert(entries.skip(i).drop_first() =~= entries.skip(i + 1));
}

/// Registration is append-only and lookup first-match: a name that already
/// resolves keeps resolving to the same entry point, whatever binding is
/// appended after it.
pub proof fn lemma_resolve_unmoved_by_append(
    entries: Seq<(Seq<char>, u64)>,
    e: (Seq<char>, u64),
    name: Seq<char>,
)
    requires
        spec_resolve(entries, name) is Some,
    ensures
        spec_resolve(entries.push(e), name) == spec_resolve(entries, name),
    decreases entries.len(),
{
    let grown = entries.push(e);
    assert(entries.len() > 0);
    assert(grown[0] == entries[0]);
    if entries[0].0 != name {
        assert(grown.drop_first() =~= entries.drop_first().push(e));
        lemma_resolve_unmoved_by_append(entries.drop_first(), e, name);
    }
}

/// A name nobody registered resolves to nothing, whatever else the table
/// holds, as long as no binding carries it.
pub proof fn lemma_resolve_absent(entries: Seq<(Seq<char>, u64)>, name: Seq<char>)
    requires
        forall|i: int| 0 <= i < entries.len() ==> (#[trigger] entries[i]).0 != name,
    ensures
        spec_resolve(entries, name) is None,
    decreases entries.len(),
{
    if entries.len() > 0 {
        assert forall|i: int|
            0 <= i < entries.drop_first().len() implies (#[trigger] entries.drop_first()[
        i]).0 != name by {
            assert(entries.drop_first()[i] == entries[i + 1]);
        }
        lemma_resolve_absent(entries.drop_first(), name);
    }
}

} // verus!
