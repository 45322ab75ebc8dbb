//! The model of the VM's value heap.
//!
//! The raw interface deals in opaque object pointers.  Here a raw handle is a
//! plain address into a growing object store, the null pointer is address
//! zero, and each stored object is one `VmValue`.  Spec-level reasoning uses
//! the `VmVal` picture of an object, where strings and buffers are their
//! character and byte sequences.

use vstd::prelude::*;

use crate::error::DartErrV;

verus! {

/// A raw, unvalidated VM handle: address `0` is the null pointer, address
/// `a > 0` refers to the object at index `a - 1` of the owning isolate's
/// object store.
#[derive(Clone, Copy, PartialEq, Eq, Structural, Debug)]
pub struct RawHandle {
    pub addr: usize,
}

impl RawHandle {
    /// The null pointer.
    pub fn null() -> (r: RawHandle)
        ensures
            r.addr == 0,
    {
        RawHandle { addr: 0 }
    }

    pub open spec fn spec_is_null(self) -> bool {
        self.addr == 0
    }

    #[verifier::when_used_as_spec(spec_is_null)]
    pub fn is_null(self) -> (r: bool)
        ensures
            r == self.spec_is_null(),
    {
        self.addr == 0
    }
}

/// Identity of one entered scope: which isolate it entered, and which entry
/// (a per-isolate counter) produced it.  Handles are stamped with this tag
/// and rejected once the tag no longer matches the live scope.
#[derive(Clone, Copy, PartialEq, Eq, Structural, Debug)]
pub struct ScopeTag {
    pub iso: u64,
    pub entry: u64,
}

/// A validated reference to a VM object, valid only while the scope whose
/// tag it carries is the live scope of its isolate.
#[derive(Clone, Copy, PartialEq, Eq, Structural, Debug)]
pub struct Handle {
    pub ptr: RawHandle,
    pub tag: ScopeTag,
}

impl Handle {
    /// The underlying raw handle, with no validity promise attached.
    pub fn raw(self) -> (r: RawHandle)
        ensures
            r == self.ptr,
    {
        self.ptr
    }
}

/// Spec picture of a library object.
#[verifier::ext_equal]
pub struct LibraryV {
    pub url: Seq<char>,
    pub functions: Seq<Seq<char>>,
    pub classes: Seq<Seq<char>>,
    pub resolver: Option<u64>,
}

/// Spec picture of one named field slot of an instance.
#[verifier::ext_equal]
pub struct FieldV {
    pub name: Seq<char>,
    pub value: RawHandle,
}

/// Spec picture of an instance object.
#[verifier::ext_equal]
pub struct InstanceV {
    pub class: Seq<char>,
    pub fields: Seq<FieldV>,
    pub native_fields: Seq<i64>,
    pub peer: Option<u64>,
    pub finalizer: Option<u64>,
}

/// Spec picture of one VM-heap object.
#[verifier::ext_equal]
pub enum VmVal {
    Null,
    Bool(bool),
    Int(i64),
    Str(Seq<char>),
    Bytes { data: Seq<u8>, acquired: bool },
    List(Seq<RawHandle>),
    Library(LibraryV),
    Class(Seq<char>),
    Instance(InstanceV),
    Closure(Seq<char>),
    ErrorVal(Seq<char>),
}

/// A loaded library: its resolution url, its invokable top-level functions,
/// its classes, and the token of the installed native resolver, if any.
pub struct LibraryData {
    pub url: String,
    pub functions: Vec<String>,
    pub classes: Vec<String>,
    pub resolver: Option<u64>,
}

impl View for LibraryData {
    type V = LibraryV;

    open spec fn view(&self) -> LibraryV {
        LibraryV {
            url: self.url@,
            functions: self.functions.deep_view(),
            classes: self.classes.deep_view(),
            resolver: self.resolver,
        }
    }
}

/// One named field slot of an instance.
pub struct FieldSlot {
    pub name: String,
    pub value: RawHandle,
}

impl View for FieldSlot {
    type V = FieldV;

    open spec fn view(&self) -> FieldV {
        FieldV { name: self.name@, value: self.value }
    }
}

/// An instance object: its class name, its named fields, its native field
/// slots, and the attached native peer, if any.
pub struct InstanceData {
    pub class: String,
    pub fields: Vec<FieldSlot>,
    pub native_fields: Vec<i64>,
    pub peer: Option<u64>,
    /// The native payload registered for release when the VM collects the
    /// instance, if any.
    pub finalizer: Option<u64>,
}

impl View for InstanceData {
    type V = InstanceV;

    open spec fn view(&self) -> InstanceV {
        InstanceV {
            class: self.class@,
            fields: self.fields.deep_view(),
            native_fields: self.native_fields@,
            peer: self.peer,
            finalizer: self.finalizer,
        }
    }
}

impl DeepView for FieldSlot {
    type V = FieldV;

    open spec fn deep_view(&self) -> FieldV {
        self@
    }
}

/// One object of the VM heap.
pub enum VmValue {
    Null,
    Bool(bool),
    Int(i64),
    Str(String),
    Bytes { data: Vec<u8>, acquired: bool },
    List(Vec<RawHandle>),
    Library(LibraryData),
    Class(String),
    Instance(InstanceData),
    Closure(String),
    ErrorVal(String),
}

impl View for VmValue {
    type V = VmVal;

    open spec fn view(&self) -> VmVal {
        match self {
            VmValue::Null => VmVal::Null,
            VmValue::Bool(b) => VmVal::Bool(*b),
            VmValue::Int(i) => VmVal::Int(*i),
            VmValue::Str(s) => VmVal::Str(s@),
            VmValue::Bytes { data, acquired } => VmVal::Bytes { data: data@, acquired: *acquired },
            VmValue::List(hs) => VmVal::List(hs@),
            VmValue::Library(l) => VmVal::Library(l@),
            VmValue::Class(c) => VmVal::Class(c@),
            VmValue::Instance(d) => VmVal::Instance(d@),
            VmValue::Closure(n) => VmVal::Closure(n@),
            VmValue::ErrorVal(m) => VmVal::ErrorVal(m@),
        }
    }
}

/// The spec picture of a whole object store.
pub open spec fn heap_of(objects: Seq<VmValue>) -> Seq<VmVal> {
    Seq::new(objects.len(), |i: int| objects[i]@)
}

/// A raw handle is meaningful for a store of `n` objects when it is null or
/// addresses one of them.
pub open spec fn raw_ok(r: RawHandle, n: nat) -> bool {
    r.addr == 0 || r.addr <= n
}

/// Every raw handle stored inside `v` is meaningful for a store of `n`
/// objects.
pub open spec fn val_wf(v: VmVal, n: nat) -> bool {
    match v {
        VmVal::List(hs) => forall|i: int| 0 <= i < hs.len() ==> raw_ok(#[trigger] hs[i], n),
        VmVal::Instance(d) => forall|i: int|
            0 <= i < d.fields.len() ==> raw_ok(#[trigger] d.fields[i].value, n),
        _ => true,
    }
}

/// Every object of the store only refers back into the store.
pub open spec fn heap_wf(heap: Seq<VmVal>) -> bool {
    forall|i: int| 0 <= i < heap.len() ==> val_wf(#[trigger] heap[i], heap.len())
}

pub proof fn lemma_val_wf_grow(v: VmVal, n: nat, m: nat)
    requires
        val_wf(v, n),
        n <= m,
    ensures
        val_wf(v, m),
{
}

/// Appending an object whose references fit the grown store keeps the store
/// well formed.
pub proof fn lemma_heap_wf_push(heap: Seq<VmVal>, v: VmVal)
    requires
        heap_wf(heap),
        val_wf(v, heap.len() + 1),
    ensures
        heap_wf(heap.push(v)),
{
    let grown = heap.push(v);
    assert forall|i: int| 0 <= i < grown.len() implies val_wf(#[trigger] grown[i], grown.len()) by {
        if i < heap.len() {
            lemma_val_wf_grow(heap[i], heap.len(), grown.len());
        }
    }
}

/// Replacing an object with one whose references fit the store keeps the
/// store well formed.
pub proof fn lemma_heap_wf_update(heap: Seq<VmVal>, i: int, v: VmVal)
    requires
        heap_wf(heap),
        0 <= i < heap.len(),
        val_wf(v, heap.len()),
    ensures
        heap_wf(heap.update(i, v)),
{
}

/// The validation gate, as a function of the spec heap: the null pointer has
/// no value, an error object fails with its own diagnostic text, and any
/// other object is wrapped as a handle stamped with the live scope's tag.
pub open spec fn spec_check(heap: Seq<VmVal>, tag: ScopeTag, raw: RawHandle) -> Result<
    Handle,
    DartErrV,
>
    recommends
        raw_ok(raw, heap.len()),
{
    if raw.addr == 0 {
        Err(DartErrV::NullHandle)
    } else if raw.addr > heap.len() {
        Err(DartErrV::NullHandle)
    } else {
        match heap[raw.addr - 1] {
            VmVal::ErrorVal(m) => Err(DartErrV::Api(m)),
            _ => Ok(Handle { ptr: raw, tag }),
        }
    }
}

/// Validation is idempotent on a handle it accepted: checking that handle's
/// raw pointer again yields the same handle.
pub proof fn lemma_check_idempotent(heap: Seq<VmVal>, tag: ScopeTag, raw: RawHandle, h: Handle)
    requires
        spec_check(heap, tag, raw) == Ok::<Handle, DartErrV>(h),
    ensures
        spec_check(heap, tag, h.ptr) == Ok::<Handle, DartErrV>(h),
{
}

/// The handle a store of picture `heap` hands out for the object appended
/// next, stamped with `tag`.
pub open spec fn next_handle(heap: Seq<VmVal>, tag: ScopeTag) -> Handle
    recommends
        heap.len() < usize::MAX,
{
    Handle { ptr: RawHandle { addr: (heap.len() + 1) as usize }, tag }
}

/// The class name the VM reports for a value, where it reports one.
pub open spec fn class_of(v: VmVal) -> Option<Seq<char>> {
    match v {
        VmVal::Null => Some("Null"@),
        VmVal::Bool(_) => Some("bool"@),
        VmVal::Int(_) => Some("int"@),
        VmVal::Str(_) => Some("String"@),
        VmVal::Bytes { .. } => Some("Uint8List"@),
        VmVal::List(_) => Some("List"@),
        VmVal::Instance(d) => Some(d.class),
        VmVal::Closure(_) => Some("Function"@),
        _ => None,
    }
}

/// Relating an exec object store to its spec picture after a push.
pub proof fn lemma_heap_of_push(objects: Seq<VmValue>, x: VmValue)
    ensures
        heap_of(objects.push(x)) =~= heap_of(objects).push(x@),
{
}

/// Relating an exec object store to its spec picture after an update.
pub proof fn lemma_heap_of_update(objects: Seq<VmValue>, i: int, x: VmValue)
    requires
        0 <= i < objects.len(),
    ensures
        heap_of(objects.update(i, x)) =~= heap_of(objects).update(i, x@),
{
}

/// A value the VM compares by content: the null object, booleans, integers
/// and strings.
pub open spec fn is_primitive(v: VmVal) -> bool {
    v is Null || v is Bool || v is Int || v is Str
}

/// Content equality of two primitive values; primitives of different kinds
/// are unequal.
pub open spec fn prim_equal(a: VmVal, b: VmVal) -> bool {
    match (a, b) {
        (VmVal::Null, VmVal::Null) => true,
        (VmVal::Bool(x), VmVal::Bool(y)) => x == y,
        (VmVal::Int(x), VmVal::Int(y)) => x == y,
        (VmVal::Str(x), VmVal::Str(y)) => x == y,
        _ => false,
    }
}

/// What the VM's value comparison decides for the objects behind `a` and
/// `b`: primitives compare by content, instances by identity, and anything
/// else the VM declines to compare.
pub open spec fn spec_object_equals(heap: Seq<VmVal>, a: Handle, b: Handle) -> Option<bool>
    recommends
        1 <= a.ptr.addr <= heap.len(),
        1 <= b.ptr.addr <= heap.len(),
{
    let va = heap[a.ptr.addr - 1];
    let vb = heap[b.ptr.addr - 1];
    if va is Instance && vb is Instance {
        Some(a.ptr == b.ptr)
    } else if is_primitive(va) && is_primitive(vb) {
        Some(prim_equal(va, vb))
    } else {
        None
    }
}

/// Some slot of `fields` is named `n`.
pub open spec fn has_field(fields: Seq<FieldV>, n: Seq<char>) -> bool {
    exists|j: int| 0 <= j < fields.len() && (#[trigger] fields[j]).name == n
}

/// Writing field `n` to `v`: every slot named `n` takes the value, and a
/// missing name is appended as a fresh slot.
pub open spec fn spec_fields_set(fields: Seq<FieldV>, n: Seq<char>, v: RawHandle) -> Seq<FieldV> {
    if has_field(fields, n) {
        Seq::new(
            fields.len(),
            |j: int|
                if fields[j].name == n {
                    FieldV { name: n, value: v }
                } else {
                    fields[j]
                },
        )
    } else {
        fields.push(FieldV { name: n, value: v })
    }
}

/// Reading field `n`: the value of the first slot so named, if any.
pub open spec fn spec_fields_get(fields: Seq<FieldV>, n: Seq<char>) -> Option<RawHandle>
    decreases fields.len(),
{
    if fields.len() == 0 {
        None
    } else if fields[0].name == n {
        Some(fields[0].value)
    } else {
        spec_fields_get(fields.drop_first(), n)
    }
}

/// A found field value is the value of one of the slots.
pub proof fn lemma_fields_get_in(fields: Seq<FieldV>, n: Seq<char>)
    ensures
        spec_fields_get(fields, n) matches Some(raw) ==> exists|j: int|
            0 <= j < fields.len() && (#[trigger] fields[j]).value == raw,
    decreases fields.len(),
{
    if fields.len() > 0 && fields[0].name != n {
        let dropped = fields.drop_first();
        lemma_fields_get_in(dropped, n);
        if spec_fields_get(fields, n) is Some {
            let raw = spec_fields_get(fields, n)->Some_0;
            let j = choose|j: int| 0 <= j < dropped.len() && (#[trigger] dropped[j]).value == raw;
            assert(fields[j + 1] == dropped[j]);
        }
    }
}

/// One step of a front-to-back field search that has not yet matched.
pub proof fn lemma_fields_get_step(fields: Seq<FieldV>, n: Seq<char>, i: int)
    requires
        0 <= i < fields.len(),
        fields[i].name != n,
    ensures
        spec_fields_get(fields.skip(i), n) == spec_fields_get(fields.skip(i + 1), n),
{
    assert(fields.skip(i)[0] == fields[i]);
    assert(fields.skip(i).drop_first() =~= fields.skip(i + 1));
}

/// Whether some element of `v` holds the characters of `s`.
pub(crate) fn vec_has_string(v: &Vec<String>, s: &str) -> (r: bool)
    ensures
        r == v.deep_view().contains(s@),
{
    let needle = s.to_owned();
    let n = v.len();
    let mut i: usize = 0;
    while i < n
        invariant
            n == v.len(),
            needle@ == s@,
            0 <= i <= n,
            forall|j: int| 0 <= j < i ==> v.deep_view()[j] != s@,
        decreases n - i,
    {
        if needle.eq(&v[i]) {
            assert(v.deep_view()[i as int] == s@);
            assert(v.deep_view().contains(s@));
            return true;
        }
        i = i + 1;
    }
    assert(!v.deep_view().contains(s@));
    false
}

/// An element-by-element copy of `v` with the same spec picture.
pub(crate) fn clone_strings(v: &Vec<String>) -> (r: Vec<String>)
    ensures
        r.deep_view() == v.deep_view(),
{
    let n = v.len();
    let mut out: Vec<String> = Vec::new();
    let mut i: usize = 0;
    while i < n
        invariant
            n == v.len(),
            0 <= i <= n,
            out.len() == i,
            forall|j: int| 0 <= j < i ==> out.deep_view()[j] == v.deep_view()[j],
        decreases n - i,
    {
        out.push(v[i].clone());
        i = i + 1;
    }
    proof {
        assert(out.deep_view() =~= v.deep_view());
    }
    out
}

/// An element-by-element copy of `v`.
pub(crate) fn clone_bytes(v: &Vec<u8>) -> (r: Vec<u8>)
    ensures
        r@ == v@,
{
    let n = v.len();
    let mut out: Vec<u8> = Vec::new();
    let mut i: usize = 0;
    while i < n
        invariant
            n == v.len(),
            0 <= i <= n,
            out@ == v@.take(i as int),
        decreases n - i,
    {
        out.push(v[i]);
        proof {
            assert(out@ =~= v@.take(i + 1));
        }
        i = i + 1;
    }
    proof {
        assert(out@ =~= v@);
    }
    out
}

/// An element-by-element copy of `v`.
pub(crate) fn clone_raws(v: &Vec<RawHandle>) -> (r: Vec<RawHandle>)
    ensures
        r@ == v@,
{
    let n = v.len();
    let mut out: Vec<RawHandle> = Vec::new();
    let mut i: usize = 0;
    while i < n
        invariant
            n == v.len(),
            0 <= i <= n,
            out@ == v@.take(i as int),
        decreases n - i,
    {
        out.push(v[i]);
        proof {
            assert(out@ =~= v@.take(i + 1));
        }
        i = i + 1;
    }
    proof {
        assert(out@ =~= v@);
    }
    out
}

/// An element-by-element copy of `v`.
pub(crate) fn clone_ints(v: &Vec<i64>) -> (r: Vec<i64>)
    ensures
        r@ == v@,
{
    let n = v.len();
    let mut out: Vec<i64> = Vec::new();
    let mut i: usize = 0;
    while i < n
        invariant
            n == v.len(),
            0 <= i <= n,
            out@ == v@.take(i as int),
        decreases n - i,
    {
        out.push(v[i]);
        proof {
            assert(out@ =~= v@.take(i + 1));
        }
        i = i + 1;
    }
    proof {
        assert(out@ =~= v@);
    }
    out
}

/// An element-by-element copy of `v` with the same spec picture.
pub(crate) fn clone_fields(v: &Vec<FieldSlot>) -> (r: Vec<FieldSlot>)
    ensures
        r.deep_view() == v.deep_view(),
{
    let n = v.len();
    let mut out: Vec<FieldSlot> = Vec::new();
    let mut i: usize = 0;
    while i < n
        invariant
            n == v.len(),
            0 <= i <= n,
            out.len() == i,
            forall|j: int| 0 <= j < i ==> out.deep_view()[j] == v.deep_view()[j],
        decreases n - i,
    {
        out.push(FieldSlot { name: v[i].name.clone(), value: v[i].value });
        i = i + 1;
    }
    proof {
        assert(out.deep_view() =~= v.deep_view());
    }
    out
}

/// A copy of `d` with the same spec picture.
pub(crate) fn clone_instance(d: &InstanceData) -> (r: InstanceData)
    ensures
        r@ == d@,
{
    let r = InstanceData {
        class: d.class.clone(),
        fields: clone_fields(&d.fields),
        native_fields: clone_ints(&d.native_fields),
        peer: d.peer,
        finalizer: d.finalizer,
    };
    proof {
        assert(r@ =~~= d@);
    }
    r
}

/// The class name the VM reports for the object `v`, as a fresh string.
pub(crate) fn class_string(v: &VmValue) -> (r: Option<String>)
    ensures
        match class_of(v@) {
            Some(k) => r matches Some(s) && s@ == k,
            None => r is None,
        },
{
    match v {
        VmValue::Null => Some("Null".to_owned()),
        VmValue::Bool(_) => Some("bool".to_owned()),
        VmValue::Int(_) => Some("int".to_owned()),
        VmValue::Str(_) => Some("String".to_owned()),
        VmValue::Bytes { .. } => Some("Uint8List".to_owned()),
        VmValue::List(_) => Some("List".to_owned()),
        VmValue::Instance(d) => Some(d.class.clone()),
        VmValue::Closure(_) => Some("Function".to_owned()),
        _ => None,
    }
}

} // verus!
