//! The columnar exchange protocol: zero-copy transfer of batches and
//! schemas through C-compatible descriptor pairs.
//!
//! A batch crosses the boundary as a pair of descriptors: an array
//! descriptor giving the memory layout and a schema descriptor giving the
//! field list.  Ownership of a pair transfers exactly once.  On import the
//! boundary reads the descriptors by value and then overwrites the caller's
//! memory with zero bytes; a zeroed descriptor carries no release callback,
//! so a later release by the original owner is a no-op and nothing is freed
//! twice.  On export a fresh pair is produced whose ownership passes to the
//! caller, to be returned through the one matching free routine.
//!
//! The descriptors here model what the boundary logic reads of the real
//! C structures: the row count, the child count, the field names, and
//! whether a release callback is still armed.  A nullable caller pointer is
//! modeled as `&mut Option<Descriptor>`: `None` is the null pointer, and
//! the slot left behind after an import is the caller's zeroed memory.

use vstd::prelude::*;
use crate::error::FfiError;

verus! {

/// The layout half of a descriptor pair.  `has_release` models whether the
/// descriptor still carries a release callback: a live descriptor owns its
/// buffers, a cleared one is all zero bytes and owns nothing.
#[derive(Debug, PartialEq, Eq, Clone)]
pub struct ArrayDescriptor {
    pub length: u64,
    pub null_count: u64,
    pub offset: u64,
    pub n_buffers: u64,
    pub n_children: u64,
    pub has_release: bool,
}

/// The field half of a descriptor pair: the names of the top-level fields,
/// in order, and whether the descriptor still carries a release callback.
#[derive(Debug, PartialEq, Eq, Clone)]
pub struct SchemaDescriptor {
    pub field_names: Vec<String>,
    pub has_release: bool,
}

/// A record batch as the boundary logic sees it: how many rows it has and
/// which fields it carries, in order.
#[derive(Debug, PartialEq, Eq, Clone)]
pub struct BatchData {
    pub num_rows: u64,
    pub field_names: Vec<String>,
}

/// The export wrapper handed to the caller: both freshly allocated
/// descriptors of a computed batch, freed together by [`free_ffi_cdata`].
#[derive(Debug, PartialEq, Eq, Clone)]
pub struct FfiCData {
    pub array: ArrayDescriptor,
    pub schema: SchemaDescriptor,
}

/// A serialized byte stream crossing the boundary, owned by the caller
/// until handed to [`free_ffi_bytes`].
#[derive(Debug, PartialEq, Eq, Clone)]
pub struct FfiBytes {
    pub bytes: Vec<u8>,
}

/// The all-zero array descriptor: every count zero and no release callback.
pub open spec fn spec_cleared_array() -> ArrayDescriptor {
    ArrayDescriptor {
        length: 0,
        null_count: 0,
        offset: 0,
        n_buffers: 0,
        n_children: 0,
        has_release: false,
    }
}

impl ArrayDescriptor {
    /// The descriptor's memory is all zero bytes.
    pub open spec fn is_cleared(self) -> bool {
        self == spec_cleared_array()
    }

    /// An all-zero descriptor.
    pub fn cleared() -> (d: Self)
        ensures
            d == spec_cleared_array(),
    {
        ArrayDescriptor {
            length: 0,
            null_count: 0,
            offset: 0,
            n_buffers: 0,
            n_children: 0,
            has_release: false,
        }
    }

    /// Invokes the descriptor's release callback, as the descriptor's
    /// original owner would.  A live descriptor drops its buffers and
    /// becomes all zero; a cleared descriptor has no callback and the call
    /// is a safe no-op.
    pub fn invoke_release(&mut self)
        ensures
            old(self).has_release ==> *final(self) == spec_cleared_array(),
            !old(self).has_release ==> *final(self) == *old(self),
    {
        if self.has_release {
            *self = ArrayDescriptor::cleared();
        }
    }
}

impl SchemaDescriptor {
    /// The descriptor's memory is all zero bytes.
    pub open spec fn is_cleared(self) -> bool {
        self.field_names@.len() == 0 && !self.has_release
    }

    /// An all-zero descriptor.
    pub fn cleared() -> (d: Self)
        ensures
            d.is_cleared(),
    {
        SchemaDescriptor { field_names: Vec::new(), has_release: false }
    }

    /// Invokes the descriptor's release callback; a no-op once cleared.
    pub fn invoke_release(&mut self)
        ensures
            old(self).has_release ==> final(self).is_cleared(),
            !old(self).has_release ==> *final(self) == *old(self),
    {
        if self.has_release {
            *self = SchemaDescriptor::cleared();
        }
    }
}

/// A descriptor pair can be imported: both halves still carry their release
/// callback and the array's child count matches the field list.
pub open spec fn spec_importable(a: ArrayDescriptor, s: SchemaDescriptor) -> bool {
    a.has_release && s.has_release && a.n_children == s.field_names@.len()
}

/// Imports one batch from a caller-owned descriptor pair.
///
/// `None` models a null pointer and is an immediate input error, reported
/// before anything is touched.  On a present pair the descriptors are read
/// by value and the caller's memory is overwritten with zero bytes, so the
/// caller's own release callback becomes a no-op; a pair whose release was
/// already taken, or whose halves disagree on the field count, is an
/// exchange error (the sources are still zeroed, as the move happens
/// first).
pub fn import_record_batch(
    array: &mut Option<ArrayDescriptor>,
    schema: &mut Option<SchemaDescriptor>,
) -> (r: Result<BatchData, FfiError>)
    ensures
        (*old(array)) is None ==> (r matches Err(FfiError::NullArgument(n)) && n@ == "array"@
            && *final(array) == *old(array) && *final(schema) == *old(schema)),
        (*old(array)) is Some && (*old(schema)) is None ==> (r matches Err(FfiError::NullArgument(n))
            && n@ == "schema"@ && *final(array) == *old(array) && *final(schema) == *old(schema)),
        (*old(array)) matches Some(a) ==> ((*old(schema)) matches Some(s) ==> {
            &&& *final(array) == Some(spec_cleared_array())
            &&& ((*final(schema)) matches Some(fs) && fs.is_cleared())
            &&& spec_importable(a, s) ==> (r matches Ok(b) && b == spec_imported_batch(a, s))
            &&& !spec_importable(a, s) ==> (r matches Err(FfiError::Exchange(_)))
        }),
{
    if array.is_none() {
        return Err(FfiError::NullArgument("array".to_owned()));
    }
    if schema.is_none() {
        return Err(FfiError::NullArgument("schema".to_owned()));
    }
    let a = array.take().unwrap();
    let s = schema.take().unwrap();
    *array = Some(ArrayDescriptor::cleared());
    *schema = Some(SchemaDescriptor::cleared());
    if !a.has_release || !s.has_release {
        return Err(FfiError::Exchange("descriptor was already released".to_owned()));
    }
    if a.n_children != s.field_names.len() as u64 {
        return Err(FfiError::Exchange(
            "array child count does not match the schema".to_owned(),
        ));
    }
    Ok(BatchData { num_rows: a.length, field_names: s.field_names })
}

/// Imports a schema alone from a caller-owned descriptor, returning its
/// field names.  Null is an immediate input error; a present descriptor is
/// read and its memory zeroed as in [`import_record_batch`].
pub fn import_schema(schema: &mut Option<SchemaDescriptor>) -> (r: Result<Vec<String>, FfiError>)
    ensures
        (*old(schema)) is None ==> (r matches Err(FfiError::NullArgument(n)) && n@ == "schema"@
            && *final(schema) == *old(schema)),
        (*old(schema)) matches Some(s) ==> {
            &&& ((*final(schema)) matches Some(fs) && fs.is_cleared())
            &&& s.has_release ==> (r matches Ok(names) && names == s.field_names)
            &&& !s.has_release ==> (r matches Err(FfiError::Exchange(_)))
        },
{
    if schema.is_none() {
        return Err(FfiError::NullArgument("schema".to_owned()));
    }
    let s = schema.take().unwrap();
    *schema = Some(SchemaDescriptor::cleared());
    if !s.has_release {
        return Err(FfiError::Exchange("descriptor was already released".to_owned()));
    }
    Ok(s.field_names)
}

/// Every batch of a sequence was imported faithfully: batch `i` took its
/// row count from array descriptor `i`, and its field list from the shared
/// schema descriptor.
pub open spec fn spec_batches_imported(
    arrays: Seq<ArrayDescriptor>,
    s: SchemaDescriptor,
    batches: Seq<BatchData>,
) -> bool {
    &&& batches.len() == arrays.len()
    &&& forall|i: int|
        0 <= i < arrays.len() ==> (#[trigger] batches[i]).num_rows == arrays[i].length
            && batches[i].field_names@.len() == s.field_names@.len()
            && forall|j: int|
                0 <= j < s.field_names@.len() ==> (#[trigger] batches[i].field_names@[j])@
                    == s.field_names@[j]@
}

/// Imports a sequence of batches sharing one schema descriptor.
///
/// `None` on either side models a null pointer, and an empty array
/// sequence models a zero count; all three are immediate input errors and
/// no partial import is attempted.  Otherwise every array descriptor and
/// the schema descriptor are read and zeroed; the import succeeds when
/// every descriptor still carried its release callback and every array's
/// child count matches the shared field list.
pub fn import_batches(
    arrays: &mut Option<Vec<ArrayDescriptor>>,
    schema: &mut Option<SchemaDescriptor>,
) -> (r: Result<(Vec<BatchData>, Vec<String>), FfiError>)
    ensures
        (*old(arrays)) is None ==> (r matches Err(FfiError::NullArgument(n)) && n@ == "arrays"@
            && *final(arrays) == *old(arrays) && *final(schema) == *old(schema)),
        (*old(arrays)) is Some && (*old(schema)) is None ==> (r matches Err(FfiError::NullArgument(n))
            && n@ == "schema"@ && *final(arrays) == *old(arrays) && *final(schema) == *old(schema)),
        (*old(arrays)) matches Some(av) ==> ((*old(schema)) is Some && av@.len() == 0 ==> (r matches Err(
            FfiError::InvalidInput(_),
        ) && *final(arrays) == *old(arrays) && *final(schema) == *old(schema))),
        (*old(arrays)) matches Some(av) ==> ((*old(schema)) matches Some(s) ==> (av@.len() > 0 ==> {
            &&& ((*final(arrays)) matches Some(fa) && fa@.len() == av@.len() && forall|i: int|
                0 <= i < fa@.len() ==> (#[trigger] fa@[i]) == spec_cleared_array())
            &&& ((*final(schema)) matches Some(fs) && fs.is_cleared())
            &&& (s.has_release && forall|i: int|
                0 <= i < av@.len() ==> (#[trigger] av@[i]).has_release && av@[i].n_children
                    == s.field_names@.len()) ==> (r matches Ok(p)
                && spec_batches_imported(av@, s, p.0@) && p.1 == s.field_names)
            &&& r matches Err(e) ==> (e is Exchange)
        })),
{
    if arrays.is_none() {
        return Err(FfiError::NullArgument("arrays".to_owned()));
    }
    if schema.is_none() {
        return Err(FfiError::NullArgument("schema".to_owned()));
    }
    if arrays.as_ref().unwrap().len() == 0 {
        return Err(FfiError::InvalidInput("batch count must be at least one".to_owned()));
    }
    let mut av = arrays.take().unwrap();
    let s = schema.take().unwrap();
    *schema = Some(SchemaDescriptor::cleared());
    let mut batches: Vec<BatchData> = Vec::new();
    let mut ok = s.has_release;
    let ghost orig = av@;
    let mut i: usize = 0;
    while i < av.len()
        invariant
            i <= av.len(),
            av@.len() == orig.len(),
            forall|k: int| 0 <= k < i ==> (#[trigger] av@[k]) == spec_cleared_array(),
            forall|k: int| i <= k < orig.len() ==> (#[trigger] av@[k]) == orig[k],
            ok ==> batches@.len() == i,
            ok ==> s.has_release,
            (s.has_release && forall|k: int|
                0 <= k < i ==> ((#[trigger] orig[k]).has_release && orig[k].n_children
                    == s.field_names@.len())) ==> ok,
            ok ==> forall|k: int|
                0 <= k < i ==> (#[trigger] orig[k]).has_release && orig[k].n_children
                    == s.field_names@.len(),
            ok ==> forall|k: int|
                0 <= k < i ==> (#[trigger] batches@[k]).num_rows == orig[k].length
                    && batches@[k].field_names@.len() == s.field_names@.len()
                    && forall|j: int|
                    0 <= j < s.field_names@.len() ==> (#[trigger] batches@[k].field_names@[j])@
                        == s.field_names@[j]@,
        decreases av.len() - i,
    {
        if ok {
            let d = &av[i];
            if !d.has_release || d.n_children != s.field_names.len() as u64 {
                ok = false;
            } else {
                batches.push(
                    BatchData {
                        num_rows: d.length,
                        field_names: clone_field_names(&s.field_names),
                    },
                );
            }
        }
        av[i] = ArrayDescriptor::cleared();
        i = i + 1;
    }
    *arrays = Some(av);
    if !ok {
        return Err(FfiError::Exchange("descriptor sequence could not be imported".to_owned()));
    }
    Ok((batches, s.field_names))
}

/// Clones a field-name list, preserving each name's characters.
pub fn clone_field_names(names: &Vec<String>) -> (r: Vec<String>)
    ensures
        r@.len() == names@.len(),
        forall|i: int| 0 <= i < names@.len() ==> (#[trigger] r@[i])@ == names@[i]@,
{
    let mut out: Vec<String> = Vec::new();
    let mut i: usize = 0;
    while i < names.len()
        invariant
            i <= names@.len(),
            out@.len() == i,
            forall|k: int| 0 <= k < i ==> (#[trigger] out@[k])@ == names@[k]@,
        decreases names@.len() - i,
    {
        out.push(names[i].clone());
        i = i + 1;
    }
    out
}

/// The array descriptor produced when a batch is exported.
pub open spec fn spec_export_array(b: BatchData) -> ArrayDescriptor {
    ArrayDescriptor {
        length: b.num_rows,
        null_count: 0,
        offset: 0,
        n_buffers: 1,
        n_children: b.field_names@.len() as u64,
        has_release: true,
    }
}

/// Exports a computed batch as a fresh descriptor pair whose ownership
/// passes to the caller; the pair is freed by one [`free_ffi_cdata`] call.
pub fn export_batch(batch: BatchData) -> (pair: FfiCData)
    ensures
        pair.array == spec_export_array(batch),
        pair.schema.has_release,
        pair.schema.field_names == batch.field_names,
        spec_importable(pair.array, pair.schema),
{
    let n_children = batch.field_names.len() as u64;
    FfiCData {
        array: ArrayDescriptor {
            length: batch.num_rows,
            null_count: 0,
            offset: 0,
            n_buffers: 1,
            n_children,
            has_release: true,
        },
        schema: SchemaDescriptor { field_names: batch.field_names, has_release: true },
    }
}

/// The schema descriptor produced when a batch is exported.
pub open spec fn spec_export_schema(b: BatchData) -> SchemaDescriptor {
    SchemaDescriptor { field_names: b.field_names, has_release: true }
}

/// The batch a successful import reads off a descriptor pair.
pub open spec fn spec_imported_batch(a: ArrayDescriptor, s: SchemaDescriptor) -> BatchData {
    BatchData { num_rows: a.length, field_names: s.field_names }
}

/// Exports a schema alone as a fresh descriptor whose ownership passes
/// to the caller, to be returned through the schema free routine.
pub fn export_schema(field_names: Vec<String>) -> (d: SchemaDescriptor)
    ensures
        d.field_names == field_names,
        d.has_release,
{
    SchemaDescriptor { field_names, has_release: true }
}

/// Law: a round trip through the exchange protocol is lossless.  Exporting
/// any batch yields an importable descriptor pair, and importing that pair
/// reproduces the batch exactly: the same row count and the same field list
/// in the same order.
pub proof fn lemma_export_import_round_trip(b: BatchData)
    ensures
        spec_importable(spec_export_array(b), spec_export_schema(b)),
        spec_imported_batch(spec_export_array(b), spec_export_schema(b)) == b,
{
    broadcast use vstd::std_specs::vec::axiom_spec_len;

    assert(vstd::std_specs::vec::spec_vec_len(&b.field_names) == b.field_names@.len());
}

/// Frees an exported descriptor pair: both halves are dropped through
/// their own release callbacks, then the wrapper itself goes away.  Null
/// (modeled as `None`) is a safe no-op.
pub fn free_ffi_cdata(pair: Option<FfiCData>)
{
    match pair {
        Some(p) => {
            let mut array = p.array;
            let mut schema = p.schema;
            array.invoke_release();
            schema.invoke_release();
        }
        None => {}
    }
}

/// Frees an exported schema descriptor through its release callback.
/// Null is a safe no-op.
pub fn free_ffi_schema(schema: Option<SchemaDescriptor>)
{
    match schema {
        Some(s) => {
            let mut s = s;
            s.invoke_release();
        }
        None => {}
    }
}

/// Frees an exported byte buffer.  Null is a safe no-op.
pub fn free_ffi_bytes(bytes: Option<FfiBytes>)
{
    match bytes {
        Some(_) => {}
        None => {}
    }
}

/// A pull-based cursor over a result set too large to materialize at once.
/// Pulls are strictly serialized: a pull in flight holds the cursor's lock,
/// and a concurrent pull must wait for it.
pub struct BatchStream {
    batches: Vec<BatchData>,
    position: usize,
    locked: bool,
}

/// What one completed pull yields: the next batch, or the end of the
/// stream (reported to the caller as the null-with-no-error sentinel).
#[derive(Debug, PartialEq, Eq, Clone)]
pub enum StreamPull {
    Item(BatchData),
    End,
}

impl BatchStream {
    /// The batches this cursor will yield, in order.
    pub closed spec fn items(self) -> Seq<BatchData> {
        self.batches@
    }

    /// How many batches have been yielded so far.
    pub closed spec fn position(self) -> nat {
        self.position as nat
    }

    /// A pull is in flight and holds the cursor's lock.
    pub closed spec fn is_locked(self) -> bool {
        self.locked
    }

    /// A cursor over the given batches, unlocked, at the start.
    pub fn new(batches: Vec<BatchData>) -> (s: Self)
        ensures
            s.items() == batches@,
            s.position() == 0,
            !s.is_locked(),
    {
        BatchStream { batches, position: 0, locked: false }
    }

    /// Tries to start a pull.  If another pull holds the lock the call
    /// acquires nothing and the cursor is untouched: the caller observably
    /// waits instead of corrupting the cursor's state.
    pub fn begin_pull(&mut self) -> (acquired: bool)
        ensures
            acquired == !old(self).is_locked(),
            final(self).items() == old(self).items(),
            final(self).position() == old(self).position(),
            acquired ==> final(self).is_locked(),
            !acquired ==> *final(self) == *old(self),
    {
        if self.locked {
            false
        } else {
            self.locked = true;
            true
        }
    }

    /// Completes the pull in flight: yields the next batch and advances,
    /// or reports the end of the stream; either way the lock is released.
    pub fn finish_pull(&mut self) -> (r: StreamPull)
        requires
            old(self).is_locked(),
        ensures
            !final(self).is_locked(),
            final(self).items() == old(self).items(),
            old(self).position() < old(self).items().len() ==> (r matches StreamPull::Item(b)
                && spec_same_batch(b, old(self).items()[old(self).position() as int])
                && final(self).position() == old(self).position() + 1),
            old(self).position() >= old(self).items().len() ==> r == StreamPull::End
                && final(self).position() == old(self).position(),
    {
        self.locked = false;
        if self.position < self.batches.len() {
            let at = &self.batches[self.position];
            let b = BatchData {
                num_rows: at.num_rows,
                field_names: clone_field_names(&at.field_names),
            };
            let item = StreamPull::Item(b);
            self.position = self.position + 1;
            item
        } else {
            StreamPull::End
        }
    }
}

/// Two batches carry the same data: the same row count and fields of the
/// same names in the same order.
pub open spec fn spec_same_batch(a: BatchData, b: BatchData) -> bool {
    &&& a.num_rows == b.num_rows
    &&& a.field_names@.len() == b.field_names@.len()
    &&& forall|j: int|
        0 <= j < a.field_names@.len() ==> (#[trigger] a.field_names@[j])@ == b.field_names@[j]@
}

} // verus!
