//! Primitive sequences: elements live either in contiguous host storage or in
//! an opaque native buffer that is only known
//! by its handle and length.

use vstd::prelude::*;

use crate::laws::remaining_after_calls;
use crate::slices::vec_slice_mut;
use crate::buffer::host_copy_result;
use crate::error::BufferError;

verus! {

/// An opaque native buffer: its handle (the native address, `0` for none),
/// its element count, and whether the sequence owns it.
#[derive(Clone, Copy, Debug, PartialEq, Eq, PartialOrd, Ord, Hash)]
pub struct OpaqueBuffer {
    /// Native handle of the buffer.
    pub handle: usize,
    /// Number of elements it holds.
    pub len: usize,
    /// Whether dropping the sequence releases the buffer.
    pub owned: bool,
}

/// What a primitive sequence holds: its host elements (empty for opaque
/// storage) and, for opaque storage, the native buffer.
pub struct PrimitiveSequenceView<T> {
    pub elems: Seq<T>,
    pub buffer: Option<OpaqueBuffer>,
}

impl<T> PrimitiveSequenceView<T> {
    /// Host storage holding `elems`.
    pub open spec fn host(elems: Seq<T>) -> Self {
        PrimitiveSequenceView { elems, buffer: None }
    }

    /// Opaque storage in the native buffer `b`.
    pub open spec fn opaque(b: OpaqueBuffer) -> Self {
        PrimitiveSequenceView { elems: Seq::empty(), buffer: Some(b) }
    }

    pub open spec fn is_buffer(self) -> bool {
        self.buffer is Some
    }

    /// Number of elements, for host and for opaque storage.
    pub open spec fn len(self) -> nat {
        match self.buffer {
            Some(b) => b.len as nat,
            None => self.elems.len(),
        }
    }

    /// The same storage seen by a copy: host elements are copied, an opaque
    /// buffer is shared without ownership.
    pub open spec fn shared(self) -> Self {
        match self.buffer {
            Some(b) => Self::opaque(OpaqueBuffer { handle: b.handle, len: b.len, owned: false }),
            None => self,
        }
    }

    /// Equality of sequences: host sequences with the same elements, or
    /// opaque sequences with the same buffer descriptor (handle, length and
    /// ownership).
    pub open spec fn same_as(self, other: Self) -> bool {
        match (self.buffer, other.buffer) {
            (None, None) => self.elems == other.elems,
            (Some(a), Some(b)) => a == b,
            _ => false,
        }
    }
}

/// `n` zero elements.
pub open spec fn zeros<T: PrimitiveSequenceAlloc>(n: nat) -> Seq<T> {
    Seq::new(n, |i: int| T::zero_spec())
}

/// A primitive sequence.
///
/// Host sequences support slice access. Opaque buffer sequences support
/// cloning, equality and length queries; slice access is refused for them.
#[derive(Debug, Hash, Ord)]
pub struct PrimitiveSequence<T> {
    storage: Storage<T>,
}

/// Where the elements live.
#[derive(Debug, Hash, PartialEq, Eq, PartialOrd, Ord)]
enum Storage<T> {
    Host(Vec<T>),
    Opaque(OpaqueBuffer),
}

impl<T> View for PrimitiveSequence<T> {
    type V = PrimitiveSequenceView<T>;

    closed spec fn view(&self) -> PrimitiveSequenceView<T> {
        match self.storage {
            Storage::Host(v) => PrimitiveSequenceView::host(v@),
            Storage::Opaque(b) => PrimitiveSequenceView::opaque(b),
        }
    }
}

impl<T> Default for PrimitiveSequence<T> {
    fn default() -> (r: Self)
        ensures
            r@ == PrimitiveSequenceView::<T>::host(Seq::empty()),
    {
        PrimitiveSequence { storage: Storage::Host(Vec::new()) }
    }
}

impl<T> PrimitiveSequence<T> {
    /// Host storage holding `v`.
    fn host_storage(v: Vec<T>) -> (r: Self)
        ensures
            r@ == PrimitiveSequenceView::<T>::host(v@),
    {
        PrimitiveSequence { storage: Storage::Host(v) }
    }

    /// Opaque storage in the native buffer `b`.
    fn opaque_storage(b: OpaqueBuffer) -> (r: Self)
        ensures
            r@ == PrimitiveSequenceView::<T>::opaque(b),
    {
        PrimitiveSequence { storage: Storage::Opaque(b) }
    }

    /// The opaque buffer, if the sequence holds one.
    pub(crate) fn buffer(&self) -> (r: Option<OpaqueBuffer>)
        ensures
            r == self@.buffer,
    {
        match self.storage {
            Storage::Host(_) => None,
            Storage::Opaque(b) => Some(b),
        }
    }

    /// The host elements.
    fn host_vec(&self) -> (r: &Vec<T>)
        requires
            !self@.is_buffer(),
        ensures
            r@ == self@.elems,
    {
        match &self.storage {
            Storage::Host(v) => v,
            Storage::Opaque(_) => vstd::pervasive::unreached(),
        }
    }

    /// The host elements, or none for opaque storage.
    fn elems_slice(&self) -> (r: &[T])
        ensures
            r@ == self@.elems,
    {
        match &self.storage {
            Storage::Host(v) => v.as_slice(),
            Storage::Opaque(_) => {
                let empty: &[T] = &[];
                assert(empty@ =~= Seq::<T>::empty());
                empty
            },
        }
    }
}

/// A vector of `len` zero elements.
pub(crate) fn zero_vec<T: PrimitiveSequenceAlloc>(len: usize) -> (v: Vec<T>)
    ensures
        v@ == zeros::<T>(len as nat),
{
    let mut v: Vec<T> = Vec::new();
    let mut i: usize = 0;
    while i < len
        invariant
            i <= len,
            v@ == zeros::<T>(i as nat),
        decreases len - i,
    {
        v.push(T::zero());
        i = i + 1;
        assert(v@ =~= zeros::<T>(i as nat));
    }
    v
}

/// A copy of `s` in a new vector.
pub(crate) fn copy_vec<T: Copy>(s: &[T]) -> (v: Vec<T>)
    ensures
        v@ == s@,
{
    let mut v: Vec<T> = Vec::new();
    let mut i: usize = 0;
    while i < s.len()
        invariant
            i <= s@.len(),
            v@ == s@.subrange(0, i as int),
        decreases s@.len() - i,
    {
        v.push(s[i]);
        i = i + 1;
        assert(v@ =~= s@.subrange(0, i as int));
    }
    assert(v@ =~= s@);
    v
}

/// Element types of primitive sequences (the IDL primitive types).
///
/// The provided methods follow the native runtime: `primitive_sequence_init`
/// allocates `size` zero elements, `primitive_sequence_copy` copies a sequence
/// into another one, `primitive_sequence_are_equal` compares two sequences.
pub trait PrimitiveSequenceAlloc: Sized + Copy {
    /// The zero value of the type (`false` for `bool`).
    spec fn zero_spec() -> Self;

    /// Returns the zero value.
    fn zero() -> (r: Self)
        ensures
            r == Self::zero_spec(),
    ;

    /// Compares two elements.
    fn elem_eq(&self, other: &Self) -> (r: bool)
        ensures
            r == (*self == *other),
    ;

    /// Whether the native runtime can hold elements of this type in opaque
    /// storage and copy them to the host (only `uint8`).
    spec fn opaque_supported() -> bool;

    /// Replaces `seq` with `size` zero elements in host storage. An empty
    /// sequence needs no allocation and is always made; a size whose bytes
    /// exceed `isize::MAX` can never be allocated; otherwise an allocation
    /// failure returns `false`. On `false`, `seq` is unchanged.
    fn primitive_sequence_init(seq: &mut PrimitiveSequence<Self>, size: usize) -> (ok: bool)
        ensures
            ok ==> final(seq)@ == PrimitiveSequenceView::<Self>::host(Seq::new(size as nat, |i: int| Self::zero_spec())),
            !ok ==> final(seq)@ == old(seq)@,
            size == 0 ==> ok,
            size * vstd::layout::size_of::<Self>() > isize::MAX ==> !ok,
    {
        if size == 0 {
            *seq = PrimitiveSequence::host_storage(Vec::new());
            assert(Seq::<Self>::empty() =~= Seq::new(0, |i: int| Self::zero_spec()));
            return true;
        }
        let elem_size = core::mem::size_of::<Self>();
        if elem_size != 0 && size > (isize::MAX as usize) / elem_size {
            assert(size * elem_size > isize::MAX) by (nonlinear_arith)
                requires
                    elem_size > 0,
                    size > (isize::MAX as usize) / elem_size,
            ;
            return false;
        }
        assert(size * elem_size <= isize::MAX) by (nonlinear_arith)
            requires
                elem_size == 0 || size <= (isize::MAX as usize) / elem_size,
        ;
        let mut v: Vec<Self> = Vec::new();
        if v.try_reserve(size).is_err() {
            return false;
        }
        let mut i: usize = 0;
        while i < size
            invariant
                i <= size,
                v@ == Seq::new(i as nat, |j: int| Self::zero_spec()),
            decreases size - i,
        {
            v.push(Self::zero());
            i = i + 1;
            assert(v@ =~= Seq::new(i as nat, |j: int| Self::zero_spec()));
        }
        *seq = PrimitiveSequence::host_storage(v);
        true
    }

    /// Copies `in_seq` into `out_seq`, always successfully. Host storage is
    /// copied element by element into memory of the global allocator, which
    /// ends the process when it cannot provide it: a sequence that is in
    /// memory can always be copied, whatever its size. Opaque storage is
    /// shared without taking ownership.
    fn primitive_sequence_copy(in_seq: &PrimitiveSequence<Self>, out_seq: &mut PrimitiveSequence<Self>) -> (ok: bool)
        ensures
            ok,
            ok ==> final(out_seq)@ == in_seq@.shared(),
            !ok ==> final(out_seq)@ == old(out_seq)@,
            in_seq@.is_buffer() ==> ok,
            in_seq@.len() == 0 ==> ok,
    {
        match in_seq.buffer() {
            Some(b) => {
                *out_seq = PrimitiveSequence::opaque_storage(
                    OpaqueBuffer { handle: b.handle, len: b.len, owned: false },
                );
                true
            },
            None => {
                let elems = in_seq.host_vec();
                if elems.len() == 0 {
                    *out_seq = PrimitiveSequence::host_storage(Vec::new());
                    assert(out_seq@.elems =~= in_seq@.elems);
                    return true;
                }
                *out_seq = PrimitiveSequence::host_storage(copy_vec(elems.as_slice()));
                true
            },
        }
    }

    /// Whether two sequences hold the same elements (see
    /// `PrimitiveSequenceView::same_as`).
    fn primitive_sequence_are_equal(lhs: &PrimitiveSequence<Self>, rhs: &PrimitiveSequence<Self>) -> (r: bool)
        ensures
            r == lhs@.same_as(rhs@),
    {
        match (lhs.buffer(), rhs.buffer()) {
            (None, None) => {
                let a = lhs.host_vec();
                let b = rhs.host_vec();
                if a.len() != b.len() {
                    return false;
                }
                let mut i: usize = 0;
                while i < a.len()
                    invariant
                        i <= a@.len(),
                        a@.len() == b@.len(),
                        a@ == lhs@.elems,
                        b@ == rhs@.elems,
                        !lhs@.is_buffer(),
                        !rhs@.is_buffer(),
                        a@.subrange(0, i as int) == b@.subrange(0, i as int),
                    decreases a@.len() - i,
                {
                    if !a[i].elem_eq(&b[i]) {
                        assert(a@[i as int] != b@[i as int]);
                        return false;
                    }
                    assert(a@.subrange(0, i + 1) =~= a@.subrange(0, i as int).push(a@[i as int]));
                    assert(b@.subrange(0, i + 1) =~= b@.subrange(0, i as int).push(b@[i as int]));
                    i = i + 1;
                }
                assert(a@ =~= a@.subrange(0, a@.len() as int));
                assert(b@ =~= b@.subrange(0, b@.len() as int));
                true
            },
            (Some(a), Some(b)) => a.handle == b.handle && a.len == b.len && a.owned == b.owned,
            _ => false,
        }
    }

    /// Copies the elements to a host vector. Host storage always succeeds;
    /// opaque storage of an element type that the native runtime does not
    /// hold opaquely gives `UnsupportedElement`. Opaque `uint8` storage is
    /// read by the native runtime: its caller takes host memory from
    /// `host_bytes`, has the runtime copy into it, and passes the return code
    /// to `host_copy_result`.
    fn primitive_sequence_to_vec(seq: &PrimitiveSequence<Self>) -> (r: Result<Vec<Self>, BufferError>)
        requires
            !(seq@.is_buffer() && Self::opaque_supported()),
        ensures
            !seq@.is_buffer() ==> (r matches Ok(v) && v@ == seq@.elems),
            seq@.is_buffer() ==> r == Err::<Vec<Self>, BufferError>(BufferError::UnsupportedElement),
    {
        match seq.buffer() {
            Some(_) => Err(BufferError::UnsupportedElement),
            None => Ok(copy_vec(seq.host_vec().as_slice())),
        }
    }
}

impl PrimitiveSequenceAlloc for bool {
    open spec fn zero_spec() -> bool { false }
    fn zero() -> (r: bool) { false }
    fn elem_eq(&self, other: &bool) -> (r: bool) { *self == *other }
    open spec fn opaque_supported() -> bool { false }
}

impl PrimitiveSequenceAlloc for u8 {
    open spec fn zero_spec() -> u8 { 0 }
    fn zero() -> (r: u8) { 0 }
    fn elem_eq(&self, other: &u8) -> (r: bool) { *self == *other }
    open spec fn opaque_supported() -> bool { true }
}

impl PrimitiveSequenceAlloc for i8 {
    open spec fn zero_spec() -> i8 { 0 }
    fn zero() -> (r: i8) { 0 }
    fn elem_eq(&self, other: &i8) -> (r: bool) { *self == *other }
    open spec fn opaque_supported() -> bool { false }
}

impl PrimitiveSequenceAlloc for u16 {
    open spec fn zero_spec() -> u16 { 0 }
    fn zero() -> (r: u16) { 0 }
    fn elem_eq(&self, other: &u16) -> (r: bool) { *self == *other }
    open spec fn opaque_supported() -> bool { false }
}

impl PrimitiveSequenceAlloc for i16 {
    open spec fn zero_spec() -> i16 { 0 }
    fn zero() -> (r: i16) { 0 }
    fn elem_eq(&self, other: &i16) -> (r: bool) { *self == *other }
    open spec fn opaque_supported() -> bool { false }
}

impl PrimitiveSequenceAlloc for u32 {
    open spec fn zero_spec() -> u32 { 0 }
    fn zero() -> (r: u32) { 0 }
    fn elem_eq(&self, other: &u32) -> (r: bool) { *self == *other }
    open spec fn opaque_supported() -> bool { false }
}

impl PrimitiveSequenceAlloc for i32 {
    open spec fn zero_spec() -> i32 { 0 }
    fn zero() -> (r: i32) { 0 }
    fn elem_eq(&self, other: &i32) -> (r: bool) { *self == *other }
    open spec fn opaque_supported() -> bool { false }
}

impl PrimitiveSequenceAlloc for u64 {
    open spec fn zero_spec() -> u64 { 0 }
    fn zero() -> (r: u64) { 0 }
    fn elem_eq(&self, other: &u64) -> (r: bool) { *self == *other }
    open spec fn opaque_supported() -> bool { false }
}

impl PrimitiveSequenceAlloc for i64 {
    open spec fn zero_spec() -> i64 { 0 }
    fn zero() -> (r: i64) { 0 }
    fn elem_eq(&self, other: &i64) -> (r: bool) { *self == *other }
    open spec fn opaque_supported() -> bool { false }
}



impl<T: PrimitiveSequenceAlloc> PrimitiveSequence<T> {
    /// Creates a sequence of `len` zero-initialized elements.
    pub fn new(len: usize) -> (r: Self)
        ensures
            r@ == PrimitiveSequenceView::<T>::host(zeros::<T>(len as nat)),
    {
        PrimitiveSequence::host_storage(zero_vec(len))
    }

    /// Allocates zero-initialized elements, reporting an allocation failure
    /// as `BufferError::Allocation`.
    pub fn try_new(len: usize) -> (r: Result<Self, BufferError>)
        ensures
            r matches Ok(s) ==> s@ == PrimitiveSequenceView::<T>::host(zeros::<T>(len as nat)),
            r matches Err(e) ==> (e matches BufferError::Allocation(m)
                && m@ == "primitive sequence allocation failed"@),
            len == 0 ==> r is Ok,
            len * vstd::layout::size_of::<T>() > isize::MAX ==> r is Err,
    {
        let mut seq = Self::default();
        if !T::primitive_sequence_init(&mut seq, len) {
            return Err(BufferError::Allocation("primitive sequence allocation failed".to_owned()));
        }
        assert(zeros::<T>(len as nat) =~= Seq::new(len as nat, |i: int| T::zero_spec()));
        Ok(seq)
    }

    /// Returns whether this sequence holds an opaque native buffer.
    pub fn is_rosidl_buffer(&self) -> (r: bool)
        ensures
            r == self@.is_buffer(),
        no_unwind
    {
        match &self.storage {
            Storage::Host(_) => false,
            Storage::Opaque(_) => true,
        }
    }

    /// Returns the number of elements represented by the sequence.
    pub fn len(&self) -> (r: usize)
        ensures
            r == self@.len(),
    {
        match &self.storage {
            Storage::Host(v) => v.len(),
            Storage::Opaque(b) => b.len,
        }
    }

    /// Returns whether the sequence contains no elements.
    pub fn is_empty(&self) -> (r: bool)
        ensures
            r == (self@.len() == 0),
    {
        self.len() == 0
    }

    /// Extracts a slice from a host sequence.
    pub fn as_slice(&self) -> (r: &[T])
        requires
            !self@.is_buffer(),
        ensures
            r@ == self@.elems,
    {
        self.assert_contiguous();
        self.host_vec().as_slice()
    }

    /// Extracts a mutable slice from a host sequence; what is written through
    /// it becomes the sequence's elements.
    pub fn as_mut_slice(&mut self) -> (r: &mut [T])
        requires
            !old(self)@.is_buffer(),
        ensures
            r@ == old(self)@.elems,
            final(self)@ == PrimitiveSequenceView::<T>::host(final(r)@),
            final(r)@.len() == r@.len(),
        no_unwind
    {
        self.assert_contiguous();
        match &mut self.storage {
            Storage::Host(v) => vec_slice_mut(v),
            Storage::Opaque(_) => vstd::pervasive::unreached(),
        }
    }

    /// Slice access is only defined for host storage.
    fn assert_contiguous(&self)
        requires
            !self@.is_buffer(),
        no_unwind
    {
    }

    /// Copies the elements to a host vector (see
    /// `PrimitiveSequenceAlloc::primitive_sequence_to_vec`).
    pub fn try_to_vec(&self) -> (r: Result<Vec<T>, BufferError>)
        requires
            !(self@.is_buffer() && T::opaque_supported()),
        ensures
            !self@.is_buffer() ==> (r matches Ok(v) && v@ == self@.elems),
            self@.is_buffer() ==> r == Err::<Vec<T>, BufferError>(BufferError::UnsupportedElement),
    {
        T::primitive_sequence_to_vec(self)
    }

    /// Materializes opaque storage in host memory; host storage is returned
    /// as it is, keeping its allocation. Opaque `uint8` storage is copied by
    /// the native runtime, whose result `into_cpu_from_copy` takes.
    pub fn try_into_cpu(self) -> (r: Result<Self, BufferError>)
        requires
            !(self@.is_buffer() && T::opaque_supported()),
        ensures
            !self@.is_buffer() ==> r == Ok::<Self, BufferError>(self),
            self@.is_buffer() ==> r == Err::<Self, BufferError>(BufferError::UnsupportedElement),
    {
        if self.is_rosidl_buffer() {
            let values = self.try_to_vec()?;
            let mut sequence = Self::try_new(values.len())?;
            let slice = sequence.as_mut_slice();
            copy_into_slice(slice, values.as_slice());
            Ok(sequence)
        } else {
            Ok(self)
        }
    }

    /// The handle of the opaque native buffer, if the sequence holds one.
    pub(crate) fn opaque_ptr(&self) -> (r: Option<usize>)
        ensures
            r == (match self@.buffer {
                Some(b) => Some(b.handle),
                None => None::<usize>,
            }),
    {
        match self.buffer() {
            Some(b) => Some(b.handle),
            None => None,
        }
    }

    /// Appends `items` to a host sequence. The result is a new allocation of
    /// the combined length holding the old elements followed by `items`.
    pub fn extend(&mut self, items: Vec<T>)
        requires
            !old(self)@.is_buffer(),
            old(self)@.len() + items@.len() <= usize::MAX,
        ensures
            final(self)@ == PrimitiveSequenceView::<T>::host(old(self)@.elems + items@),
    {
        self.assert_contiguous();
        let old_len = self.len();
        if items.len() == 0 {
            assert(self@.elems + items@ =~= self@.elems);
            return;
        }
        let len = old_len + items.len();
        let prefix = self.host_vec();
        let mut replacement: Vec<T> = zero_vec(len);
        let mut i: usize = 0;
        while i < len
            invariant
                old_len == prefix@.len(),
                prefix@ == self@.elems,
                len == old_len + items@.len(),
                i <= len,
                replacement@.len() == len,
                forall|j: int| 0 <= j < i ==> #[trigger] replacement@[j] == (prefix@ + items@)[j],
            decreases len - i,
        {
            let x = if i < old_len { prefix[i] } else { items[i - old_len] };
            replacement.set(i, x);
            i = i + 1;
        }
        assert(replacement@ =~= self@.elems + items@);
        *self = PrimitiveSequence::host_storage(replacement);
    }

    /// Wraps host elements without copying them.
    pub fn from_vec(values: Vec<T>) -> (r: Self)
        ensures
            r@ == PrimitiveSequenceView::<T>::host(values@),
    {
        PrimitiveSequence::host_storage(values)
    }

    /// Builds a host sequence from the given elements (the collected form of
    /// an iterator).
    pub fn from_iter(values: Vec<T>) -> (r: Self)
        ensures
            r@ == PrimitiveSequenceView::<T>::host(values@),
    {
        Self::from_vec(values)
    }

    /// Consumes a host sequence element by element.
    pub fn into_iter(self) -> (r: PrimitiveSequenceIterator<T>)
        requires
            !self@.is_buffer(),
        ensures
            r.remaining() == self@.elems,
    {
        self.assert_contiguous();
        match self.storage {
            Storage::Host(data) => PrimitiveSequenceIterator { data, idx: 0 },
            Storage::Opaque(_) => vstd::pervasive::unreached(),
        }
    }
}

/// Copies `src` over `dst`, which has the same length.
fn copy_into_slice<T: Copy>(dst: &mut [T], src: &[T])
    requires
        old(dst)@.len() == src@.len(),
    ensures
        final(dst)@ == src@,
{
    let mut i: usize = 0;
    while i < src.len()
        invariant
            i <= src@.len(),
            dst@.len() == src@.len(),
            forall|j: int| 0 <= j < i ==> #[trigger] dst@[j] == src@[j],
        decreases src@.len() - i,
    {
        dst[i] = src[i];
        i = i + 1;
    }
    assert(dst@ =~= src@);
}

/// A by-value iterator over a host primitive sequence.
pub struct PrimitiveSequenceIterator<T> {
    data: Vec<T>,
    idx: usize,
}

impl<T> PrimitiveSequenceIterator<T> {
    /// The elements not yet returned.
    pub closed spec fn remaining(&self) -> Seq<T> {
        self.data@.subrange(self.idx as int, self.data@.len() as int)
    }

    /// The position never passes the end.
    #[verifier::type_invariant]
    closed spec fn within_end(self) -> bool {
        self.idx <= self.data@.len()
    }
}

impl<T: PrimitiveSequenceAlloc> PrimitiveSequenceIterator<T> {
    /// Returns the next element, or `None` once all were returned.
    pub fn next(&mut self) -> (r: Option<T>)
        ensures
            old(self).remaining().len() == 0 ==> r == None::<T> && final(self).remaining() == old(self).remaining(),
            old(self).remaining().len() > 0 ==> r == Some(old(self).remaining()[0])
                && final(self).remaining() == old(self).remaining().drop_first(),
            final(self).remaining() == remaining_after_calls(old(self).remaining(), 1),
    {
        proof {
            reveal_with_fuel(remaining_after_calls, 2);
        }
        proof {
            use_type_invariant(&*self);
        }
        if self.idx >= self.data.len() {
            return None;
        }
        let elem = self.data[self.idx];
        self.idx = self.idx + 1;
        assert(self.remaining() =~= old(self).remaining().drop_first());
        Some(elem)
    }

    /// Lower and upper bound of the number of remaining elements.
    pub fn size_hint(&self) -> (r: (usize, Option<usize>))
        ensures
            r.0 == self.remaining().len(),
            r.1 == Some(self.remaining().len() as usize),
    {
        proof {
            use_type_invariant(self);
        }
        let len = self.data.len() - self.idx;
        (len, Some(len))
    }

    /// Number of remaining elements.
    pub fn len(&self) -> (r: usize)
        ensures
            r == self.remaining().len(),
    {
        proof {
            use_type_invariant(self);
        }
        self.data.len() - self.idx
    }

    /// Collects the remaining elements.
    pub fn into_vec(self) -> (r: Vec<T>)
        ensures
            r@ == self.remaining(),
    {
        proof {
            use_type_invariant(&self);
        }
        let mut it = self;
        let mut out: Vec<T> = Vec::new();
        let ghost all = it.remaining();
        while it.idx < it.data.len()
            invariant
                it.idx <= it.data@.len(),
                all == out@ + it.remaining(),
            decreases it.data@.len() - it.idx,
        {
            let x = it.data[it.idx];
            out.push(x);
            it.idx = it.idx + 1;
            assert(all =~= out@ + it.remaining());
        }
        assert(it.remaining() =~= Seq::<T>::empty());
        assert(all =~= out@);
        out
    }
}

impl<T: PrimitiveSequenceAlloc> Clone for PrimitiveSequence<T> {
    fn clone(&self) -> (r: Self)
        ensures
            r@ == self@.shared(),
    {
        match self.buffer() {
            Some(b) => PrimitiveSequence::opaque_storage(OpaqueBuffer { handle: b.handle, len: b.len, owned: false }),
            None => PrimitiveSequence::host_storage(copy_vec(self.host_vec().as_slice())),
        }
    }
}

impl<'a, T: PrimitiveSequenceAlloc> vstd::std_specs::convert::FromSpecImpl<&'a [T]> for PrimitiveSequence<T> {
    open spec fn obeys_from_spec() -> bool {
        false
    }

    open spec fn from_spec(s: &'a [T]) -> Self {
        vstd::pervasive::arbitrary()
    }
}

impl<'a, T: PrimitiveSequenceAlloc> From<&'a [T]> for PrimitiveSequence<T> {
    fn from(s: &'a [T]) -> (r: Self)
        ensures
            r@ == PrimitiveSequenceView::<T>::host(s@),
    {
        PrimitiveSequence::host_storage(copy_vec(s))
    }
}

/// Slices the host elements; opaque storage has no host elements and gives an
/// empty slice.
impl<T> std::ops::Deref for PrimitiveSequence<T> {
    type Target = [T];

    fn deref(&self) -> (r: &[T])
        ensures
            r@ == self@.elems,
    {
        self.elems_slice()
    }
}


impl<T: PrimitiveSequenceAlloc> From<Vec<T>> for PrimitiveSequence<T> {
    fn from(values: Vec<T>) -> (r: Self)
        ensures
            r@ == PrimitiveSequenceView::<T>::host(values@),
    {
        Self::from(values.as_slice())
    }
}

impl<T: PrimitiveSequenceAlloc> vstd::std_specs::convert::FromSpecImpl<Vec<T>> for PrimitiveSequence<T> {
    open spec fn obeys_from_spec() -> bool {
        false
    }

    open spec fn from_spec(values: Vec<T>) -> Self {
        vstd::pervasive::arbitrary()
    }
}

/// Copies the host elements of a sequence into a vector; opaque storage has
/// no host elements and gives an empty vector.
impl<T: PrimitiveSequenceAlloc> From<PrimitiveSequence<T>> for Vec<T> {
    fn from(seq: PrimitiveSequence<T>) -> (r: Vec<T>)
        ensures
            r@ == seq@.elems,
    {
        copy_vec(seq.elems_slice())
    }
}

impl<T: PrimitiveSequenceAlloc> vstd::std_specs::convert::FromSpecImpl<PrimitiveSequence<T>> for Vec<T> {
    open spec fn obeys_from_spec() -> bool {
        false
    }

    open spec fn from_spec(seq: PrimitiveSequence<T>) -> Vec<T> {
        vstd::pervasive::arbitrary()
    }
}


impl PrimitiveSequence<u8> {
    /// Materializes opaque storage in host memory from the native copy of
    /// its buffer: `values` is the host memory the copy wrote into (as many
    /// bytes as the sequence holds, see `host_bytes`) and `code` the copy's
    /// return code. A failure code is a `copy_to_host` error.
    pub fn into_cpu_from_copy(self, code: i32, values: Vec<u8>) -> (r: Result<Self, BufferError>)
        requires
            self@.is_buffer(),
            values@.len() == self@.len(),
        ensures
            code == 0 ==> (r matches Ok(s) && s@ == PrimitiveSequenceView::<u8>::host(values@)),
            code != 0 ==> r == Err::<Self, BufferError>(BufferError::Native { operation: "copy_to_host", code }),
    {
        let values = host_copy_result(code, values)?;
        Ok(Self::from_vec(values))
    }

    /// Takes ownership of an opaque native buffer given by its handle and
    /// byte length; a null handle gives `None`.
    pub fn from_owned_rosidl_buffer(buffer: usize, size: usize) -> (r: Option<Self>)
        ensures
            buffer == 0 ==> r == None::<Self>,
            buffer != 0 ==> (r matches Some(s)
                && s@ == PrimitiveSequenceView::<u8>::opaque(OpaqueBuffer { handle: buffer, len: size, owned: true })),
    {
        if buffer == 0 {
            return None;
        }
        Some(PrimitiveSequence::opaque_storage(OpaqueBuffer { handle: buffer, len: size, owned: true }))
    }

    /// Returns the opaque buffer's handle when the sequence holds one.
    pub fn rosidl_buffer_ptr(&self) -> (r: Option<usize>)
        ensures
            r == (match self@.buffer {
                Some(b) => Some(b.handle),
                None => None::<usize>,
            }),
    {
        self.opaque_ptr()
    }

    /// Releases and returns the handle of an owned opaque buffer; host
    /// sequences and non-owning buffer views are given back unchanged.
    pub fn into_owned_rosidl_buffer(self) -> (r: Result<usize, Self>)
        ensures
            r == (match self@.buffer {
                Some(b) => if b.owned { Ok::<usize, Self>(b.handle) } else { Err(self) },
                None => Err(self),
            }),
    {
        match self.buffer() {
            Some(b) => {
                if b.owned {
                    Ok(b.handle)
                } else {
                    Err(self)
                }
            },
            None => Err(self),
        }
    }
}

} // verus!
