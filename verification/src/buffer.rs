//! Backend-neutral message storage: `Buffer` over a primitive sequence, its
//! bounded form, and a bounded vector for nested buffer messages.

use vstd::prelude::*;
use vstd::std_specs::iter::IteratorSpec;
use vstd::utf8::{decode_utf8, valid_utf8};

use crate::bounded_primitive::BoundedPrimitiveSequence;
use crate::error::{check, BufferError, SequenceExceedsBoundsError};
use crate::slices::vec_slice_mut;
use crate::primitive::{PrimitiveSequence, PrimitiveSequenceAlloc, PrimitiveSequenceView};

verus! {

/// The message of a failed reservation, through `ToString::to_string` on
/// the `TryReserveError`. Nothing is claimed of the text.
#[verifier::external_body]
fn reserve_error_text(error: std::collections::TryReserveError) -> String {
    error.to_string()
}

/// Host memory for a native copy of `len` bytes: `len` zero bytes, or an
/// `Allocation` error, with the reservation's message, when the memory
/// cannot be reserved. Nothing needs reserving for `len == 0`.
pub fn host_bytes(len: usize) -> (r: Result<Vec<u8>, BufferError>)
    ensures
        r matches Ok(v) ==> v@ == Seq::new(len as nat, |i: int| 0u8),
        r matches Err(e) ==> e is Allocation,
        len == 0 ==> r is Ok,
{
    let mut values: Vec<u8> = Vec::new();
    if len > 0 {
        if let Err(error) = values.try_reserve(len) {
            return Err(BufferError::Allocation(reserve_error_text(error)));
        }
    }
    let mut i: usize = 0;
    while i < len
        invariant
            i <= len,
            values@ == Seq::new(i as nat, |k: int| 0u8),
        decreases len - i,
    {
        values.push(0u8);
        i = i + 1;
        assert(values@ =~= Seq::new(i as nat, |k: int| 0u8));
    }
    assert(values@ =~= Seq::new(len as nat, |k: int| 0u8));
    Ok(values)
}

/// Result of a native copy of an opaque buffer into `values` (a host vector
/// of the buffer's length): the copied values when the native return code is
/// `0`, else a `copy_to_host` error with that code.
pub fn host_copy_result(code: i32, values: Vec<u8>) -> (r: Result<Vec<u8>, BufferError>)
    ensures
        code == 0 ==> (r matches Ok(v) && v@ == values@),
        code != 0 ==> r == Err::<Vec<u8>, BufferError>(BufferError::Native { operation: "copy_to_host", code }),
{
    check("copy_to_host", code)?;
    Ok(values)
}

/// The bytes of a backend name as the native runtime writes it: the name
/// followed by a terminating zero byte. Without the terminator the name is
/// refused as a `backend_name` error.
pub fn strip_nul_terminator(bytes: Vec<u8>) -> (r: Result<Vec<u8>, BufferError>)
    ensures
        bytes@.len() > 0 && bytes@.last() == 0 ==> (r matches Ok(v) && v@ == bytes@.drop_last()),
        !(bytes@.len() > 0 && bytes@.last() == 0) ==> r == Err::<Vec<u8>, BufferError>(
            BufferError::Native { operation: "backend_name", code: -1i32 },
        ),
{
    let mut bytes = bytes;
    if bytes.len() == 0 || bytes[bytes.len() - 1] != 0 {
        return Err(BufferError::Native { operation: "backend_name", code: -1 });
    }
    bytes.pop();
    Ok(bytes)
}

/// Decodes UTF-8 bytes with `String::from_utf8`: the contract claims that
/// the call succeeds exactly on valid UTF-8 (vstd's `valid_utf8`) and that
/// the text is then the decoded characters (vstd's `decode_utf8`).
#[verifier::external_body]
fn string_from_utf8(bytes: Vec<u8>) -> (r: Option<String>)
    ensures
        r is Some <==> valid_utf8(bytes@),
        r matches Some(text) ==> text@ == decode_utf8(bytes@),
{
    String::from_utf8(bytes).ok()
}

/// Decodes a backend name as the native runtime writes it: the name in
/// UTF-8, followed by a terminating zero byte. A missing terminator or bytes
/// that are not UTF-8 give a `backend_name` error.
pub fn decode_backend_name(bytes: Vec<u8>) -> (r: Result<String, BufferError>)
    ensures
        !(bytes@.len() > 0 && bytes@.last() == 0) ==> r == Err::<String, BufferError>(
            BufferError::Native { operation: "backend_name", code: -1i32 },
        ),
        bytes@.len() > 0 && bytes@.last() == 0 ==> (if valid_utf8(bytes@.drop_last()) {
            r matches Ok(name) && name@ == decode_utf8(bytes@.drop_last())
        } else {
            r == Err::<String, BufferError>(BufferError::Native { operation: "backend_name", code: -1i32 })
        }),
{
    let name = strip_nul_terminator(bytes)?;
    match string_from_utf8(name) {
        Some(text) => Ok(text),
        None => Err(BufferError::Native { operation: "backend_name", code: -1 }),
    }
}

/// The storage backend of a buffer as far as the library knows it.
#[derive(Debug, PartialEq, Eq)]
pub enum BackendName {
    /// The name, known without the native runtime.
    Known(String),
    /// The name is held by the native runtime and must be queried for the
    /// opaque buffer `handle`.
    NativeQuery {
        /// Native handle of the opaque buffer.
        handle: usize,
    },
}

/// The capacity to give the name query, from the native runtime's answer to
/// the size query: its return code and the size it reported. A failure code
/// is a `backend_name` error with that code.
pub fn backend_name_size_reply(code: i32, required: usize) -> (r: Result<usize, BufferError>)
    ensures
        code == 0 ==> r == Ok::<usize, BufferError>(required),
        code != 0 ==> r == Err::<usize, BufferError>(BufferError::Native { operation: "backend_name", code }),
{
    check("backend_name", code)?;
    Ok(required)
}

/// The backend name from the native runtime's answer to the name query: its
/// return code and the bytes it wrote. A failure code is a `backend_name`
/// error with that code; otherwise the bytes are decoded as by
/// `decode_backend_name`.
pub fn backend_name_reply(code: i32, bytes: Vec<u8>) -> (r: Result<String, BufferError>)
    ensures
        code != 0 ==> r == Err::<String, BufferError>(BufferError::Native { operation: "backend_name", code }),
        code == 0 && !(bytes@.len() > 0 && bytes@.last() == 0) ==> r == Err::<String, BufferError>(
            BufferError::Native { operation: "backend_name", code: -1i32 },
        ),
        code == 0 && bytes@.len() > 0 && bytes@.last() == 0 ==> (if valid_utf8(bytes@.drop_last()) {
            r matches Ok(name) && name@ == decode_utf8(bytes@.drop_last())
        } else {
            r == Err::<String, BufferError>(BufferError::Native { operation: "backend_name", code: -1i32 })
        }),
{
    check("backend_name", code)?;
    decode_backend_name(bytes)
}

/// Owned sequence storage on the host or in an opaque native buffer.
///
/// `as_slice` exposes contiguous host storage; `to_vec` copies the elements
/// to a host vector.
#[derive(Debug)]
pub struct Buffer<T> {
    sequence: PrimitiveSequence<T>,
}

impl<T> View for Buffer<T> {
    type V = PrimitiveSequenceView<T>;

    closed spec fn view(&self) -> PrimitiveSequenceView<T> {
        self.sequence@
    }
}

impl<T: PrimitiveSequenceAlloc> Buffer<T> {
    /// Number of elements.
    pub fn len(&self) -> (r: usize)
        ensures
            r == self@.len(),
    {
        self.sequence.len()
    }

    /// Whether there are no elements.
    pub fn is_empty(&self) -> (r: bool)
        ensures
            r == (self@.len() == 0),
    {
        self.sequence.is_empty()
    }

    /// Returns a slice for contiguous host storage, `None` for an opaque
    /// native buffer.
    pub fn as_slice(&self) -> (r: Option<&[T]>)
        ensures
            self@.is_buffer() ==> r is None,
            !self@.is_buffer() ==> (r matches Some(s) && s@ == self@.elems),
    {
        if self.sequence.is_rosidl_buffer() {
            None
        } else {
            Some(self.sequence.as_slice())
        }
    }

    /// Returns exclusive access to contiguous host storage, `None` for an
    /// opaque native buffer.
    pub fn as_mut_slice(&mut self) -> (r: Option<&mut [T]>)
        ensures
            old(self)@.is_buffer() ==> r is None && final(self)@ == old(self)@,
            !old(self)@.is_buffer() ==> (r is Some && r.unwrap()@ == old(self)@.elems
                && final(self)@ == PrimitiveSequenceView::<T>::host(final(r.unwrap())@)
                && final(r.unwrap())@.len() == r.unwrap()@.len()),
        no_unwind
    {
        if self.sequence.is_rosidl_buffer() {
            None
        } else {
            Some(self.sequence.as_mut_slice())
        }
    }

    /// Copies the elements to a host vector (see
    /// `PrimitiveSequence::try_to_vec`).
    pub fn to_vec(&self) -> (r: Result<Vec<T>, BufferError>)
        requires
            !(self@.is_buffer() && T::opaque_supported()),
        ensures
            !self@.is_buffer() ==> (r matches Ok(v) && v@ == self@.elems),
            self@.is_buffer() ==> r == Err::<Vec<T>, BufferError>(BufferError::UnsupportedElement),
    {
        self.sequence.try_to_vec()
    }

    /// Returns the storage backend: `cpu` for host storage. The backend of
    /// an opaque buffer is known to the native runtime only, so for one the
    /// answer is the query to make for its handle: first the size of the
    /// name, whose reply `backend_name_size_reply` checks, then the name,
    /// whose reply `backend_name_reply` decodes.
    pub fn backend_name(&self) -> (r: BackendName)
        ensures
            !self@.is_buffer() ==> (r matches BackendName::Known(name) && name@ == "cpu"@),
            self@.is_buffer() ==> r == (BackendName::NativeQuery { handle: self@.buffer.unwrap().handle }),
    {
        match self.sequence.opaque_ptr() {
            Some(handle) => BackendName::NativeQuery { handle },
            None => BackendName::Known("cpu".to_owned()),
        }
    }

    /// Transfers storage into the primitive sequence that holds it, without copying.
    pub fn into_sequence(self) -> (r: PrimitiveSequence<T>)
        ensures
            r@ == self@,
    {
        self.sequence
    }

    /// Clones storage; the copy always succeeds (see
    /// `PrimitiveSequenceAlloc::primitive_sequence_copy`).
    pub fn try_clone(&self) -> (r: Result<Self, BufferError>)
        ensures
            r matches Ok(b) ==> b@ == self@.shared(),
            r matches Err(e) ==> (!self@.is_buffer() && e == (BufferError::Native { operation: "clone", code: -1i32 })),
            self@.is_buffer() || self@.len() == 0 ==> r is Ok,
            r is Ok,
    {
        let mut sequence = PrimitiveSequence::default();
        if !T::primitive_sequence_copy(&self.sequence, &mut sequence) {
            return Err(BufferError::Native { operation: "clone", code: -1 });
        }
        Ok(Buffer { sequence })
    }
}

impl<T> Buffer<T> {
    /// Borrows the primitive sequence that holds the storage, without transferring ownership.
    pub fn as_sequence(&self) -> (r: &PrimitiveSequence<T>)
        ensures
            r@ == self@,
    {
        &self.sequence
    }
}

impl<T> Default for Buffer<T> {
    fn default() -> (r: Self)
        ensures
            r@ == PrimitiveSequenceView::<T>::host(Seq::empty()),
    {
        Buffer { sequence: PrimitiveSequence::default() }
    }
}

impl<T: PrimitiveSequenceAlloc> Clone for Buffer<T> {
    fn clone(&self) -> (r: Self)
        ensures
            r@ == self@.shared(),
    {
        Buffer { sequence: self.sequence.clone() }
    }
}


impl<T: PrimitiveSequenceAlloc> From<PrimitiveSequence<T>> for Buffer<T> {
    fn from(sequence: PrimitiveSequence<T>) -> (r: Self)
        ensures
            r@ == sequence@,
    {
        Buffer { sequence }
    }
}

impl<T: PrimitiveSequenceAlloc> vstd::std_specs::convert::FromSpecImpl<PrimitiveSequence<T>> for Buffer<T> {
    open spec fn obeys_from_spec() -> bool {
        true
    }

    closed spec fn from_spec(sequence: PrimitiveSequence<T>) -> Self {
        Buffer { sequence }
    }
}

impl<T: PrimitiveSequenceAlloc> From<Vec<T>> for Buffer<T> {
    fn from(values: Vec<T>) -> (r: Self)
        ensures
            r@ == PrimitiveSequenceView::<T>::host(values@),
    {
        Buffer { sequence: PrimitiveSequence::from(values) }
    }
}

impl<T: PrimitiveSequenceAlloc> vstd::std_specs::convert::FromSpecImpl<Vec<T>> for Buffer<T> {
    open spec fn obeys_from_spec() -> bool {
        false
    }

    open spec fn from_spec(values: Vec<T>) -> Self {
        vstd::pervasive::arbitrary()
    }
}

impl<'a, T: PrimitiveSequenceAlloc> From<&'a [T]> for Buffer<T> {
    fn from(values: &'a [T]) -> (r: Self)
        ensures
            r@ == PrimitiveSequenceView::<T>::host(values@),
    {
        Buffer { sequence: PrimitiveSequence::from(values) }
    }
}

impl<'a, T: PrimitiveSequenceAlloc> vstd::std_specs::convert::FromSpecImpl<&'a [T]> for Buffer<T> {
    open spec fn obeys_from_spec() -> bool {
        false
    }

    open spec fn from_spec(values: &'a [T]) -> Self {
        vstd::pervasive::arbitrary()
    }
}

/// Buffer storage with an IDL sequence bound `N`: it never holds more than
/// `N` elements.
#[derive(Debug)]
pub struct BoundedBuffer<T, const N: usize>(Buffer<T>);

impl<T, const N: usize> View for BoundedBuffer<T, N> {
    type V = PrimitiveSequenceView<T>;

    closed spec fn view(&self) -> PrimitiveSequenceView<T> {
        self.0@
    }
}

impl<T, const N: usize> BoundedBuffer<T, N> {
    /// At most `N` elements.
    #[verifier::type_invariant]
    closed spec fn within_bound(self) -> bool {
        self.0@.len() <= N
    }
}

impl<T: PrimitiveSequenceAlloc, const N: usize> BoundedBuffer<T, N> {
    /// Borrows the underlying buffer, of at most `N` elements.
    pub fn as_buffer(&self) -> (r: &Buffer<T>)
        ensures
            r@ == self@,
            r@.len() <= N,
    {
        proof {
            use_type_invariant(self);
        }
        &self.0
    }

    /// Number of elements, never more than `N`.
    pub fn len(&self) -> (r: usize)
        ensures
            r == self@.len(),
            r <= N,
    {
        proof {
            use_type_invariant(self);
        }
        self.0.len()
    }

    /// Returns exclusive access to contiguous host elements without changing
    /// the bound.
    pub fn as_mut_slice(&mut self) -> (r: Option<&mut [T]>)
        ensures
            old(self)@.is_buffer() ==> r is None && final(self)@ == old(self)@,
            !old(self)@.is_buffer() ==> (r is Some && r.unwrap()@ == old(self)@.elems
                && final(self)@ == PrimitiveSequenceView::<T>::host(final(r.unwrap())@)),
    {
        proof {
            use_type_invariant(&*self);
        }
        self.0.as_mut_slice()
    }

    /// Transfers ownership of the underlying buffer.
    pub fn into_buffer(self) -> (r: Buffer<T>)
        ensures
            r@ == self@,
    {
        self.0
    }

    /// Returns the native bounded sequence without copying storage; the bound
    /// carries over from the buffer.
    pub fn into_sequence(self) -> (r: BoundedPrimitiveSequence<T, N>)
        ensures
            r@ == self@,
    {
        proof {
            use_type_invariant(&self);
        }
        BoundedPrimitiveSequence::keep_bound(self.0.into_sequence())
    }
}

impl<T, const N: usize> Default for BoundedBuffer<T, N> {
    fn default() -> (r: Self)
        ensures
            r@ == PrimitiveSequenceView::<T>::host(Seq::empty()),
    {
        BoundedBuffer(Buffer::default())
    }
}

impl<T: PrimitiveSequenceAlloc, const N: usize> Clone for BoundedBuffer<T, N> {
    fn clone(&self) -> (r: Self)
        ensures
            r@ == self@.shared(),
    {
        proof {
            use_type_invariant(self);
        }
        BoundedBuffer(self.0.clone())
    }
}


impl<T, const N: usize> std::ops::Deref for BoundedBuffer<T, N> {
    type Target = Buffer<T>;

    fn deref(&self) -> (r: &Buffer<T>)
        ensures
            r@ == self@,
            r@.len() <= N,
    {
        proof {
            use_type_invariant(self);
        }
        &self.0
    }
}

impl<T: PrimitiveSequenceAlloc, const N: usize> TryFrom<Buffer<T>> for BoundedBuffer<T, N> {
    type Error = SequenceExceedsBoundsError;

    fn try_from(buffer: Buffer<T>) -> (r: Result<Self, SequenceExceedsBoundsError>)
        ensures
            buffer@.len() <= N ==> (r matches Ok(b) && b@ == buffer@),
            buffer@.len() > N ==> r == Err::<Self, SequenceExceedsBoundsError>(
                SequenceExceedsBoundsError { len: buffer@.len() as usize, upper_bound: N },
            ),
    {
        if buffer.len() > N {
            return Err(SequenceExceedsBoundsError { len: buffer.len(), upper_bound: N });
        }
        Ok(BoundedBuffer(buffer))
    }
}

impl<T: PrimitiveSequenceAlloc, const N: usize> vstd::std_specs::convert::TryFromSpecImpl<Buffer<T>> for BoundedBuffer<T, N> {
    open spec fn obeys_try_from_spec() -> bool {
        false
    }

    open spec fn try_from_spec(buffer: Buffer<T>) -> Result<Self, SequenceExceedsBoundsError> {
        vstd::pervasive::arbitrary()
    }
}

impl<T: PrimitiveSequenceAlloc, const N: usize> TryFrom<Vec<T>> for BoundedBuffer<T, N> {
    type Error = SequenceExceedsBoundsError;

    fn try_from(values: Vec<T>) -> (r: Result<Self, SequenceExceedsBoundsError>)
        ensures
            values@.len() <= N ==> (r matches Ok(b) && b@ == PrimitiveSequenceView::<T>::host(values@)),
            values@.len() > N ==> r == Err::<Self, SequenceExceedsBoundsError>(
                SequenceExceedsBoundsError { len: values@.len() as usize, upper_bound: N },
            ),
    {
        if values.len() > N {
            return Err(SequenceExceedsBoundsError { len: values.len(), upper_bound: N });
        }
        Ok(BoundedBuffer(Buffer::from(values)))
    }
}

impl<T: PrimitiveSequenceAlloc, const N: usize> vstd::std_specs::convert::TryFromSpecImpl<Vec<T>> for BoundedBuffer<T, N> {
    open spec fn obeys_try_from_spec() -> bool {
        false
    }

    open spec fn try_from_spec(values: Vec<T>) -> Result<Self, SequenceExceedsBoundsError> {
        vstd::pervasive::arbitrary()
    }
}

impl<T: PrimitiveSequenceAlloc, const N: usize> From<BoundedPrimitiveSequence<T, N>> for BoundedBuffer<T, N> {
    fn from(sequence: BoundedPrimitiveSequence<T, N>) -> (r: Self)
        ensures
            r@ == sequence@,
    {
        BoundedBuffer(Buffer::from(sequence.into_unbounded()))
    }
}

impl<T: PrimitiveSequenceAlloc, const N: usize> vstd::std_specs::convert::FromSpecImpl<BoundedPrimitiveSequence<T, N>> for BoundedBuffer<T, N> {
    open spec fn obeys_from_spec() -> bool {
        false
    }

    open spec fn from_spec(sequence: BoundedPrimitiveSequence<T, N>) -> Self {
        vstd::pervasive::arbitrary()
    }
}

/// A vector with an IDL sequence bound `N`, for bounded sequences of nested
/// buffer messages: it never holds more than `N` elements.
#[derive(Debug, PartialEq, PartialOrd)]
pub struct BoundedVec<T, const N: usize>(Vec<T>);

impl<T: Clone, const N: usize> Clone for BoundedVec<T, N> {
    /// Clones each element in order.
    fn clone(&self) -> (r: Self)
        ensures
            r@.len() == self@.len(),
            forall|i: int| 0 <= i < self@.len() ==> cloned::<T>(self@[i], #[trigger] r@[i]),
    {
        proof {
            use_type_invariant(self);
        }
        let mut out: Vec<T> = Vec::new();
        let mut i: usize = 0;
        while i < self.0.len()
            invariant
                i <= self.0@.len(),
                self.0@.len() <= N,
                out@.len() == i,
                forall|j: int| 0 <= j < i ==> cloned::<T>(self.0@[j], #[trigger] out@[j]),
            decreases self.0@.len() - i,
        {
            out.push(self.0[i].clone());
            i = i + 1;
        }
        BoundedVec(out)
    }
}

impl<T, const N: usize> View for BoundedVec<T, N> {
    type V = Seq<T>;

    closed spec fn view(&self) -> Seq<T> {
        self.0@
    }
}

impl<T, const N: usize> BoundedVec<T, N> {
    /// At most `N` elements.
    #[verifier::type_invariant]
    closed spec fn within_bound(self) -> bool {
        self.0@.len() <= N
    }

    /// Number of elements, never more than `N`.
    pub fn len(&self) -> (r: usize)
        ensures
            r == self@.len(),
            r <= N,
    {
        proof {
            use_type_invariant(self);
        }
        self.0.len()
    }

    /// Exclusive access to the elements; the length cannot change through it.
    pub fn as_mut_slice(&mut self) -> (r: &mut [T])
        ensures
            r@ == old(self)@,
            final(self)@ == final(r)@,
    {
        proof {
            use_type_invariant(&*self);
        }
        vec_slice_mut(&mut self.0)
    }

    /// Consumes the vector, yielding its elements in order.
    pub fn into_iter(self) -> (r: std::vec::IntoIter<T>)
        ensures
            r.remaining() == self@,
    {
        proof {
            broadcast use vstd::std_specs::vec::axiom_spec_into_iter;
        }
        self.0.into_iter()
    }
}

impl<T, const N: usize> Default for BoundedVec<T, N> {
    fn default() -> (r: Self)
        ensures
            r@ == Seq::<T>::empty(),
    {
        BoundedVec(Vec::new())
    }
}

impl<T, const N: usize> TryFrom<Vec<T>> for BoundedVec<T, N> {
    type Error = SequenceExceedsBoundsError;

    fn try_from(values: Vec<T>) -> (r: Result<Self, SequenceExceedsBoundsError>)
        ensures
            values@.len() <= N ==> (r matches Ok(b) && b@ == values@),
            values@.len() > N ==> r == Err::<Self, SequenceExceedsBoundsError>(
                SequenceExceedsBoundsError { len: values@.len() as usize, upper_bound: N },
            ),
    {
        if values.len() > N {
            return Err(SequenceExceedsBoundsError { len: values.len(), upper_bound: N });
        }
        Ok(BoundedVec(values))
    }
}

impl<T, const N: usize> vstd::std_specs::convert::TryFromSpecImpl<Vec<T>> for BoundedVec<T, N> {
    open spec fn obeys_try_from_spec() -> bool {
        false
    }

    open spec fn try_from_spec(values: Vec<T>) -> Result<Self, SequenceExceedsBoundsError> {
        vstd::pervasive::arbitrary()
    }
}

impl<T, const N: usize> std::ops::Deref for BoundedVec<T, N> {
    type Target = [T];

    fn deref(&self) -> (r: &[T])
        ensures
            r@ == self@,
            r@.len() <= N,
    {
        proof {
            use_type_invariant(self);
        }
        self.0.as_slice()
    }
}

} // verus!
