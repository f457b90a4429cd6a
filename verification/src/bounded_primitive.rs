//! Primitive sequences with an IDL length bound.

use vstd::prelude::*;

use crate::error::{BufferError, SequenceExceedsBoundsError};
use crate::sequence::bounded_prefix;
use crate::primitive::{
    copy_vec, zeros, PrimitiveSequence, PrimitiveSequenceAlloc, PrimitiveSequenceIterator,
    PrimitiveSequenceView,
};

verus! {

/// A primitive sequence with the bound `N`: it never holds more than `N`
/// elements, host or opaque. Every constructor refuses, or cuts to `N`,
/// longer input.
#[derive(Debug, Hash, Ord)]
pub struct BoundedPrimitiveSequence<T, const N: usize> {
    inner: PrimitiveSequence<T>,
}

impl<T, const N: usize> BoundedPrimitiveSequence<T, N> {
    /// At most `N` elements.
    #[verifier::type_invariant]
    closed spec fn within_bound(self) -> bool {
        self.inner@.len() <= N
    }

    /// Wraps a sequence of at most `N` elements, keeping its storage.
    pub(crate) fn keep_bound(inner: PrimitiveSequence<T>) -> (r: Self)
        requires
            inner@.len() <= N,
        ensures
            r@ == inner@,
    {
        BoundedPrimitiveSequence { inner }
    }

    /// Borrows the underlying sequence.
    pub(crate) fn as_unbounded(&self) -> (r: &PrimitiveSequence<T>)
        ensures
            r@ == self@,
            r@.len() <= N,
    {
        proof {
            use_type_invariant(self);
        }
        &self.inner
    }
}

impl<T, const N: usize> View for BoundedPrimitiveSequence<T, N> {
    type V = PrimitiveSequenceView<T>;

    closed spec fn view(&self) -> PrimitiveSequenceView<T> {
        self.inner@
    }
}

impl<T: PrimitiveSequenceAlloc, const N: usize> BoundedPrimitiveSequence<T, N> {
    /// Creates a bounded sequence of `len` zero-initialized elements.
    pub fn new(len: usize) -> (r: Self)
        requires
            len <= N,
        ensures
            r@ == PrimitiveSequenceView::<T>::host(zeros::<T>(len as nat)),
    {
        let r = Self::try_new(len);
        match r {
            Ok(s) => s,
            Err(_) => vstd::pervasive::unreached(),
        }
    }

    /// Creates a bounded sequence of `len` zero-initialized elements, or
    /// reports that `len` exceeds the bound.
    pub fn try_new(len: usize) -> (r: Result<Self, SequenceExceedsBoundsError>)
        ensures
            len <= N ==> (r matches Ok(s) && s@ == PrimitiveSequenceView::<T>::host(zeros::<T>(len as nat))),
            len > N ==> r == Err::<Self, SequenceExceedsBoundsError>(SequenceExceedsBoundsError { len, upper_bound: N }),
    {
        if len > N {
            return Err(SequenceExceedsBoundsError { len, upper_bound: N });
        }
        Ok(BoundedPrimitiveSequence { inner: PrimitiveSequence::new(len) })
    }

    /// Returns whether this sequence holds an opaque native buffer.
    pub fn is_rosidl_buffer(&self) -> (r: bool)
        ensures
            r == self@.is_buffer(),
    {
        self.inner.is_rosidl_buffer()
    }

    /// Returns the number of elements, including for opaque storage: never
    /// more than `N`.
    pub fn len(&self) -> (r: usize)
        ensures
            r == self@.len(),
            r <= N,
    {
        proof {
            use_type_invariant(self);
        }
        self.inner.len()
    }

    /// Returns whether the sequence has no elements.
    pub fn is_empty(&self) -> (r: bool)
        ensures
            r == (self@.len() == 0),
    {
        self.inner.is_empty()
    }

    /// Extracts a slice from a bounded host sequence.
    pub fn as_slice(&self) -> (r: &[T])
        requires
            !self@.is_buffer(),
        ensures
            r@ == self@.elems,
            r@.len() <= N,
    {
        proof {
            use_type_invariant(self);
        }
        self.inner.as_slice()
    }

    /// Extracts a mutable slice from a bounded host sequence; the length, and
    /// so the bound, cannot change through it.
    pub fn as_mut_slice(&mut self) -> (r: &mut [T])
        requires
            !old(self)@.is_buffer(),
        ensures
            r@ == old(self)@.elems,
            final(self)@ == PrimitiveSequenceView::<T>::host(final(r)@),
    {
        proof {
            use_type_invariant(&*self);
        }
        self.inner.as_mut_slice()
    }

    /// Materializes opaque storage without changing the bound (see
    /// `PrimitiveSequence::try_into_cpu`).
    pub fn try_into_cpu(self) -> (r: Result<Self, BufferError>)
        requires
            !(self@.is_buffer() && T::opaque_supported()),
        ensures
            !self@.is_buffer() ==> (r matches Ok(s) && s@ == self@),
            self@.is_buffer() ==> r == Err::<Self, BufferError>(BufferError::UnsupportedElement),
    {
        proof {
            use_type_invariant(&self);
        }
        let inner = self.inner.try_into_cpu()?;
        Ok(BoundedPrimitiveSequence { inner })
    }

    /// Returns the underlying sequence, of at most `N` elements, without
    /// copying its storage.
    pub fn into_unbounded(self) -> (r: PrimitiveSequence<T>)
        ensures
            r@ == self@,
            r@.len() <= N,
    {
        proof {
            use_type_invariant(&self);
        }
        self.inner
    }

    /// Checks the bound without copying sequence storage.
    pub fn try_from_unbounded(inner: PrimitiveSequence<T>) -> (r: Result<Self, SequenceExceedsBoundsError>)
        ensures
            inner@.len() <= N ==> (r matches Ok(s) && s@ == inner@),
            inner@.len() > N ==> r == Err::<Self, SequenceExceedsBoundsError>(
                SequenceExceedsBoundsError { len: inner@.len() as usize, upper_bound: N },
            ),
    {
        if inner.len() > N {
            return Err(SequenceExceedsBoundsError { len: inner.len(), upper_bound: N });
        }
        Ok(BoundedPrimitiveSequence { inner })
    }

    /// Builds a bounded host sequence from the first `N` of `values` (the
    /// collected form of an iterator); the rest is dropped.
    pub fn from_iter(values: Vec<T>) -> (r: Self)
        ensures
            r@ == PrimitiveSequenceView::<T>::host(bounded_prefix(values@, N as nat)),
    {
        let mut taken: Vec<T> = Vec::new();
        let mut i: usize = 0;
        while i < values.len() && i < N
            invariant
                i <= values@.len(),
                i <= N,
                taken@ == values@.subrange(0, i as int),
            decreases values@.len() - i,
        {
            taken.push(values[i]);
            i = i + 1;
            assert(taken@ =~= values@.subrange(0, i as int));
        }
        assert(taken@ =~= bounded_prefix(values@, N as nat));
        BoundedPrimitiveSequence { inner: PrimitiveSequence::from_vec(taken) }
    }

    /// Consumes a bounded host sequence element by element.
    pub fn into_iter(self) -> (r: PrimitiveSequenceIterator<T>)
        requires
            !self@.is_buffer(),
        ensures
            r.remaining() == self@.elems,
    {
        self.into_unbounded().into_iter()
    }
}

impl<const N: usize> BoundedPrimitiveSequence<u8, N> {
    /// Returns the opaque buffer's handle when the sequence holds one.
    pub fn rosidl_buffer_ptr(&self) -> (r: Option<usize>)
        ensures
            r == (match self@.buffer {
                Some(b) => Some(b.handle),
                None => None::<usize>,
            }),
    {
        self.inner.rosidl_buffer_ptr()
    }

    /// Materializes opaque storage in host memory from the native copy of
    /// its buffer, keeping the bound (see
    /// `PrimitiveSequence::into_cpu_from_copy`).
    pub fn into_cpu_from_copy(self, code: i32, values: Vec<u8>) -> (r: Result<Self, BufferError>)
        requires
            self@.is_buffer(),
            values@.len() == self@.len(),
        ensures
            code == 0 ==> (r matches Ok(s) && s@ == PrimitiveSequenceView::<u8>::host(values@)),
            code != 0 ==> r == Err::<Self, BufferError>(BufferError::Native { operation: "copy_to_host", code }),
    {
        proof {
            use_type_invariant(&self);
        }
        let inner = self.inner.into_cpu_from_copy(code, values)?;
        Ok(BoundedPrimitiveSequence { inner })
    }
}

impl<T, const N: usize> Default for BoundedPrimitiveSequence<T, N> {
    fn default() -> (r: Self)
        ensures
            r@ == PrimitiveSequenceView::<T>::host(Seq::empty()),
    {
        BoundedPrimitiveSequence { inner: PrimitiveSequence::default() }
    }
}

impl<T: PrimitiveSequenceAlloc, const N: usize> Clone for BoundedPrimitiveSequence<T, N> {
    fn clone(&self) -> (r: Self)
        ensures
            r@ == self@.shared(),
    {
        proof {
            use_type_invariant(self);
        }
        BoundedPrimitiveSequence { inner: self.inner.clone() }
    }
}

/// Slices the host elements; opaque storage gives an empty slice.
impl<T, const N: usize> std::ops::Deref for BoundedPrimitiveSequence<T, N> {
    type Target = [T];

    fn deref(&self) -> (r: &[T])
        ensures
            r@ == self@.elems,
    {
        self.inner.deref()
    }
}

impl<T: PrimitiveSequenceAlloc, const N: usize> TryFrom<Vec<T>> for BoundedPrimitiveSequence<T, N> {
    type Error = SequenceExceedsBoundsError;

    fn try_from(values: Vec<T>) -> (r: Result<Self, SequenceExceedsBoundsError>)
        ensures
            values@.len() <= N ==> (r matches Ok(s) && s@ == PrimitiveSequenceView::<T>::host(values@)),
            values@.len() > N ==> r == Err::<Self, SequenceExceedsBoundsError>(
                SequenceExceedsBoundsError { len: values@.len() as usize, upper_bound: N },
            ),
    {
        if values.len() > N {
            return Err(SequenceExceedsBoundsError { len: values.len(), upper_bound: N });
        }
        Ok(BoundedPrimitiveSequence { inner: PrimitiveSequence::from(values) })
    }
}

impl<T: PrimitiveSequenceAlloc, const N: usize> vstd::std_specs::convert::TryFromSpecImpl<Vec<T>> for BoundedPrimitiveSequence<T, N> {
    open spec fn obeys_try_from_spec() -> bool {
        false
    }

    open spec fn try_from_spec(values: Vec<T>) -> Result<Self, SequenceExceedsBoundsError> {
        vstd::pervasive::arbitrary()
    }
}

impl<'a, T: PrimitiveSequenceAlloc, const N: usize> TryFrom<&'a [T]> for BoundedPrimitiveSequence<T, N> {
    type Error = SequenceExceedsBoundsError;

    fn try_from(values: &'a [T]) -> (r: Result<Self, SequenceExceedsBoundsError>)
        ensures
            values@.len() <= N ==> (r matches Ok(s) && s@ == PrimitiveSequenceView::<T>::host(values@)),
            values@.len() > N ==> r == Err::<Self, SequenceExceedsBoundsError>(
                SequenceExceedsBoundsError { len: values@.len() as usize, upper_bound: N },
            ),
    {
        Self::try_from(copy_vec(values))
    }
}

impl<'a, T: PrimitiveSequenceAlloc, const N: usize> vstd::std_specs::convert::TryFromSpecImpl<&'a [T]> for BoundedPrimitiveSequence<T, N> {
    open spec fn obeys_try_from_spec() -> bool {
        false
    }

    open spec fn try_from_spec(values: &'a [T]) -> Result<Self, SequenceExceedsBoundsError> {
        vstd::pervasive::arbitrary()
    }
}


} // verus!
