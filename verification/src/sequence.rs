//! Unbounded and bounded sequences of message elements.

use vstd::prelude::*;

use crate::laws::remaining_after_calls;
use crate::slices::vec_slice_mut;
use crate::error::SequenceExceedsBoundsError;

verus! {

/// Element types of (message) sequences. Generated message types implement
/// it; the IDL primitive types implement it with their zero value as the
/// default element.
///
/// The provided methods follow the native runtime: `sequence_init` replaces a
/// sequence with `size` default elements, reporting an allocation failure
/// with `false` and then leaving its target unchanged; `sequence_copy`
/// copies one sequence into another, always successfully.
pub trait SequenceAlloc: Sized {
    /// The default value of an element.
    spec fn default_spec() -> Self;

    /// Returns a default element.
    fn default_element() -> (r: Self)
        ensures
            r == Self::default_spec(),
    ;

    /// Returns a copy of the element.
    fn copy_element(&self) -> (r: Self)
        ensures
            r == *self,
    ;

    /// Replaces `seq` with `size` default elements. An empty sequence needs
    /// no allocation and is always made; otherwise an allocation failure
    /// gives `false`.
    fn sequence_init(seq: &mut Sequence<Self>, size: usize) -> (ok: bool)
        ensures
            ok ==> final(seq)@ == Seq::new(size as nat, |i: int| Self::default_spec()),
            !ok ==> final(seq)@ == old(seq)@,
            size == 0 ==> ok,
    {
        if size == 0 {
            *seq = Sequence { data: Vec::new() };
            assert(seq@ =~= Seq::new(0, |i: int| Self::default_spec()));
            return true;
        }
        let mut v: Vec<Self> = Vec::new();
        if v.try_reserve(size).is_err() {
            return false;
        }
        let mut i: usize = 0;
        while i < size
            invariant
                i <= size,
                v@ == Seq::new(i as nat, |j: int| Self::default_spec()),
            decreases size - i,
        {
            v.push(Self::default_element());
            i = i + 1;
            assert(v@ =~= Seq::new(i as nat, |j: int| Self::default_spec()));
        }
        *seq = Sequence { data: v };
        true
    }

    /// Copies `input` into `output`, always successfully: the copy's memory
    /// comes from the global allocator, which ends the process when it cannot
    /// provide it, so a sequence that is in memory can always be copied.
    fn sequence_copy(input: &Sequence<Self>, output: &mut Sequence<Self>) -> (ok: bool)
        ensures
            ok,
            ok ==> final(output)@ == input@,
            !ok ==> final(output)@ == old(output)@,
            input@.len() == 0 ==> ok,
    {
        if input.data.len() == 0 {
            *output = Sequence { data: Vec::new() };
            assert(output@ =~= input@);
            return true;
        }
        let mut v: Vec<Self> = Vec::new();
        let mut i: usize = 0;
        while i < input.data.len()
            invariant
                i <= input.data@.len(),
                v@ == input.data@.subrange(0, i as int),
            decreases input.data@.len() - i,
        {
            v.push(input.data[i].copy_element());
            i = i + 1;
            assert(v@ =~= input.data@.subrange(0, i as int));
        }
        assert(v@ =~= input.data@);
        *output = Sequence { data: v };
        true
    }
}

impl SequenceAlloc for bool {
    open spec fn default_spec() -> bool { false }
    fn default_element() -> (r: bool) { false }
    fn copy_element(&self) -> (r: bool) { *self }
}

impl SequenceAlloc for u8 {
    open spec fn default_spec() -> u8 { 0 }
    fn default_element() -> (r: u8) { 0 }
    fn copy_element(&self) -> (r: u8) { *self }
}

impl SequenceAlloc for i8 {
    open spec fn default_spec() -> i8 { 0 }
    fn default_element() -> (r: i8) { 0 }
    fn copy_element(&self) -> (r: i8) { *self }
}

impl SequenceAlloc for u16 {
    open spec fn default_spec() -> u16 { 0 }
    fn default_element() -> (r: u16) { 0 }
    fn copy_element(&self) -> (r: u16) { *self }
}

impl SequenceAlloc for i16 {
    open spec fn default_spec() -> i16 { 0 }
    fn default_element() -> (r: i16) { 0 }
    fn copy_element(&self) -> (r: i16) { *self }
}

impl SequenceAlloc for u32 {
    open spec fn default_spec() -> u32 { 0 }
    fn default_element() -> (r: u32) { 0 }
    fn copy_element(&self) -> (r: u32) { *self }
}

impl SequenceAlloc for i32 {
    open spec fn default_spec() -> i32 { 0 }
    fn default_element() -> (r: i32) { 0 }
    fn copy_element(&self) -> (r: i32) { *self }
}

impl SequenceAlloc for u64 {
    open spec fn default_spec() -> u64 { 0 }
    fn default_element() -> (r: u64) { 0 }
    fn copy_element(&self) -> (r: u64) { *self }
}

impl SequenceAlloc for i64 {
    open spec fn default_spec() -> i64 { 0 }
    fn default_element() -> (r: i64) { 0 }
    fn copy_element(&self) -> (r: i64) { *self }
}

/// `n` default elements.
pub open spec fn defaults<T: SequenceAlloc>(n: nat) -> Seq<T> {
    Seq::new(n, |i: int| T::default_spec())
}

/// What a bounded sequence holds after appending `items` to `old` under the
/// bound `n`: the items that fit, in order (none when `old` is already at or
/// past the bound).
pub open spec fn bounded_extend<T>(old: Seq<T>, items: Seq<T>, n: nat) -> Seq<T> {
    if old.len() + items.len() <= n {
        old + items
    } else if old.len() >= n {
        old
    } else {
        old + items.subrange(0, n - old.len())
    }
}

/// The first `n` of `values` (all of them when there are fewer).
pub open spec fn bounded_prefix<T>(values: Seq<T>, n: nat) -> Seq<T> {
    if values.len() <= n {
        values
    } else {
        values.subrange(0, n as int)
    }
}

/// An unbounded sequence.
///
/// ```text
/// let mut list = Sequence::<u32>::new(3);   // three default elements
/// list.as_mut_slice()[0] = 3;
/// assert!(Sequence::<u32>::default().is_empty());
/// ```
#[derive(Debug, Hash, Ord)]
pub struct Sequence<T> {
    data: Vec<T>,
}

impl<T> View for Sequence<T> {
    type V = Seq<T>;

    closed spec fn view(&self) -> Seq<T> {
        self.data@
    }
}

impl<T> Default for Sequence<T> {
    fn default() -> (r: Self)
        ensures
            r@ == Seq::<T>::empty(),
    {
        Sequence { data: Vec::new() }
    }
}

/// A vector of `len` default elements.
fn default_vec<T: SequenceAlloc>(len: usize) -> (v: Vec<T>)
    ensures
        v@ == defaults::<T>(len as nat),
{
    let mut v: Vec<T> = Vec::new();
    let mut i: usize = 0;
    while i < len
        invariant
            i <= len,
            v@ == defaults::<T>(i as nat),
        decreases len - i,
    {
        v.push(T::default_element());
        i = i + 1;
        assert(v@ =~= defaults::<T>(i as nat));
    }
    v
}

/// A copy of the elements of `s`.
fn copy_elements<T: SequenceAlloc>(s: &[T]) -> (v: Vec<T>)
    ensures
        v@ == s@,
{
    let mut v: Vec<T> = Vec::new();
    let mut i: usize = 0;
    while i < s.len()
        invariant
            i <= s@.len(),
            v@ == s@.subrange(0, i as int),
        decreases s@.len() - i,
    {
        v.push(s[i].copy_element());
        i = i + 1;
        assert(v@ =~= s@.subrange(0, i as int));
    }
    assert(v@ =~= s@);
    v
}

impl<T: SequenceAlloc> Sequence<T> {
    /// Creates a sequence of `len` elements with default values.
    pub fn new(len: usize) -> (r: Self)
        ensures
            r@ == defaults::<T>(len as nat),
    {
        Sequence { data: default_vec(len) }
    }

    /// Number of elements.
    pub fn len(&self) -> (r: usize)
        ensures
            r == self@.len(),
    {
        self.data.len()
    }

    /// Whether the sequence has no elements.
    pub fn is_empty(&self) -> (r: bool)
        ensures
            r == (self@.len() == 0),
    {
        self.data.len() == 0
    }

    /// Extracts a slice containing the entire sequence.
    pub fn as_slice(&self) -> (r: &[T])
        ensures
            r@ == self@,
    {
        self.data.as_slice()
    }

    /// Extracts a mutable slice containing the entire sequence; what is
    /// written through it becomes the sequence's elements.
    pub fn as_mut_slice(&mut self) -> (r: &mut [T])
        ensures
            r@ == old(self)@,
            final(self)@ == final(r)@,
            final(r)@.len() == r@.len(),
        no_unwind
    {
        vec_slice_mut(&mut self.data)
    }

    /// Replaces the sequence with `new_size` elements: the first ones are the
    /// old elements (as many as fit), the others are default elements.
    fn resize(&mut self, new_size: usize)
        ensures
            final(self)@.len() == new_size,
            forall|i: int| 0 <= i < new_size && i < old(self)@.len() ==> #[trigger] final(self)@[i] == old(self)@[i],
            forall|i: int| old(self)@.len() <= i < new_size ==> #[trigger] final(self)@[i] == T::default_spec(),
    {
        let mut old_seq = Sequence::new(new_size);
        std::mem::swap(self, &mut old_seq);
        let ghost old_elems = old_seq@;
        while old_seq.data.len() > 0
            invariant
                self@.len() == new_size,
                old_seq@ == old_elems.subrange(0, old_seq@.len() as int),
                old_seq@.len() <= old_elems.len(),
                forall|i: int| old_seq@.len() <= i < new_size && i < old_elems.len() ==> #[trigger] self@[i] == old_elems[i],
                forall|i: int| old_elems.len() <= i < new_size ==> #[trigger] self@[i] == T::default_spec(),
                forall|i: int| 0 <= i < old_seq@.len() && i < new_size ==> #[trigger] self@[i] == T::default_spec(),
            decreases old_seq@.len(),
        {
            let elem = old_seq.data.pop().unwrap();
            let idx = old_seq.data.len();
            if idx < new_size {
                self.data.set(idx, elem);
            }
            assert(old_seq@ =~= old_elems.subrange(0, old_seq@.len() as int));
        }
    }

    /// Appends `items` at the end of the sequence.
    ///
    /// The sequence is first grown to its old length plus the number of items
    /// (each position holding a default element), then the items are stored in
    /// order.
    pub fn extend(&mut self, items: Vec<T>)
        requires
            old(self)@.len() + items@.len() <= usize::MAX,
        ensures
            final(self)@ == old(self)@ + items@,
    {
        let cur_idx = self.data.len();
        let num_remaining = items.len();
        if num_remaining == 0 {
            assert(self@ + items@ =~= self@);
            return;
        }
        let ghost old_elems = self@;
        let new_size = cur_idx + num_remaining;
        self.resize(new_size);
        let mut items = items;
        let ghost all_items = items@;
        while items.len() > 0
            invariant
                self@.len() == new_size,
                new_size == old_elems.len() + all_items.len(),
                cur_idx == old_elems.len(),
                items@.len() <= all_items.len(),
                items@ == all_items.subrange(0, items@.len() as int),
                forall|i: int| 0 <= i < old_elems.len() ==> #[trigger] self@[i] == old_elems[i],
                forall|i: int| old_elems.len() + items@.len() <= i < new_size ==> #[trigger] self@[i] == all_items[i - old_elems.len()],
            decreases items@.len(),
        {
            let item = items.pop().unwrap();
            let idx = cur_idx + items.len();
            self.data.set(idx, item);
            assert(items@ =~= all_items.subrange(0, items@.len() as int));
        }
        assert(self@ =~= old_elems + all_items);
    }

    /// Builds a sequence holding `values` (the collected form of an iterator).
    pub fn from_iter(values: Vec<T>) -> (r: Self)
        ensures
            r@ == values@,
    {
        let mut seq = Sequence::new(0);
        assert(seq@ =~= Seq::<T>::empty());
        assert(values@.len() == values.len());
        seq.extend(values);
        assert(seq@ =~= values@);
        seq
    }

    /// Consumes the sequence element by element.
    pub fn into_iter(self) -> (r: SequenceIterator<T>)
        ensures
            r.remaining() == self@,
    {
        let mut data = self.data;
        let mut rev: Vec<T> = Vec::new();
        let ghost all = data@;
        while data.len() > 0
            invariant
                data@.len() <= all.len(),
                rev@.len() == all.len() - data@.len(),
                data@ == all.subrange(0, data@.len() as int),
                rev@.reverse() == all.subrange(data@.len() as int, all.len() as int),
            decreases data@.len(),
        {
            let ghost k: int = data@.len() as int;
            let ghost old_rev = rev@;
            let x = data.pop().unwrap();
            assert(x == all[k - 1]);
            rev.push(x);
            assert(data@ =~= all.subrange(0, k - 1));
            assert(rev@.reverse() =~= all.subrange(k - 1, all.len() as int)) by {
                assert(old_rev.reverse() == all.subrange(k, all.len() as int));
                assert forall|i: int| 0 <= i < rev@.len() implies #[trigger] rev@.reverse()[i] == all.subrange(k - 1, all.len() as int)[i] by {
                    assert(rev@.reverse()[i] == rev@[rev@.len() - 1 - i]);
                    if i > 0 {
                        assert(rev@[rev@.len() - 1 - i] == old_rev[old_rev.len() - 1 - (i - 1)]);
                        assert(old_rev.reverse()[i - 1] == old_rev[old_rev.len() - 1 - (i - 1)]);
                    }
                }
            }
        }
        assert(all.subrange(0, all.len() as int) =~= all);
        SequenceIterator { rev }
    }
}

impl<T: SequenceAlloc> Clone for Sequence<T> {
    fn clone(&self) -> (r: Self)
        ensures
            r@ == self@,
    {
        Sequence { data: copy_elements(self.data.as_slice()) }
    }
}

impl<T> std::ops::Deref for Sequence<T> {
    type Target = [T];

    fn deref(&self) -> (r: &[T])
        ensures
            r@ == self@,
    {
        self.data.as_slice()
    }
}

impl<'a, T: SequenceAlloc> From<&'a [T]> for Sequence<T> {
    fn from(slice: &'a [T]) -> (r: Self)
        ensures
            r@ == slice@,
    {
        Sequence { data: copy_elements(slice) }
    }
}

impl<'a, T: SequenceAlloc> vstd::std_specs::convert::FromSpecImpl<&'a [T]> for Sequence<T> {
    open spec fn obeys_from_spec() -> bool {
        false
    }

    open spec fn from_spec(slice: &'a [T]) -> Self {
        vstd::pervasive::arbitrary()
    }
}

impl<T: SequenceAlloc> From<Vec<T>> for Sequence<T> {
    fn from(v: Vec<T>) -> (r: Self)
        ensures
            r@ == v@,
    {
        Sequence::from_iter(v)
    }
}

impl<T: SequenceAlloc> vstd::std_specs::convert::FromSpecImpl<Vec<T>> for Sequence<T> {
    open spec fn obeys_from_spec() -> bool {
        false
    }

    open spec fn from_spec(v: Vec<T>) -> Self {
        vstd::pervasive::arbitrary()
    }
}

/// Copies a sequence into a vector.
impl<T: SequenceAlloc + Copy> From<Sequence<T>> for Vec<T> {
    fn from(seq: Sequence<T>) -> (r: Vec<T>)
        ensures
            r@ == seq@,
    {
        copy_elements(seq.as_slice())
    }
}

impl<T: SequenceAlloc + Copy> vstd::std_specs::convert::FromSpecImpl<Sequence<T>> for Vec<T> {
    open spec fn obeys_from_spec() -> bool {
        false
    }

    open spec fn from_spec(seq: Sequence<T>) -> Vec<T> {
        vstd::pervasive::arbitrary()
    }
}


/// A sequence with the bound `N`: it never holds more than `N` elements.
/// Every constructor refuses, or cuts to `N`, longer input.
#[derive(Debug, Hash, Ord)]
pub struct BoundedSequence<T, const N: usize> {
    inner: Sequence<T>,
}

impl<T, const N: usize> View for BoundedSequence<T, N> {
    type V = Seq<T>;

    closed spec fn view(&self) -> Seq<T> {
        self.inner@
    }
}

impl<T, const N: usize> BoundedSequence<T, N> {
    /// At most `N` elements.
    #[verifier::type_invariant]
    closed spec fn within_bound(self) -> bool {
        self.inner@.len() <= N
    }

    /// Number of elements, never more than `N`.
    pub fn len(&self) -> (r: usize)
        ensures
            r == self@.len(),
            r <= N,
    {
        proof {
            use_type_invariant(self);
        }
        self.inner.len()
    }
}

impl<T, const N: usize> Default for BoundedSequence<T, N> {
    fn default() -> (r: Self)
        ensures
            r@ == Seq::<T>::empty(),
    {
        BoundedSequence { inner: Sequence::default() }
    }
}

impl<T: SequenceAlloc, const N: usize> BoundedSequence<T, N> {
    /// Creates a sequence of `len` elements with default values.
    pub fn new(len: usize) -> (r: Self)
        requires
            len <= N,
        ensures
            r@ == defaults::<T>(len as nat),
    {
        match Self::try_new(len) {
            Ok(s) => s,
            Err(_) => vstd::pervasive::unreached(),
        }
    }

    /// Creates a sequence of `len` elements with default values, or reports
    /// that `len` exceeds the bound.
    pub fn try_new(len: usize) -> (r: Result<Self, SequenceExceedsBoundsError>)
        ensures
            len <= N ==> (r matches Ok(s) && s@ == defaults::<T>(len as nat)),
            len > N ==> r == Err::<Self, SequenceExceedsBoundsError>(SequenceExceedsBoundsError { len, upper_bound: N }),
    {
        if len > N {
            return Err(SequenceExceedsBoundsError { len, upper_bound: N });
        }
        let mut seq = Self::default();
        seq.inner = Sequence::new(len);
        Ok(seq)
    }

    /// Extracts a slice containing the entire sequence, of at most `N`
    /// elements.
    pub fn as_slice(&self) -> (r: &[T])
        ensures
            r@ == self@,
            r@.len() <= N,
    {
        proof {
            use_type_invariant(self);
        }
        self.inner.as_slice()
    }

    /// Extracts a mutable slice containing the entire sequence; its length,
    /// and so the bound, cannot change through it.
    pub fn as_mut_slice(&mut self) -> (r: &mut [T])
        ensures
            r@ == old(self)@,
            final(self)@ == final(r)@,
    {
        proof {
            use_type_invariant(&*self);
        }
        self.inner.as_mut_slice()
    }

    /// Appends as many of `items` as fit under the bound, in order; the
    /// others are dropped.
    pub fn extend(&mut self, items: Vec<T>)
        ensures
            final(self)@ == bounded_extend(old(self)@, items@, N as nat),
    {
        proof {
            use_type_invariant(&*self);
        }
        let room = N - self.inner.len();
        let mut items = items;
        let ghost all_items = items@;
        items.truncate(room);
        assert(all_items.len() <= room ==> items@ =~= all_items);
        let mut inner = Sequence::default();
        std::mem::swap(&mut inner, &mut self.inner);
        inner.extend(items);
        self.inner = inner;
    }

    /// Builds a bounded sequence from the first `N` of `values` (the
    /// collected form of an iterator); the rest is dropped.
    pub fn from_iter(values: Vec<T>) -> (r: Self)
        ensures
            r@ == bounded_prefix(values@, N as nat),
    {
        let mut seq = BoundedSequence::new(0);
        assert(seq@ =~= Seq::<T>::empty());
        seq.extend(values);
        assert(seq@ =~= bounded_prefix(values@, N as nat));
        seq
    }

    /// Consumes the sequence element by element.
    pub fn into_iter(self) -> (r: SequenceIterator<T>)
        ensures
            r.remaining() == self@,
    {
        self.inner.into_iter()
    }
}

impl<T: SequenceAlloc, const N: usize> Clone for BoundedSequence<T, N> {
    fn clone(&self) -> (r: Self)
        ensures
            r@ == self@,
    {
        proof {
            use_type_invariant(self);
        }
        BoundedSequence { inner: self.inner.clone() }
    }
}

impl<T, const N: usize> std::ops::Deref for BoundedSequence<T, N> {
    type Target = [T];

    fn deref(&self) -> (r: &[T])
        ensures
            r@ == self@,
            r@.len() <= N,
    {
        proof {
            use_type_invariant(self);
        }
        self.inner.deref()
    }
}

impl<'a, T: SequenceAlloc, const N: usize> TryFrom<&'a [T]> for BoundedSequence<T, N> {
    type Error = SequenceExceedsBoundsError;

    fn try_from(slice: &'a [T]) -> (r: Result<Self, SequenceExceedsBoundsError>)
        ensures
            slice@.len() <= N ==> (r matches Ok(s) && s@ == slice@),
            slice@.len() > N ==> r == Err::<Self, SequenceExceedsBoundsError>(
                SequenceExceedsBoundsError { len: slice@.len() as usize, upper_bound: N },
            ),
    {
        let mut seq = BoundedSequence::try_new(slice.len())?;
        seq.inner = Sequence::from(slice);
        Ok(seq)
    }
}

impl<'a, T: SequenceAlloc, const N: usize> vstd::std_specs::convert::TryFromSpecImpl<&'a [T]> for BoundedSequence<T, N> {
    open spec fn obeys_try_from_spec() -> bool {
        false
    }

    open spec fn try_from_spec(slice: &'a [T]) -> Result<Self, SequenceExceedsBoundsError> {
        vstd::pervasive::arbitrary()
    }
}

impl<T: SequenceAlloc, const N: usize> TryFrom<Vec<T>> for BoundedSequence<T, N> {
    type Error = SequenceExceedsBoundsError;

    fn try_from(v: Vec<T>) -> (r: Result<Self, SequenceExceedsBoundsError>)
        ensures
            v@.len() <= N ==> (r matches Ok(s) && s@ == v@),
            v@.len() > N ==> r == Err::<Self, SequenceExceedsBoundsError>(
                SequenceExceedsBoundsError { len: v@.len() as usize, upper_bound: N },
            ),
    {
        if v.len() > N {
            Err(SequenceExceedsBoundsError { len: v.len(), upper_bound: N })
        } else {
            Ok(BoundedSequence::from_iter(v))
        }
    }
}

impl<T: SequenceAlloc, const N: usize> vstd::std_specs::convert::TryFromSpecImpl<Vec<T>> for BoundedSequence<T, N> {
    open spec fn obeys_try_from_spec() -> bool {
        false
    }

    open spec fn try_from_spec(v: Vec<T>) -> Result<Self, SequenceExceedsBoundsError> {
        vstd::pervasive::arbitrary()
    }
}


/// A by-value iterator over a sequence.
pub struct SequenceIterator<T> {
    rev: Vec<T>,
}

impl<T> SequenceIterator<T> {
    /// The elements not yet returned, in order.
    pub closed spec fn remaining(&self) -> Seq<T> {
        self.rev@.reverse()
    }

    /// Returns the next element, or `None` once all were returned.
    pub fn next(&mut self) -> (r: Option<T>)
        ensures
            old(self).remaining().len() == 0 ==> r == None::<T> && final(self).remaining() == old(self).remaining(),
            old(self).remaining().len() > 0 ==> r == Some(old(self).remaining()[0])
                && final(self).remaining() == old(self).remaining().drop_first(),
            final(self).remaining() == remaining_after_calls(old(self).remaining(), 1),
    {
        proof {
            reveal_with_fuel(remaining_after_calls, 2);
        }
        let r = self.rev.pop();
        proof {
            if old(self).rev@.len() > 0 {
                assert(self.remaining() =~= old(self).remaining().drop_first());
            }
        }
        r
    }

    /// Lower and upper bound of the number of remaining elements.
    pub fn size_hint(&self) -> (r: (usize, Option<usize>))
        ensures
            r.0 == self.remaining().len(),
            r.1 == Some(self.remaining().len() as usize),
    {
        let len = self.rev.len();
        (len, Some(len))
    }

    /// Number of remaining elements.
    pub fn len(&self) -> (r: usize)
        ensures
            r == self.remaining().len(),
    {
        self.rev.len()
    }
}

} // verus!
