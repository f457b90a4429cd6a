//! Slices of vectors and suffixes of sequences.

use vstd::prelude::*;

verus! {

/// Exclusive access to the elements of `v` as a slice, through
/// `<Vec<T> as AsMut<[T]>>::as_mut`. The contract claims that the slice
/// holds the vector's elements, that what is written through it becomes the
/// vector's elements, that the slice keeps its length (a slice's length
/// cannot change through a mutable reference), and that the call does not
/// panic.
#[verifier::external_body]
pub(crate) fn vec_slice_mut<T>(v: &mut Vec<T>) -> (r: &mut [T])
    ensures
        r@ == old(v)@,
        final(v)@ == final(r)@,
        final(r)@.len() == r@.len(),
    no_unwind
{
    v.as_mut()
}

/// The elements of `s` from position `i` on.
pub open spec fn suffix<T>(s: Seq<T>, i: usize) -> Seq<T> {
    s.skip(i as int)
}

/// Unfolds the suffixes of two sequences by one position: the suffix from
/// `0` is the whole sequence, and a nonempty suffix starts with the element at
/// `i` and continues with the suffix from `i + 1`.
pub proof fn lemma_suffix_step<T>(a: Seq<T>, b: Seq<T>, i: usize)
    requires
        i <= a.len(),
        i <= b.len(),
        a.len() <= usize::MAX,
        b.len() <= usize::MAX,
    ensures
        suffix(a, 0) == a,
        suffix(b, 0) == b,
        suffix(a, i).len() == a.len() - i,
        suffix(b, i).len() == b.len() - i,
        i < a.len() ==> suffix(a, i)[0] == a[i as int],
        i < b.len() ==> suffix(b, i)[0] == b[i as int],
        i < a.len() ==> suffix(a, i).drop_first() == suffix(a, (i + 1) as usize),
        i < b.len() ==> suffix(b, i).drop_first() == suffix(b, (i + 1) as usize),
{
    assert(a.skip(0) =~= a);
    assert(b.skip(0) =~= b);
    if i < a.len() {
        assert(a.skip(i as int).drop_first() =~= a.skip(i + 1));
    }
    if i < b.len() {
        assert(b.skip(i as int).drop_first() =~= b.skip(i + 1));
    }
}

} // verus!
