//! Properties of the containers that span several operations, stated over
//! the views their contracts use.

use vstd::prelude::*;

use crate::primitive::{zeros, PrimitiveSequenceAlloc, PrimitiveSequenceView};
use crate::sequence::{bounded_extend, bounded_prefix, defaults};

verus! {

/// Sequence equality (`==` on primitive sequences and buffers) is an
/// equivalence relation: reflexive, symmetric and transitive.
pub proof fn lemma_equality_is_equivalence<T>(
    a: PrimitiveSequenceView<T>,
    b: PrimitiveSequenceView<T>,
    c: PrimitiveSequenceView<T>,
)
    ensures
        a.same_as(a),
        a.same_as(b) ==> b.same_as(a),
        a.same_as(b) && b.same_as(c) ==> a.same_as(c),
{
}

/// A copy (`clone`, `try_clone`, `primitive_sequence_copy`) has the same
/// length as the sequence it was made from, and compares equal to it unless
/// the source owns an opaque buffer: the copy of an owned buffer is a
/// non-owning view of it.
pub proof fn lemma_copy_equals_source<T>(s: PrimitiveSequenceView<T>)
    ensures
        s.shared().same_as(s) <==> !(s.buffer is Some && s.buffer.unwrap().owned),
        s.shared().len() == s.len(),
        !s.is_buffer() ==> s.shared() == s,
{
}

/// Zero-initialized sequences of different lengths are not equal.
pub proof fn lemma_zero_sequences_of_other_length_differ<T: PrimitiveSequenceAlloc>(n: nat, m: nat)
    requires
        n != m,
    ensures
        !PrimitiveSequenceView::<T>::host(zeros::<T>(n)).same_as(PrimitiveSequenceView::<T>::host(zeros::<T>(m))),
{
    assert(zeros::<T>(n).len() != zeros::<T>(m).len());
}

/// Extending a host sequence by `ys`: the length is the sum of both lengths,
/// the old elements come first and the new ones follow in order.
pub proof fn lemma_extend_keeps_prefix_and_appends<T>(xs: Seq<T>, ys: Seq<T>)
    ensures
        PrimitiveSequenceView::<T>::host(xs + ys).len() == xs.len() + ys.len(),
        (xs + ys).subrange(0, xs.len() as int) == xs,
        (xs + ys).subrange(xs.len() as int, (xs.len() + ys.len()) as int) == ys,
{
    assert((xs + ys).subrange(0, xs.len() as int) =~= xs);
    assert((xs + ys).subrange(xs.len() as int, (xs.len() + ys.len()) as int) =~= ys);
}

/// A host sequence made from the elements of a host sequence `s` holds
/// exactly those elements, and one made from the elements of a copy of `s`
/// is equal to `s`.
pub proof fn lemma_host_round_trip<T>(s: PrimitiveSequenceView<T>)
    requires
        !s.is_buffer(),
    ensures
        PrimitiveSequenceView::<T>::host(s.elems).elems == s.elems,
        PrimitiveSequenceView::<T>::host(s.shared().elems).same_as(s),
{
}

/// What an iterator over `s` has left after `k` calls of `next`, each call
/// as the contracts of `SequenceIterator::next` and
/// `PrimitiveSequenceIterator::next` state it: the first element is taken
/// off while there is one, and nothing changes once none is left.
pub open spec fn remaining_after_calls<T>(s: Seq<T>, k: nat) -> Seq<T>
    decreases k,
{
    if k == 0 {
        s
    } else {
        let before = remaining_after_calls(s, (k - 1) as nat);
        if before.len() == 0 {
            before
        } else {
            before.drop_first()
        }
    }
}

/// Iterating over `n` elements: after `k` calls of `next`, the elements
/// from position `k` on are left (none once `k >= n`), so call `k + 1`
/// returns `Some` of element `k` while `k < n` and `None` from then on, and
/// `len` and `size_hint` report `n - k` remaining elements.
pub proof fn lemma_iteration_yields_elements_in_order<T>(s: Seq<T>, k: nat)
    ensures
        k <= s.len() ==> remaining_after_calls(s, k) == s.skip(k as int),
        k >= s.len() ==> remaining_after_calls(s, k).len() == 0,
        k < s.len() ==> remaining_after_calls(s, k).len() > 0 && remaining_after_calls(s, k)[0] == s[k as int],
        remaining_after_calls(s, k).len() == if k <= s.len() { s.len() - k } else { 0 },
    decreases k,
{
    if k > 0 {
        lemma_iteration_yields_elements_in_order(s, (k - 1) as nat);
        if k <= s.len() {
            assert(remaining_after_calls(s, k) =~= s.skip(k as int));
        }
    } else {
        assert(s.skip(0) =~= s);
    }
}

/// Extending a bounded sequence that is within its bound keeps it within the
/// bound, keeps the old elements first, and appends a prefix of the items:
/// all of them when they fit.
pub proof fn lemma_bounded_extend_stays_within_bound<T>(old: Seq<T>, items: Seq<T>, n: nat)
    requires
        old.len() <= n,
    ensures
        bounded_extend(old, items, n).len() <= n,
        bounded_extend(old, items, n).subrange(0, old.len() as int) == old,
        old.len() + items.len() <= n ==> bounded_extend(old, items, n) == old + items,
        old.len() + items.len() >= n ==> bounded_extend(old, items, n).len() == n,
{
    assert(bounded_extend(old, items, n).subrange(0, old.len() as int) =~= old);
}

/// Extending a bounded sequence keeps its old elements and then appends the
/// first items, in their order, as many as fit under the bound: the result
/// has `min(old + items, n)` elements, element `old.len() + i` is `items[i]`,
/// and the items that do not fit are the last ones.
pub proof fn lemma_bounded_extend_appends_first_items_in_order<T>(old: Seq<T>, items: Seq<T>, n: nat)
    requires
        old.len() <= n,
    ensures
        bounded_extend(old, items, n).len() == if old.len() + items.len() <= n {
            old.len() + items.len()
        } else {
            n
        },
        forall|i: int| 0 <= i < old.len() ==> #[trigger] bounded_extend(old, items, n)[i] == old[i],
        forall|i: int|
            0 <= i < bounded_extend(old, items, n).len() - old.len() ==> #[trigger] bounded_extend(
                old,
                items,
                n,
            )[old.len() + i] == items[i],
{
}

/// Collecting into a bounded sequence keeps the first `n` values in order:
/// `min(values, n)` of them, element `i` being `values[i]`.
pub proof fn lemma_bounded_prefix_keeps_first_values<T>(values: Seq<T>, n: nat)
    ensures
        bounded_prefix(values, n).len() == if values.len() <= n { values.len() } else { n },
        forall|i: int| 0 <= i < bounded_prefix(values, n).len() ==> #[trigger] bounded_prefix(values, n)[i] == values[i],
{
}

/// The default element of every IDL primitive type is its zero value:
/// `n` default elements (what `Sequence::new`, `BoundedSequence::new` and
/// `sequence_init` make) are `n` times `false` or `0`, the same as the `n`
/// zero elements of primitive sequences.
pub proof fn lemma_primitive_defaults_are_zero(n: nat)
    ensures
        defaults::<bool>(n) == Seq::new(n, |i: int| false),
        defaults::<u8>(n) == Seq::new(n, |i: int| 0u8),
        defaults::<i8>(n) == Seq::new(n, |i: int| 0i8),
        defaults::<u16>(n) == Seq::new(n, |i: int| 0u16),
        defaults::<i16>(n) == Seq::new(n, |i: int| 0i16),
        defaults::<u32>(n) == Seq::new(n, |i: int| 0u32),
        defaults::<i32>(n) == Seq::new(n, |i: int| 0i32),
        defaults::<u64>(n) == Seq::new(n, |i: int| 0u64),
        defaults::<i64>(n) == Seq::new(n, |i: int| 0i64),
        zeros::<bool>(n) == defaults::<bool>(n),
        zeros::<u8>(n) == defaults::<u8>(n),
        zeros::<i8>(n) == defaults::<i8>(n),
        zeros::<u16>(n) == defaults::<u16>(n),
        zeros::<i16>(n) == defaults::<i16>(n),
        zeros::<u32>(n) == defaults::<u32>(n),
        zeros::<i32>(n) == defaults::<i32>(n),
        zeros::<u64>(n) == defaults::<u64>(n),
        zeros::<i64>(n) == defaults::<i64>(n),
{
    assert(defaults::<bool>(n) =~= Seq::new(n, |i: int| false));
    assert(defaults::<u8>(n) =~= Seq::new(n, |i: int| 0u8));
    assert(defaults::<i8>(n) =~= Seq::new(n, |i: int| 0i8));
    assert(defaults::<u16>(n) =~= Seq::new(n, |i: int| 0u16));
    assert(defaults::<i16>(n) =~= Seq::new(n, |i: int| 0i16));
    assert(defaults::<u32>(n) =~= Seq::new(n, |i: int| 0u32));
    assert(defaults::<i32>(n) =~= Seq::new(n, |i: int| 0i32));
    assert(defaults::<u64>(n) =~= Seq::new(n, |i: int| 0u64));
    assert(defaults::<i64>(n) =~= Seq::new(n, |i: int| 0i64));
    assert(zeros::<bool>(n) =~= defaults::<bool>(n));
    assert(zeros::<u8>(n) =~= defaults::<u8>(n));
    assert(zeros::<i8>(n) =~= defaults::<i8>(n));
    assert(zeros::<u16>(n) =~= defaults::<u16>(n));
    assert(zeros::<i16>(n) =~= defaults::<i16>(n));
    assert(zeros::<u32>(n) =~= defaults::<u32>(n));
    assert(zeros::<i32>(n) =~= defaults::<i32>(n));
    assert(zeros::<u64>(n) =~= defaults::<u64>(n));
    assert(zeros::<i64>(n) =~= defaults::<i64>(n));
}

/// Collecting into a bounded sequence keeps at most `n` elements, and keeps
/// every element when there are at most `n`.
pub proof fn lemma_bounded_prefix_within_bound<T>(values: Seq<T>, n: nat)
    ensures
        bounded_prefix(values, n).len() <= n,
        bounded_prefix(values, n).len() <= values.len(),
        values.len() <= n ==> bounded_prefix(values, n) == values,
        forall|i: int| 0 <= i < bounded_prefix(values, n).len() ==> #[trigger] bounded_prefix(values, n)[i] == values[i],
{
}

} // verus!
