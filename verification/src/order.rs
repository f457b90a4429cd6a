//! Equality and lexicographic order of sequences and buffers, by their
//! elements.

use core::cmp::Ordering;
use std::ops::Deref;
use vstd::prelude::*;
use vstd::std_specs::cmp::{PartialEqSpec, PartialOrdSpec};

use crate::bounded_primitive::BoundedPrimitiveSequence;
use crate::buffer::{BoundedBuffer, Buffer};
use crate::primitive::{OpaqueBuffer, PrimitiveSequence, PrimitiveSequenceView};
use crate::sequence::{BoundedSequence, Sequence};
use crate::slices::{lemma_suffix_step, suffix};

verus! {

/// Element-wise equality of two sequences under the elements' `==`.
pub open spec fn elems_eq<T: PartialEq>(a: Seq<T>, b: Seq<T>) -> bool {
    &&& a.len() == b.len()
    &&& forall|i: int| 0 <= i < a.len() ==> #[trigger] a[i].eq_spec(&b[i])
}

/// Equality of primitive sequences: host sequences with element-wise equal
/// elements, or opaque sequences with the same buffer descriptor (handle,
/// length and ownership).
pub open spec fn views_eq<T: PartialEq>(a: PrimitiveSequenceView<T>, b: PrimitiveSequenceView<T>) -> bool {
    match (a.buffer, b.buffer) {
        (None, None) => elems_eq(a.elems, b.elems),
        (Some(x), Some(y)) => x == y,
        _ => false,
    }
}

/// Order of two opaque buffer descriptors: by handle, then length, then
/// ownership (a non-owning view first).
pub open spec fn descriptor_order(x: OpaqueBuffer, y: OpaqueBuffer) -> Ordering {
    if x.handle < y.handle {
        Ordering::Less
    } else if x.handle > y.handle {
        Ordering::Greater
    } else if x.len < y.len {
        Ordering::Less
    } else if x.len > y.len {
        Ordering::Greater
    } else if x.owned == y.owned {
        Ordering::Equal
    } else if !x.owned {
        Ordering::Less
    } else {
        Ordering::Greater
    }
}

/// Order of primitive sequences: host sequences lexicographically by their
/// elements, host storage before opaque storage, and opaque sequences by
/// their buffer descriptors.
pub open spec fn views_partial_cmp<T: PartialOrd>(a: PrimitiveSequenceView<T>, b: PrimitiveSequenceView<T>) -> Option<Ordering> {
    match (a.buffer, b.buffer) {
        (None, None) => lex_partial_cmp(a.elems, b.elems),
        (None, Some(_)) => Some(Ordering::Less),
        (Some(_), None) => Some(Ordering::Greater),
        (Some(x), Some(y)) => Some(descriptor_order(x, y)),
    }
}

/// Compares two opaque buffer descriptors.
pub fn descriptor_compare(x: OpaqueBuffer, y: OpaqueBuffer) -> (r: Ordering)
    ensures
        r == descriptor_order(x, y),
{
    if x.handle < y.handle {
        Ordering::Less
    } else if x.handle > y.handle {
        Ordering::Greater
    } else if x.len < y.len {
        Ordering::Less
    } else if x.len > y.len {
        Ordering::Greater
    } else if x.owned == y.owned {
        Ordering::Equal
    } else if !x.owned {
        Ordering::Less
    } else {
        Ordering::Greater
    }
}

/// For element types whose `==` is equality of values (the IDL primitive
/// types), `==` on primitive sequences agrees with the native comparison
/// `primitive_sequence_are_equal`.
pub proof fn lemma_eq_agrees_with_native_comparison<T: PartialEq>(
    a: PrimitiveSequenceView<T>,
    b: PrimitiveSequenceView<T>,
)
    requires
        forall|x: T, y: T| #[trigger] x.eq_spec(&y) <==> x == y,
    ensures
        views_eq(a, b) <==> a.same_as(b),
{
    if a.buffer is None && b.buffer is None {
        if elems_eq(a.elems, b.elems) {
            assert forall|i: int| 0 <= i < a.elems.len() implies a.elems[i] == b.elems[i] by {
                assert(a.elems[i].eq_spec(&b.elems[i]));
            }
            assert(a.elems =~= b.elems);
        }
    }
}

/// Order of two lengths.
pub open spec fn len_order(a: nat, b: nat) -> Ordering {
    if a < b {
        Ordering::Less
    } else if a == b {
        Ordering::Equal
    } else {
        Ordering::Greater
    }
}

/// Lexicographic comparison: the first pair of elements that does not compare
/// `Equal` decides; when one sequence is a prefix of the other the lengths
/// decide.
pub open spec fn lex_partial_cmp<T: PartialOrd>(a: Seq<T>, b: Seq<T>) -> Option<Ordering>
    decreases a.len(),
{
    if a.len() == 0 || b.len() == 0 {
        Some(len_order(a.len(), b.len()))
    } else {
        match a[0].partial_cmp_spec(&b[0]) {
            Some(Ordering::Equal) => lex_partial_cmp(a.drop_first(), b.drop_first()),
            other => other,
        }
    }
}

/// Comparing a sequence with itself gives `Equal` when every element
/// compares `Equal` with itself.
pub proof fn lemma_lex_reflexive<T: PartialOrd>(a: Seq<T>)
    requires
        forall|x: T| #[trigger] x.partial_cmp_spec(&x) == Some(Ordering::Equal),
    ensures
        lex_partial_cmp(a, a) == Some(Ordering::Equal),
    decreases a.len(),
{
    if a.len() > 0 {
        lemma_lex_reflexive(a.drop_first());
    }
}

/// Swapping the operands swaps `Less` and `Greater` and keeps `Equal` and
/// "unordered", when the elements' comparison does so.
pub proof fn lemma_lex_antisymmetric<T: PartialOrd>(a: Seq<T>, b: Seq<T>)
    requires
        forall|x: T, y: T|
            (#[trigger] x.partial_cmp_spec(&y) == Some(Ordering::Less)) == (y.partial_cmp_spec(&x) == Some(
                Ordering::Greater,
            )),
        forall|x: T, y: T|
            (#[trigger] x.partial_cmp_spec(&y) == Some(Ordering::Equal)) == (y.partial_cmp_spec(&x) == Some(
                Ordering::Equal,
            )),
        forall|x: T, y: T| (#[trigger] x.partial_cmp_spec(&y) is None) == (y.partial_cmp_spec(&x) is None),
    ensures
        (lex_partial_cmp(a, b) == Some(Ordering::Less)) == (lex_partial_cmp(b, a) == Some(Ordering::Greater)),
        (lex_partial_cmp(a, b) == Some(Ordering::Greater)) == (lex_partial_cmp(b, a) == Some(Ordering::Less)),
        (lex_partial_cmp(a, b) == Some(Ordering::Equal)) == (lex_partial_cmp(b, a) == Some(Ordering::Equal)),
        (lex_partial_cmp(a, b) is None) == (lex_partial_cmp(b, a) is None),
    decreases a.len(),
{
    if a.len() > 0 && b.len() > 0 {
        lemma_lex_antisymmetric(a.drop_first(), b.drop_first());
        let c = a[0].partial_cmp_spec(&b[0]);
        let d = b[0].partial_cmp_spec(&a[0]);
        assert(c == Some(Ordering::Greater) <==> d == Some(Ordering::Less));
    }
}

/// Lexicographic order is decided by the first position at which the
/// elements do not compare `Equal`: whatever the lengths, the comparison of
/// `a` and `b` is the comparison of `a[k]` and `b[k]` when every earlier
/// pair compares `Equal`.
pub proof fn lemma_lex_first_difference_decides<T: PartialOrd>(a: Seq<T>, b: Seq<T>, k: int)
    requires
        0 <= k < a.len(),
        k < b.len(),
        forall|j: int| 0 <= j < k ==> #[trigger] a[j].partial_cmp_spec(&b[j]) == Some(Ordering::Equal),
        a[k].partial_cmp_spec(&b[k]) != Some(Ordering::Equal),
    ensures
        lex_partial_cmp(a, b) == a[k].partial_cmp_spec(&b[k]),
    decreases k,
{
    if k > 0 {
        assert(a[0].partial_cmp_spec(&b[0]) == Some(Ordering::Equal));
        let a1 = a.drop_first();
        let b1 = b.drop_first();
        assert forall|j: int| 0 <= j < k - 1 implies #[trigger] a1[j].partial_cmp_spec(&b1[j]) == Some(
            Ordering::Equal,
        ) by {
            assert(a[j + 1].partial_cmp_spec(&b[j + 1]) == Some(Ordering::Equal));
        }
        lemma_lex_first_difference_decides(a1, b1, k - 1);
    }
}

/// When one sequence agrees with the other up to the shorter length (every
/// pair compares `Equal`), the lengths decide: a proper prefix comes first,
/// and sequences of equal length compare `Equal`.
pub proof fn lemma_lex_common_prefix_orders_by_length<T: PartialOrd>(a: Seq<T>, b: Seq<T>)
    requires
        forall|j: int| 0 <= j < a.len() && j < b.len() ==> #[trigger] a[j].partial_cmp_spec(&b[j]) == Some(
            Ordering::Equal,
        ),
    ensures
        a.len() < b.len() ==> lex_partial_cmp(a, b) == Some(Ordering::Less),
        a.len() == b.len() ==> lex_partial_cmp(a, b) == Some(Ordering::Equal),
        a.len() > b.len() ==> lex_partial_cmp(a, b) == Some(Ordering::Greater),
    decreases a.len(),
{
    if a.len() > 0 && b.len() > 0 {
        assert(a[0].partial_cmp_spec(&b[0]) == Some(Ordering::Equal));
        let a1 = a.drop_first();
        let b1 = b.drop_first();
        assert forall|j: int| 0 <= j < a1.len() && j < b1.len() implies #[trigger] a1[j].partial_cmp_spec(
            &b1[j],
        ) == Some(Ordering::Equal) by {
            assert(a[j + 1].partial_cmp_spec(&b[j + 1]) == Some(Ordering::Equal));
        }
        lemma_lex_common_prefix_orders_by_length(a1, b1);
    }
}

/// Element-wise equality compares every position: equal lengths and every
/// pair of elements equal under the elements' `==`, so sequences that differ
/// at any position are not equal. For element types whose `==` is equality
/// of values it is equality of the sequences.
pub proof fn lemma_elems_eq_compares_every_element<T: PartialEq>(a: Seq<T>, b: Seq<T>)
    ensures
        elems_eq(a, b) ==> a.len() == b.len() && forall|i: int| 0 <= i < a.len() ==> #[trigger] a[i].eq_spec(&b[i]),
        forall|k: int| 0 <= k < a.len() && k < b.len() && !(#[trigger] a[k].eq_spec(&b[k])) ==> !elems_eq(a, b),
        a.len() != b.len() ==> !elems_eq(a, b),
        (forall|x: T, y: T| #[trigger] x.eq_spec(&y) <==> x == y) ==> (elems_eq(a, b) <==> a == b),
{
    if forall|x: T, y: T| #[trigger] x.eq_spec(&y) <==> x == y {
        if elems_eq(a, b) {
            assert forall|i: int| 0 <= i < a.len() implies a[i] == b[i] by {
                assert(a[i].eq_spec(&b[i]));
            }
            assert(a =~= b);
        }
        if a == b {
            assert forall|i: int| 0 <= i < a.len() implies #[trigger] a[i].eq_spec(&b[i]) by {
                assert(a[i] == b[i]);
            }
        }
    }
}

/// Host sequences are equal (`same_as`, what `primitive_sequence_are_equal`
/// computes) exactly when they hold the same elements, and equality of
/// primitive sequences (`views_eq`, what `==` computes) agrees with it for
/// element types whose `==` is equality of values.
pub proof fn lemma_host_equality_is_element_equality<T: PartialEq>(x: Seq<T>, y: Seq<T>)
    ensures
        PrimitiveSequenceView::<T>::host(x).same_as(PrimitiveSequenceView::<T>::host(y)) <==> x == y,
        (forall|u: T, v: T| #[trigger] u.eq_spec(&v) <==> u == v) ==> (views_eq(
            PrimitiveSequenceView::<T>::host(x),
            PrimitiveSequenceView::<T>::host(y),
        ) <==> x == y),
{
    lemma_elems_eq_compares_every_element(x, y);
}

/// Compares two slices element by element.
pub fn slices_eq<T: PartialEq>(a: &[T], b: &[T]) -> (r: bool)
    ensures
        T::obeys_eq_spec() ==> r == elems_eq(a@, b@),
{
    if a.len() != b.len() {
        return false;
    }
    let mut i: usize = 0;
    while i < a.len()
        invariant
            i <= a@.len(),
            a@.len() == b@.len(),
            T::obeys_eq_spec() ==> forall|j: int| 0 <= j < i ==> #[trigger] a@[j].eq_spec(&b@[j]),
        decreases a@.len() - i,
    {
        if !(a[i] == b[i]) {
            return false;
        }
        i = i + 1;
    }
    true
}

/// Compares two slices lexicographically.
pub fn lex_compare<T: PartialOrd>(a: &[T], b: &[T]) -> (r: Option<Ordering>)
    ensures
        T::obeys_partial_cmp_spec() ==> r == lex_partial_cmp(a@, b@),
{
    let a_len = a.len();
    let b_len = b.len();
    let mut i: usize = 0;
    proof {
        lemma_suffix_step(a@, b@, 0);
    }
    while i < a.len() && i < b.len()
        invariant
            a_len == a@.len(),
            b_len == b@.len(),
            i <= a@.len(),
            i <= b@.len(),
            T::obeys_partial_cmp_spec() ==> lex_partial_cmp(a@, b@) == lex_partial_cmp(suffix(a@, i), suffix(b@, i)),
        decreases a@.len() - i,
    {
        let c = a[i].partial_cmp(&b[i]);
        proof {
            lemma_suffix_step(a@, b@, i);
        }
        match c {
            Some(Ordering::Equal) => {},
            _ => {
                return c;
            },
        }
        i = i + 1;
    }
    proof {
        lemma_suffix_step(a@, b@, i);
    }
    if a.len() < b.len() {
        Some(Ordering::Less)
    } else if a.len() == b.len() {
        Some(Ordering::Equal)
    } else {
        Some(Ordering::Greater)
    }
}

impl<T: PartialEq> PartialEq for PrimitiveSequence<T> {
    fn eq(&self, other: &Self) -> (r: bool) {
        match (self.buffer(), other.buffer()) {
            (None, None) => slices_eq(self.deref(), other.deref()),
            (Some(x), Some(y)) => x.handle == y.handle && x.len == y.len && x.owned == y.owned,
            _ => false,
        }
    }
}

impl<T: PartialEq> vstd::std_specs::cmp::PartialEqSpecImpl for PrimitiveSequence<T> {
    open spec fn obeys_eq_spec() -> bool {
        T::obeys_eq_spec()
    }

    open spec fn eq_spec(&self, other: &Self) -> bool {
        views_eq(self@, other@)
    }
}

impl<T: Eq> Eq for PrimitiveSequence<T> {
}

/// Host sequences compare by their elements, host storage comes before
/// opaque storage, and opaque sequences compare by their buffer descriptors
/// (the order `Ord` gives).
impl<T: PartialOrd> PartialOrd for PrimitiveSequence<T> {
    fn partial_cmp(&self, other: &Self) -> (r: Option<Ordering>) {
        match (self.buffer(), other.buffer()) {
            (None, None) => lex_compare(self.deref(), other.deref()),
            (None, Some(_)) => Some(Ordering::Less),
            (Some(_), None) => Some(Ordering::Greater),
            (Some(x), Some(y)) => Some(descriptor_compare(x, y)),
        }
    }
}

impl<T: PartialOrd> vstd::std_specs::cmp::PartialOrdSpecImpl for PrimitiveSequence<T> {
    open spec fn obeys_partial_cmp_spec() -> bool {
        T::obeys_partial_cmp_spec()
    }

    open spec fn partial_cmp_spec(&self, other: &Self) -> Option<Ordering> {
        views_partial_cmp(self@, other@)
    }
}

impl<T: PartialEq, const N: usize> PartialEq for BoundedPrimitiveSequence<T, N> {
    fn eq(&self, other: &Self) -> (r: bool) {
        self.as_unbounded() == other.as_unbounded()
    }
}

impl<T: PartialEq, const N: usize> vstd::std_specs::cmp::PartialEqSpecImpl for BoundedPrimitiveSequence<T, N> {
    open spec fn obeys_eq_spec() -> bool {
        T::obeys_eq_spec()
    }

    open spec fn eq_spec(&self, other: &Self) -> bool {
        views_eq(self@, other@)
    }
}

impl<T: Eq, const N: usize> Eq for BoundedPrimitiveSequence<T, N> {
}

impl<T: PartialOrd, const N: usize> PartialOrd for BoundedPrimitiveSequence<T, N> {
    fn partial_cmp(&self, other: &Self) -> (r: Option<Ordering>) {
        self.as_unbounded().partial_cmp(other.as_unbounded())
    }
}

impl<T: PartialOrd, const N: usize> vstd::std_specs::cmp::PartialOrdSpecImpl for BoundedPrimitiveSequence<T, N> {
    open spec fn obeys_partial_cmp_spec() -> bool {
        T::obeys_partial_cmp_spec()
    }

    open spec fn partial_cmp_spec(&self, other: &Self) -> Option<Ordering> {
        views_partial_cmp(self@, other@)
    }
}

impl<T: PartialEq> PartialEq for Buffer<T> {
    fn eq(&self, other: &Self) -> (r: bool) {
        self.as_sequence() == other.as_sequence()
    }
}

impl<T: PartialEq> vstd::std_specs::cmp::PartialEqSpecImpl for Buffer<T> {
    open spec fn obeys_eq_spec() -> bool {
        T::obeys_eq_spec()
    }

    open spec fn eq_spec(&self, other: &Self) -> bool {
        views_eq(self@, other@)
    }
}

/// Buffers compare by their host elements; opaque storage, which is only
/// read through the native runtime, is not ordered here.
impl<T: PartialOrd> PartialOrd for Buffer<T> {
    fn partial_cmp(&self, other: &Self) -> (r: Option<Ordering>) {
        let a = self.as_sequence();
        let b = other.as_sequence();
        if a.buffer().is_some() || b.buffer().is_some() {
            None
        } else {
            lex_compare(a.deref(), b.deref())
        }
    }
}

impl<T: PartialOrd> vstd::std_specs::cmp::PartialOrdSpecImpl for Buffer<T> {
    open spec fn obeys_partial_cmp_spec() -> bool {
        T::obeys_partial_cmp_spec()
    }

    open spec fn partial_cmp_spec(&self, other: &Self) -> Option<Ordering> {
        if self@.is_buffer() || other@.is_buffer() {
            None
        } else {
            lex_partial_cmp(self@.elems, other@.elems)
        }
    }
}

impl<T: PartialEq, const N: usize> PartialEq for BoundedBuffer<T, N> {
    fn eq(&self, other: &Self) -> (r: bool) {
        self.deref() == other.deref()
    }
}

impl<T: PartialEq, const N: usize> vstd::std_specs::cmp::PartialEqSpecImpl for BoundedBuffer<T, N> {
    open spec fn obeys_eq_spec() -> bool {
        T::obeys_eq_spec()
    }

    open spec fn eq_spec(&self, other: &Self) -> bool {
        views_eq(self@, other@)
    }
}

impl<T: PartialOrd, const N: usize> PartialOrd for BoundedBuffer<T, N> {
    fn partial_cmp(&self, other: &Self) -> (r: Option<Ordering>) {
        self.deref().partial_cmp(other.deref())
    }
}

impl<T: PartialOrd, const N: usize> vstd::std_specs::cmp::PartialOrdSpecImpl for BoundedBuffer<T, N> {
    open spec fn obeys_partial_cmp_spec() -> bool {
        T::obeys_partial_cmp_spec()
    }

    open spec fn partial_cmp_spec(&self, other: &Self) -> Option<Ordering> {
        if self@.is_buffer() || other@.is_buffer() {
            None
        } else {
            lex_partial_cmp(self@.elems, other@.elems)
        }
    }
}

impl<T: PartialEq> PartialEq for Sequence<T> {
    fn eq(&self, other: &Self) -> (r: bool) {
        slices_eq(self.deref(), other.deref())
    }
}

impl<T: PartialEq> vstd::std_specs::cmp::PartialEqSpecImpl for Sequence<T> {
    open spec fn obeys_eq_spec() -> bool {
        T::obeys_eq_spec()
    }

    open spec fn eq_spec(&self, other: &Self) -> bool {
        elems_eq(self@, other@)
    }
}

impl<T: Eq> Eq for Sequence<T> {
}

impl<T: PartialOrd> PartialOrd for Sequence<T> {
    fn partial_cmp(&self, other: &Self) -> (r: Option<Ordering>) {
        lex_compare(self.deref(), other.deref())
    }
}

impl<T: PartialOrd> vstd::std_specs::cmp::PartialOrdSpecImpl for Sequence<T> {
    open spec fn obeys_partial_cmp_spec() -> bool {
        T::obeys_partial_cmp_spec()
    }

    open spec fn partial_cmp_spec(&self, other: &Self) -> Option<Ordering> {
        lex_partial_cmp(self@, other@)
    }
}

impl<T: PartialEq, const N: usize> PartialEq for BoundedSequence<T, N> {
    fn eq(&self, other: &Self) -> (r: bool) {
        slices_eq(self.deref(), other.deref())
    }
}

impl<T: PartialEq, const N: usize> vstd::std_specs::cmp::PartialEqSpecImpl for BoundedSequence<T, N> {
    open spec fn obeys_eq_spec() -> bool {
        T::obeys_eq_spec()
    }

    open spec fn eq_spec(&self, other: &Self) -> bool {
        elems_eq(self@, other@)
    }
}

impl<T: Eq, const N: usize> Eq for BoundedSequence<T, N> {
}

impl<T: PartialOrd, const N: usize> PartialOrd for BoundedSequence<T, N> {
    fn partial_cmp(&self, other: &Self) -> (r: Option<Ordering>) {
        lex_compare(self.deref(), other.deref())
    }
}

impl<T: PartialOrd, const N: usize> vstd::std_specs::cmp::PartialOrdSpecImpl for BoundedSequence<T, N> {
    open spec fn obeys_partial_cmp_spec() -> bool {
        T::obeys_partial_cmp_spec()
    }

    open spec fn partial_cmp_spec(&self, other: &Self) -> Option<Ordering> {
        lex_partial_cmp(self@, other@)
    }
}

} // verus!
