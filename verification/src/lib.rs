//! Runtime containers for ROS 2 messages: unbounded and bounded sequences,
//! primitive sequences held in host storage or in an opaque native buffer,
//! and the `Buffer` wrappers built on them.

mod bounded_primitive;
mod buffer;
mod error;
mod laws;
mod order;
mod primitive;
mod sequence;
mod slices;
mod text;

pub use bounded_primitive::BoundedPrimitiveSequence;
pub use buffer::{
    backend_name_reply, backend_name_size_reply, decode_backend_name, host_bytes, host_copy_result,
    strip_nul_terminator, BackendName, BoundedBuffer, BoundedVec, Buffer,
};
pub use error::{check, BufferError, SequenceExceedsBoundsError};
pub use laws::{
    lemma_bounded_extend_appends_first_items_in_order, lemma_bounded_extend_stays_within_bound,
    lemma_bounded_prefix_keeps_first_values, lemma_bounded_prefix_within_bound,
    lemma_primitive_defaults_are_zero,
    lemma_copy_equals_source, lemma_equality_is_equivalence,
    lemma_extend_keeps_prefix_and_appends, lemma_host_round_trip,
    lemma_iteration_yields_elements_in_order, remaining_after_calls,
    lemma_zero_sequences_of_other_length_differ,
};
pub use order::{
    descriptor_compare, descriptor_order, elems_eq, lemma_elems_eq_compares_every_element,
    lemma_host_equality_is_element_equality, lemma_lex_common_prefix_orders_by_length,
    lemma_lex_first_difference_decides, lemma_eq_agrees_with_native_comparison, lemma_lex_antisymmetric,
    lemma_lex_reflexive, len_order, lex_compare, lex_partial_cmp, slices_eq, views_eq,
    views_partial_cmp,
};
pub use primitive::{
    zeros, OpaqueBuffer, PrimitiveSequence, PrimitiveSequenceAlloc, PrimitiveSequenceIterator,
    PrimitiveSequenceView,
};
pub use sequence::{
    bounded_extend, bounded_prefix, defaults, BoundedSequence, Sequence, SequenceAlloc,
    SequenceIterator,
};
pub use text::{decimal, digit_char, push_decimal, push_signed_decimal, signed_decimal};
