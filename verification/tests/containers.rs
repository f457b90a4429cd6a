use rosidl_runtime_rs::{
    backend_name_reply, backend_name_size_reply, check, decode_backend_name, host_bytes,
    host_copy_result, strip_nul_terminator, BackendName, BoundedBuffer, BoundedPrimitiveSequence,
    BoundedSequence, BoundedVec, Buffer, BufferError, PrimitiveSequence, PrimitiveSequenceAlloc,
    Sequence, SequenceAlloc, SequenceExceedsBoundsError,
};
use std::cmp::Ordering;

#[test]
fn readme_buffer_borrows_host_storage() {
    let data = Buffer::from(vec![1u8, 2, 3]);
    assert_eq!(data.as_slice(), Some(&[1, 2, 3][..]));
}

#[test]
fn check_maps_return_codes() {
    assert_eq!(check("init", 0), Ok(()));
    assert_eq!(
        check("init", 7),
        Err(BufferError::Native { operation: "init", code: 7 })
    );
}

#[test]
fn error_messages() {
    assert_eq!(
        BufferError::Native { operation: "clone", code: -1 }.to_string(),
        "clone failed (code -1)"
    );
    assert_eq!(
        BufferError::Native { operation: "copy_to_host", code: 1234 }.to_string(),
        "copy_to_host failed (code 1234)"
    );
    assert_eq!(
        BufferError::Allocation("out of memory".to_string()).to_string(),
        "out of memory"
    );
    assert_eq!(
        BufferError::UnsupportedElement.to_string(),
        "opaque storage requires a uint8 sequence"
    );
    assert_eq!(
        SequenceExceedsBoundsError { len: 3, upper_bound: 2 }.to_string(),
        "BoundedSequence with upper bound 2 initialized with len 3"
    );
    assert_eq!(
        SequenceExceedsBoundsError { len: 100, upper_bound: 0 }.to_string(),
        "BoundedSequence with upper bound 0 initialized with len 100"
    );
}

#[test]
fn primitive_try_new_zero_initializes() {
    let sequence = PrimitiveSequence::<i16>::try_new(4).unwrap();
    assert_eq!(sequence.as_slice(), &[0, 0, 0, 0]);
    assert!(!sequence.is_rosidl_buffer());
    assert_eq!(sequence.len(), 4);
}

#[test]
fn primitive_init_and_copy_through_the_element_trait() {
    let mut sequence = PrimitiveSequence::from(&[5u8, 6][..]);
    assert!(u8::primitive_sequence_init(&mut sequence, 3));
    assert_eq!(sequence.as_slice(), &[0, 0, 0]);
    let source = PrimitiveSequence::from(vec![true, false]);
    let mut target = PrimitiveSequence::default();
    assert!(bool::primitive_sequence_copy(&source, &mut target));
    assert_eq!(target.as_slice(), &[true, false]);
    assert!(bool::primitive_sequence_are_equal(&source, &target));
    assert_eq!(bool::primitive_sequence_to_vec(&target), Ok(vec![true, false]));
}

#[test]
fn extend_keeps_prefix_and_appends_in_order() {
    let xs = vec![1i32, 2, 3];
    let ys = vec![-4i32, 5];
    let mut sequence = PrimitiveSequence::new(xs.len());
    sequence.as_mut_slice().copy_from_slice(&xs);
    sequence.extend(ys.clone());
    assert_eq!(sequence.len(), xs.len() + ys.len());
    assert_eq!(&sequence.as_slice()[..xs.len()], &xs[..]);
    assert_eq!(&sequence.as_slice()[xs.len()..], &ys[..]);
}

#[test]
fn iterating_a_copy_gives_an_equal_sequence() {
    let sequence = PrimitiveSequence::from(vec![9u64, 8, 7]);
    let collected = PrimitiveSequence::from_iter(sequence.clone().into_iter().into_vec());
    assert_eq!(sequence, collected);
    let round: Vec<u64> = PrimitiveSequence::from(vec![4u64, 2]).into();
    assert_eq!(round, vec![4, 2]);
}

#[test]
fn primitive_sequences_order_lexicographically() {
    let a = PrimitiveSequence::from(vec![1u32, 2]);
    let b = PrimitiveSequence::from(vec![1u32, 3]);
    let c = PrimitiveSequence::from(vec![1u32]);
    assert_eq!(a.partial_cmp(&b), Some(Ordering::Less));
    assert_eq!(b.partial_cmp(&a), Some(Ordering::Greater));
    assert_eq!(c.partial_cmp(&a), Some(Ordering::Less));
    assert_eq!(a.partial_cmp(&a.clone()), Some(Ordering::Equal));
    assert_eq!(a.cmp(&b), Ordering::Less);
    assert!(a < b);
}

#[test]
fn opaque_storage_metadata_and_refusals() {
    assert!(PrimitiveSequence::from_owned_rosidl_buffer(0, 4).is_none());
    let sequence = PrimitiveSequence::from_owned_rosidl_buffer(0x1000, 4).unwrap();
    assert!(sequence.is_rosidl_buffer());
    assert_eq!(sequence.len(), 4);
    assert!(!sequence.is_empty());
    assert_eq!(sequence.rosidl_buffer_ptr(), Some(0x1000));
    let view = sequence.clone();
    assert_eq!(view.rosidl_buffer_ptr(), Some(0x1000));
    assert_ne!(view, sequence);
    assert_eq!(view.partial_cmp(&sequence), Some(Ordering::Less));
    assert_eq!(view.partial_cmp(&view.clone()), Some(Ordering::Equal));
    assert!(PrimitiveSequence::from(vec![9u8; 8]) < view);
    assert!(view.into_owned_rosidl_buffer().is_err());
    assert_eq!(sequence.into_owned_rosidl_buffer().ok(), Some(0x1000));
    assert!(PrimitiveSequence::from(vec![1u8, 2]).into_owned_rosidl_buffer().is_err());
    assert!(PrimitiveSequence::<u8>::from(vec![1u8]).rosidl_buffer_ptr().is_none());
    let host = PrimitiveSequence::from(vec![3u8]);
    assert_eq!(host.try_into_cpu().unwrap().as_slice(), &[3]);
}

#[test]
fn opaque_buffers_have_no_host_view() {
    let sequence = PrimitiveSequence::from_owned_rosidl_buffer(0x3000, 8).unwrap();
    let mut buffer = Buffer::from(sequence);
    assert_eq!(buffer.len(), 8);
    assert!(buffer.as_slice().is_none());
    assert!(buffer.as_mut_slice().is_none());
    let copy = buffer.try_clone().unwrap();
    assert_ne!(copy, buffer);
    assert_eq!(copy.len(), 8);
    assert_eq!(copy.partial_cmp(&buffer), None);
    assert_eq!(copy.as_sequence().rosidl_buffer_ptr(), Some(0x3000));
}

#[test]
fn bounded_primitive_conversions() {
    type Bounded = BoundedPrimitiveSequence<u8, 3>;
    let unbounded = PrimitiveSequence::from(vec![1u8, 2, 3, 4]);
    let error = Bounded::try_from_unbounded(unbounded).err().unwrap();
    assert_eq!(error, SequenceExceedsBoundsError { len: 4, upper_bound: 3 });
    let bounded = Bounded::try_from_unbounded(PrimitiveSequence::from(vec![1u8, 2])).unwrap();
    assert_eq!(bounded.clone().into_unbounded().as_slice(), &[1, 2]);
    assert_eq!(bounded.clone().try_into_cpu().unwrap(), bounded);
    assert_eq!(Bounded::new(2).as_slice(), &[0, 0]);
    assert_eq!(
        Bounded::try_new(4).err(),
        Some(SequenceExceedsBoundsError { len: 4, upper_bound: 3 })
    );
    assert_eq!(&*Bounded::from_iter(vec![9, 8]), &[9, 8]);
}

#[test]
fn bounded_buffer_conversions() {
    let buffer = Buffer::from(vec![1i64, 2, 3]);
    assert!(BoundedBuffer::<i64, 2>::try_from(buffer).is_err());
    let mut bounded = BoundedBuffer::<i64, 3>::try_from(Buffer::from(&[4i64, 5][..])).unwrap();
    bounded.as_mut_slice().unwrap()[0] = 6;
    assert_eq!(bounded.as_buffer().to_vec().unwrap(), vec![6, 5]);
    assert_eq!(bounded.clone().into_buffer().len(), 2);
    assert_eq!(bounded.clone(), bounded);
    assert_eq!(BoundedBuffer::<i64, 3>::default().len(), 0);
}

#[test]
fn sequences_of_default_elements() {
    let mut sequence = Sequence::<u16>::new(3);
    assert_eq!(sequence.as_slice(), &[0, 0, 0]);
    sequence.as_mut_slice()[2] = 7;
    assert_eq!(&*sequence, &[0, 0, 7]);
    assert!(Sequence::<u16>::default().is_empty());
    assert_eq!(u16::default_element(), 0);
}

#[test]
fn sequences_extend_convert_and_iterate() {
    let mut sequence = Sequence::from(vec![1i8, 2]);
    sequence.extend(vec![3, 4, 5]);
    assert_eq!(sequence.as_slice(), &[1, 2, 3, 4, 5]);
    sequence.extend(Vec::new());
    assert_eq!(sequence.len(), 5);
    let copy = Sequence::from(&[1i8, 2, 3, 4, 5][..]);
    assert_eq!(copy, sequence);
    assert_eq!(copy.clone(), copy);
    let values: Vec<i8> = copy.into();
    assert_eq!(values, vec![1, 2, 3, 4, 5]);
    let mut iter = sequence.into_iter();
    assert_eq!(iter.len(), 5);
    assert_eq!(iter.next(), Some(1));
    assert_eq!(iter.size_hint(), (4, Some(4)));
    assert_eq!(iter.next(), Some(2));
    assert_eq!(iter.next(), Some(3));
    assert_eq!(iter.next(), Some(4));
    assert_eq!(iter.next(), Some(5));
    assert_eq!(iter.next(), None);
    assert_eq!(iter.len(), 0);
}

#[test]
fn sequences_compare_and_copy() {
    let a = Sequence::from(vec![2u32, 1]);
    let b = Sequence::from(vec![2u32, 1, 0]);
    assert_eq!(a.partial_cmp(&b), Some(Ordering::Less));
    assert_eq!(a.cmp(&a.clone()), Ordering::Equal);
    assert_ne!(a, b);
    let mut target = Sequence::default();
    assert!(u32::sequence_copy(&b, &mut target));
    assert_eq!(target, b);
    assert!(u32::sequence_init(&mut target, 2));
    assert_eq!(target.as_slice(), &[0, 0]);
    assert!(!u32::sequence_init(&mut target, usize::MAX));
    assert_eq!(target.as_slice(), &[0, 0]);
}

#[test]
fn bounded_sequences_refuse_or_cut_past_the_bound() {
    type Bounded = BoundedSequence<i32, 3>;
    assert_eq!(
        Bounded::try_new(4).err(),
        Some(SequenceExceedsBoundsError { len: 4, upper_bound: 3 })
    );
    assert_eq!(Bounded::new(2).as_slice(), &[0, 0]);
    assert!(Bounded::try_from(vec![1, 2, 3, 4]).is_err());
    assert!(Bounded::try_from(&[1, 2, 3, 4][..]).is_err());
    let mut sequence = Bounded::try_from(&[1, 2][..]).unwrap();
    sequence.extend(vec![3, 4, 5]);
    assert_eq!(sequence.as_slice(), &[1, 2, 3]);
    sequence.extend(vec![6]);
    assert_eq!(sequence.as_slice(), &[1, 2, 3]);
    assert_eq!(Bounded::from_iter((0..10).collect()).as_slice(), &[0, 1, 2]);
    assert!(Bounded::default().is_empty());
    sequence.as_mut_slice()[0] = -1;
    assert_eq!(&*sequence.clone(), &[-1, 2, 3]);
    let mut iter = Bounded::try_from(vec![7, 8]).unwrap().into_iter();
    assert_eq!(iter.next(), Some(7));
    assert_eq!(iter.next(), Some(8));
    assert_eq!(iter.next(), None);
    assert!(Bounded::try_from(vec![1]).unwrap() < Bounded::try_from(vec![2]).unwrap());
}

#[test]
fn native_results_are_checked() {
    assert_eq!(host_copy_result(0, vec![1, 2, 3]), Ok(vec![1, 2, 3]));
    assert_eq!(
        host_copy_result(-5, vec![1, 2, 3]),
        Err(BufferError::Native { operation: "copy_to_host", code: -5 })
    );
    assert_eq!(strip_nul_terminator(b"cuda\0".to_vec()), Ok(b"cuda".to_vec()));
    assert_eq!(
        strip_nul_terminator(b"cuda".to_vec()),
        Err(BufferError::Native { operation: "backend_name", code: -1 })
    );
    assert_eq!(
        strip_nul_terminator(Vec::new()),
        Err(BufferError::Native { operation: "backend_name", code: -1 })
    );
}

#[test]
fn backend_names_are_decoded() {
    assert_eq!(decode_backend_name(b"cuda\0".to_vec()), Ok("cuda".to_string()));
    assert_eq!(
        decode_backend_name(vec![0xff, 0xfe, 0]),
        Err(BufferError::Native { operation: "backend_name", code: -1 })
    );
    assert_eq!(
        decode_backend_name(b"cuda".to_vec()),
        Err(BufferError::Native { operation: "backend_name", code: -1 })
    );
    assert_eq!(backend_name_reply(0, b"cpu\0".to_vec()), Ok("cpu".to_string()));
    assert_eq!(
        backend_name_reply(3, b"cpu\0".to_vec()),
        Err(BufferError::Native { operation: "backend_name", code: 3 })
    );
    assert_eq!(
        backend_name_reply(0, vec![0xc3, 0x28, 0]),
        Err(BufferError::Native { operation: "backend_name", code: -1 })
    );
}

#[test]
fn zero_length_sequences_are_always_allocated() {
    assert_eq!(PrimitiveSequence::<u64>::try_new(0).unwrap().len(), 0);
    assert_eq!(PrimitiveSequence::<u8>::try_new(3).unwrap().as_slice(), &[0, 0, 0]);
}

#[test]
fn allocation_failure_is_reported() {
    assert_eq!(
        PrimitiveSequence::<u64>::try_new(usize::MAX).err(),
        Some(BufferError::Allocation("primitive sequence allocation failed".to_string()))
    );
    let mut target = PrimitiveSequence::from(vec![1u16]);
    assert!(u16::primitive_sequence_copy(&PrimitiveSequence::from(vec![2u16, 3]), &mut target));
    assert_eq!(target.as_slice(), &[2, 3]);
}

#[test]
fn empty_init_and_copy_always_succeed() {
    let mut sequence = PrimitiveSequence::from(vec![1i32, 2]);
    assert!(i32::primitive_sequence_init(&mut sequence, 0));
    assert!(sequence.is_empty());
    let mut target = Sequence::from(vec![4u8]);
    assert!(u8::sequence_init(&mut target, 0));
    assert!(target.is_empty());
    let mut copy = Sequence::from(vec![5u8, 6]);
    assert!(u8::sequence_copy(&Sequence::default(), &mut copy));
    assert!(copy.is_empty());
}

#[test]
fn native_copies_and_queries_are_decided_by_the_library() {
    assert_eq!(host_bytes(0), Ok(Vec::new()));
    assert_eq!(host_bytes(3), Ok(vec![0, 0, 0]));
    assert!(matches!(host_bytes(usize::MAX), Err(BufferError::Allocation(_))));
    assert_eq!(backend_name_size_reply(0, 5), Ok(5));
    assert_eq!(
        backend_name_size_reply(2, 5),
        Err(BufferError::Native { operation: "backend_name", code: 2 })
    );
    let opaque = Buffer::from(PrimitiveSequence::from_owned_rosidl_buffer(0x4000, 2).unwrap());
    assert_eq!(opaque.backend_name(), BackendName::NativeQuery { handle: 0x4000 });
    let sequence = PrimitiveSequence::from_owned_rosidl_buffer(0x5000, 2).unwrap();
    assert_eq!(sequence.into_cpu_from_copy(0, vec![4, 5]).unwrap().as_slice(), &[4, 5]);
    let sequence = PrimitiveSequence::from_owned_rosidl_buffer(0x5000, 2).unwrap();
    assert_eq!(
        sequence.into_cpu_from_copy(9, vec![4, 5]).err(),
        Some(BufferError::Native { operation: "copy_to_host", code: 9 })
    );
    let bounded = BoundedPrimitiveSequence::<u8, 3>::try_from_unbounded(
        PrimitiveSequence::from_owned_rosidl_buffer(0x6000, 3).unwrap(),
    )
    .unwrap();
    assert_eq!(bounded.rosidl_buffer_ptr(), Some(0x6000));
    let host = bounded.into_cpu_from_copy(0, vec![1, 2, 3]).unwrap();
    assert!(!host.is_rosidl_buffer());
    assert_eq!(host.as_slice(), &[1, 2, 3]);
}

#[test]
fn bounded_containers_never_exceed_their_bound() {
    let sequence = BoundedSequence::<u8, 2>::from_iter(vec![1, 2, 3]);
    assert_eq!(sequence.len(), 2);
    let primitive = BoundedPrimitiveSequence::<u8, 2>::from_iter(vec![1, 2, 3]);
    assert_eq!(primitive.len(), 2);
    let round_trip =
        BoundedPrimitiveSequence::<u8, 2>::try_from_unbounded(primitive.clone().into_unbounded()).unwrap();
    assert_eq!(round_trip, primitive);
    let buffer = BoundedBuffer::<u8, 2>::try_from(vec![5]).unwrap();
    assert_eq!(buffer.len(), 1);
    let nested = BoundedVec::<u8, 2>::try_from(vec![8, 9]).unwrap();
    assert_eq!(nested.len(), 2);
    assert_eq!(nested.clone(), nested);
}

#[test]
fn empty_buffers_always_clone() {
    let empty = Buffer::<u16>::from(Vec::new());
    assert_eq!(empty.try_clone().unwrap().len(), 0);
}

#[test]
fn message_iterator_reports_exact_length_and_drops_remaining_values() {
    let sequence = Sequence::from(vec![1u32, 2]);
    let mut iter = sequence.into_iter();
    assert_eq!(iter.len(), 2);
    let first = iter.next().unwrap();
    assert_eq!(iter.size_hint(), (1, Some(1)));
    drop(iter);
    assert_eq!(first, 1);
    let mut empty = Sequence::<u32>::default().into_iter();
    assert_eq!(empty.len(), 0);
    assert_eq!(empty.next(), None);
    assert_eq!(empty.size_hint(), (0, Some(0)));
}
