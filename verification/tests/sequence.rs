use rosidl_runtime_rs::{
    BoundedPrimitiveSequence, PrimitiveSequence, PrimitiveSequenceAlloc, Sequence,
};

#[test]
fn test_empty_sequence() {
    assert!(PrimitiveSequence::<i32>::default().is_empty());
    assert!(BoundedPrimitiveSequence::<i32, 5>::default().is_empty());
}

#[test]
fn test_sequence_layouts() {
    let primitive_fields_size =
        std::mem::size_of::<usize>() + 2 * std::mem::size_of::<usize>() + 2;
    let alignment = std::mem::align_of::<PrimitiveSequence<u8>>();
    let expected_primitive_size = primitive_fields_size.div_ceil(alignment) * alignment;
    assert_eq!(
        std::mem::size_of::<PrimitiveSequence<u8>>(),
        expected_primitive_size
    );
    assert_eq!(
        std::mem::size_of::<BoundedPrimitiveSequence<u8, 4>>(),
        expected_primitive_size
    );
    assert_eq!(
        std::mem::size_of::<Sequence<u8>>(),
        std::mem::size_of::<usize>() + 2 * std::mem::size_of::<usize>()
    );
}

#[test]
fn test_into_vec_primitive_roundtrip() {
    let xs: Vec<i32> = (0..1024).collect();
    let seq: PrimitiveSequence<i32> = PrimitiveSequence::from(&xs[..]);
    let ys: Vec<i32> = seq.into();
    assert_eq!(xs, ys);
}

#[test]
fn empty_primitive_sequences_collect_clone_and_extend() {
    let mut sequence: PrimitiveSequence<u32> = PrimitiveSequence::from_iter(Vec::new());
    assert!(sequence.clone().is_empty());
    sequence.extend(vec![7, 11]);
    sequence.extend(vec![]);
    assert_eq!(sequence.as_slice(), &[7, 11]);
    assert!(PrimitiveSequence::<u32>::from(Vec::new()).is_empty());
}

#[test]
fn failed_initialization_preserves_existing_elements() {
    let mut sequence = PrimitiveSequence::from(&[17u64, 23][..]);
    assert!(!u64::primitive_sequence_init(&mut sequence, usize::MAX));
    assert_eq!(sequence.as_slice(), &[17, 23]);
}

#[test]
fn primitive_iterator_tracks_remaining_elements() {
    let mut iter = PrimitiveSequence::from(&[3i32, 5][..]).into_iter();
    assert_eq!(iter.len(), 2);
    assert_eq!(iter.next(), Some(3));
    assert_eq!(iter.size_hint(), (1, Some(1)));
    assert_eq!(iter.next(), Some(5));
    assert_eq!(iter.len(), 0);
    assert_eq!(iter.next(), None);
    assert_eq!(iter.next(), None);
}

#[test]
fn bounded_primitive_sequences_enforce_limits() {
    type Bounded = BoundedPrimitiveSequence<u32, 2>;
    assert!(Bounded::try_new(3).is_err());
    assert!(Bounded::try_from(vec![1, 2, 3]).is_err());
    assert!(Bounded::try_from(&[1, 2, 3][..]).is_err());
    let mut sequence = Bounded::try_from(&[1, 2][..]).unwrap();
    sequence.as_mut_slice()[1] = 9;
    assert_eq!(sequence.len(), 2);
    assert!(!sequence.is_empty());
    assert_eq!(sequence.clone().into_iter().into_vec(), vec![1, 9]);
    assert_eq!(Bounded::from_iter((0..4).collect()).as_slice(), &[0, 1]);
}

#[test]
fn primitive_types_initialize_copy_and_compare() {
    let sequence = PrimitiveSequence::<bool>::new(3);
    assert_eq!(sequence.as_slice(), &[<bool>::default(); 3]);
    assert_eq!(sequence, sequence.clone());
    assert_ne!(sequence, PrimitiveSequence::<bool>::new(2));

    let sequence = PrimitiveSequence::<u8>::new(3);
    assert_eq!(sequence.as_slice(), &[<u8>::default(); 3]);
    assert_eq!(sequence, sequence.clone());
    assert_ne!(sequence, PrimitiveSequence::<u8>::new(2));

    let sequence = PrimitiveSequence::<i8>::new(3);
    assert_eq!(sequence.as_slice(), &[<i8>::default(); 3]);
    assert_eq!(sequence, sequence.clone());
    assert_ne!(sequence, PrimitiveSequence::<i8>::new(2));

    let sequence = PrimitiveSequence::<u16>::new(3);
    assert_eq!(sequence.as_slice(), &[<u16>::default(); 3]);
    assert_eq!(sequence, sequence.clone());
    assert_ne!(sequence, PrimitiveSequence::<u16>::new(2));

    let sequence = PrimitiveSequence::<i16>::new(3);
    assert_eq!(sequence.as_slice(), &[<i16>::default(); 3]);
    assert_eq!(sequence, sequence.clone());
    assert_ne!(sequence, PrimitiveSequence::<i16>::new(2));

    let sequence = PrimitiveSequence::<u32>::new(3);
    assert_eq!(sequence.as_slice(), &[<u32>::default(); 3]);
    assert_eq!(sequence, sequence.clone());
    assert_ne!(sequence, PrimitiveSequence::<u32>::new(2));

    let sequence = PrimitiveSequence::<i32>::new(3);
    assert_eq!(sequence.as_slice(), &[<i32>::default(); 3]);
    assert_eq!(sequence, sequence.clone());
    assert_ne!(sequence, PrimitiveSequence::<i32>::new(2));

    let sequence = PrimitiveSequence::<u64>::new(3);
    assert_eq!(sequence.as_slice(), &[<u64>::default(); 3]);
    assert_eq!(sequence, sequence.clone());
    assert_ne!(sequence, PrimitiveSequence::<u64>::new(2));

    let sequence = PrimitiveSequence::<i64>::new(3);
    assert_eq!(sequence.as_slice(), &[<i64>::default(); 3]);
    assert_eq!(sequence, sequence.clone());
    assert_ne!(sequence, PrimitiveSequence::<i64>::new(2));
}
