use rosidl_runtime_rs::{BackendName, BoundedBuffer, BoundedVec, Buffer};

fn send_sync<T: Send + Sync>() {}

#[test]
fn cpu_buffer_transfers_ownership_and_preserves_values() {
    let mut buffer = Buffer::from(vec![2u32, 4, 6]);
    assert_eq!(buffer.backend_name(), BackendName::Known("cpu".to_string()));
    buffer.as_mut_slice().unwrap()[1] = 9;
    assert_eq!(buffer.to_vec().unwrap(), vec![2, 9, 6]);
    let pointer = buffer.as_slice().unwrap().as_ptr();
    let cloned = buffer.try_clone().unwrap();
    let sequence = buffer.into_sequence();
    assert_eq!(sequence.as_slice().as_ptr(), pointer);
    drop(sequence);
    assert_eq!(cloned.as_slice().unwrap(), &[2, 9, 6]);
    send_sync::<Buffer<u8>>();
}

#[test]
fn bounded_containers_enforce_idl_limits() {
    let buffer: BoundedBuffer<u8, 2> = vec![7, 9].try_into().unwrap();
    assert!(BoundedBuffer::<u8, 2>::try_from(vec![1, 2, 3]).is_err());
    let sequence = buffer.into_sequence();
    assert_eq!(sequence.as_slice(), &[7, 9]);
    assert_eq!(BoundedBuffer::from(sequence).len(), 2);
    let mut nested = BoundedVec::<_, 2>::try_from(vec![Buffer::from(vec![1u8])]).unwrap();
    nested.as_mut_slice()[0] = Buffer::from(vec![2]);
    assert_eq!(
        nested.into_iter().next().unwrap().to_vec().unwrap(),
        vec![2]
    );
    assert!(BoundedVec::<u8, 2>::try_from(vec![1, 2, 3]).is_err());
}
