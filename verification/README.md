# rosidl_runtime_rs

Runtime containers for generated ROS 2 Rust messages, written in Verus with
their behaviour stated in contracts and proved.

- `Sequence<T>` and `BoundedSequence<T, N>` hold message elements.
- `PrimitiveSequence<T>` and `BoundedPrimitiveSequence<T, N>` hold IDL
  primitive elements either in host storage or in an opaque native buffer
  (known by its handle and length).
- `Buffer<T>` and `BoundedBuffer<T, N>` wrap a primitive sequence;
  `BoundedVec<T, N>` holds bounded sequences of nested buffer messages.
- Each bounded container carries a type invariant: it never holds more than
  `N` elements.

Layout:

- `src/` is the verified library. Each module states its operations over a
  view: `Seq<T>` for sequences, `PrimitiveSequenceView<T>` (host elements and
  optional opaque buffer) for primitive sequences and buffers.
  `src/laws.rs` and the proof functions in `src/order.rs` state properties
  that span several operations.
- `app/` is the native edge: it reads opaque buffers through the ROS IDL
  buffer runtime (a C library) and hands the results to the library.
- `tests/` runs the library on concrete values.
