//! Error types shared by the sequence and buffer containers.

use vstd::prelude::*;

use crate::text::{decimal, push_decimal, push_signed_decimal, signed_decimal};

verus! {

/// A buffer allocation or transfer failure.
#[derive(Clone, Debug, PartialEq, Eq)]
pub enum BufferError {
    /// A native buffer operation returned a failure code.
    Native {
        /// Operation that failed.
        operation: &'static str,
        /// Native return code.
        code: i32,
    },
    /// Host allocation failed.
    Allocation(String),
    /// Opaque native storage is supported for `u8` elements only.
    UnsupportedElement,
}

impl BufferError {
    /// The message of the error.
    pub open spec fn text(&self) -> Seq<char> {
        match self {
            BufferError::Native { operation, code } => operation@ + " failed (code "@ + signed_decimal(
                *code as int,
            ) + ")"@,
            BufferError::Allocation(message) => message@,
            BufferError::UnsupportedElement => "opaque storage requires a uint8 sequence"@,
        }
    }

    /// Returns the message of the error.
    pub fn to_string(&self) -> (r: String)
        ensures
            r@ == self.text(),
    {
        match self {
            BufferError::Native { operation, code } => {
                let mut s = (*operation).to_owned();
                s.append(" failed (code ");
                push_signed_decimal(&mut s, *code as i64);
                s.append(")");
                s
            },
            BufferError::Allocation(message) => message.clone(),
            BufferError::UnsupportedElement => "opaque storage requires a uint8 sequence".to_owned(),
        }
    }
}

/// Turns a native return code into a result: `0` is success, anything else
/// is a `Native` error that names the operation.
pub fn check(operation: &'static str, code: i32) -> (r: Result<(), BufferError>)
    ensures
        code == 0 ==> r == Ok::<(), BufferError>(()),
        code != 0 ==> r == Err::<(), BufferError>(BufferError::Native { operation, code }),
{
    if code == 0 {
        Ok(())
    } else {
        Err(BufferError::Native { operation, code })
    }
}

/// Error returned when a bounded container would hold more than its bound.
#[derive(Clone, Copy, Debug, PartialEq, Eq)]
pub struct SequenceExceedsBoundsError {
    /// The actual length the sequence would have after the operation.
    pub len: usize,
    /// The upper bound on the sequence length.
    pub upper_bound: usize,
}

impl SequenceExceedsBoundsError {
    /// The message of the error.
    pub open spec fn text(&self) -> Seq<char> {
        "BoundedSequence with upper bound "@ + decimal(self.upper_bound as nat) + " initialized with len "@
            + decimal(self.len as nat)
    }

    /// Returns the message of the error.
    pub fn to_string(&self) -> (r: String)
        ensures
            r@ == self.text(),
    {
        let mut s = "BoundedSequence with upper bound ".to_owned();
        push_decimal(&mut s, self.upper_bound as u64);
        s.append(" initialized with len ");
        push_decimal(&mut s, self.len as u64);
        s
    }
}

} // verus!
