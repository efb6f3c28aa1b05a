//! Foreign-contract validation.
//!
//! A foreign caller that hands over a null pointer with a nonzero length,
//! or omits a callback where one is required, has broken the boundary
//! contract. Such a violation is reported as a distinguished error value
//! before any foreign memory is read or written; it is never recovered
//! from by continuing with a partially valid view.

use vstd::prelude::*;

verus! {

/// A violation of the boundary contract by the foreign caller.
#[derive(Clone, Copy, Debug, PartialEq, Eq, Structural)]
pub enum BoundaryError {
    /// A pointer that must be non-null was null.
    NullPointer,
    /// A callback that must be present was absent.
    NullCallback,
}

/// Validates a (pointer, element count) pair before any view over the
/// foreign buffer is formed: a null pointer is acceptable only for an
/// empty buffer. On violation the caller gets the error before any read
/// or write of the buffer is attempted.
pub fn validate_buffer(ptr_is_null: bool, len: usize) -> (r: Result<(), BoundaryError>)
    ensures
        r is Ok <==> (!ptr_is_null || len == 0),
        r matches Err(e) ==> e == BoundaryError::NullPointer,
{
    if ptr_is_null && len > 0 {
        Err(BoundaryError::NullPointer)
    } else {
        Ok(())
    }
}

/// Validates a foreign text handle before it is decoded: the pointer to
/// the null-terminated byte sequence must itself be non-null. On
/// violation the caller gets the error before any byte is read.
pub fn validate_text_handle(ptr_is_null: bool) -> (r: Result<(), BoundaryError>)
    ensures
        r is Ok <==> !ptr_is_null,
        r matches Err(e) ==> e == BoundaryError::NullPointer,
{
    if ptr_is_null {
        Err(BoundaryError::NullPointer)
    } else {
        Ok(())
    }
}

} // verus!
