//! Why a write to the device fails.

use vstd::prelude::*;

verus! {

/// The failure of a write. `E` is the error type of the host's source cursor.
#[derive(Debug, PartialEq, Eq)]
pub enum WriteError<E> {
    /// The source cursor failed; its error is passed on as it came.
    Source(E),
    /// The source cursor delivered bytes that are not well-formed UTF-8.
    InvalidUtf8,
}

} // verus!
