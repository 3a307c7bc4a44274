//! The pairing of a stored JSON document type with the domain value it holds.

use vstd::prelude::*;

use crate::error::DatabaseResult;

verus! {

/// A stored document type `Self` for domain values of type `T`: the document
/// that stores a value, and the value a document holds (or why it holds none).
/// Reading and writing the document's JSON text is left to the host.
pub trait JsonCodec<T>: Sized {
    /// The document that stores `value`.
    fn from_domain(value: &T) -> Self;

    /// The value this document holds.
    fn into_domain(self) -> DatabaseResult<T>;
}

} // verus!
