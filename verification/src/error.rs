//! The library's error type.

use vstd::prelude::*;

verus! {

/// Errors reported by the library.
#[derive(Clone, Debug)]
pub enum KitError {
    /// The input does not meet what the operation needs.
    DataValidation(String),
    /// A named item (such as a plugin) was not found.
    NotFound(String),
}

/// Result type used throughout the library.
pub type KitResult<T> = Result<T, KitError>;

} // verus!
