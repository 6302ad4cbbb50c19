//! How reading from the store can fail.

use vstd::prelude::*;

verus! {

/// Why a read gave no rows to work with.
#[derive(Debug, Clone, PartialEq, Eq)]
pub enum DataAccessError {
    /// The read went through and no row matched.
    NotFound,
    /// The store failed; its own words are kept.
    InternalError(String),
}

} // verus!
