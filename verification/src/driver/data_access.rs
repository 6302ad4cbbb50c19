//! Reading the result of a query for rows.

use crate::usecase::error::DataAccessError;
use vstd::prelude::*;

verus! {

/// What a query for rows comes to: its rows where there is at least
/// one, `NotFound` where it matched none, and the store's failure as
/// an internal error.
pub open spec fn parsed<T>(result: Result<Vec<T>, String>) -> Result<Vec<T>, DataAccessError> {
    match result {
        Ok(rows) => if rows@.len() == 0 {
            Err(DataAccessError::NotFound)
        } else {
            Ok(rows)
        },
        Err(text) => Err(DataAccessError::InternalError(text)),
    }
}

/// Reads the result of a query for rows. The rows come back as they
/// are; an empty result is an error of its own.
pub fn parse_data_access_result<T>(result: Result<Vec<T>, String>) -> (r: Result<
    Vec<T>,
    DataAccessError,
>)
    ensures
        r == parsed(result),
{
    match result {
        Ok(rows) => if rows.len() == 0 {
            Err(DataAccessError::NotFound)
        } else {
            Ok(rows)
        },
        Err(text) => Err(DataAccessError::InternalError(text)),
    }
}

} // verus!
