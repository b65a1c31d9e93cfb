use vstd::prelude::*;
use crate::post::{Post, RepoError};

verus! {

/// The result of a lookup from the row that an engine's query found.
pub fn found_outcome(row: Option<Post>) -> (r: Result<Post, RepoError>)
    ensures
        match row {
            Some(p) => r == Ok::<Post, RepoError>(p),
            None => r == Err::<Post, RepoError>(RepoError::NotFound),
        },
{
    match row {
        Some(p) => Ok(p),
        None => Err(RepoError::NotFound),
    }
}

/// The result of an update from the number of rows that an engine's
/// conditional update statement changed: `NotFound` when it changed none.
pub fn update_outcome(rows_affected: u64) -> (r: Result<(), RepoError>)
    ensures
        rows_affected > 0 ==> r == Ok::<(), RepoError>(()),
        rows_affected == 0 ==> r == Err::<(), RepoError>(RepoError::NotFound),
{
    if rows_affected > 0 {
        Ok(())
    } else {
        Err(RepoError::NotFound)
    }
}

} // verus!
