//! The boundary to the user table. The library decides what to ask of the
//! store and what each answer means; the caller talks to the database.

use vstd::prelude::*;

use crate::text::same_text;

verus! {

/// Why the store did not do what was asked.
#[derive(Clone, Copy, Debug, PartialEq, Eq, Structural)]
pub enum StoreError {
    /// The username is taken: the table's unique key refused the row.
    Conflict,
    /// The store could not be reached, or failed in any other way.
    StoreUnavailable,
}

/// The SQLSTATE code with which the database reports a violated unique key.
pub open spec fn unique_violation() -> Seq<char> {
    "23505"@
}

/// What a failed write means, given the SQLSTATE code of the failure where
/// the database reported one.
pub open spec fn write_failure(sqlstate: Option<Seq<char>>) -> StoreError {
    if sqlstate == Some(unique_violation()) {
        StoreError::Conflict
    } else {
        StoreError::StoreUnavailable
    }
}

/// Classifies a failed write: a violated unique key is a conflict, and the
/// last word on whether a username is taken; anything else is an
/// unavailable store.
pub fn classify_write_failure(sqlstate: Option<&str>) -> (error: StoreError)
    ensures
        error == write_failure(
            match sqlstate {
                Some(code) => Some(code@),
                None => None,
            },
        ),
{
    match sqlstate {
        Some(code) => {
            if same_text(code, "23505") {
                StoreError::Conflict
            } else {
                StoreError::StoreUnavailable
            }
        },
        None => StoreError::StoreUnavailable,
    }
}

} // verus!
