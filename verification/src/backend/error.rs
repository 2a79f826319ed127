//! Errors of the backend.

use vstd::prelude::*;

verus! {

/// What can go wrong in the backend: a database failure with its message.
#[derive(Debug)]
pub enum BackendError {
    DbError(String),
}

impl BackendError {
    /// The text that describes the error: the database's message.
    pub fn message(&self) -> (r: String)
        ensures
            match self {
                BackendError::DbError(m) => r@ == m@,
            },
    {
        match self {
            BackendError::DbError(m) => m.clone(),
        }
    }
}

} // verus!
