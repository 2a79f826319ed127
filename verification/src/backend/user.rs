//! Users of the chat and the outcomes of signing up and logging in.

use vstd::prelude::*;
use vstd::string::*;

use crate::backend::error::BackendError;
use crate::backend::record::RecordId;

verus! {

/// A user: their record, names, credentials and when they joined
/// (milliseconds since the Unix epoch).
#[derive(Debug)]
pub struct User {
    pub id: RecordId,
    pub username: String,
    pub email: String,
    pub passhash: String,
    pub displayname: String,
    pub joined: i64,
}

impl User {
    /// Signing up succeeds with an empty session token: no account is
    /// created.
    pub fn signup(username: String, email: String, password: String, displayname: String) -> (r:
        Result<String, BackendError>)
        ensures
            r matches Ok(token) && token@ == Seq::<char>::empty(),
    {
        Ok(String::new())
    }

    /// What a login answers, given what the database returned for its first
    /// statement: the session token when there is one, otherwise the error
    /// "Failed to create user".
    pub fn login_result(taken: Result<Option<String>, BackendError>) -> (r: Result<
        String,
        BackendError,
    >)
        ensures
            match taken {
                Ok(Some(token)) => r == Ok::<String, BackendError>(token),
                _ => r matches Err(BackendError::DbError(m)) && m@ == "Failed to create user"@,
            },
    {
        match taken {
            Ok(Some(token)) => Ok(token),
            _ => Err(BackendError::DbError(String::from_str("Failed to create user"))),
        }
    }

    /// The user behind a messenger connection: a fresh record with key `key`
    /// in table `User`, named `username`, with an empty email and the
    /// placeholder password hash and display name "test".
    pub fn for_connection(username: String, key: String, joined: i64) -> (u: User)
        ensures
            u.id@ == ("User"@, key@),
            u.username == username,
            u.email@ == Seq::<char>::empty(),
            u.passhash@ == "test"@,
            u.displayname@ == "test"@,
            u.joined == joined,
    {
        User {
            id: RecordId::from_table_key("User", key),
            email: String::new(),
            username,
            passhash: String::from_str("test"),
            displayname: String::from_str("test"),
            joined,
        }
    }
}

} // verus!
