//! The errors that the forum's pages answer with.
use vstd::prelude::*;
use crate::auth::AuthError;

verus! {

/// Why a page could not be made.
#[derive(Debug)]
pub enum ForumError {
    /// The session was refused.
    Auth(AuthError),
    /// A query failed; the query error's message.
    Database(String),
    /// Something the page needs is missing.
    Unexpected(String),
}

impl ForumError {
    /// The text that the error is shown as.
    pub fn message(&self) -> (m: String)
        ensures
            m@ == match self {
                ForumError::Auth(e) => e.error_detail@,
                ForumError::Database(q) => q@,
                ForumError::Unexpected(u) => u@,
            },
    {
        match self {
            ForumError::Auth(e) => e.error_detail.clone(),
            ForumError::Database(q) => q.clone(),
            ForumError::Unexpected(u) => u.clone(),
        }
    }
}

/// A query result with the query error carried as a forum error.
pub fn query<T>(r: Result<T, String>) -> (q: Result<T, ForumError>)
    ensures
        match r {
            Ok(v) => q == Ok::<T, ForumError>(v),
            Err(m) => q matches Err(ForumError::Database(m2)) && m2 == m,
        },
{
    match r {
        Ok(v) => Ok(v),
        Err(m) => Err(ForumError::Database(m)),
    }
}

/// A session result with the refusal carried as a forum error.
pub fn session<T>(r: Result<T, AuthError>) -> (q: Result<T, ForumError>)
    ensures
        match r {
            Ok(v) => q == Ok::<T, ForumError>(v),
            Err(e) => q matches Err(ForumError::Auth(e2)) && e2 == e,
        },
{
    match r {
        Ok(v) => Ok(v),
        Err(e) => Err(ForumError::Auth(e)),
    }
}

} // verus!
