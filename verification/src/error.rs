//! The one failure value of the store.

use vstd::prelude::*;
use crate::sqlite::describe;

verus! {

/// Why an operation on the store failed: a message for a human reader.
/// Callers can tell that an operation failed, not of which kind the failure
/// was. The message is never empty.
#[derive(Debug)]
pub struct StoreError {
    message: String,
}

impl View for StoreError {
    type V = Seq<char>;

    closed spec fn view(&self) -> Seq<char> {
        self.message@
    }
}

impl StoreError {
    #[verifier::type_invariant]
    spec fn described(self) -> bool {
        self.message@.len() > 0
    }

    /// The message that stands in for an empty one.
    pub open spec fn nameless() -> Seq<char> {
        "database error"@
    }

    /// An error with the given message, or with [`StoreError::nameless`]
    /// where the message is empty.
    pub fn new(message: String) -> (e: StoreError)
        ensures
            e@ == (if message@.len() == 0 {
                StoreError::nameless()
            } else {
                message@
            }),
            e@.len() > 0,
    {
        if message.as_str().is_empty() {
            proof {
                reveal_strlit("database error");
            }
            StoreError { message: "database error".to_owned() }
        } else {
            StoreError { message }
        }
    }

    /// The error for a failure that the database engine reports, with the
    /// engine's own words where it has any.
    pub(crate) fn from_sqlite(err: &rusqlite::Error) -> (e: StoreError)
        ensures
            e@.len() > 0,
    {
        StoreError::new(describe(err))
    }

    /// The message.
    pub fn message(&self) -> (s: &str)
        ensures
            s@ == self@,
            s@.len() > 0,
    {
        proof {
            use_type_invariant(self);
        }
        self.message.as_str()
    }

    /// The message, as an owned string.
    pub fn to_string(&self) -> (s: String)
        ensures
            s@ == self@,
            s@.len() > 0,
    {
        proof {
            use_type_invariant(self);
        }
        self.message.clone()
    }
}

/// What an operation gives for what the database engine gave: the engine's
/// value where it has one, and a [`StoreError`] in place of its failure.
pub fn settle<T>(outcome: Result<T, rusqlite::Error>) -> (r: Result<T, StoreError>)
    ensures
        outcome matches Ok(value) ==> r == Ok::<T, StoreError>(value),
        outcome is Err ==> r is Err,
        r matches Err(e) ==> e@.len() > 0,
{
    match outcome {
        Ok(value) => Ok(value),
        Err(err) => Err(StoreError::from_sqlite(&err)),
    }
}

} // verus!
