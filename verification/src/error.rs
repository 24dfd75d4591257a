//! The kinds of failure that the store reports, and how a failure of the
//! storage engine is turned into one of them.

use diesel::result::DatabaseErrorKind;
use diesel::result::Error as StorageError;
use vstd::prelude::*;

verus! {

/// Why a store operation failed.
#[derive(Debug, Clone, Copy, PartialEq, Eq, Structural)]
pub enum Error {
    /// The targeted id does not exist, or the statement matched no row.
    RecordNotFound,
    /// An insert or update referred to a post or visitor that does not exist.
    ForeignKeyViolation,
    /// Kept for unique constraints; no operation reports it.
    UniqueViolation,
    /// Any other failure of the storage engine.
    DatabaseError,
}

/// What a store operation returns.
pub type DBResult<T> = Result<T, Error>;

/// What the storage engine says went wrong with a statement, as far as the
/// store tells failures apart.
#[derive(Debug, Clone, Copy, PartialEq, Eq, Structural)]
pub enum Failure {
    /// A statement that must return a row returned none.
    NotFound,
    /// A foreign key constraint was violated.
    ForeignKeyViolation,
    /// Anything else.
    Other,
}

/// `diesel::result::Error`: what a statement run by diesel fails with. The
/// verifier sees nothing inside it.
#[verifier::external_type_specification]
#[verifier::external_body]
pub struct ExStorageError(StorageError);

/// Tells the variants of `diesel::result::Error` apart: `NotFound`, a
/// `DatabaseError` whose `DatabaseErrorKind` is `ForeignKeyViolation`, and
/// all the others. Nothing is claimed of the outcome: the error is opaque to
/// the verifier.
#[verifier::external_body]
fn classify(e: &StorageError) -> Failure {
    match e {
        StorageError::NotFound => Failure::NotFound,
        StorageError::DatabaseError(DatabaseErrorKind::ForeignKeyViolation, _) => {
            Failure::ForeignKeyViolation
        },
        _ => Failure::Other,
    }
}

/// Keeps what a statement returned and reduces its error to a `Failure`.
pub fn from_storage<T>(outcome: Result<T, StorageError>) -> (r: Result<T, Failure>)
    ensures
        outcome matches Ok(v) ==> r == Ok::<T, Failure>(v),
        outcome is Err ==> r is Err,
{
    match outcome {
        Ok(v) => Ok(v),
        Err(e) => Err(classify(&e)),
    }
}

/// The error of an insert into posts or visitors: no cause is told apart.
pub open spec fn insert_error_of(f: Failure) -> Error {
    Error::DatabaseError
}

/// The error of an insert of a comment: a violated foreign key is told apart.
pub open spec fn comment_insert_error_of(f: Failure) -> Error {
    match f {
        Failure::ForeignKeyViolation => Error::ForeignKeyViolation,
        _ => Error::DatabaseError,
    }
}

/// The error of a statement aimed at one row: a missing row is told apart.
pub open spec fn row_error_of(f: Failure) -> Error {
    match f {
        Failure::NotFound => Error::RecordNotFound,
        _ => Error::DatabaseError,
    }
}

/// The error of an update of a comment: a missing row and a violated
/// foreign key are told apart.
pub open spec fn comment_update_error_of(f: Failure) -> Error {
    match f {
        Failure::NotFound => Error::RecordNotFound,
        Failure::ForeignKeyViolation => Error::ForeignKeyViolation,
        Failure::Other => Error::DatabaseError,
    }
}

/// The error of a purge. A purge that matches no row succeeds with a count
/// of zero, so a failure never means that a record was not found.
pub open spec fn purge_error_of(f: Failure) -> Error {
    Error::DatabaseError
}

/// The result of a statement that reports how many rows it changed, where
/// the statement was aimed at one row: no row changed means that the row
/// does not exist.
pub open spec fn affected_of(outcome: Result<usize, Failure>) -> DBResult<usize> {
    match outcome {
        Ok(n) => if n == 0 {
            Err(Error::RecordNotFound)
        } else {
            Ok(n)
        },
        Err(f) => Err(row_error_of(f)),
    }
}

/// The result of a statement, with its failure turned into an error.
pub open spec fn reported<V>(outcome: Result<V, Failure>, error_of: spec_fn(Failure) -> Error)
    -> DBResult<V> {
    match outcome {
        Ok(v) => Ok(v),
        Err(f) => Err(error_of(f)),
    }
}

/// The value of a result that holds a row.
pub open spec fn result_view<R: View>(r: DBResult<R>) -> DBResult<R::V> {
    match r {
        Ok(row) => Ok(row@),
        Err(e) => Err(e),
    }
}

/// See `insert_error_of`.
pub fn insert_error(f: Failure) -> (e: Error)
    ensures
        e == insert_error_of(f),
{
    Error::DatabaseError
}

/// See `comment_insert_error_of`.
pub fn comment_insert_error(f: Failure) -> (e: Error)
    ensures
        e == comment_insert_error_of(f),
{
    match f {
        Failure::ForeignKeyViolation => Error::ForeignKeyViolation,
        _ => Error::DatabaseError,
    }
}

/// See `row_error_of`.
pub fn row_error(f: Failure) -> (e: Error)
    ensures
        e == row_error_of(f),
{
    match f {
        Failure::NotFound => Error::RecordNotFound,
        _ => Error::DatabaseError,
    }
}

/// See `comment_update_error_of`.
pub fn comment_update_error(f: Failure) -> (e: Error)
    ensures
        e == comment_update_error_of(f),
{
    match f {
        Failure::NotFound => Error::RecordNotFound,
        Failure::ForeignKeyViolation => Error::ForeignKeyViolation,
        Failure::Other => Error::DatabaseError,
    }
}

/// See `purge_error_of`.
pub fn purge_error(f: Failure) -> (e: Error)
    ensures
        e == purge_error_of(f),
{
    Error::DatabaseError
}

/// See `affected_of`.
pub fn affected(outcome: Result<usize, Failure>) -> (r: DBResult<usize>)
    ensures
        r == affected_of(outcome),
{
    match outcome {
        Ok(n) => if n == 0 {
            Err(Error::RecordNotFound)
        } else {
            Ok(n)
        },
        Err(f) => Err(row_error(f)),
    }
}

/// The rows of a bulk read, or no rows at all where the read failed.
pub fn rows_or_empty<T>(outcome: Result<Vec<T>, Failure>) -> (rows: Vec<T>)
    ensures
        match outcome {
            Ok(v) => rows == v,
            Err(_) => rows@ == Seq::<T>::empty(),
        },
{
    match outcome {
        Ok(v) => v,
        Err(_) => Vec::new(),
    }
}

} // verus!
