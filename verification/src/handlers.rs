//! What the request handlers decide: which operation of the store a
//! request becomes, and which reply its result becomes. Reading a request
//! and writing a reply on the wire are left to the caller.

pub mod comment;
pub mod errors;
pub mod post;
pub mod visitor;

use crate::error::Error;
use vstd::prelude::*;

verus! {

/// What a reply says went wrong.
#[derive(Debug, Clone, Copy, PartialEq, Eq, Structural)]
pub enum Problem {
    NotFound,
    InvalidReference,
    Database,
}

/// The body of the reply to a write.
#[derive(Debug, Clone, Copy, PartialEq, Eq, Structural)]
pub enum Reply {
    /// The write was done on the record with this id.
    Done { id: i32 },
    /// The write was refused or failed.
    Failed { problem: Problem },
    /// A record could not be created.
    DatabaseError,
}

/// How a failed write aimed at one record is worded.
pub open spec fn write_problem_of(e: Error) -> Problem {
    match e {
        Error::RecordNotFound => Problem::NotFound,
        _ => Problem::Database,
    }
}

/// How a failed creation of a comment is worded.
pub open spec fn comment_create_problem_of(e: Error) -> Problem {
    match e {
        Error::ForeignKeyViolation => Problem::InvalidReference,
        _ => Problem::Database,
    }
}

/// How a failed update of a comment is worded.
pub open spec fn comment_update_problem_of(e: Error) -> Problem {
    match e {
        Error::RecordNotFound => Problem::NotFound,
        Error::ForeignKeyViolation => Problem::InvalidReference,
        _ => Problem::Database,
    }
}

impl Problem {
    /// The words of the problem.
    pub open spec fn text(self) -> Seq<char> {
        match self {
            Problem::NotFound => "not found"@,
            Problem::InvalidReference => "Invalid post id or visitor id"@,
            Problem::Database => "database error"@,
        }
    }

    /// See `text`.
    pub fn description(&self) -> (words: &'static str)
        ensures
            words@ == self.text(),
    {
        match self {
            Problem::NotFound => "not found",
            Problem::InvalidReference => "Invalid post id or visitor id",
            Problem::Database => "database error",
        }
    }
}

impl Reply {
    /// The status that the reply carries.
    pub open spec fn status_text(self) -> Seq<char> {
        match self {
            Reply::Done { .. } => "ok"@,
            Reply::Failed { .. } => "error"@,
            Reply::DatabaseError => "database error"@,
        }
    }

    /// See `status_text`.
    pub fn status(&self) -> (words: &'static str)
        ensures
            words@ == self.status_text(),
    {
        match self {
            Reply::Done { .. } => "ok",
            Reply::Failed { .. } => "error",
            Reply::DatabaseError => "database error",
        }
    }
}

/// See `write_problem_of`.
pub fn write_problem(e: Error) -> (problem: Problem)
    ensures
        problem == write_problem_of(e),
{
    match e {
        Error::RecordNotFound => Problem::NotFound,
        _ => Problem::Database,
    }
}

/// See `comment_create_problem_of`.
pub fn comment_create_problem(e: Error) -> (problem: Problem)
    ensures
        problem == comment_create_problem_of(e),
{
    match e {
        Error::ForeignKeyViolation => Problem::InvalidReference,
        _ => Problem::Database,
    }
}

/// See `comment_update_problem_of`.
pub fn comment_update_problem(e: Error) -> (problem: Problem)
    ensures
        problem == comment_update_problem_of(e),
{
    match e {
        Error::RecordNotFound => Problem::NotFound,
        Error::ForeignKeyViolation => Problem::InvalidReference,
        _ => Problem::Database,
    }
}

} // verus!
