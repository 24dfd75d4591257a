//! A content store for a small publishing platform: posts, visitors and
//! comments, with draft / published / soft-deleted / purged lifecycles.

use vstd::prelude::*;

pub mod clock;
pub mod db;
pub mod error;
pub mod handlers;
pub mod laws;
pub mod models;
pub mod seqs;
pub mod storage;

verus! {

/// The greeting served at the root path.
pub fn index() -> (greeting: &'static str)
    ensures
        greeting@ == "Hello rocket!"@,
{
    "Hello rocket!"
}

} // verus!
