//! The tables of the store and the statements that run on them.
//!
//! A statement changes the rows that its condition selects, as a relational
//! engine does, and reports a `Failure` where such an engine would. Ids are
//! handed out in rising order, starting at 1, and never again.

pub mod comments;
pub mod posts;
pub mod visitors;

use crate::error::Failure;
use crate::models::{Comment, CommentView, Post, PostView, Visitor, VisitorView};
use crate::seqs::views;
use crate::storage::comments::comments_ok;
use crate::storage::posts::posts_ok;
use crate::storage::visitors::visitors_ok;
use vstd::prelude::*;

verus! {

/// The three tables, and the last id that each has handed out.
pub struct Store {
    posts: Vec<Post>,
    visitors: Vec<Visitor>,
    comments: Vec<Comment>,
    last_post: i32,
    last_visitor: i32,
    last_comment: i32,
}

/// What a store holds: the rows of each table in the order of their
/// creation, and the last id that each table has handed out.
pub struct StoreView {
    pub posts: Seq<PostView>,
    pub visitors: Seq<VisitorView>,
    pub comments: Seq<CommentView>,
    pub last_post: i32,
    pub last_visitor: i32,
    pub last_comment: i32,
}

impl View for Store {
    type V = StoreView;

    closed spec fn view(&self) -> StoreView {
        StoreView {
            posts: views(self.posts@),
            visitors: views(self.visitors@),
            comments: views(self.comments@),
            last_post: self.last_post,
            last_visitor: self.last_visitor,
            last_comment: self.last_comment,
        }
    }
}

/// The value of what a statement returned.
pub open spec fn outcome_view<R: View>(r: Result<R, Failure>) -> Result<R::V, Failure> {
    match r {
        Ok(row) => Ok(row@),
        Err(f) => Err(f),
    }
}

/// The value of the rows that a statement returned.
pub open spec fn rows_view<R: View>(r: Result<Vec<R>, Failure>) -> Result<Seq<R::V>, Failure> {
    match r {
        Ok(rows) => Ok(views(rows@)),
        Err(f) => Err(f),
    }
}

/// The first of the rows, where there is one.
pub open spec fn first_of<V>(rows: Seq<V>) -> Result<V, Failure> {
    if rows.len() == 0 {
        Err(Failure::NotFound)
    } else {
        Ok(rows[0])
    }
}

impl StoreView {
    /// Each table is in order: see `posts_ok`, `visitors_ok` and
    /// `comments_ok`.
    pub open spec fn wf(self) -> bool {
        &&& posts_ok(self.posts, self.last_post)
        &&& visitors_ok(self.visitors, self.last_visitor)
        &&& comments_ok(self.comments, self.last_comment)
    }

    /// A store without rows that has handed out no id.
    pub open spec fn empty() -> StoreView {
        StoreView {
            posts: Seq::empty(),
            visitors: Seq::empty(),
            comments: Seq::empty(),
            last_post: 0,
            last_visitor: 0,
            last_comment: 0,
        }
    }
}

impl Store {
    /// A store without rows.
    pub fn new() -> (store: Store)
        ensures
            store@ == StoreView::empty(),
            store@.wf(),
    {
        let store = Store {
            posts: Vec::new(),
            visitors: Vec::new(),
            comments: Vec::new(),
            last_post: 0,
            last_visitor: 0,
            last_comment: 0,
        };
        assert(store@.posts =~= Seq::empty());
        assert(store@.visitors =~= Seq::empty());
        assert(store@.comments =~= Seq::empty());
        store
    }

    /// A store without rows whose tables have handed out the given ids
    /// already, so that each goes on counting from there. None where an id
    /// is negative.
    pub fn resumed(last_post: i32, last_visitor: i32, last_comment: i32) -> (r: Option<Store>)
        ensures
            match r {
                Some(store) => {
                    &&& last_post >= 0 && last_visitor >= 0 && last_comment >= 0
                    &&& store@ == StoreView { last_post, last_visitor, last_comment, ..StoreView::empty() }
                    &&& store@.wf()
                },
                None => last_post < 0 || last_visitor < 0 || last_comment < 0,
            },
    {
        if last_post < 0 || last_visitor < 0 || last_comment < 0 {
            return None;
        }
        let store = Store {
            posts: Vec::new(),
            visitors: Vec::new(),
            comments: Vec::new(),
            last_post,
            last_visitor,
            last_comment,
        };
        assert(store@.posts =~= Seq::empty());
        assert(store@.visitors =~= Seq::empty());
        assert(store@.comments =~= Seq::empty());
        Some(store)
    }
}

} // verus!
