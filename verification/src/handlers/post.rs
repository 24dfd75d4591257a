//! Requests about posts. The public reads see published posts that are
//! not deleted.

use crate::db::post;
use crate::handlers::{write_problem, Problem, Reply};
use crate::models::Post;
use crate::seqs::{lemma_rewritten, views};
use crate::storage::posts::{post_id, post_is, post_revised};
use crate::storage::{Store, StoreView};
use vstd::prelude::*;

verus! {

/// A post as its author sends it.
#[derive(Debug)]
pub struct PostInput {
    pub title: String,
    pub categories: Vec<String>,
    pub body: String,
}

impl PostInput {
    /// The category names, where there are any.
    pub fn categories(&self) -> (names: Option<&Vec<String>>)
        ensures
            names == if self.categories.len() > 0 {
                Some(&self.categories)
            } else {
                None
            },
            post::category_of(names) == post::joined(views(self.categories@)),
    {
        if self.categories.len() > 0 {
            Some(&self.categories)
        } else {
            assert(views(self.categories@).len() == 0);
            None
        }
    }
}

/// The reply to the creation of a post: the id of the draft, which is the
/// next that the table hands out, where one is left.
pub open spec fn created_reply(s: StoreView) -> Reply {
    if s.last_post < i32::MAX {
        Reply::Done { id: (s.last_post + 1) as i32 }
    } else {
        Reply::DatabaseError
    }
}

/// The reply to a write aimed at the post with the given id.
pub open spec fn written_reply(s: StoreView, id: i32) -> Reply {
    if s.has_post(id) {
        Reply::Done { id }
    } else {
        Reply::Failed { problem: Problem::NotFound }
    }
}

/// The published posts.
pub fn get_all(store: &Store) -> (rows: Vec<Post>)
    ensures
        views(rows@) == store@.select_posts(None, true, true),
{
    post::get_published(store, None)
}

/// The published post with the given id, where there is one.
pub fn get(store: &Store, id: i32) -> (row: Option<Post>)
    ensures
        ({
            let rows = store@.select_posts(Some(id), true, true);
            match row {
                Some(p) => rows.len() > 0 && p@ == rows.last(),
                None => rows.len() == 0,
            }
        }),
{
    let mut posts = post::get_published(store, Some(id));
    posts.pop()
}

/// Creates a draft from what its author sent, at the instant of the call.
pub fn create(store: &mut Store, input: &PostInput) -> (reply: Reply)
    requires
        old(store)@.wf(),
    ensures
        final(store)@.wf(),
        reply == created_reply(old(store)@),
        exists|now: i64|
            final(store)@ == (#[trigger] post::created(
                old(store)@,
                input.title@,
                post::joined(views(input.categories@)),
                input.body@,
                now,
            )).0,
{
    let cats = input.categories();
    match post::create(store, input.title.as_str(), cats, input.body.as_str()) {
        Ok(p) => {
            assert(store@ == post::created(
                old(store)@,
                input.title@,
                post::joined(views(input.categories@)),
                input.body@,
                p.created,
            ).0);
            Reply::Done { id: p.id }
        },
        Err(_) => {
            assert(store@ == post::created(
                old(store)@,
                input.title@,
                post::joined(views(input.categories@)),
                input.body@,
                0,
            ).0);
            Reply::DatabaseError
        },
    }
}

/// Rewrites a post with what its author sent, at the instant of the call.
pub fn update(store: &mut Store, id: i32, input: &PostInput) -> (reply: Reply)
    requires
        old(store)@.wf(),
    ensures
        final(store)@.wf(),
        reply == written_reply(old(store)@, id),
        exists|now: i64|
            final(store)@ == (#[trigger] post::updated(
                old(store)@,
                id,
                input.title@,
                post::joined(views(input.categories@)),
                input.body@,
                now,
            )).0,
{
    let cats = input.categories();
    let ghost category = post::joined(views(input.categories@));
    proof {
        lemma_rewritten(
            store@.posts,
            post_id(),
            store@.last_post,
            id,
            post_is(id),
            post_revised(id, input.title@, category, input.body@, 0),
        );
    }
    match post::update(store, id, input.title.as_str(), cats, input.body.as_str()) {
        Ok(p) => {
            proof {
                lemma_rewritten(
                    old(store)@.posts,
                    post_id(),
                    old(store)@.last_post,
                    id,
                    post_is(id),
                    post_revised(id, input.title@, category, input.body@, p.last_edited),
                );
            }
            assert(store@ == post::updated(
                old(store)@,
                id,
                input.title@,
                category,
                input.body@,
                p.last_edited,
            ).0);
            Reply::Done { id: p.id }
        },
        Err(e) => {
            assert(store@ == post::updated(old(store)@, id, input.title@, category, input.body@, 0).0);
            Reply::Failed { problem: write_problem(e) }
        },
    }
}

/// Publishes a post.
pub fn publish(store: &mut Store, id: i32) -> (reply: Reply)
    requires
        old(store)@.wf(),
    ensures
        final(store)@.wf(),
        reply == written_reply(old(store)@, id),
        final(store)@ == post::published(old(store)@, id).0,
{
    match post::publish(store, id) {
        Ok(_) => Reply::Done { id },
        Err(e) => Reply::Failed { problem: write_problem(e) },
    }
}

/// Marks a post as deleted.
pub fn delete(store: &mut Store, id: i32) -> (reply: Reply)
    requires
        old(store)@.wf(),
    ensures
        final(store)@.wf(),
        reply == written_reply(old(store)@, id),
        final(store)@ == post::deleted(old(store)@, id).0,
{
    match post::delete(store, id) {
        Ok(_) => Reply::Done { id },
        Err(e) => Reply::Failed { problem: write_problem(e) },
    }
}

} // verus!
