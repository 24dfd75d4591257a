//! The operations of the store, table by table, and the reads and writes
//! of posts by their longer names.

pub mod comment;
pub mod post;
pub mod visitor;

use crate::error::{reported, result_view, row_error, row_error_of, Failure};
use crate::models::{Post, PostView, Visitor, VisitorView};
use crate::models::text_of;
use crate::seqs::views;
use crate::storage::{first_of, Store, StoreView};
use vstd::prelude::*;

pub use crate::error::{DBResult, Error};

verus! {

/// What a read of one post returns: the post with the given id where it
/// passes the filters, and `RecordNotFound` where it does not or where
/// there is no such post.
pub open spec fn found(s: StoreView, id: i32, published_only: bool, non_deleted_only: bool) -> DBResult<
    PostView,
> {
    reported(
        first_of(s.select_posts(Some(id), published_only, non_deleted_only)),
        |f: Failure| row_error_of(f),
    )
}

/// See `post::create`.
pub fn create_post(store: &mut Store, title: &str, categories: Option<&Vec<String>>, body: &str) -> (r:
    DBResult<Post>)
    requires
        old(store)@.wf(),
    ensures
        final(store)@.wf(),
        r is Ok <==> old(store)@.last_post < i32::MAX,
        match r {
            Ok(post) => (final(store)@, Ok::<PostView, Error>(post@)) == post::created(
                old(store)@,
                title@,
                post::category_of(categories),
                body@,
                post.created,
            ),
            Err(e) => e == Error::DatabaseError && final(store)@ == old(store)@,
        },
{
    post::create(store, title, categories, body)
}

/// See `post::update`.
pub fn update_post(
    store: &mut Store,
    id: i32,
    title: &str,
    categories: Option<&Vec<String>>,
    body: &str,
) -> (r: DBResult<Post>)
    requires
        old(store)@.wf(),
    ensures
        final(store)@.wf(),
        r is Ok <==> old(store)@.has_post(id),
        match r {
            Ok(post) => (final(store)@, Ok::<PostView, Error>(post@)) == post::updated(
                old(store)@,
                id,
                title@,
                post::category_of(categories),
                body@,
                post.last_edited,
            ),
            Err(e) => e == Error::RecordNotFound && final(store)@ == old(store)@,
        },
{
    post::update(store, id, title, categories, body)
}

/// The post with the given id, where it passes the filters: both filters
/// for what the public reads, none for what the author reads.
pub fn get_post(store: &Store, id: i32, published_only: bool, non_deleted_only: bool) -> (r: DBResult<
    Post,
>)
    ensures
        result_view(r) == found(store@, id, published_only, non_deleted_only),
{
    match store.first_post(id, published_only, non_deleted_only) {
        Ok(post) => Ok(post),
        Err(f) => Err(row_error(f)),
    }
}

/// The post with the given id, where it is published and not deleted.
pub fn get_published_post(store: &Store, id: i32) -> (r: DBResult<Post>)
    ensures
        result_view(r) == found(store@, id, true, true),
{
    get_post(store, id, true, true)
}

/// The posts that are published and not deleted.
pub fn get_published_posts(store: &Store) -> (rows: Vec<Post>)
    ensures
        views(rows@) == store@.select_posts(None, true, true),
{
    post::get_published(store, None)
}

/// See `post::publish`.
pub fn publish_post(store: &mut Store, id: i32) -> (r: DBResult<Post>)
    requires
        old(store)@.wf(),
    ensures
        final(store)@.wf(),
        r is Ok <==> old(store)@.has_post(id),
        (final(store)@, result_view(r)) == post::published(old(store)@, id),
{
    post::publish(store, id)
}

/// See `post::delete`.
pub fn delete_post(store: &mut Store, id: i32) -> (r: DBResult<usize>)
    requires
        old(store)@.wf(),
    ensures
        final(store)@.wf(),
        r is Ok <==> old(store)@.has_post(id),
        (final(store)@, r) == post::deleted(old(store)@, id),
{
    post::delete(store, id)
}

/// See `post::purge`.
pub fn purge_posts(store: &mut Store) -> (r: DBResult<usize>)
    requires
        old(store)@.wf(),
    ensures
        final(store)@.wf(),
        r is Ok,
        (final(store)@, r) == post::purged(old(store)@),
{
    post::purge(store)
}

/// See `visitor::create`.
pub fn create_visitor(store: &mut Store, name: &str, mail: &str, site: Option<String>) -> (r: DBResult<
    Visitor,
>)
    requires
        old(store)@.wf(),
    ensures
        final(store)@.wf(),
        r is Ok <==> old(store)@.last_visitor < i32::MAX,
        match r {
            Ok(v) => (final(store)@, Ok::<VisitorView, Error>(v@)) == visitor::created(
                old(store)@,
                name@,
                mail@,
                text_of(site),
                v.created,
            ),
            Err(e) => e == Error::DatabaseError && final(store)@ == old(store)@,
        },
{
    visitor::create(store, name, mail, site)
}

} // verus!
