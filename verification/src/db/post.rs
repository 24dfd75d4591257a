//! Posts: drafts that are written, rewritten, published, marked as deleted
//! and purged.

use crate::clock;
use crate::error::{insert_error, insert_error_of, purge_error, purge_error_of, row_error, row_error_of};
use crate::error::{affected, affected_of, reported, result_view, rows_or_empty};
use crate::error::{DBResult, Error, Failure};
use crate::models::{NewPost, Post, PostView};
use crate::seqs::views;
use crate::seqs::lemma_rewritten;
use crate::storage::posts::{post_id, post_is, post_marked, post_published, post_revised};
use crate::storage::{Store, StoreView};
use vstd::prelude::*;

verus! {

/// The names written one after the other, with a comma between each two.
pub open spec fn joined(names: Seq<Seq<char>>) -> Seq<char>
    decreases names.len(),
{
    if names.len() == 0 {
        Seq::empty()
    } else if names.len() == 1 {
        names[0]
    } else {
        joined(names.drop_last()) + seq![','] + names.last()
    }
}

/// The category field for a list of category names: the names joined by
/// commas, and the empty text where there is no list.
pub open spec fn category_of(categories: Option<&Vec<String>>) -> Seq<char> {
    match categories {
        Some(names) => joined(views(names@)),
        None => Seq::empty(),
    }
}

/// What `create` does at the instant `now`.
pub open spec fn created(s: StoreView, title: Seq<char>, category: Seq<char>, body: Seq<char>, now: i64)
    -> (StoreView, DBResult<PostView>) {
    let (next, outcome) = s.insert_post(title, category, body, now);
    (next, reported(outcome, |f: Failure| insert_error_of(f)))
}

/// What `update` does at the instant `now`.
pub open spec fn updated(
    s: StoreView,
    id: i32,
    title: Seq<char>,
    category: Seq<char>,
    body: Seq<char>,
    now: i64,
) -> (StoreView, DBResult<PostView>) {
    let (next, outcome) = s.update_post(id, title, category, body, now);
    (next, reported(outcome, |f: Failure| row_error_of(f)))
}

/// What `publish` does.
pub open spec fn published(s: StoreView, id: i32) -> (StoreView, DBResult<PostView>) {
    let (next, outcome) = s.publish_post(id);
    (next, reported(outcome, |f: Failure| row_error_of(f)))
}

/// What `delete` does.
pub open spec fn deleted(s: StoreView, id: i32) -> (StoreView, DBResult<usize>) {
    let (next, outcome) = s.mark_post(id);
    (next, affected_of(outcome))
}

/// What `purge` does.
pub open spec fn purged(s: StoreView) -> (StoreView, DBResult<usize>) {
    let (next, outcome) = s.purge_posts();
    (next, reported(outcome, |f: Failure| purge_error_of(f)))
}

/// Joins the category names by commas; no list gives the empty text.
pub fn serialize_categories(categories: Option<&Vec<String>>) -> (category: String)
    ensures
        category@ == category_of(categories),
{
    match categories {
        None => String::new(),
        Some(names) => {
            let mut out = String::new();
            let mut i: usize = 0;
            proof {
                reveal_strlit(",");
                assert(","@ =~= seq![',']);
                assert(views(names@).take(0).len() == 0);
            }
            while i < names.len()
                invariant
                    i <= names.len(),
                    ","@ == seq![','],
                    out@ == joined(views(names@).take(i as int)),
                decreases names.len() - i,
            {
                let ghost done = views(names@).take(i as int);
                let ghost next = views(names@).take(i + 1);
                proof {
                    assert(next.drop_last() =~= done);
                    assert(next.last() == names@[i as int]@);
                }
                if i > 0 {
                    out.append(",");
                }
                out.append(names[i].as_str());
                proof {
                    if i == 0 {
                        assert(out@ =~= names@[0]@);
                    }
                }
                i += 1;
            }
            proof {
                assert(views(names@).take(i as int) =~= views(names@));
            }
            out
        },
    }
}

/// Creates a draft. The store sets `created` and `last_edited` to the
/// instant of the call. Fails where the table has no id left.
pub fn create(store: &mut Store, title: &str, categories: Option<&Vec<String>>, body: &str) -> (r:
    DBResult<Post>)
    requires
        old(store)@.wf(),
    ensures
        final(store)@.wf(),
        r is Ok <==> old(store)@.last_post < i32::MAX,
        match r {
            Ok(post) => (final(store)@, Ok::<PostView, Error>(post@)) == created(
                old(store)@,
                title@,
                category_of(categories),
                body@,
                post.created,
            ),
            Err(e) => e == Error::DatabaseError && final(store)@ == old(store)@,
        },
{
    let new_post = NewPost {
        title: title.to_owned(),
        category: serialize_categories(categories),
        body: body.to_owned(),
    };
    match store.insert_post(new_post, clock::now()) {
        Ok(post) => Ok(post),
        Err(f) => Err(insert_error(f)),
    }
}

/// Rewrites title, category and body of a post and sets `last_edited` to
/// the instant of the call. Fails where the post has no row.
pub fn update(
    store: &mut Store,
    id: i32,
    title: &str,
    categories: Option<&Vec<String>>,
    body: &str,
) -> (r: DBResult<Post>)
    requires
        old(store)@.wf(),
    ensures
        final(store)@.wf(),
        r is Ok <==> old(store)@.has_post(id),
        match r {
            Ok(post) => (final(store)@, Ok::<PostView, Error>(post@)) == updated(
                old(store)@,
                id,
                title@,
                category_of(categories),
                body@,
                post.last_edited,
            ),
            Err(e) => e == Error::RecordNotFound && final(store)@ == old(store)@,
        },
{
    let change = NewPost {
        title: title.to_owned(),
        category: serialize_categories(categories),
        body: body.to_owned(),
    };
    let now = clock::now();
    proof {
        lemma_rewritten(
            store@.posts,
            post_id(),
            store@.last_post,
            id,
            post_is(id),
            post_revised(id, title@, category_of(categories), body@, now),
        );
    }
    match store.update_post(id, change, now) {
        Ok(post) => Ok(post),
        Err(f) => Err(row_error(f)),
    }
}

/// The posts that pass the filters, in the order of their creation. A read
/// that fails gives no rows.
pub fn get(store: &Store, id: Option<i32>, published_only: bool, non_deleted_only: bool) -> (rows: Vec<
    Post,
>)
    ensures
        views(rows@) == store@.select_posts(id, published_only, non_deleted_only),
{
    rows_or_empty(store.select_posts(id, published_only, non_deleted_only))
}

/// The posts that are published and not deleted.
pub fn get_published(store: &Store, id: Option<i32>) -> (rows: Vec<Post>)
    ensures
        views(rows@) == store@.select_posts(id, true, true),
{
    get(store, id, true, true)
}

/// Every post.
pub fn get_all(store: &Store) -> (rows: Vec<Post>)
    ensures
        views(rows@) == store@.select_posts(None, false, false),
{
    get(store, None, false, false)
}

/// Publishes a post, whether or not it is published already. Fails where
/// the post has no row.
pub fn publish(store: &mut Store, id: i32) -> (r: DBResult<Post>)
    requires
        old(store)@.wf(),
    ensures
        final(store)@.wf(),
        r is Ok <==> old(store)@.has_post(id),
        (final(store)@, result_view(r)) == published(old(store)@, id),
{
    proof {
        lemma_rewritten(store@.posts, post_id(), store@.last_post, id, post_is(id), post_published(id));
    }
    match store.publish_post(id) {
        Ok(post) => Ok(post),
        Err(f) => Err(row_error(f)),
    }
}

/// Marks a post as deleted, whether or not it is marked already. The row
/// stays in the table until a purge. Fails where the post has no row.
pub fn delete(store: &mut Store, id: i32) -> (r: DBResult<usize>)
    requires
        old(store)@.wf(),
    ensures
        final(store)@.wf(),
        r is Ok <==> old(store)@.has_post(id),
        (final(store)@, r) == deleted(old(store)@, id),
{
    proof {
        lemma_rewritten(store@.posts, post_id(), store@.last_post, id, post_is(id), post_marked(id));
    }
    affected(store.mark_post(id))
}

/// Removes every post that is marked as deleted, and says how many there
/// were. Never fails.
pub fn purge(store: &mut Store) -> (r: DBResult<usize>)
    requires
        old(store)@.wf(),
    ensures
        final(store)@.wf(),
        r is Ok,
        (final(store)@, r) == purged(old(store)@),
{
    match store.purge_posts() {
        Ok(n) => Ok(n),
        Err(f) => Err(purge_error(f)),
    }
}

} // verus!
