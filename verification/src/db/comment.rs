//! Comments: each names the post it stands under and the visitor who wrote
//! it; they are written, rewritten, marked as deleted and purged.

use crate::clock;
use crate::error::{affected, affected_of, comment_insert_error, comment_insert_error_of};
use crate::error::{comment_update_error, comment_update_error_of, purge_error, purge_error_of};
use crate::error::{reported, rows_or_empty, DBResult, Error, Failure};
use crate::models::{Comment, CommentView, NewComment};
use crate::seqs::views;
use crate::seqs::lemma_rewritten;
use crate::storage::comments::{comment_id, comment_is, comment_marked, comment_revised};
use crate::storage::{Store, StoreView};
use vstd::prelude::*;

verus! {

/// What `create` does at the instant `now`.
pub open spec fn created(s: StoreView, pid: i32, vid: i32, body: Seq<char>, now: i64) -> (
    StoreView,
    DBResult<CommentView>,
) {
    let (next, outcome) = s.insert_comment(pid, vid, body, now);
    (next, reported(outcome, |f: Failure| comment_insert_error_of(f)))
}

/// What `update` does at the instant `now`.
pub open spec fn updated(s: StoreView, id: i32, body: Seq<char>, now: i64) -> (
    StoreView,
    DBResult<CommentView>,
) {
    let (next, outcome) = s.update_comment(id, body, now);
    (next, reported(outcome, |f: Failure| comment_update_error_of(f)))
}

/// What `delete` does.
pub open spec fn deleted(s: StoreView, id: i32) -> (StoreView, DBResult<usize>) {
    let (next, outcome) = s.mark_comment(id);
    (next, affected_of(outcome))
}

/// What `purge` does.
pub open spec fn purged(s: StoreView) -> (StoreView, DBResult<usize>) {
    let (next, outcome) = s.purge_comments();
    (next, reported(outcome, |f: Failure| purge_error_of(f)))
}

/// Creates a comment of the visitor `vid` on the post `pid`. The store sets
/// `created` and `last_edited` to the instant of the call. Fails with
/// `ForeignKeyViolation` where the post or the visitor has no row, and
/// else with `DatabaseError` where the table has no id left.
pub fn create(store: &mut Store, pid: i32, vid: i32, body: &str) -> (r: DBResult<Comment>)
    requires
        old(store)@.wf(),
    ensures
        final(store)@.wf(),
        match r {
            Ok(comment) => (final(store)@, Ok::<CommentView, Error>(comment@)) == created(
                old(store)@,
                pid,
                vid,
                body@,
                comment.created,
            ),
            Err(e) => final(store)@ == old(store)@,
        },
        r == Err::<Comment, Error>(Error::ForeignKeyViolation) <==> !old(store)@.has_post(pid) || !old(
            store,
        )@.has_visitor(vid),
        r == Err::<Comment, Error>(Error::DatabaseError) <==> old(store)@.has_post(pid) && old(
            store,
        )@.has_visitor(vid) && old(store)@.last_comment == i32::MAX,
        r is Ok <==> old(store)@.has_post(pid) && old(store)@.has_visitor(vid) && old(store)@.last_comment
            < i32::MAX,
{
    let new_comment = NewComment { pid, vid, body: body.to_owned() };
    match store.insert_comment(new_comment, clock::now()) {
        Ok(comment) => Ok(comment),
        Err(f) => Err(comment_insert_error(f)),
    }
}

/// Rewrites the body of a comment and sets `last_edited` to the instant of
/// the call. Fails where the comment has no row.
pub fn update(store: &mut Store, id: i32, body: &str) -> (r: DBResult<Comment>)
    requires
        old(store)@.wf(),
    ensures
        final(store)@.wf(),
        r is Ok <==> old(store)@.has_comment(id),
        match r {
            Ok(comment) => (final(store)@, Ok::<CommentView, Error>(comment@)) == updated(
                old(store)@,
                id,
                body@,
                comment.last_edited,
            ),
            Err(e) => e == Error::RecordNotFound && final(store)@ == old(store)@,
        },
{
    let now = clock::now();
    proof {
        lemma_rewritten(
            store@.comments,
            comment_id(),
            store@.last_comment,
            id,
            comment_is(id),
            comment_revised(id, body@, now),
        );
    }
    match store.update_comment(id, body.to_owned(), now) {
        Ok(comment) => Ok(comment),
        Err(f) => Err(comment_update_error(f)),
    }
}

/// The comments that pass the filters, in the order of their creation. A
/// read that fails gives no rows.
pub fn get(store: &Store, id: Option<i32>, non_deleted_only: bool) -> (rows: Vec<Comment>)
    ensures
        views(rows@) == store@.select_comments(id, non_deleted_only),
{
    rows_or_empty(store.select_comments(id, non_deleted_only))
}

/// Marks a comment as deleted, whether or not it is marked already. The row
/// stays in the table until a purge. Fails where the comment has no row.
pub fn delete(store: &mut Store, id: i32) -> (r: DBResult<usize>)
    requires
        old(store)@.wf(),
    ensures
        final(store)@.wf(),
        r is Ok <==> old(store)@.has_comment(id),
        (final(store)@, r) == deleted(old(store)@, id),
{
    proof {
        lemma_rewritten(
            store@.comments,
            comment_id(),
            store@.last_comment,
            id,
            comment_is(id),
            comment_marked(id),
        );
    }
    affected(store.mark_comment(id))
}

/// Removes every comment that is marked as deleted, and says how many
/// there were. Never fails.
pub fn purge(store: &mut Store) -> (r: DBResult<usize>)
    requires
        old(store)@.wf(),
    ensures
        final(store)@.wf(),
        r is Ok,
        (final(store)@, r) == purged(old(store)@),
{
    match store.purge_comments() {
        Ok(n) => Ok(n),
        Err(f) => Err(purge_error(f)),
    }
}

} // verus!
