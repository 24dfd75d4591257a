//! Requests about comments. The read of one comment sees it only where it
//! is not deleted; the read of all sees the deleted ones too.

use crate::db::comment;
use crate::handlers::{comment_create_problem, comment_update_problem, write_problem, Problem, Reply};
use crate::models::{Comment, NewComment};
use crate::seqs::{lemma_rewritten, views};
use crate::storage::comments::{comment_id, comment_is, comment_revised};
use crate::storage::{Store, StoreView};
use vstd::prelude::*;

verus! {

/// The reply to the creation of a comment on the post `pid` by the visitor
/// `vid`: the id of the comment, which is the next that the table hands
/// out, where both have a row and an id is left.
pub open spec fn created_reply(s: StoreView, pid: i32, vid: i32) -> Reply {
    if !s.has_post(pid) || !s.has_visitor(vid) {
        Reply::Failed { problem: Problem::InvalidReference }
    } else if s.last_comment < i32::MAX {
        Reply::Done { id: (s.last_comment + 1) as i32 }
    } else {
        Reply::Failed { problem: Problem::Database }
    }
}

/// The reply to a write aimed at the comment with the given id.
pub open spec fn written_reply(s: StoreView, id: i32) -> Reply {
    if s.has_comment(id) {
        Reply::Done { id }
    } else {
        Reply::Failed { problem: Problem::NotFound }
    }
}

/// Every comment, the deleted ones too.
pub fn get_all(store: &Store) -> (rows: Vec<Comment>)
    ensures
        views(rows@) == store@.select_comments(None, false),
{
    comment::get(store, None, false)
}

/// The comment with the given id, where there is one that is not deleted.
pub fn get(store: &Store, id: i32) -> (row: Option<Comment>)
    ensures
        ({
            let rows = store@.select_comments(Some(id), true);
            match row {
                Some(c) => rows.len() > 0 && c@ == rows.last(),
                None => rows.len() == 0,
            }
        }),
{
    let mut comments = comment::get(store, Some(id), true);
    comments.pop()
}

/// Creates a comment from what was sent, at the instant of the call.
pub fn create(store: &mut Store, input: &NewComment) -> (reply: Reply)
    requires
        old(store)@.wf(),
    ensures
        final(store)@.wf(),
        reply == created_reply(old(store)@, input.pid, input.vid),
        exists|now: i64|
            final(store)@ == (#[trigger] comment::created(
                old(store)@,
                input.pid,
                input.vid,
                input.body@,
                now,
            )).0,
{
    match comment::create(store, input.pid, input.vid, input.body.as_str()) {
        Ok(c) => {
            assert(store@ == comment::created(old(store)@, input.pid, input.vid, input.body@, c.created).0);
            Reply::Done { id: c.id }
        },
        Err(e) => {
            assert(store@ == comment::created(old(store)@, input.pid, input.vid, input.body@, 0).0);
            Reply::Failed { problem: comment_create_problem(e) }
        },
    }
}

/// Rewrites the body of a comment with the body sent, at the instant of
/// the call; the post and the visitor that were sent with it are not
/// looked at.
pub fn update(store: &mut Store, id: i32, input: &NewComment) -> (reply: Reply)
    requires
        old(store)@.wf(),
    ensures
        final(store)@.wf(),
        reply == written_reply(old(store)@, id),
        exists|now: i64| final(store)@ == (#[trigger] comment::updated(old(store)@, id, input.body@, now)).0,
{
    proof {
        lemma_rewritten(
            store@.comments,
            comment_id(),
            store@.last_comment,
            id,
            comment_is(id),
            comment_revised(id, input.body@, 0),
        );
    }
    match comment::update(store, id, input.body.as_str()) {
        Ok(c) => {
            proof {
                lemma_rewritten(
                    old(store)@.comments,
                    comment_id(),
                    old(store)@.last_comment,
                    id,
                    comment_is(id),
                    comment_revised(id, input.body@, c.last_edited),
                );
            }
            assert(store@ == comment::updated(old(store)@, id, input.body@, c.last_edited).0);
            Reply::Done { id: c.id }
        },
        Err(e) => {
            assert(store@ == comment::updated(old(store)@, id, input.body@, 0).0);
            Reply::Failed { problem: comment_update_problem(e) }
        },
    }
}

/// Marks a comment as deleted.
pub fn delete(store: &mut Store, id: i32) -> (reply: Reply)
    requires
        old(store)@.wf(),
    ensures
        final(store)@.wf(),
        reply == written_reply(old(store)@, id),
        final(store)@ == comment::deleted(old(store)@, id).0,
{
    match comment::delete(store, id) {
        Ok(_) => Reply::Done { id },
        Err(e) => Reply::Failed { problem: write_problem(e) },
    }
}

} // verus!
