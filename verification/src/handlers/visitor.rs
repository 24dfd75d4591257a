//! Requests about visitors.

use crate::db::visitor;
use crate::handlers::{write_problem, Problem, Reply};
use crate::models::{text_of, NewVisitor, Visitor};
use crate::seqs::{lemma_rewritten, views};
use crate::storage::visitors::{visitor_id, visitor_is, visitor_revised};
use crate::storage::{Store, StoreView};
use vstd::prelude::*;

verus! {

/// The reply to the creation of a visitor: the id of the visitor, which is
/// the next that the table hands out, where one is left.
pub open spec fn created_reply(s: StoreView) -> Reply {
    if s.last_visitor < i32::MAX {
        Reply::Done { id: (s.last_visitor + 1) as i32 }
    } else {
        Reply::DatabaseError
    }
}

/// The reply to a write aimed at the visitor with the given id.
pub open spec fn written_reply(s: StoreView, id: i32) -> Reply {
    if s.has_visitor(id) {
        Reply::Done { id }
    } else {
        Reply::Failed { problem: Problem::NotFound }
    }
}

/// Every visitor.
pub fn get_all(store: &Store) -> (rows: Vec<Visitor>)
    ensures
        views(rows@) == store@.select_visitors(None),
{
    visitor::get(store, None)
}

/// The visitor with the given id, where there is one.
pub fn get(store: &Store, id: i32) -> (row: Option<Visitor>)
    ensures
        ({
            let rows = store@.select_visitors(Some(id));
            match row {
                Some(v) => rows.len() > 0 && v@ == rows.last(),
                None => rows.len() == 0,
            }
        }),
{
    let mut visitors = visitor::get(store, Some(id));
    visitors.pop()
}

/// Creates a visitor from what was sent, at the instant of the call.
pub fn create(store: &mut Store, input: &NewVisitor) -> (reply: Reply)
    requires
        old(store)@.wf(),
    ensures
        final(store)@.wf(),
        reply == created_reply(old(store)@),
        exists|now: i64|
            final(store)@ == (#[trigger] visitor::created(
                old(store)@,
                input.name@,
                input.mail@,
                text_of(input.site),
                now,
            )).0,
{
    match visitor::create(store, input.name.as_str(), input.mail.as_str(), input.site.clone()) {
        Ok(v) => {
            assert(store@ == visitor::created(
                old(store)@,
                input.name@,
                input.mail@,
                text_of(input.site),
                v.created,
            ).0);
            Reply::Done { id: v.id }
        },
        Err(_) => {
            assert(store@ == visitor::created(old(store)@, input.name@, input.mail@, text_of(input.site), 0).0);
            Reply::DatabaseError
        },
    }
}

/// Rewrites a visitor with what was sent.
pub fn update(store: &mut Store, id: i32, input: &NewVisitor) -> (reply: Reply)
    requires
        old(store)@.wf(),
    ensures
        final(store)@.wf(),
        reply == written_reply(old(store)@, id),
        final(store)@ == visitor::updated(old(store)@, id, input.name@, input.mail@, text_of(input.site)).0,
{
    proof {
        lemma_rewritten(
            store@.visitors,
            visitor_id(),
            store@.last_visitor,
            id,
            visitor_is(id),
            visitor_revised(id, input.name@, input.mail@, text_of(input.site)),
        );
    }
    match visitor::update(store, id, input.name.as_str(), input.mail.as_str(), input.site.clone()) {
        Ok(v) => Reply::Done { id: v.id },
        Err(e) => Reply::Failed { problem: write_problem(e) },
    }
}

/// Removes a visitor.
pub fn delete(store: &mut Store, id: i32) -> (reply: Reply)
    requires
        old(store)@.wf(),
    ensures
        final(store)@.wf(),
        reply == written_reply(old(store)@, id),
        final(store)@ == visitor::deleted(old(store)@, id).0,
{
    match visitor::delete(store, id) {
        Ok(_) => Reply::Done { id },
        Err(e) => Reply::Failed { problem: write_problem(e) },
    }
}

} // verus!
