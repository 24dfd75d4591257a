//! Visitors: identities that are written, rewritten and removed for good.

use crate::clock;
use crate::error::{affected, affected_of, insert_error, insert_error_of, reported, result_view};
use crate::error::{row_error, row_error_of, rows_or_empty, DBResult, Error, Failure};
use crate::models::{text_of, NewVisitor, Visitor, VisitorView};
use crate::seqs::views;
use crate::seqs::{lemma_keys_bound, lemma_removed, lemma_rewritten};
use crate::storage::visitors::{visitor_id, visitor_is, visitor_is_not, visitor_revised};
use crate::storage::{Store, StoreView};
use vstd::prelude::*;

verus! {

/// What `create` does at the instant `now`.
pub open spec fn created(s: StoreView, name: Seq<char>, mail: Seq<char>, site: Option<Seq<char>>, now: i64)
    -> (StoreView, DBResult<VisitorView>) {
    let (next, outcome) = s.insert_visitor(name, mail, site, now);
    (next, reported(outcome, |f: Failure| insert_error_of(f)))
}

/// What `update` does.
pub open spec fn updated(s: StoreView, id: i32, name: Seq<char>, mail: Seq<char>, site: Option<Seq<char>>)
    -> (StoreView, DBResult<VisitorView>) {
    let (next, outcome) = s.update_visitor(id, name, mail, site);
    (next, reported(outcome, |f: Failure| row_error_of(f)))
}

/// What `delete` does.
pub open spec fn deleted(s: StoreView, id: i32) -> (StoreView, DBResult<usize>) {
    let (next, outcome) = s.delete_visitor(id);
    (next, affected_of(outcome))
}

/// Creates a visitor. The store sets `created` to the instant of the call.
/// Fails where the table has no id left.
pub fn create(store: &mut Store, name: &str, mail: &str, site: Option<String>) -> (r: DBResult<Visitor>)
    requires
        old(store)@.wf(),
    ensures
        final(store)@.wf(),
        r is Ok <==> old(store)@.last_visitor < i32::MAX,
        match r {
            Ok(visitor) => (final(store)@, Ok::<VisitorView, Error>(visitor@)) == created(
                old(store)@,
                name@,
                mail@,
                text_of(site),
                visitor.created,
            ),
            Err(e) => e == Error::DatabaseError && final(store)@ == old(store)@,
        },
{
    let new_visitor = NewVisitor { name: name.to_owned(), mail: mail.to_owned(), site };
    match store.insert_visitor(new_visitor, clock::now()) {
        Ok(visitor) => Ok(visitor),
        Err(f) => Err(insert_error(f)),
    }
}

/// The visitor with the given id, or every visitor where no id is given,
/// in the order of their creation. A read that fails gives no rows.
pub fn get(store: &Store, id: Option<i32>) -> (rows: Vec<Visitor>)
    ensures
        views(rows@) == store@.select_visitors(id),
{
    rows_or_empty(store.select_visitors(id))
}

/// Rewrites name, mail and site of a visitor; no site clears the field.
/// Fails where the visitor has no row.
pub fn update(store: &mut Store, id: i32, name: &str, mail: &str, site: Option<String>) -> (r: DBResult<
    Visitor,
>)
    requires
        old(store)@.wf(),
    ensures
        final(store)@.wf(),
        r is Ok <==> old(store)@.has_visitor(id),
        (final(store)@, result_view(r)) == updated(old(store)@, id, name@, mail@, text_of(site)),
{
    proof {
        lemma_rewritten(
            store@.visitors,
            visitor_id(),
            store@.last_visitor,
            id,
            visitor_is(id),
            visitor_revised(id, name@, mail@, text_of(site)),
        );
    }
    let change = NewVisitor { name: name.to_owned(), mail: mail.to_owned(), site };
    match store.update_visitor(id, change) {
        Ok(visitor) => Ok(visitor),
        Err(f) => Err(row_error(f)),
    }
}

/// Removes a visitor for good. Fails where the visitor has no row.
pub fn delete(store: &mut Store, id: i32) -> (r: DBResult<usize>)
    requires
        old(store)@.wf(),
    ensures
        final(store)@.wf(),
        r is Ok <==> old(store)@.has_visitor(id),
        (final(store)@, r) == deleted(old(store)@, id),
{
    proof {
        lemma_removed(store@.visitors, visitor_id(), store@.last_visitor, id, visitor_is_not(id));
        lemma_keys_bound(store@.visitors, visitor_id(), store@.last_visitor);
    }
    affected(store.delete_visitor(id))
}

} // verus!
