//! The table of visitors.

use crate::error::Failure;
use crate::models::{text_of, NewVisitor, Visitor, VisitorView};
use crate::seqs::{has_key, index_of_key, keys_ok, lemma_filter_all_but_one, lemma_filter_none};
use crate::seqs::{lemma_filter_one, lemma_removed, views};
use crate::storage::{first_of, outcome_view, rows_view, Store, StoreView};
use vstd::prelude::*;

verus! {

/// The visitors with the given id.
pub open spec fn visitor_is(id: i32) -> spec_fn(VisitorView) -> bool {
    |v: VisitorView| v.id == id
}

/// The visitors but the one with the given id.
pub open spec fn visitor_is_not(id: i32) -> spec_fn(VisitorView) -> bool {
    |v: VisitorView| v.id != id
}

/// The visitors that a read selects: the one with the given id, where
/// there is one.
pub open spec fn visitor_selected(id: Option<i32>) -> spec_fn(VisitorView) -> bool {
    |v: VisitorView| id matches Some(k) ==> v.id == k
}

/// A visitor as it is created.
pub open spec fn new_visitor(id: i32, name: Seq<char>, mail: Seq<char>, site: Option<Seq<char>>, now: i64)
    -> VisitorView {
    VisitorView { id, name, mail, site, created: now }
}

/// A visitor with the given id rewritten; any other visitor as it is.
pub open spec fn visitor_revised(id: i32, name: Seq<char>, mail: Seq<char>, site: Option<Seq<char>>)
    -> spec_fn(VisitorView) -> VisitorView {
    |v: VisitorView|
        if v.id == id {
            VisitorView { name, mail, site, ..v }
        } else {
            v
        }
}

/// The id of a visitor.
pub open spec fn visitor_id() -> spec_fn(VisitorView) -> i32 {
    |row: VisitorView| row.id
}

/// The ids of the visitors rise along the table and lie between 1 and `last`,
/// so no id occurs twice.
pub open spec fn visitors_ok(visitors: Seq<VisitorView>, last: i32) -> bool {
    keys_ok(visitors, visitor_id(), last)
}

impl StoreView {
    /// Whether the table of visitors has a row with the given id.
    pub open spec fn has_visitor(self, id: i32) -> bool {
        has_key(self.visitors, visitor_id(), id)
    }

    /// Where the visitor with the given id stands in its table.
    pub open spec fn visitor_index(self, id: i32) -> int {
        index_of_key(self.visitors, visitor_id(), id)
    }

    /// The visitor with the given id.
    pub open spec fn visitor(self, id: i32) -> VisitorView {
        self.visitors[self.visitor_index(id)]
    }

    /// Insert a visitor. Fails where no id is left.
    pub open spec fn insert_visitor(self, name: Seq<char>, mail: Seq<char>, site: Option<Seq<char>>, now: i64)
        -> (StoreView, Result<VisitorView, Failure>) {
        if self.last_visitor == i32::MAX {
            (self, Err(Failure::Other))
        } else {
            let id = (self.last_visitor + 1) as i32;
            let row = new_visitor(id, name, mail, site, now);
            (StoreView { visitors: self.visitors.push(row), last_visitor: id, ..self }, Ok(row))
        }
    }

    /// Rewrite the visitor with the given id and return it as it then is.
    pub open spec fn update_visitor(self, id: i32, name: Seq<char>, mail: Seq<char>, site: Option<Seq<char>>)
        -> (StoreView, Result<VisitorView, Failure>) {
        let visitors = self.visitors.map_values(visitor_revised(id, name, mail, site));
        (StoreView { visitors, ..self }, first_of(visitors.filter(visitor_is(id))))
    }

    /// Remove the visitor with the given id and count the rows removed.
    pub open spec fn delete_visitor(self, id: i32) -> (StoreView, Result<usize, Failure>) {
        let visitors = self.visitors.filter(visitor_is_not(id));
        (StoreView { visitors, ..self }, Ok((self.visitors.len() - visitors.len()) as usize))
    }

    /// The visitors that a read selects, in the order of the table.
    pub open spec fn select_visitors(self, id: Option<i32>) -> Seq<VisitorView> {
        self.visitors.filter(visitor_selected(id))
    }
}

impl Store {
    /// Where the visitor with the given id stands in its table.
    pub(super) fn find_visitor(&self, id: i32) -> (at: Option<usize>)
        ensures
            match at {
                Some(i) => i < self@.visitors.len() && self@.visitors[i as int].id == id,
                None => forall|j: int|
                    0 <= j < self@.visitors.len() ==> (#[trigger] self@.visitors[j]).id != id,
            },
    {
        let mut i: usize = 0;
        while i < self.visitors.len()
            invariant
                i <= self.visitors.len(),
                forall|j: int| 0 <= j < i ==> (#[trigger] self@.visitors[j]).id != id,
            decreases self.visitors.len() - i,
        {
            if self.visitors[i].id == id {
                return Some(i);
            }
            i += 1;
        }
        None
    }

    /// Runs `StoreView::insert_visitor` at the instant `now`.
    pub fn insert_visitor(&mut self, new: NewVisitor, now: i64) -> (r: Result<Visitor, Failure>)
        requires
            old(self)@.wf(),
        ensures
            final(self)@.wf(),
            (final(self)@, outcome_view(r)) == old(self)@.insert_visitor(
                new.name@,
                new.mail@,
                text_of(new.site),
                now,
            ),
    {
        if self.last_visitor == i32::MAX {
            return Err(Failure::Other);
        }
        let id = self.last_visitor + 1;
        let row = Visitor { id, name: new.name, mail: new.mail, site: new.site, created: now };
        let copy = row.clone();
        self.visitors.push(row);
        self.last_visitor = id;
        assert(self@.visitors =~= old(self)@.visitors.push(row@));
        Ok(copy)
    }

    /// Runs `StoreView::update_visitor`.
    pub fn update_visitor(&mut self, id: i32, change: NewVisitor) -> (r: Result<Visitor, Failure>)
        requires
            old(self)@.wf(),
        ensures
            final(self)@.wf(),
            (final(self)@, outcome_view(r)) == old(self)@.update_visitor(
                id,
                change.name@,
                change.mail@,
                text_of(change.site),
            ),
    {
        let ghost revise = visitor_revised(id, change.name@, change.mail@, text_of(change.site));
        match self.find_visitor(id) {
            None => {
                proof {
                    assert(self@.visitors.map_values(revise) =~= self@.visitors);
                    lemma_filter_none(self@.visitors, visitor_is(id));
                }
                Err(Failure::NotFound)
            },
            Some(i) => {
                let before = &self.visitors[i];
                let row = Visitor {
                    id: before.id,
                    name: change.name,
                    mail: change.mail,
                    site: change.site,
                    created: before.created,
                };
                let copy = row.clone();
                self.visitors.set(i, row);
                proof {
                    assert(self@.visitors =~= old(self)@.visitors.map_values(revise));
                    lemma_filter_one(self@.visitors, visitor_is(id), i as int);
                }
                Ok(copy)
            },
        }
    }

    /// Runs `StoreView::delete_visitor`.
    pub fn delete_visitor(&mut self, id: i32) -> (r: Result<usize, Failure>)
        requires
            old(self)@.wf(),
        ensures
            final(self)@.wf(),
            (final(self)@, r) == old(self)@.delete_visitor(id),
    {
        proof {
            lemma_removed(self@.visitors, visitor_id(), self@.last_visitor, id, visitor_is_not(id));
        }
        match self.find_visitor(id) {
            None => Ok(0),
            Some(i) => {
                proof {
                    lemma_filter_all_but_one(self@.visitors, visitor_is_not(id), i as int);
                }
                let _ = self.visitors.remove(i);
                proof {
                    assert(self@.visitors =~= old(self)@.visitors.remove(i as int));
                }
                Ok(1)
            },
        }
    }

    /// Copies of the visitors that `StoreView::select_visitors` gives. Never fails.
    pub fn select_visitors(&self, id: Option<i32>) -> (r: Result<Vec<Visitor>, Failure>)
        ensures
            rows_view(r) == Ok::<Seq<VisitorView>, Failure>(self@.select_visitors(id)),
    {
        let ghost selected = visitor_selected(id);
        let mut rows: Vec<Visitor> = Vec::new();
        let mut i: usize = 0;
        proof {
            lemma_filter_none(self@.visitors.take(0), selected);
            assert(views(rows@) =~= Seq::empty());
        }
        while i < self.visitors.len()
            invariant
                i <= self.visitors.len(),
                selected == visitor_selected(id),
                views(rows@) == self@.visitors.take(i as int).filter(selected),
            decreases self.visitors.len() - i,
        {
            let ghost before = views(rows@);
            proof {
                assert(self@.visitors.take(i + 1) =~= self@.visitors.take(i as int).push(
                    self@.visitors[i as int],
                ));
                self@.visitors.take(i as int).lemma_filter_push(self@.visitors[i as int], selected);
            }
            let v = &self.visitors[i];
            let wanted = match id {
                Some(k) => v.id == k,
                None => true,
            };
            if wanted {
                rows.push(v.clone());
                proof {
                    assert(views(rows@) =~= before.push(self@.visitors[i as int]));
                }
            }
            i += 1;
        }
        assert(self@.visitors.take(i as int) =~= self@.visitors);
        Ok(rows)
    }
}

} // verus!
