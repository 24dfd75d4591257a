//! The table of comments. A comment is taken in only where its post and
//! its visitor have a row; what becomes of them later is not looked at.

use crate::error::Failure;
use crate::models::{Comment, CommentView, NewComment};
use crate::seqs::{has_key, index_of_key, keys_ok, lemma_filter_none, lemma_filter_one, views};
use crate::storage::{first_of, outcome_view, rows_view, Store, StoreView};
use vstd::prelude::*;

verus! {

/// The comments with the given id.
pub open spec fn comment_is(id: i32) -> spec_fn(CommentView) -> bool {
    |c: CommentView| c.id == id
}

/// The comments that a read selects: the one with the given id, where
/// there is one; only ones that are not deleted, where asked.
pub open spec fn comment_selected(id: Option<i32>, non_deleted_only: bool) -> spec_fn(CommentView) -> bool {
    |c: CommentView|
        {
            &&& id matches Some(k) ==> c.id == k
            &&& non_deleted_only ==> !c.deleted
        }
}

/// The comments that a purge leaves.
pub open spec fn comment_kept() -> spec_fn(CommentView) -> bool {
    |c: CommentView| !c.deleted
}

/// A comment as it is created.
pub open spec fn new_comment(id: i32, pid: i32, vid: i32, body: Seq<char>, now: i64) -> CommentView {
    CommentView { id, pid, vid, body, created: now, last_edited: now, deleted: false }
}

/// A comment with the given id rewritten; any other comment as it is.
pub open spec fn comment_revised(id: i32, body: Seq<char>, now: i64) -> spec_fn(CommentView) -> CommentView {
    |c: CommentView|
        if c.id == id {
            CommentView { body, last_edited: now, ..c }
        } else {
            c
        }
}

/// A comment with the given id marked as deleted; any other comment as it
/// is.
pub open spec fn comment_marked(id: i32) -> spec_fn(CommentView) -> CommentView {
    |c: CommentView|
        if c.id == id {
            CommentView { deleted: true, ..c }
        } else {
            c
        }
}

/// The id of a comment.
pub open spec fn comment_id() -> spec_fn(CommentView) -> i32 {
    |row: CommentView| row.id
}

/// The ids of the comments rise along the table and lie between 1 and `last`,
/// so no id occurs twice.
pub open spec fn comments_ok(comments: Seq<CommentView>, last: i32) -> bool {
    keys_ok(comments, comment_id(), last)
}

impl StoreView {
    /// Whether the table of comments has a row with the given id, deleted
    /// or not.
    pub open spec fn has_comment(self, id: i32) -> bool {
        has_key(self.comments, comment_id(), id)
    }

    /// Where the comment with the given id stands in its table.
    pub open spec fn comment_index(self, id: i32) -> int {
        index_of_key(self.comments, comment_id(), id)
    }

    /// The comment with the given id.
    pub open spec fn comment(self, id: i32) -> CommentView {
        self.comments[self.comment_index(id)]
    }

    /// Insert a comment. Fails where the post or the visitor that it names
    /// has no row, and where no id is left.
    pub open spec fn insert_comment(self, pid: i32, vid: i32, body: Seq<char>, now: i64) -> (
        StoreView,
        Result<CommentView, Failure>,
    ) {
        if !self.has_post(pid) || !self.has_visitor(vid) {
            (self, Err(Failure::ForeignKeyViolation))
        } else if self.last_comment == i32::MAX {
            (self, Err(Failure::Other))
        } else {
            let id = (self.last_comment + 1) as i32;
            let row = new_comment(id, pid, vid, body, now);
            (StoreView { comments: self.comments.push(row), last_comment: id, ..self }, Ok(row))
        }
    }

    /// Rewrite the comment with the given id and return it as it then is.
    pub open spec fn update_comment(self, id: i32, body: Seq<char>, now: i64) -> (
        StoreView,
        Result<CommentView, Failure>,
    ) {
        let comments = self.comments.map_values(comment_revised(id, body, now));
        (StoreView { comments, ..self }, first_of(comments.filter(comment_is(id))))
    }

    /// Mark the comment with the given id as deleted and count the rows
    /// changed.
    pub open spec fn mark_comment(self, id: i32) -> (StoreView, Result<usize, Failure>) {
        let comments = self.comments.map_values(comment_marked(id));
        (StoreView { comments, ..self }, Ok(self.comments.filter(comment_is(id)).len() as usize))
    }

    /// Remove the comments marked as deleted and count them.
    pub open spec fn purge_comments(self) -> (StoreView, Result<usize, Failure>) {
        let comments = self.comments.filter(comment_kept());
        (StoreView { comments, ..self }, Ok((self.comments.len() - comments.len()) as usize))
    }

    /// The comments that a read selects, in the order of the table.
    pub open spec fn select_comments(self, id: Option<i32>, non_deleted_only: bool) -> Seq<CommentView> {
        self.comments.filter(comment_selected(id, non_deleted_only))
    }
}

impl Store {
    /// Where the comment with the given id stands in its table.
    pub(super) fn find_comment(&self, id: i32) -> (at: Option<usize>)
        ensures
            match at {
                Some(i) => i < self@.comments.len() && self@.comments[i as int].id == id,
                None => forall|j: int|
                    0 <= j < self@.comments.len() ==> (#[trigger] self@.comments[j]).id != id,
            },
    {
        let mut i: usize = 0;
        while i < self.comments.len()
            invariant
                i <= self.comments.len(),
                forall|j: int| 0 <= j < i ==> (#[trigger] self@.comments[j]).id != id,
            decreases self.comments.len() - i,
        {
            if self.comments[i].id == id {
                return Some(i);
            }
            i += 1;
        }
        None
    }

    /// Runs `StoreView::insert_comment` at the instant `now`.
    pub fn insert_comment(&mut self, new: NewComment, now: i64) -> (r: Result<Comment, Failure>)
        requires
            old(self)@.wf(),
        ensures
            final(self)@.wf(),
            (final(self)@, outcome_view(r)) == old(self)@.insert_comment(new.pid, new.vid, new.body@, now),
    {
        if self.find_post(new.pid).is_none() || self.find_visitor(new.vid).is_none() {
            return Err(Failure::ForeignKeyViolation);
        }
        if self.last_comment == i32::MAX {
            return Err(Failure::Other);
        }
        let id = self.last_comment + 1;
        let row = Comment {
            id,
            pid: new.pid,
            vid: new.vid,
            body: new.body,
            created: now,
            last_edited: now,
            deleted: false,
        };
        let copy = row.clone();
        self.comments.push(row);
        self.last_comment = id;
        assert(self@.comments =~= old(self)@.comments.push(row@));
        Ok(copy)
    }

    /// Runs `StoreView::update_comment` at the instant `now`.
    pub fn update_comment(&mut self, id: i32, body: String, now: i64) -> (r: Result<Comment, Failure>)
        requires
            old(self)@.wf(),
        ensures
            final(self)@.wf(),
            (final(self)@, outcome_view(r)) == old(self)@.update_comment(id, body@, now),
    {
        let ghost revise = comment_revised(id, body@, now);
        match self.find_comment(id) {
            None => {
                proof {
                    assert(self@.comments.map_values(revise) =~= self@.comments);
                    lemma_filter_none(self@.comments, comment_is(id));
                }
                Err(Failure::NotFound)
            },
            Some(i) => {
                let before = &self.comments[i];
                let row = Comment {
                    id: before.id,
                    pid: before.pid,
                    vid: before.vid,
                    body,
                    created: before.created,
                    last_edited: now,
                    deleted: before.deleted,
                };
                let copy = row.clone();
                self.comments.set(i, row);
                proof {
                    assert(self@.comments =~= old(self)@.comments.map_values(revise));
                    lemma_filter_one(self@.comments, comment_is(id), i as int);
                }
                Ok(copy)
            },
        }
    }

    /// Runs `StoreView::mark_comment`.
    pub fn mark_comment(&mut self, id: i32) -> (r: Result<usize, Failure>)
        requires
            old(self)@.wf(),
        ensures
            final(self)@.wf(),
            (final(self)@, r) == old(self)@.mark_comment(id),
    {
        match self.find_comment(id) {
            None => {
                proof {
                    assert(self@.comments.map_values(comment_marked(id)) =~= self@.comments);
                    lemma_filter_none(self@.comments, comment_is(id));
                }
                Ok(0)
            },
            Some(i) => {
                let before = &self.comments[i];
                let row = Comment {
                    id: before.id,
                    pid: before.pid,
                    vid: before.vid,
                    body: before.body.clone(),
                    created: before.created,
                    last_edited: before.last_edited,
                    deleted: true,
                };
                proof {
                    lemma_filter_one(self@.comments, comment_is(id), i as int);
                }
                self.comments.set(i, row);
                proof {
                    assert(self@.comments =~= old(self)@.comments.map_values(comment_marked(id)));
                }
                Ok(1)
            },
        }
    }

    /// Runs `StoreView::purge_comments`.
    pub fn purge_comments(&mut self) -> (r: Result<usize, Failure>)
        requires
            old(self)@.wf(),
        ensures
            final(self)@.wf(),
            (final(self)@, r) == old(self)@.purge_comments(),
    {
        let mut kept: Vec<Comment> = Vec::new();
        let mut i: usize = 0;
        proof {
            lemma_filter_none(self@.comments.take(0), comment_kept());
            assert(views(kept@) =~= Seq::empty());
        }
        while i < self.comments.len()
            invariant
                i <= self.comments.len(),
                kept.len() <= i,
                self@.wf(),
                views(kept@) == self@.comments.take(i as int).filter(comment_kept()),
                comments_ok(views(kept@), self.last_comment),
                forall|a: int, k: int|
                    0 <= a < kept.len() && i <= k < self.comments.len() ==> (#[trigger] kept@[a]).id < (
                    #[trigger] self@.comments[k]).id,
            decreases self.comments.len() - i,
        {
            let ghost before = views(kept@);
            proof {
                assert(self@.comments.take(i + 1) =~= self@.comments.take(i as int).push(
                    self@.comments[i as int],
                ));
                self@.comments.take(i as int).lemma_filter_push(self@.comments[i as int], comment_kept());
            }
            if !self.comments[i].deleted {
                let row = self.comments[i].clone();
                kept.push(row);
                proof {
                    assert(views(kept@) =~= before.push(self@.comments[i as int]));
                    assert forall|a: int| 0 <= a < kept.len() implies 0 < (#[trigger] views(
                        kept@,
                    )[a]).id <= self.last_comment by {
                        if a < kept.len() - 1 {
                            assert(views(kept@)[a] == before[a]);
                        }
                    }
                    assert forall|a: int, b: int| 0 <= a < b < kept.len() implies (#[trigger] views(
                        kept@,
                    )[a]).id < (#[trigger] views(kept@)[b]).id by {
                        assert(views(kept@)[a] == before[a]);
                        if b < kept.len() - 1 {
                            assert(views(kept@)[b] == before[b]);
                        } else {
                            assert(kept@[a].id < self@.comments[i as int].id);
                        }
                    }
                }
            }
            i += 1;
        }
        assert(self@.comments.take(i as int) =~= self@.comments);
        let removed = self.comments.len() - kept.len();
        self.comments = kept;
        Ok(removed)
    }

    /// Copies of the comments that `StoreView::select_comments` gives. Never fails.
    pub fn select_comments(&self, id: Option<i32>, non_deleted_only: bool) -> (r: Result<
        Vec<Comment>,
        Failure,
    >)
        ensures
            rows_view(r) == Ok::<Seq<CommentView>, Failure>(self@.select_comments(id, non_deleted_only)),
    {
        let ghost selected = comment_selected(id, non_deleted_only);
        let mut rows: Vec<Comment> = Vec::new();
        let mut i: usize = 0;
        proof {
            lemma_filter_none(self@.comments.take(0), selected);
            assert(views(rows@) =~= Seq::empty());
        }
        while i < self.comments.len()
            invariant
                i <= self.comments.len(),
                selected == comment_selected(id, non_deleted_only),
                views(rows@) == self@.comments.take(i as int).filter(selected),
            decreases self.comments.len() - i,
        {
            let ghost before = views(rows@);
            proof {
                assert(self@.comments.take(i + 1) =~= self@.comments.take(i as int).push(
                    self@.comments[i as int],
                ));
                self@.comments.take(i as int).lemma_filter_push(self@.comments[i as int], selected);
            }
            let c = &self.comments[i];
            let wanted = match id {
                Some(k) => c.id == k,
                None => true,
            };
            if wanted && (!non_deleted_only || !c.deleted) {
                rows.push(c.clone());
                proof {
                    assert(views(rows@) =~= before.push(self@.comments[i as int]));
                }
            }
            i += 1;
        }
        assert(self@.comments.take(i as int) =~= self@.comments);
        Ok(rows)
    }
}

} // verus!
