//! The table of posts.

use crate::error::Failure;
use crate::models::{NewPost, Post, PostView};
use crate::seqs::{has_key, index_of_key, keys_ok, lemma_filter_first, lemma_filter_none};
use crate::seqs::{lemma_filter_one, views};
use crate::storage::{first_of, outcome_view, rows_view, Store, StoreView};
use vstd::prelude::*;

verus! {

/// The posts with the given id.
pub open spec fn post_is(id: i32) -> spec_fn(PostView) -> bool {
    |p: PostView| p.id == id
}

/// The posts that a read selects: the one with the given id, where there
/// is one; only published ones, only ones that are not deleted, where asked.
pub open spec fn post_selected(id: Option<i32>, published_only: bool, non_deleted_only: bool)
    -> spec_fn(PostView) -> bool {
    |p: PostView|
        {
            &&& id matches Some(k) ==> p.id == k
            &&& published_only ==> p.published
            &&& non_deleted_only ==> !p.deleted
        }
}

/// The posts that a purge leaves.
pub open spec fn post_kept() -> spec_fn(PostView) -> bool {
    |p: PostView| !p.deleted
}

/// A post as it is created.
pub open spec fn new_post(id: i32, title: Seq<char>, category: Seq<char>, body: Seq<char>, now: i64)
    -> PostView {
    PostView { id, title, category, body, created: now, last_edited: now, published: false, deleted: false }
}

/// A post with the given id rewritten; any other post as it is.
pub open spec fn post_revised(id: i32, title: Seq<char>, category: Seq<char>, body: Seq<char>, now: i64)
    -> spec_fn(PostView) -> PostView {
    |p: PostView|
        if p.id == id {
            PostView { title, category, body, last_edited: now, ..p }
        } else {
            p
        }
}

/// A post with the given id published; any other post as it is.
pub open spec fn post_published(id: i32) -> spec_fn(PostView) -> PostView {
    |p: PostView|
        if p.id == id {
            PostView { published: true, ..p }
        } else {
            p
        }
}

/// A post with the given id marked as deleted; any other post as it is.
pub open spec fn post_marked(id: i32) -> spec_fn(PostView) -> PostView {
    |p: PostView|
        if p.id == id {
            PostView { deleted: true, ..p }
        } else {
            p
        }
}

/// The id of a post.
pub open spec fn post_id() -> spec_fn(PostView) -> i32 {
    |row: PostView| row.id
}

/// The ids of the posts rise along the table and lie between 1 and `last`,
/// so no id occurs twice.
pub open spec fn posts_ok(posts: Seq<PostView>, last: i32) -> bool {
    keys_ok(posts, post_id(), last)
}

impl StoreView {
    /// Whether the table of posts has a row with the given id, deleted or not.
    pub open spec fn has_post(self, id: i32) -> bool {
        has_key(self.posts, post_id(), id)
    }

    /// Where the post with the given id stands in its table.
    pub open spec fn post_index(self, id: i32) -> int {
        index_of_key(self.posts, post_id(), id)
    }

    /// The post with the given id.
    pub open spec fn post(self, id: i32) -> PostView {
        self.posts[self.post_index(id)]
    }

    /// Insert a post. Fails where no id is left.
    pub open spec fn insert_post(self, title: Seq<char>, category: Seq<char>, body: Seq<char>, now: i64)
        -> (StoreView, Result<PostView, Failure>) {
        if self.last_post == i32::MAX {
            (self, Err(Failure::Other))
        } else {
            let id = (self.last_post + 1) as i32;
            let row = new_post(id, title, category, body, now);
            (StoreView { posts: self.posts.push(row), last_post: id, ..self }, Ok(row))
        }
    }

    /// Rewrite the post with the given id and return it as it then is.
    pub open spec fn update_post(
        self,
        id: i32,
        title: Seq<char>,
        category: Seq<char>,
        body: Seq<char>,
        now: i64,
    ) -> (StoreView, Result<PostView, Failure>) {
        let posts = self.posts.map_values(post_revised(id, title, category, body, now));
        (StoreView { posts, ..self }, first_of(posts.filter(post_is(id))))
    }

    /// Publish the post with the given id and return it as it then is.
    pub open spec fn publish_post(self, id: i32) -> (StoreView, Result<PostView, Failure>) {
        let posts = self.posts.map_values(post_published(id));
        (StoreView { posts, ..self }, first_of(posts.filter(post_is(id))))
    }

    /// Mark the post with the given id as deleted and count the rows changed.
    pub open spec fn mark_post(self, id: i32) -> (StoreView, Result<usize, Failure>) {
        let posts = self.posts.map_values(post_marked(id));
        (StoreView { posts, ..self }, Ok(self.posts.filter(post_is(id)).len() as usize))
    }

    /// Remove the posts marked as deleted and count them.
    pub open spec fn purge_posts(self) -> (StoreView, Result<usize, Failure>) {
        let posts = self.posts.filter(post_kept());
        (StoreView { posts, ..self }, Ok((self.posts.len() - posts.len()) as usize))
    }

    /// The posts that a read selects, in the order of the table.
    pub open spec fn select_posts(self, id: Option<i32>, published_only: bool, non_deleted_only: bool)
        -> Seq<PostView> {
        self.posts.filter(post_selected(id, published_only, non_deleted_only))
    }
}

impl Store {
    /// Where the post with the given id stands in its table.
    pub(super) fn find_post(&self, id: i32) -> (at: Option<usize>)
        ensures
            match at {
                Some(i) => i < self@.posts.len() && self@.posts[i as int].id == id,
                None => forall|j: int| 0 <= j < self@.posts.len() ==> (#[trigger] self@.posts[j]).id != id,
            },
    {
        let mut i: usize = 0;
        while i < self.posts.len()
            invariant
                i <= self.posts.len(),
                forall|j: int| 0 <= j < i ==> (#[trigger] self@.posts[j]).id != id,
            decreases self.posts.len() - i,
        {
            if self.posts[i].id == id {
                return Some(i);
            }
            i += 1;
        }
        None
    }

    /// Runs `StoreView::insert_post` at the instant `now`.
    pub fn insert_post(&mut self, new: NewPost, now: i64) -> (r: Result<Post, Failure>)
        requires
            old(self)@.wf(),
        ensures
            final(self)@.wf(),
            (final(self)@, outcome_view(r)) == old(self)@.insert_post(
                new.title@,
                new.category@,
                new.body@,
                now,
            ),
    {
        if self.last_post == i32::MAX {
            return Err(Failure::Other);
        }
        let id = self.last_post + 1;
        let row = Post {
            id,
            title: new.title,
            category: new.category,
            body: new.body,
            created: now,
            last_edited: now,
            published: false,
            deleted: false,
        };
        let copy = row.clone();
        self.posts.push(row);
        self.last_post = id;
        assert(self@.posts =~= old(self)@.posts.push(row@));
        Ok(copy)
    }

    /// Runs `StoreView::update_post` at the instant `now`.
    pub fn update_post(&mut self, id: i32, change: NewPost, now: i64) -> (r: Result<Post, Failure>)
        requires
            old(self)@.wf(),
        ensures
            final(self)@.wf(),
            (final(self)@, outcome_view(r)) == old(self)@.update_post(
                id,
                change.title@,
                change.category@,
                change.body@,
                now,
            ),
    {
        let ghost revise = post_revised(id, change.title@, change.category@, change.body@, now);
        match self.find_post(id) {
            None => {
                proof {
                    assert(self@.posts.map_values(revise) =~= self@.posts);
                    lemma_filter_none(self@.posts, post_is(id));
                }
                Err(Failure::NotFound)
            },
            Some(i) => {
                let before = &self.posts[i];
                let row = Post {
                    id: before.id,
                    title: change.title,
                    category: change.category,
                    body: change.body,
                    created: before.created,
                    last_edited: now,
                    published: before.published,
                    deleted: before.deleted,
                };
                let copy = row.clone();
                self.posts.set(i, row);
                proof {
                    assert(self@.posts =~= old(self)@.posts.map_values(revise));
                    lemma_filter_one(self@.posts, post_is(id), i as int);
                }
                Ok(copy)
            },
        }
    }

    /// Runs `StoreView::publish_post`.
    pub fn publish_post(&mut self, id: i32) -> (r: Result<Post, Failure>)
        requires
            old(self)@.wf(),
        ensures
            final(self)@.wf(),
            (final(self)@, outcome_view(r)) == old(self)@.publish_post(id),
    {
        match self.find_post(id) {
            None => {
                proof {
                    assert(self@.posts.map_values(post_published(id)) =~= self@.posts);
                    lemma_filter_none(self@.posts, post_is(id));
                }
                Err(Failure::NotFound)
            },
            Some(i) => {
                let before = &self.posts[i];
                let row = Post {
                    id: before.id,
                    title: before.title.clone(),
                    category: before.category.clone(),
                    body: before.body.clone(),
                    created: before.created,
                    last_edited: before.last_edited,
                    published: true,
                    deleted: before.deleted,
                };
                let copy = row.clone();
                self.posts.set(i, row);
                proof {
                    assert(self@.posts =~= old(self)@.posts.map_values(post_published(id)));
                    lemma_filter_one(self@.posts, post_is(id), i as int);
                }
                Ok(copy)
            },
        }
    }

    /// Runs `StoreView::mark_post`.
    pub fn mark_post(&mut self, id: i32) -> (r: Result<usize, Failure>)
        requires
            old(self)@.wf(),
        ensures
            final(self)@.wf(),
            (final(self)@, r) == old(self)@.mark_post(id),
    {
        match self.find_post(id) {
            None => {
                proof {
                    assert(self@.posts.map_values(post_marked(id)) =~= self@.posts);
                    lemma_filter_none(self@.posts, post_is(id));
                }
                Ok(0)
            },
            Some(i) => {
                let before = &self.posts[i];
                let row = Post {
                    id: before.id,
                    title: before.title.clone(),
                    category: before.category.clone(),
                    body: before.body.clone(),
                    created: before.created,
                    last_edited: before.last_edited,
                    published: before.published,
                    deleted: true,
                };
                proof {
                    lemma_filter_one(self@.posts, post_is(id), i as int);
                }
                self.posts.set(i, row);
                proof {
                    assert(self@.posts =~= old(self)@.posts.map_values(post_marked(id)));
                }
                Ok(1)
            },
        }
    }

    /// Runs `StoreView::purge_posts`.
    pub fn purge_posts(&mut self) -> (r: Result<usize, Failure>)
        requires
            old(self)@.wf(),
        ensures
            final(self)@.wf(),
            (final(self)@, r) == old(self)@.purge_posts(),
    {
        let mut kept: Vec<Post> = Vec::new();
        let mut i: usize = 0;
        proof {
            lemma_filter_none(self@.posts.take(0), post_kept());
            assert(views(kept@) =~= Seq::empty());
        }
        while i < self.posts.len()
            invariant
                i <= self.posts.len(),
                kept.len() <= i,
                self@.wf(),
                views(kept@) == self@.posts.take(i as int).filter(post_kept()),
                posts_ok(views(kept@), self.last_post),
                forall|a: int, k: int|
                    0 <= a < kept.len() && i <= k < self.posts.len() ==> (#[trigger] kept@[a]).id < (
                    #[trigger] self@.posts[k]).id,
            decreases self.posts.len() - i,
        {
            let ghost before = views(kept@);
            proof {
                assert(self@.posts.take(i + 1) =~= self@.posts.take(i as int).push(self@.posts[i as int]));
                self@.posts.take(i as int).lemma_filter_push(self@.posts[i as int], post_kept());
            }
            if !self.posts[i].deleted {
                let row = self.posts[i].clone();
                kept.push(row);
                proof {
                    assert(views(kept@) =~= before.push(self@.posts[i as int]));
                    assert forall|a: int| 0 <= a < kept.len() implies 0 < (#[trigger] views(
                        kept@,
                    )[a]).id <= self.last_post by {
                        if a < kept.len() - 1 {
                            assert(views(kept@)[a] == before[a]);
                        }
                    }
                    assert forall|a: int, b: int| 0 <= a < b < kept.len() implies (#[trigger] views(
                        kept@,
                    )[a]).id < (#[trigger] views(kept@)[b]).id by {
                        assert(views(kept@)[a] == before[a]);
                        if b < kept.len() - 1 {
                            assert(views(kept@)[b] == before[b]);
                        } else {
                            assert(kept@[a].id < self@.posts[i as int].id);
                        }
                    }
                }
            }
            i += 1;
        }
        assert(self@.posts.take(i as int) =~= self@.posts);
        let removed = self.posts.len() - kept.len();
        self.posts = kept;
        Ok(removed)
    }

    /// Copies of the posts that `StoreView::select_posts` gives. Never fails.
    pub fn select_posts(&self, id: Option<i32>, published_only: bool, non_deleted_only: bool) -> (r:
        Result<Vec<Post>, Failure>)
        ensures
            rows_view(r) == Ok::<Seq<PostView>, Failure>(
                self@.select_posts(id, published_only, non_deleted_only),
            ),
    {
        let ghost selected = post_selected(id, published_only, non_deleted_only);
        let mut rows: Vec<Post> = Vec::new();
        let mut i: usize = 0;
        proof {
            lemma_filter_none(self@.posts.take(0), selected);
            assert(views(rows@) =~= Seq::empty());
        }
        while i < self.posts.len()
            invariant
                i <= self.posts.len(),
                selected == post_selected(id, published_only, non_deleted_only),
                views(rows@) == self@.posts.take(i as int).filter(selected),
            decreases self.posts.len() - i,
        {
            let ghost before = views(rows@);
            proof {
                assert(self@.posts.take(i + 1) =~= self@.posts.take(i as int).push(self@.posts[i as int]));
                self@.posts.take(i as int).lemma_filter_push(self@.posts[i as int], selected);
            }
            let p = &self.posts[i];
            let wanted = match id {
                Some(k) => p.id == k,
                None => true,
            };
            if wanted && (!published_only || p.published) && (!non_deleted_only || !p.deleted) {
                rows.push(p.clone());
                proof {
                    assert(views(rows@) =~= before.push(self@.posts[i as int]));
                }
            }
            i += 1;
        }
        assert(self@.posts.take(i as int) =~= self@.posts);
        Ok(rows)
    }

    /// The first post that a read of one id selects.
    pub fn first_post(&self, id: i32, published_only: bool, non_deleted_only: bool) -> (r: Result<
        Post,
        Failure,
    >)
        ensures
            outcome_view(r) == first_of(self@.select_posts(Some(id), published_only, non_deleted_only)),
    {
        let ghost selected = post_selected(Some(id), published_only, non_deleted_only);
        let mut i: usize = 0;
        while i < self.posts.len()
            invariant
                i <= self.posts.len(),
                selected == post_selected(Some(id), published_only, non_deleted_only),
                forall|j: int| 0 <= j < i ==> !selected(#[trigger] self@.posts[j]),
            decreases self.posts.len() - i,
        {
            let p = &self.posts[i];
            if p.id == id && (!published_only || p.published) && (!non_deleted_only || !p.deleted) {
                proof {
                    lemma_filter_first(self@.posts, selected, i as int);
                }
                return Ok(p.clone());
            }
            i += 1;
        }
        proof {
            lemma_filter_none(self@.posts, selected);
        }
        Err(Failure::NotFound)
    }
}

} // verus!
