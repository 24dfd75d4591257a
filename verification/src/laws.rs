//! What holds of the store in every state, proved from what the
//! operations are stated to do.

use crate::db::comment;
use crate::db::found;
use crate::db::post;
use crate::db::visitor;
use crate::error::Error;
use crate::models::{CommentView, PostView, VisitorView};
use crate::seqs::{has_key, index_of_key, lemma_filter_all, lemma_filter_drops, lemma_filter_none};
use crate::seqs::{lemma_filter_one, lemma_filter_single, lemma_filter_update, lemma_filtered};
use crate::seqs::{lemma_key_is_at, lemma_keys_bound, lemma_removed, lemma_rewrite_keeps_places};
use crate::seqs::lemma_rewritten;
use crate::storage::comments::{comment_id, comment_is, comment_kept, comment_marked};
use crate::storage::comments::{comment_revised, comment_selected};
use crate::storage::posts::{post_id, post_is, post_kept, post_marked, post_published};
use crate::storage::posts::{post_revised, post_selected};
use crate::storage::visitors::{visitor_id, visitor_is, visitor_is_not, visitor_revised};
use crate::storage::visitors::visitor_selected;
use crate::storage::StoreView;
use vstd::prelude::*;

verus! {

/// A post is, as created, a draft that is not deleted and was last edited
/// at the instant of its creation.
pub proof fn law_post_created_unedited(
    s: StoreView,
    title: Seq<char>,
    category: Seq<char>,
    body: Seq<char>,
    now: i64,
)
    ensures
        post::created(s, title, category, body, now).1 matches Ok(p) ==> {
            &&& p.created == p.last_edited
            &&& p.created == now
            &&& !p.published
            &&& !p.deleted
        },
{
}

/// A comment is, as created, not deleted and was last edited at the
/// instant of its creation.
pub proof fn law_comment_created_unedited(s: StoreView, pid: i32, vid: i32, body: Seq<char>, now: i64)
    ensures
        comment::created(s, pid, vid, body, now).1 matches Ok(c) ==> {
            &&& c.created == c.last_edited
            &&& c.created == now
            &&& !c.deleted
        },
{
}

/// An update of a post that exists returns the post with its new title,
/// category and body, stamped with the instant of the update; the instant
/// of its creation stays. So where the update comes after the creation,
/// `last_edited` is later than `created`, by the time between the two.
pub proof fn law_post_update_stamps(
    s: StoreView,
    id: i32,
    title: Seq<char>,
    category: Seq<char>,
    body: Seq<char>,
    now: i64,
)
    requires
        s.wf(),
        s.has_post(id),
    ensures
        ({
            let (next, r) = post::updated(s, id, title, category, body, now);
            &&& r == Ok::<PostView, Error>(PostView { title, category, body, last_edited: now, ..s.post(id) })
            &&& next.has_post(id)
            &&& next.post(id) == r->Ok_0
            &&& s.post(id).created < now ==> r->Ok_0.created < r->Ok_0.last_edited
            &&& r->Ok_0.last_edited - r->Ok_0.created == now - s.post(id).created
        }),
{
    lemma_rewritten(
        s.posts,
        post_id(),
        s.last_post,
        id,
        post_is(id),
        post_revised(id, title, category, body, now),
    );
}

/// An update of a comment that exists returns the comment with its new
/// body, stamped with the instant of the update; the instant of its
/// creation stays.
pub proof fn law_comment_update_stamps(s: StoreView, id: i32, body: Seq<char>, now: i64)
    requires
        s.wf(),
        s.has_comment(id),
    ensures
        ({
            let (next, r) = comment::updated(s, id, body, now);
            &&& r == Ok::<CommentView, Error>(CommentView { body, last_edited: now, ..s.comment(id) })
            &&& next.has_comment(id)
            &&& next.comment(id) == r->Ok_0
            &&& s.comment(id).created < now ==> r->Ok_0.created < r->Ok_0.last_edited
        }),
{
    lemma_rewritten(
        s.comments,
        comment_id(),
        s.last_comment,
        id,
        comment_is(id),
        comment_revised(id, body, now),
    );
}

/// A post that was just created is not found by the public read, and is
/// found by the read without filters.
pub proof fn law_draft_is_hidden(
    s: StoreView,
    title: Seq<char>,
    category: Seq<char>,
    body: Seq<char>,
    now: i64,
)
    requires
        s.wf(),
    ensures
        ({
            let (next, r) = post::created(s, title, category, body, now);
            r matches Ok(p) ==> {
                &&& found(next, p.id, true, true) == Err::<PostView, Error>(Error::RecordNotFound)
                &&& found(next, p.id, false, false) == Ok::<PostView, Error>(p)
            }
        }),
{
    let (next, r) = post::created(s, title, category, body, now);
    if let Ok(p) = r {
        assert(next.posts == s.posts.push(p));
        lemma_filter_none(next.posts, post_selected(Some(p.id), true, true));
        lemma_filter_one(next.posts, post_selected(Some(p.id), false, false), next.posts.len() - 1);
    }
}

/// Publishing a post that exists returns it with `published` set, and
/// changes nothing else of it. Where the post is not deleted, the public
/// read then finds it.
pub proof fn law_published_is_visible(s: StoreView, id: i32)
    requires
        s.wf(),
        s.has_post(id),
    ensures
        ({
            let (next, r) = post::published(s, id);
            &&& r == Ok::<PostView, Error>(PostView { published: true, ..s.post(id) })
            &&& !s.post(id).deleted ==> found(next, id, true, true) == r
        }),
{
    lemma_rewritten(s.posts, post_id(), s.last_post, id, post_is(id), post_published(id));
    let (next, r) = post::published(s, id);
    let i = s.post_index(id);
    if !s.post(id).deleted {
        lemma_filter_one(next.posts, post_selected(Some(id), true, true), i);
    }
}

/// Deleting a post that exists changes one row: the post stays in its
/// table, marked as deleted, where a read that admits deleted posts finds
/// it and a read that does not, does not. The next purge removes it, and
/// the purge after that finds nothing to remove.
pub proof fn law_post_deleted_until_purged(s: StoreView, id: i32)
    requires
        s.wf(),
        s.has_post(id),
    ensures
        ({
            let (s1, r1) = post::deleted(s, id);
            let (s2, r2) = post::purged(s1);
            let (s3, r3) = post::purged(s2);
            &&& r1 == Ok::<usize, Error>(1)
            &&& found(s1, id, false, false) == Ok::<PostView, Error>(PostView { deleted: true, ..s.post(id) })
            &&& found(s1, id, false, true) == Err::<PostView, Error>(Error::RecordNotFound)
            &&& r2 matches Ok(n) && n >= 1
            &&& !s2.has_post(id)
            &&& found(s2, id, false, false) == Err::<PostView, Error>(Error::RecordNotFound)
            &&& r3 == Ok::<usize, Error>(0)
            &&& s3 == s2
        }),
{
    let (s1, r1) = post::deleted(s, id);
    let (s2, r2) = post::purged(s1);
    let i = s.post_index(id);
    lemma_rewritten(s.posts, post_id(), s.last_post, id, post_is(id), post_marked(id));
    lemma_filter_one(s1.posts, post_selected(Some(id), false, false), i);
    lemma_filter_none(s1.posts, post_selected(Some(id), false, true));
    lemma_keys_bound(s1.posts, post_id(), s1.last_post);
    lemma_filtered(s1.posts, post_id(), s1.last_post, post_kept());
    lemma_filter_drops(s1.posts, post_kept(), i);
    assert forall|a: int| 0 <= a < s2.posts.len() implies (#[trigger] s2.posts[a]).id != id by {
        let j = choose|j: int| 0 <= j < s1.posts.len() && s1.posts[j] == s2.posts[a];
        assert(j != i);
    }
    lemma_filter_none(s2.posts, post_selected(Some(id), false, false));
    lemma_filter_all(s2.posts, post_kept());
}

/// Deleting a comment that exists changes one row; the comment stays in
/// its table, marked as deleted, until the next purge removes it, and the
/// purge after that finds nothing to remove.
pub proof fn law_comment_deleted_until_purged(s: StoreView, id: i32)
    requires
        s.wf(),
        s.has_comment(id),
    ensures
        ({
            let (s1, r1) = comment::deleted(s, id);
            let (s2, r2) = comment::purged(s1);
            let (s3, r3) = comment::purged(s2);
            &&& r1 == Ok::<usize, Error>(1)
            &&& s1.select_comments(Some(id), false) == seq![CommentView { deleted: true, ..s.comment(id) }]
            &&& s1.select_comments(Some(id), true) == Seq::<CommentView>::empty()
            &&& r2 matches Ok(n) && n >= 1
            &&& !s2.has_comment(id)
            &&& s2.select_comments(Some(id), false) == Seq::<CommentView>::empty()
            &&& r3 == Ok::<usize, Error>(0)
            &&& s3 == s2
        }),
{
    let (s1, r1) = comment::deleted(s, id);
    let (s2, r2) = comment::purged(s1);
    let i = s.comment_index(id);
    lemma_rewritten(s.comments, comment_id(), s.last_comment, id, comment_is(id), comment_marked(id));
    lemma_filter_one(s1.comments, comment_selected(Some(id), false), i);
    lemma_filter_none(s1.comments, comment_selected(Some(id), true));
    lemma_keys_bound(s1.comments, comment_id(), s1.last_comment);
    lemma_filtered(s1.comments, comment_id(), s1.last_comment, comment_kept());
    lemma_filter_drops(s1.comments, comment_kept(), i);
    assert forall|a: int| 0 <= a < s2.comments.len() implies (#[trigger] s2.comments[a]).id != id by {
        let j = choose|j: int| 0 <= j < s1.comments.len() && s1.comments[j] == s2.comments[a];
        assert(j != i);
    }
    lemma_filter_none(s2.comments, comment_selected(Some(id), false));
    lemma_filter_all(s2.comments, comment_kept());
}

/// Creating a post leaves the list of published posts as it is.
pub proof fn law_listing_ignores_drafts(
    s: StoreView,
    title: Seq<char>,
    category: Seq<char>,
    body: Seq<char>,
    now: i64,
)
    ensures
        post::created(s, title, category, body, now).0.select_posts(None, true, true) == s.select_posts(
            None,
            true,
            true,
        ),
{
    let (next, r) = post::created(s, title, category, body, now);
    if let Ok(p) = r {
        s.posts.lemma_filter_push(p, post_selected(None, true, true));
    }
}

/// Publishing a draft that is not deleted makes the list of published
/// posts longer by one; publishing any other post, or none, leaves the
/// list as it is.
pub proof fn law_listing_counts_published(s: StoreView, id: i32)
    requires
        s.wf(),
    ensures
        ({
            let before = s.select_posts(None, true, true);
            let after = post::published(s, id).0.select_posts(None, true, true);
            if s.has_post(id) && !s.post(id).published && !s.post(id).deleted {
                after.len() == before.len() + 1
            } else {
                after == before
            }
        }),
{
    let listed = post_selected(None, true, true);
    lemma_rewritten(s.posts, post_id(), s.last_post, id, post_is(id), post_published(id));
    if s.has_post(id) {
        let i = s.post_index(id);
        let row = PostView { published: true, ..s.post(id) };
        lemma_filter_update(s.posts, listed, i, row);
        lemma_filter_single(s.posts[i], listed);
        lemma_filter_single(row, listed);
    }
}

/// A comment on a post or by a visitor that has no row is refused as a
/// violation of a foreign key, and leaves the store as it is; no other
/// comment is refused so.
pub proof fn law_comment_needs_post_and_visitor(s: StoreView, pid: i32, vid: i32, body: Seq<char>, now: i64)
    ensures
        ({
            let (next, r) = comment::created(s, pid, vid, body, now);
            &&& !s.has_post(pid) || !s.has_visitor(vid) <==> r == Err::<CommentView, Error>(
                Error::ForeignKeyViolation,
            )
            &&& r is Err ==> next == s
            &&& r matches Ok(c) ==> c.pid == pid && c.vid == vid && c.body == body
        }),
{
}

/// Deleting a visitor that exists removes its row: no read finds it
/// again, and no visitor created later gets its id.
pub proof fn law_visitor_removed_for_good(s: StoreView, id: i32)
    requires
        s.wf(),
        s.has_visitor(id),
    ensures
        ({
            let (next, r) = visitor::deleted(s, id);
            &&& r == Ok::<usize, Error>(1)
            &&& next.wf()
            &&& !next.has_visitor(id)
            &&& next.select_visitors(Some(id)) == Seq::<VisitorView>::empty()
            &&& forall|name: Seq<char>, mail: Seq<char>, site: Option<Seq<char>>, now: i64|
                (#[trigger] visitor::created(next, name, mail, site, now)).1 matches Ok(v) ==> v.id != id
        }),
{
    let (next, r) = visitor::deleted(s, id);
    lemma_removed(s.visitors, visitor_id(), s.last_visitor, id, visitor_is_not(id));
    lemma_keys_bound(s.visitors, visitor_id(), s.last_visitor);
    lemma_filter_none(next.visitors, visitor_selected(Some(id)));
}

/// A write aimed at a post that has no row reports that the record was
/// not found and leaves the store as it is.
pub proof fn law_missing_post_not_found(
    s: StoreView,
    id: i32,
    title: Seq<char>,
    category: Seq<char>,
    body: Seq<char>,
    now: i64,
)
    requires
        s.wf(),
        !s.has_post(id),
    ensures
        post::updated(s, id, title, category, body, now) == (s, Err::<PostView, Error>(Error::RecordNotFound)),
        post::published(s, id) == (s, Err::<PostView, Error>(Error::RecordNotFound)),
        post::deleted(s, id) == (s, Err::<usize, Error>(Error::RecordNotFound)),
        forall|published_only: bool, non_deleted_only: bool|
            #[trigger] found(s, id, published_only, non_deleted_only) == Err::<PostView, Error>(
                Error::RecordNotFound,
            ),
{
    lemma_rewritten(
        s.posts,
        post_id(),
        s.last_post,
        id,
        post_is(id),
        post_revised(id, title, category, body, now),
    );
    lemma_rewritten(s.posts, post_id(), s.last_post, id, post_is(id), post_published(id));
    lemma_rewritten(s.posts, post_id(), s.last_post, id, post_is(id), post_marked(id));
    assert forall|published_only: bool, non_deleted_only: bool|
        #[trigger] found(s, id, published_only, non_deleted_only) == Err::<PostView, Error>(
            Error::RecordNotFound,
        ) by {
        lemma_filter_none(s.posts, post_selected(Some(id), published_only, non_deleted_only));
    }
}

/// A write aimed at a visitor that has no row reports that the record was
/// not found and leaves the store as it is.
pub proof fn law_missing_visitor_not_found(
    s: StoreView,
    id: i32,
    name: Seq<char>,
    mail: Seq<char>,
    site: Option<Seq<char>>,
)
    requires
        s.wf(),
        !s.has_visitor(id),
    ensures
        visitor::updated(s, id, name, mail, site) == (s, Err::<VisitorView, Error>(Error::RecordNotFound)),
        visitor::deleted(s, id) == (s, Err::<usize, Error>(Error::RecordNotFound)),
{
    lemma_rewritten(
        s.visitors,
        visitor_id(),
        s.last_visitor,
        id,
        visitor_is(id),
        visitor_revised(id, name, mail, site),
    );
    lemma_removed(s.visitors, visitor_id(), s.last_visitor, id, visitor_is_not(id));
}

/// A write aimed at a comment that has no row reports that the record was
/// not found and leaves the store as it is.
pub proof fn law_missing_comment_not_found(s: StoreView, id: i32, body: Seq<char>, now: i64)
    requires
        s.wf(),
        !s.has_comment(id),
    ensures
        comment::updated(s, id, body, now) == (s, Err::<CommentView, Error>(Error::RecordNotFound)),
        comment::deleted(s, id) == (s, Err::<usize, Error>(Error::RecordNotFound)),
{
    lemma_rewritten(
        s.comments,
        comment_id(),
        s.last_comment,
        id,
        comment_is(id),
        comment_revised(id, body, now),
    );
    lemma_rewritten(s.comments, comment_id(), s.last_comment, id, comment_is(id), comment_marked(id));
}

/// What a write may do to a post that it leaves in the table: the id and
/// the instant of creation stay, and neither `published` nor `deleted` is
/// cleared.
pub open spec fn post_carried(before: PostView, after: PostView) -> bool {
    &&& after.id == before.id
    &&& after.created == before.created
    &&& before.published ==> after.published
    &&& before.deleted ==> after.deleted
}

/// Every post of `s` that `next` still holds is carried over, and `next`
/// holds no post that `s` did not hold but ones with a new id.
pub open spec fn posts_carried(s: StoreView, next: StoreView) -> bool {
    &&& s.last_post <= next.last_post
    &&& forall|id: i32|
        s.has_post(id) && #[trigger] next.has_post(id) ==> post_carried(s.post(id), next.post(id))
    &&& forall|id: i32| !s.has_post(id) && #[trigger] next.has_post(id) ==> id > s.last_post
}

/// What a write may do to a comment that it leaves in the table: the id,
/// the post, the visitor and the instant of creation stay, and `deleted` is
/// not cleared.
pub open spec fn comment_carried(before: CommentView, after: CommentView) -> bool {
    &&& after.id == before.id
    &&& after.pid == before.pid
    &&& after.vid == before.vid
    &&& after.created == before.created
    &&& before.deleted ==> after.deleted
}

/// Every comment of `s` that `next` still holds is carried over, and
/// `next` holds no comment that `s` did not hold but ones with a new id.
pub open spec fn comments_carried(s: StoreView, next: StoreView) -> bool {
    &&& s.last_comment <= next.last_comment
    &&& forall|id: i32|
        s.has_comment(id) && #[trigger] next.has_comment(id) ==> comment_carried(
            s.comment(id),
            next.comment(id),
        )
    &&& forall|id: i32| !s.has_comment(id) && #[trigger] next.has_comment(id) ==> id > s.last_comment
}

/// The rows of a table that pass a filter are rows of the table, each
/// under its own id.
proof fn lemma_posts_filtered(s: StoreView, keep: spec_fn(PostView) -> bool, id: i32)
    requires
        s.wf(),
        has_key(s.posts.filter(keep), post_id(), id),
    ensures
        s.has_post(id),
        s.posts.filter(keep)[index_of_key(s.posts.filter(keep), post_id(), id)] == s.post(id),
{
    let kept = s.posts.filter(keep);
    lemma_filtered(s.posts, post_id(), s.last_post, keep);
    let a = index_of_key(kept, post_id(), id);
    let j = choose|j: int| 0 <= j < s.posts.len() && s.posts[j] == kept[a];
    lemma_key_is_at(s.posts, post_id(), s.last_post, id, j);
}

/// The rows of a table that pass a filter are rows of the table, each
/// under its own id.
proof fn lemma_comments_filtered(s: StoreView, keep: spec_fn(CommentView) -> bool, id: i32)
    requires
        s.wf(),
        has_key(s.comments.filter(keep), comment_id(), id),
    ensures
        s.has_comment(id),
        s.comments.filter(keep)[index_of_key(s.comments.filter(keep), comment_id(), id)] == s.comment(id),
{
    let kept = s.comments.filter(keep);
    lemma_filtered(s.comments, comment_id(), s.last_comment, keep);
    let a = index_of_key(kept, comment_id(), id);
    let j = choose|j: int| 0 <= j < s.comments.len() && s.comments[j] == kept[a];
    lemma_key_is_at(s.comments, comment_id(), s.last_comment, id, j);
}

/// The life of a post runs one way: whatever is written to the posts, the
/// tables stay in order, a post that stays keeps its id and the instant of
/// its creation, a published post stays published and a deleted post stays
/// deleted until it is purged. An id that was handed out is not handed out
/// again.
pub proof fn law_post_life_is_one_way(
    s: StoreView,
    id: i32,
    title: Seq<char>,
    category: Seq<char>,
    body: Seq<char>,
    now: i64,
)
    requires
        s.wf(),
    ensures
        ({
            let next = post::created(s, title, category, body, now).0;
            next.wf() && posts_carried(s, next)
        }),
        ({
            let next = post::updated(s, id, title, category, body, now).0;
            next.wf() && posts_carried(s, next)
        }),
        ({
            let next = post::published(s, id).0;
            next.wf() && posts_carried(s, next)
        }),
        ({
            let next = post::deleted(s, id).0;
            next.wf() && posts_carried(s, next)
        }),
        ({
            let next = post::purged(s).0;
            next.wf() && posts_carried(s, next)
        }),
{
    let (next, r) = post::created(s, title, category, body, now);
    if let Ok(p) = r {
        assert(next.wf());
        assert forall|k: i32| #[trigger] next.has_post(k) implies if s.has_post(k) {
            post_carried(s.post(k), next.post(k))
        } else {
            k > s.last_post
        } by {
            let j = next.post_index(k);
            if j < s.posts.len() {
                assert(next.posts[j] == s.posts[j]);
                lemma_key_is_at(s.posts, post_id(), s.last_post, k, j);
            } else {
                if s.has_post(k) {
                    let i = s.post_index(k);
                    assert(next.posts[i] == s.posts[i]);
                    lemma_key_is_at(next.posts, post_id(), next.last_post, k, i);
                }
            }
        }
    }
    let revise = post_revised(id, title, category, body, now);
    assert forall|k: i32| #[trigger] has_key(s.posts.map_values(revise), post_id(), k) implies s.has_post(k)
        && post_carried(
        s.post(k),
        s.posts.map_values(revise)[index_of_key(s.posts.map_values(revise), post_id(), k)],
    ) by {
        lemma_rewrite_keeps_places(s.posts, post_id(), s.last_post, revise, k);
    }
    lemma_rewrite_keeps_places(s.posts, post_id(), s.last_post, revise, id);
    let publish = post_published(id);
    assert forall|k: i32| #[trigger] has_key(s.posts.map_values(publish), post_id(), k) implies s.has_post(k)
        && post_carried(
        s.post(k),
        s.posts.map_values(publish)[index_of_key(s.posts.map_values(publish), post_id(), k)],
    ) by {
        lemma_rewrite_keeps_places(s.posts, post_id(), s.last_post, publish, k);
    }
    lemma_rewrite_keeps_places(s.posts, post_id(), s.last_post, publish, id);
    let mark = post_marked(id);
    assert forall|k: i32| #[trigger] has_key(s.posts.map_values(mark), post_id(), k) implies s.has_post(k)
        && post_carried(
        s.post(k),
        s.posts.map_values(mark)[index_of_key(s.posts.map_values(mark), post_id(), k)],
    ) by {
        lemma_rewrite_keeps_places(s.posts, post_id(), s.last_post, mark, k);
    }
    lemma_rewrite_keeps_places(s.posts, post_id(), s.last_post, mark, id);
    lemma_filtered(s.posts, post_id(), s.last_post, post_kept());
    assert forall|k: i32| #[trigger] has_key(s.posts.filter(post_kept()), post_id(), k) implies s.has_post(k)
        && post_carried(
        s.post(k),
        s.posts.filter(post_kept())[index_of_key(s.posts.filter(post_kept()), post_id(), k)],
    ) by {
        lemma_posts_filtered(s, post_kept(), k);
    }
}

/// The life of a comment runs one way: whatever is written to the
/// comments, the tables stay in order, a comment that stays keeps its id,
/// its post, its visitor and the instant of its creation, and a deleted
/// comment stays deleted until it is purged. An id that was handed out is
/// not handed out again.
pub proof fn law_comment_life_is_one_way(
    s: StoreView,
    id: i32,
    pid: i32,
    vid: i32,
    body: Seq<char>,
    now: i64,
)
    requires
        s.wf(),
    ensures
        ({
            let next = comment::created(s, pid, vid, body, now).0;
            next.wf() && comments_carried(s, next)
        }),
        ({
            let next = comment::updated(s, id, body, now).0;
            next.wf() && comments_carried(s, next)
        }),
        ({
            let next = comment::deleted(s, id).0;
            next.wf() && comments_carried(s, next)
        }),
        ({
            let next = comment::purged(s).0;
            next.wf() && comments_carried(s, next)
        }),
{
    let (next, r) = comment::created(s, pid, vid, body, now);
    if let Ok(c) = r {
        assert(next.wf());
        assert forall|k: i32| #[trigger] next.has_comment(k) implies if s.has_comment(k) {
            comment_carried(s.comment(k), next.comment(k))
        } else {
            k > s.last_comment
        } by {
            let j = next.comment_index(k);
            if j < s.comments.len() {
                assert(next.comments[j] == s.comments[j]);
                lemma_key_is_at(s.comments, comment_id(), s.last_comment, k, j);
            } else {
                if s.has_comment(k) {
                    let i = s.comment_index(k);
                    assert(next.comments[i] == s.comments[i]);
                    lemma_key_is_at(next.comments, comment_id(), next.last_comment, k, i);
                }
            }
        }
    }
    let revise = comment_revised(id, body, now);
    assert forall|k: i32| #[trigger]
        has_key(s.comments.map_values(revise), comment_id(), k) implies s.has_comment(k) && comment_carried(
        s.comment(k),
        s.comments.map_values(revise)[index_of_key(s.comments.map_values(revise), comment_id(), k)],
    ) by {
        lemma_rewrite_keeps_places(s.comments, comment_id(), s.last_comment, revise, k);
    }
    lemma_rewrite_keeps_places(s.comments, comment_id(), s.last_comment, revise, id);
    let mark = comment_marked(id);
    assert forall|k: i32| #[trigger]
        has_key(s.comments.map_values(mark), comment_id(), k) implies s.has_comment(k) && comment_carried(
        s.comment(k),
        s.comments.map_values(mark)[index_of_key(s.comments.map_values(mark), comment_id(), k)],
    ) by {
        lemma_rewrite_keeps_places(s.comments, comment_id(), s.last_comment, mark, k);
    }
    lemma_rewrite_keeps_places(s.comments, comment_id(), s.last_comment, mark, id);
    lemma_filtered(s.comments, comment_id(), s.last_comment, comment_kept());
    assert forall|k: i32| #[trigger]
        has_key(s.comments.filter(comment_kept()), comment_id(), k) implies s.has_comment(k)
        && comment_carried(
        s.comment(k),
        s.comments.filter(comment_kept())[index_of_key(s.comments.filter(comment_kept()), comment_id(), k)],
    ) by {
        lemma_comments_filtered(s, comment_kept(), k);
    }
}

/// Every visitor of `s` that `next` still holds has kept its id and the
/// instant of its creation, and `next` holds no visitor that `s` did not
/// hold but ones with a new id.
pub open spec fn visitors_carried(s: StoreView, next: StoreView) -> bool {
    &&& s.last_visitor <= next.last_visitor
    &&& forall|id: i32|
        s.has_visitor(id) && #[trigger] next.has_visitor(id) ==> {
            &&& next.visitor(id).id == id
            &&& next.visitor(id).created == s.visitor(id).created
        }
    &&& forall|id: i32| !s.has_visitor(id) && #[trigger] next.has_visitor(id) ==> id > s.last_visitor
}

/// Whatever is written to the visitors, the tables stay in order and a
/// visitor that stays keeps its id and the instant of its creation. An id
/// that was handed out is not handed out again.
pub proof fn law_visitor_keeps_its_identity(
    s: StoreView,
    id: i32,
    name: Seq<char>,
    mail: Seq<char>,
    site: Option<Seq<char>>,
    now: i64,
)
    requires
        s.wf(),
    ensures
        ({
            let next = visitor::created(s, name, mail, site, now).0;
            next.wf() && visitors_carried(s, next)
        }),
        ({
            let next = visitor::updated(s, id, name, mail, site).0;
            next.wf() && visitors_carried(s, next)
        }),
        ({
            let next = visitor::deleted(s, id).0;
            next.wf() && visitors_carried(s, next)
        }),
{
    let (next, r) = visitor::created(s, name, mail, site, now);
    if let Ok(v) = r {
        assert(next.wf());
        assert forall|k: i32| #[trigger] next.has_visitor(k) implies if s.has_visitor(k) {
            next.visitor(k).id == k && next.visitor(k).created == s.visitor(k).created
        } else {
            k > s.last_visitor
        } by {
            let j = next.visitor_index(k);
            if j < s.visitors.len() {
                assert(next.visitors[j] == s.visitors[j]);
                lemma_key_is_at(s.visitors, visitor_id(), s.last_visitor, k, j);
            } else {
                if s.has_visitor(k) {
                    let i = s.visitor_index(k);
                    assert(next.visitors[i] == s.visitors[i]);
                    lemma_key_is_at(next.visitors, visitor_id(), next.last_visitor, k, i);
                }
            }
        }
    }
    let revise = visitor_revised(id, name, mail, site);
    let revised = s.visitors.map_values(revise);
    assert forall|k: i32| #[trigger] has_key(revised, visitor_id(), k) implies s.has_visitor(k) && revised[
        index_of_key(revised, visitor_id(), k)
    ].id == k && revised[index_of_key(revised, visitor_id(), k)].created == s.visitor(k).created by {
        lemma_rewrite_keeps_places(s.visitors, visitor_id(), s.last_visitor, revise, k);
    }
    lemma_rewrite_keeps_places(s.visitors, visitor_id(), s.last_visitor, revise, id);
    let rest = s.visitors.filter(visitor_is_not(id));
    lemma_filtered(s.visitors, visitor_id(), s.last_visitor, visitor_is_not(id));
    assert forall|k: i32| #[trigger] has_key(rest, visitor_id(), k) implies s.has_visitor(k) && rest[
        index_of_key(rest, visitor_id(), k)
    ] == s.visitor(k) by {
        let a = index_of_key(rest, visitor_id(), k);
        let j = choose|j: int| 0 <= j < s.visitors.len() && s.visitors[j] == rest[a];
        lemma_key_is_at(s.visitors, visitor_id(), s.last_visitor, k, j);
    }
}

} // verus!
