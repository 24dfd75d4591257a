//! Facts about filtered sequences and about rows in the order of their
//! keys, on which the tables rest.

use vstd::prelude::*;

verus! {

/// The view of each row, in order.
pub open spec fn views<R: View>(rows: Seq<R>) -> Seq<R::V> {
    rows.map_values(|r: R| r@)
}

/// A filter that no element passes leaves nothing.
pub proof fn lemma_filter_none<A>(s: Seq<A>, pred: spec_fn(A) -> bool)
    requires
        forall|i: int| 0 <= i < s.len() ==> !pred(#[trigger] s[i]),
    ensures
        s.filter(pred) == Seq::<A>::empty(),
    decreases s.len(),
{
    if s.len() == 0 {
        reveal(Seq::filter);
        assert(s.filter(pred) =~= Seq::<A>::empty());
    } else {
        lemma_filter_none(s.drop_last(), pred);
        s.drop_last().lemma_filter_push(s.last(), pred);
        assert(s.drop_last().push(s.last()) =~= s);
    }
}

/// A filter that every element passes leaves the sequence as it is.
pub proof fn lemma_filter_all<A>(s: Seq<A>, pred: spec_fn(A) -> bool)
    requires
        forall|i: int| 0 <= i < s.len() ==> pred(#[trigger] s[i]),
    ensures
        s.filter(pred) == s,
    decreases s.len(),
{
    if s.len() == 0 {
        reveal(Seq::filter);
        assert(s.filter(pred) =~= s);
    } else {
        lemma_filter_all(s.drop_last(), pred);
        s.drop_last().lemma_filter_push(s.last(), pred);
        assert(s.drop_last().push(s.last()) =~= s);
    }
}

/// A filter of a single element keeps it or leaves nothing.
pub proof fn lemma_filter_single<A>(x: A, pred: spec_fn(A) -> bool)
    ensures
        seq![x].filter(pred) == if pred(x) {
            seq![x]
        } else {
            Seq::<A>::empty()
        },
{
    let e = Seq::<A>::empty();
    lemma_filter_none(e, pred);
    e.lemma_filter_push(x, pred);
    assert(e.push(x) =~= seq![x]);
}

/// A filter of a sequence with one element replaced: the parts before and
/// after the element are filtered as they were.
pub proof fn lemma_filter_update<A>(s: Seq<A>, pred: spec_fn(A) -> bool, i: int, x: A)
    requires
        0 <= i < s.len(),
    ensures
        s.filter(pred) == s.take(i).filter(pred) + seq![s[i]].filter(pred) + s.skip(i + 1).filter(
            pred,
        ),
        s.update(i, x).filter(pred) == s.take(i).filter(pred) + seq![x].filter(pred) + s.skip(
            i + 1,
        ).filter(pred),
{
    let before = s.take(i);
    let after = s.skip(i + 1);
    assert(s =~= before + seq![s[i]] + after);
    assert(s.update(i, x) =~= before + seq![x] + after);
    Seq::filter_distributes_over_add(before + seq![s[i]], after, pred);
    Seq::filter_distributes_over_add(before, seq![s[i]], pred);
    Seq::filter_distributes_over_add(before + seq![x], after, pred);
    Seq::filter_distributes_over_add(before, seq![x], pred);
}

/// The first element that passes a filter is the first that the filter
/// leaves.
pub proof fn lemma_filter_first<A>(s: Seq<A>, pred: spec_fn(A) -> bool, i: int)
    requires
        0 <= i < s.len(),
        pred(s[i]),
        forall|j: int| 0 <= j < i ==> !pred(#[trigger] s[j]),
    ensures
        s.filter(pred).len() > 0,
        s.filter(pred)[0] == s[i],
{
    lemma_filter_update(s, pred, i, s[i]);
    lemma_filter_none(s.take(i), pred);
    lemma_filter_single(s[i], pred);
}

/// A filter that exactly one element passes leaves that element alone.
pub proof fn lemma_filter_one<A>(s: Seq<A>, pred: spec_fn(A) -> bool, i: int)
    requires
        0 <= i < s.len(),
        pred(s[i]),
        forall|j: int| 0 <= j < s.len() && j != i ==> !pred(#[trigger] s[j]),
    ensures
        s.filter(pred) == seq![s[i]],
{
    lemma_filter_update(s, pred, i, s[i]);
    lemma_filter_none(s.take(i), pred);
    lemma_filter_none(s.skip(i + 1), pred);
    lemma_filter_single(s[i], pred);
    assert(Seq::<A>::empty() + seq![s[i]] + Seq::<A>::empty() =~= seq![s[i]]);
}

/// A filter that every element but one passes removes that element.
pub proof fn lemma_filter_all_but_one<A>(s: Seq<A>, pred: spec_fn(A) -> bool, i: int)
    requires
        0 <= i < s.len(),
        !pred(s[i]),
        forall|j: int| 0 <= j < s.len() && j != i ==> pred(#[trigger] s[j]),
    ensures
        s.filter(pred) == s.remove(i),
{
    lemma_filter_update(s, pred, i, s[i]);
    lemma_filter_all(s.take(i), pred);
    lemma_filter_all(s.skip(i + 1), pred);
    lemma_filter_single(s[i], pred);
    assert(s.take(i) + Seq::<A>::empty() + s.skip(i + 1) =~= s.remove(i));
}

/// A filter that some element fails leaves fewer elements than there were.
pub proof fn lemma_filter_drops<A>(s: Seq<A>, pred: spec_fn(A) -> bool, i: int)
    requires
        0 <= i < s.len(),
        !pred(s[i]),
    ensures
        s.filter(pred).len() < s.len(),
{
    lemma_filter_update(s, pred, i, s[i]);
    lemma_filter_single(s[i], pred);
    s.take(i).lemma_filter_len(pred);
    s.skip(i + 1).lemma_filter_len(pred);
}

/// The keys of the rows rise along the sequence and lie between 1 and
/// `last`, so no key occurs twice.
pub open spec fn keys_ok<A>(s: Seq<A>, key: spec_fn(A) -> i32, last: i32) -> bool {
    &&& 0 <= last
    &&& forall|i: int| 0 <= i < s.len() ==> 0 < key(#[trigger] s[i]) <= last
    &&& forall|i: int, j: int| 0 <= i < j < s.len() ==> key(#[trigger] s[i]) < key(#[trigger] s[j])
}

/// Whether a row has the key `k`.
pub open spec fn has_key<A>(s: Seq<A>, key: spec_fn(A) -> i32, k: i32) -> bool {
    exists|i: int| 0 <= i < s.len() && key(#[trigger] s[i]) == k
}

/// Where the row with the key `k` stands.
pub open spec fn index_of_key<A>(s: Seq<A>, key: spec_fn(A) -> i32, k: i32) -> int {
    choose|i: int| 0 <= i < s.len() && key(#[trigger] s[i]) == k
}

/// The row with the key `k` stands where a row with that key stands.
pub proof fn lemma_key_is_at<A>(s: Seq<A>, key: spec_fn(A) -> i32, last: i32, k: i32, i: int)
    requires
        keys_ok(s, key, last),
        0 <= i < s.len(),
        key(s[i]) == k,
    ensures
        has_key(s, key, k),
        index_of_key(s, key, k) == i,
{
    let j = index_of_key(s, key, k);
    if j < i {
        assert(key(s[j]) < key(s[i]));
    } else if i < j {
        assert(key(s[i]) < key(s[j]));
    }
}

/// The key of a row is greater than the number of rows before it.
pub proof fn lemma_keys_at_least<A>(s: Seq<A>, key: spec_fn(A) -> i32, last: i32, i: int)
    requires
        keys_ok(s, key, last),
        0 <= i < s.len(),
    ensures
        key(s[i]) > i,
    decreases i,
{
    if i > 0 {
        lemma_keys_at_least(s, key, last, i - 1);
        assert(key(s[i - 1]) < key(s[i]));
    }
}

/// There are no more rows than keys handed out.
pub proof fn lemma_keys_bound<A>(s: Seq<A>, key: spec_fn(A) -> i32, last: i32)
    requires
        keys_ok(s, key, last),
    ensures
        s.len() <= last,
    decreases s.len(),
{
    if s.len() > 0 {
        lemma_keys_at_least(s, key, last, s.len() - 1);
    }
}

/// Rewriting the row with the key `k`, and keeping its key, changes one row
/// where there is such a row and nothing where there is none.
pub proof fn lemma_rewritten<A>(
    s: Seq<A>,
    key: spec_fn(A) -> i32,
    last: i32,
    k: i32,
    is_k: spec_fn(A) -> bool,
    rewrite: spec_fn(A) -> A,
)
    requires
        keys_ok(s, key, last),
        forall|a: A| #[trigger] is_k(a) <==> key(a) == k,
        forall|a: A| key(#[trigger] rewrite(a)) == key(a),
        forall|a: A| key(a) != k ==> #[trigger] rewrite(a) == a,
    ensures
        keys_ok(s.map_values(rewrite), key, last),
        has_key(s.map_values(rewrite), key, k) <==> has_key(s, key, k),
        has_key(s, key, k) ==> {
            let i = index_of_key(s, key, k);
            &&& 0 <= i < s.len()
            &&& key(s[i]) == k
            &&& s.filter(is_k) == seq![s[i]]
            &&& s.map_values(rewrite) == s.update(i, rewrite(s[i]))
            &&& s.map_values(rewrite).filter(is_k) == seq![rewrite(s[i])]
            &&& index_of_key(s.map_values(rewrite), key, k) == i
        },
        !has_key(s, key, k) ==> {
            &&& s.filter(is_k) == Seq::<A>::empty()
            &&& s.map_values(rewrite) == s
            &&& s.map_values(rewrite).filter(is_k) == Seq::<A>::empty()
        },
{
    let after = s.map_values(rewrite);
    assert(keys_ok(after, key, last));
    if has_key(s, key, k) {
        let i = index_of_key(s, key, k);
        lemma_filter_one(s, is_k, i);
        assert(after =~= s.update(i, rewrite(s[i])));
        lemma_filter_one(after, is_k, i);
        assert(key(after[i]) == k);
        let j = index_of_key(after, key, k);
        assert(key(after[j]) == k);
        assert(j == i) by {
            if j < i {
                assert(key(after[j]) < key(after[i]));
            } else if i < j {
                assert(key(after[i]) < key(after[j]));
            }
        }
    } else {
        lemma_filter_none(s, is_k);
        assert(after =~= s);
    }
}

/// Rewriting rows without changing their keys leaves each row in its
/// place.
pub proof fn lemma_rewrite_keeps_places<A>(
    s: Seq<A>,
    key: spec_fn(A) -> i32,
    last: i32,
    rewrite: spec_fn(A) -> A,
    k: i32,
)
    requires
        keys_ok(s, key, last),
        forall|a: A| key(#[trigger] rewrite(a)) == key(a),
    ensures
        keys_ok(s.map_values(rewrite), key, last),
        has_key(s.map_values(rewrite), key, k) <==> has_key(s, key, k),
        has_key(s, key, k) ==> {
            let i = index_of_key(s, key, k);
            &&& 0 <= i < s.len()
            &&& index_of_key(s.map_values(rewrite), key, k) == i
            &&& s.map_values(rewrite)[i] == rewrite(s[i])
        },
{
    let after = s.map_values(rewrite);
    assert(keys_ok(after, key, last));
    if has_key(s, key, k) {
        let i = index_of_key(s, key, k);
        assert(key(after[i]) == k);
        lemma_key_is_at(after, key, last, k, i);
    }
    if has_key(after, key, k) {
        let j = index_of_key(after, key, k);
        assert(key(s[j]) == k);
    }
}

/// Removing the row with the key `k` takes one row away where there is
/// such a row and nothing where there is none.
pub proof fn lemma_removed<A>(
    s: Seq<A>,
    key: spec_fn(A) -> i32,
    last: i32,
    k: i32,
    is_not_k: spec_fn(A) -> bool,
)
    requires
        keys_ok(s, key, last),
        forall|a: A| #[trigger] is_not_k(a) <==> key(a) != k,
    ensures
        keys_ok(s.filter(is_not_k), key, last),
        !has_key(s.filter(is_not_k), key, k),
        has_key(s, key, k) ==> {
            let i = index_of_key(s, key, k);
            &&& 0 <= i < s.len()
            &&& key(s[i]) == k
            &&& s.filter(is_not_k) == s.remove(i)
        },
        !has_key(s, key, k) ==> s.filter(is_not_k) == s,
{
    if has_key(s, key, k) {
        let i = index_of_key(s, key, k);
        lemma_filter_all_but_one(s, is_not_k, i);
        let after = s.remove(i);
        assert forall|a: int| 0 <= a < after.len() implies 0 < key(#[trigger] after[a]) <= last && key(
            after[a],
        ) != k by {
            if a < i {
                assert(after[a] == s[a]);
            } else {
                assert(after[a] == s[a + 1]);
            }
        }
        assert forall|a: int, b: int| 0 <= a < b < after.len() implies key(#[trigger] after[a]) < key(
            #[trigger] after[b],
        ) by {
            let x = if a < i {
                a
            } else {
                a + 1
            };
            let y = if b < i {
                b
            } else {
                b + 1
            };
            assert(after[a] == s[x]);
            assert(after[b] == s[y]);
        }
    } else {
        lemma_filter_all(s, is_not_k);
    }
}

/// A filter keeps the rows in order, and keeps only rows of the sequence
/// that pass it.
pub proof fn lemma_filtered<A>(s: Seq<A>, key: spec_fn(A) -> i32, last: i32, pred: spec_fn(A) -> bool)
    requires
        keys_ok(s, key, last),
    ensures
        keys_ok(s.filter(pred), key, last),
        s.filter(pred).len() <= s.len(),
        forall|a: int|
            0 <= a < s.filter(pred).len() ==> pred(#[trigger] s.filter(pred)[a]) && s.contains(
                s.filter(pred)[a],
            ),
        forall|i: int| 0 <= i < s.len() && pred(s[i]) ==> s.filter(pred).contains(#[trigger] s[i]),
    decreases s.len(),
{
    if s.len() == 0 {
        lemma_filter_none(s, pred);
    } else {
        let init = s.drop_last();
        let x = s.last();
        lemma_filtered(init, key, last, pred);
        init.lemma_filter_push(x, pred);
        assert(init.push(x) =~= s);
        let f = init.filter(pred);
        let g = s.filter(pred);
        assert forall|a: int| 0 <= a < f.len() implies key(#[trigger] f[a]) < key(x) && s.contains(
            f[a],
        ) by {
            assert(init.contains(f[a]));
            let j = choose|j: int| 0 <= j < init.len() && init[j] == f[a];
            assert(s[j] == f[a]);
            assert(key(s[j]) < key(s[s.len() - 1]));
        }
        assert forall|a: int| 0 <= a < g.len() implies pred(#[trigger] g[a]) && s.contains(g[a]) by {
            if a < f.len() {
                assert(g[a] == f[a]);
            } else {
                assert(g[a] == x);
                assert(s[s.len() - 1] == x);
            }
        }
        assert forall|i: int| 0 <= i < s.len() && pred(s[i]) implies g.contains(#[trigger] s[i]) by {
            if i < init.len() {
                assert(init[i] == s[i]);
                assert(f.contains(init[i]));
                let a = choose|a: int| 0 <= a < f.len() && f[a] == init[i];
                assert(g[a] == s[i]);
            } else {
                assert(g[g.len() - 1] == s[i]);
            }
        }
        assert forall|a: int| 0 <= a < g.len() implies 0 < key(#[trigger] g[a]) <= last by {
            if a < f.len() {
                assert(g[a] == f[a]);
            }
        }
        assert forall|a: int, b: int| 0 <= a < b < g.len() implies key(#[trigger] g[a]) < key(
            #[trigger] g[b],
        ) by {
            assert(g[a] == f[a]);
            if b < f.len() {
                assert(g[b] == f[b]);
            }
        }
    }
}

} // verus!
