//! The mathematical model of the interning table: a table is the sequence of
//! identifier values its backward storage holds, indexed by handle. The spec
//! functions here describe the insert-or-get transition, and the proof
//! functions state the laws the table obeys.

use crate::types::StructIdentifierView;
use vstd::prelude::*;

verus! {

/// Whether the identifier sequence holds `id`.
pub open spec fn contains_id(s: Seq<StructIdentifierView>, id: StructIdentifierView) -> bool {
    exists|k: int| 0 <= k < s.len() && s[k] == id
}

/// The position of `id` in `s`; meaningful only when `contains_id(s, id)`
/// holds and the entries of `s` are pairwise distinct.
pub open spec fn id_index(s: Seq<StructIdentifierView>, id: StructIdentifierView) -> int {
    choose|k: int| 0 <= k < s.len() && s[k] == id
}

/// Pairwise distinctness: no identifier occupies two positions.
pub open spec fn distinct_ids(s: Seq<StructIdentifierView>) -> bool {
    forall|i: int, j: int| 0 <= i < j < s.len() ==> s[i] != s[j]
}

/// The backward sequence after insert-or-get of `id`: unchanged when `id` is
/// already present, extended by `id` otherwise.
pub open spec fn interned_seq(
    s: Seq<StructIdentifierView>,
    id: StructIdentifierView,
) -> Seq<StructIdentifierView> {
    if contains_id(s, id) {
        s
    } else {
        s.push(id)
    }
}

/// The handle that insert-or-get of `id` returns: the existing position when
/// `id` is already present, the next dense handle otherwise.
pub open spec fn interned_index(s: Seq<StructIdentifierView>, id: StructIdentifierView) -> int {
    if contains_id(s, id) {
        id_index(s, id)
    } else {
        s.len() as int
    }
}

/// The table contents after inserting every identifier of `ids` in order.
pub open spec fn intern_all(
    s: Seq<StructIdentifierView>,
    ids: Seq<StructIdentifierView>,
) -> Seq<StructIdentifierView>
    decreases ids.len(),
{
    if ids.len() == 0 {
        s
    } else {
        intern_all(interned_seq(s, ids[0]), ids.drop_first())
    }
}

/// In a duplicate-free table, an identifier that is present occupies exactly
/// one position, and `id_index` names it.
pub proof fn lemma_id_index_unique(s: Seq<StructIdentifierView>, id: StructIdentifierView)
    requires
        distinct_ids(s),
        contains_id(s, id),
    ensures
        0 <= id_index(s, id) < s.len(),
        s[id_index(s, id)] == id,
        forall|k: int| 0 <= k < s.len() && s[k] == id ==> k == id_index(s, id),
{
    let x = id_index(s, id);
    assert(0 <= x < s.len() && s[x] == id);
    assert forall|k: int| 0 <= k < s.len() && s[k] == id implies k == x by {
        if k < x {
            assert(s[k] != s[x]);
        } else if x < k {
            assert(s[x] != s[k]);
        }
    }
}

/// Bijection and idempotence: insert-or-get of two equal identifiers returns
/// the same handle, in whatever order the calls come, and the second call
/// leaves the table unchanged.
pub proof fn lemma_intern_idempotent(
    s: Seq<StructIdentifierView>,
    a: StructIdentifierView,
    b: StructIdentifierView,
)
    requires
        distinct_ids(s),
        a == b,
    ensures
        interned_index(s, a) == interned_index(s, b),
        interned_seq(interned_seq(s, a), b) == interned_seq(s, a),
        interned_index(interned_seq(s, a), b) == interned_index(s, a),
{
    let s1 = interned_seq(s, a);
    if contains_id(s, a) {
        assert(s1 == s);
    } else {
        assert(s1 == s.push(a));
        assert(s1[s.len() as int] == a);
        assert(contains_id(s1, a));
        lemma_intern_preserves_distinct(s, a);
        lemma_id_index_unique(s1, a);
        assert forall|k: int| 0 <= k < s1.len() && s1[k] == a implies k == s.len() as int by {
            if k < s.len() {
                assert(s[k] == a);
                assert(contains_id(s, a));
            }
        }
        assert(id_index(s1, a) == s.len() as int);
    }
}

/// Insert-or-get keeps the table duplicate-free.
pub proof fn lemma_intern_preserves_distinct(s: Seq<StructIdentifierView>, id: StructIdentifierView)
    requires
        distinct_ids(s),
    ensures
        distinct_ids(interned_seq(s, id)),
{
    if !contains_id(s, id) {
        let s1 = s.push(id);
        assert forall|i: int, j: int| 0 <= i < j < s1.len() implies s1[i] != s1[j] by {
            if j < s.len() {
                assert(s[i] != s[j]);
            } else {
                assert(s1[j] == id);
                if s1[i] == id {
                    assert(s[i] == id);
                    assert(contains_id(s, id));
                }
            }
        }
    }
}

/// The returned handle names the identifier that was interned: looking the
/// handle up in the resulting table yields the identifier back.
pub proof fn lemma_intern_lookup(s: Seq<StructIdentifierView>, id: StructIdentifierView)
    requires
        distinct_ids(s),
    ensures
        distinct_ids(interned_seq(s, id)),
        0 <= interned_index(s, id) < interned_seq(s, id).len(),
        interned_seq(s, id)[interned_index(s, id)] == id,
{
    lemma_intern_preserves_distinct(s, id);
    if contains_id(s, id) {
        lemma_id_index_unique(s, id);
    } else {
        assert(interned_seq(s, id)[s.len() as int] == id);
    }
}

/// Stability and no silent eviction: once an identifier is present, interning
/// any further identifier — equal or not — leaves its handle unchanged.
pub proof fn lemma_handle_stable(
    s: Seq<StructIdentifierView>,
    a: StructIdentifierView,
    b: StructIdentifierView,
)
    requires
        distinct_ids(s),
        contains_id(s, a),
    ensures
        contains_id(interned_seq(s, b), a),
        interned_index(interned_seq(s, b), a) == interned_index(s, a),
{
    let s1 = interned_seq(s, b);
    lemma_id_index_unique(s, a);
    let x = id_index(s, a);
    if contains_id(s, b) {
        assert(s1 == s);
    } else {
        assert(s1 == s.push(b));
        assert(s1[x] == a);
        assert(contains_id(s1, a));
        lemma_intern_preserves_distinct(s, b);
        lemma_id_index_unique(s1, a);
        assert(id_index(s1, a) == x);
    }
}

/// Distinct identifiers never share a handle.
pub proof fn lemma_distinct_handles(
    s: Seq<StructIdentifierView>,
    a: StructIdentifierView,
    b: StructIdentifierView,
)
    requires
        distinct_ids(s),
        contains_id(s, a),
        contains_id(s, b),
        a != b,
    ensures
        id_index(s, a) != id_index(s, b),
{
    lemma_id_index_unique(s, a);
    lemma_id_index_unique(s, b);
}

/// Interning a batch of identifiers, none of which is already present and no
/// two of which are equal, appends them in order.
pub proof fn lemma_intern_all_fresh(s: Seq<StructIdentifierView>, ids: Seq<StructIdentifierView>)
    requires
        distinct_ids(s),
        distinct_ids(ids),
        forall|k: int| 0 <= k < ids.len() ==> !contains_id(s, #[trigger] ids[k]),
    ensures
        intern_all(s, ids) == s + ids,
    decreases ids.len(),
{
    if ids.len() == 0 {
        assert(intern_all(s, ids) =~= s + ids);
    } else {
        let head = ids[0];
        let tail = ids.drop_first();
        assert(!contains_id(s, head));
        let s1 = s.push(head);
        assert(interned_seq(s, head) == s1);
        lemma_intern_preserves_distinct(s, head);
        assert forall|k: int| 0 <= k < tail.len() implies !contains_id(s1, #[trigger] tail[k]) by {
            assert(tail[k] == ids[k + 1]);
            assert(!contains_id(s, ids[k + 1]));
            if contains_id(s1, tail[k]) {
                let w = choose|w: int| 0 <= w < s1.len() && s1[w] == tail[k];
                if w < s.len() {
                    assert(s[w] == tail[k]);
                } else {
                    assert(s1[w] == head);
                    assert(ids[0] == ids[k + 1]);
                }
            }
        }
        assert forall|i: int, j: int| 0 <= i < j < tail.len() implies tail[i] != tail[j] by {
            assert(ids[i + 1] != ids[j + 1]);
        }
        lemma_intern_all_fresh(s1, tail);
        assert(s1 + tail =~= s + ids);
    }
}

/// Density and no reuse: interning N pairwise-distinct identifiers into an
/// empty table yields exactly those identifiers at positions 0 through N-1,
/// the k-th intern call receiving handle k.
pub proof fn lemma_density(ids: Seq<StructIdentifierView>)
    requires
        distinct_ids(ids),
    ensures
        intern_all(Seq::<StructIdentifierView>::empty(), ids) == ids,
        forall|k: int|
            0 <= k < ids.len() ==> interned_index(
                #[trigger] intern_all(Seq::<StructIdentifierView>::empty(), ids.take(k)),
                ids[k],
            ) == k,
{
    let e = Seq::<StructIdentifierView>::empty();
    lemma_intern_all_fresh(e, ids);
    assert(e + ids =~= ids);
    assert forall|k: int|
        0 <= k < ids.len() implies interned_index(
        #[trigger] intern_all(e, ids.take(k)),
        ids[k],
    ) == k by {
        let pre = ids.take(k);
        assert forall|i: int, j: int| 0 <= i < j < pre.len() implies pre[i] != pre[j] by {
            assert(ids[i] != ids[j]);
        }
        assert forall|w: int| 0 <= w < pre.len() implies !contains_id(e, #[trigger] pre[w]) by {}
        lemma_intern_all_fresh(e, pre);
        assert(e + pre =~= pre);
        assert(intern_all(e, pre) == pre);
        if contains_id(pre, ids[k]) {
            let w = choose|w: int| 0 <= w < pre.len() && pre[w] == ids[k];
            assert(ids[w] == ids[k]);
        }
        assert(!contains_id(pre, ids[k]));
        assert(interned_index(pre, ids[k]) == pre.len() as int);
        assert(pre.len() == k);
    }
}

/// A freshly flushed table restarts its numbering: the first intern call of
/// the new epoch receives handle 0 and leaves exactly one entry.
pub proof fn lemma_fresh_numbering(id: StructIdentifierView)
    ensures
        interned_index(Seq::<StructIdentifierView>::empty(), id) == 0,
        interned_seq(Seq::<StructIdentifierView>::empty(), id) == seq![id],
{
    let e = Seq::<StructIdentifierView>::empty();
    assert(!contains_id(e, id));
    assert(e.push(id) =~= seq![id]);
}

} // verus!
