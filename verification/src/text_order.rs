//! Code-point order on strings, and the sorted arrangement of a collection of
//! strings, which is unique.
use vstd::prelude::*;
use crate::parsers::macho_scanner::text_key;
use crate::sorting::{
    key_lt, lemma_key_lt_irrefl, lemma_key_lt_total, sort_by_key, sorted_by_key, SortKey,
};
use crate::text::{char_rank, views};

verus! {

broadcast use vstd::seq_lib::group_to_multiset_ensures;

/// The strings are in non-decreasing code-point order.
pub open spec fn text_sorted(s: Seq<Seq<char>>) -> bool {
    forall|i: int, j: int|
        0 <= i < j < s.len() ==> !key_lt(text_key(#[trigger] s[j]), text_key(#[trigger] s[i]))
}

/// The strings of `s` in code-point order.
pub open spec fn sorted_text(s: Seq<Seq<char>>) -> Seq<Seq<char>> {
    choose|h: Seq<Seq<char>>| text_sorted(h) && h.to_multiset() == s.to_multiset()
}

/// Texts with the same key are the same text.
pub proof fn lemma_text_key_injective(a: Seq<char>, b: Seq<char>)
    requires
        text_key(a) == text_key(b),
    ensures
        a == b,
{
    let ka = text_key(a);
    let kb = text_key(b);
    assert(ka.len() == a.len() && kb.len() == b.len());
    assert forall|i: int| 0 <= i < a.len() implies a[i] == b[i] by {
        assert(ka[i] == kb[i]);
        assert(ka[i] == char_rank(a[i]));
        assert(kb[i] == char_rank(b[i]));
        let ua = a[i] as u32;
        let ub = b[i] as u32;
        vstd::utf8::char_u32_cast(a[i], ua);
        vstd::utf8::char_u32_cast(b[i], ub);
    }
    assert(a =~= b);
}

/// Two sorted arrangements of one collection are the same sequence.
pub proof fn lemma_text_sorted_unique(a: Seq<Seq<char>>, b: Seq<Seq<char>>)
    requires
        text_sorted(a),
        text_sorted(b),
        a.to_multiset() == b.to_multiset(),
    ensures
        a == b,
    decreases a.len(),
{
    broadcast use vstd::multiset::group_multiset_axioms;

    if a.len() == 0 {
        assert(b.to_multiset().len() == 0);
        assert(b.len() == 0);
        assert(a =~= b);
    } else {
        assert(a.contains(a[0]));
        assert(b.to_multiset().count(a[0]) > 0);
        assert(b.contains(a[0]));
        assert(b.len() > 0) by {
            if b.len() == 0 {
                assert(b.to_multiset().len() == 0);
            }
        }
        assert(b.contains(b[0]));
        assert(a.to_multiset().count(b[0]) > 0);
        assert(a.contains(b[0]));
        let i = choose|i: int| 0 <= i < b.len() && b[i] == a[0];
        let j = choose|j: int| 0 <= j < a.len() && a[j] == b[0];
        // a[0] is no greater than b[0] and b[0] no greater than a[0].
        if j > 0 {
            assert(!key_lt(text_key(a[j]), text_key(a[0])));
        }
        if i > 0 {
            assert(!key_lt(text_key(b[i]), text_key(b[0])));
        }
        lemma_key_lt_total(text_key(a[0]), text_key(b[0]));
        if text_key(a[0]) == text_key(b[0]) {
            lemma_text_key_injective(a[0], b[0]);
        } else if key_lt(text_key(a[0]), text_key(b[0])) {
            lemma_key_lt_irrefl(text_key(a[0]));
            assert(false);
        } else {
            assert(false);
        }
        let a1 = a.drop_first();
        let b1 = b.drop_first();
        assert(a =~= seq![a[0]] + a1);
        assert(b =~= seq![b[0]] + b1);
        assert(a.remove(0) =~= a1);
        assert(b.remove(0) =~= b1);
        vstd::seq_lib::to_multiset_remove(a, 0);
        vstd::seq_lib::to_multiset_remove(b, 0);
        assert forall|p: int, q: int| 0 <= p < q < a1.len() implies !key_lt(
            text_key(#[trigger] a1[q]),
            text_key(#[trigger] a1[p]),
        ) by {
            assert(a1[q] == a[q + 1] && a1[p] == a[p + 1]);
        }
        assert forall|p: int, q: int| 0 <= p < q < b1.len() implies !key_lt(
            text_key(#[trigger] b1[q]),
            text_key(#[trigger] b1[p]),
        ) by {
            assert(b1[q] == b[q + 1] && b1[p] == b[p + 1]);
        }
        lemma_text_sorted_unique(a1, b1);
    }
}

/// A sorted arrangement of `s` is the one `sorted_text` names.
pub proof fn lemma_sorted_text_is(h: Seq<Seq<char>>, s: Seq<Seq<char>>)
    requires
        text_sorted(h),
        h.to_multiset() == s.to_multiset(),
    ensures
        sorted_text(s) == h,
{
    let c = sorted_text(s);
    assert(text_sorted(c) && c.to_multiset() == s.to_multiset());
    lemma_text_sorted_unique(c, h);
}

/// A vector of strings sorted by key has sorted views.
pub proof fn lemma_sorted_views(v: Seq<String>)
    requires
        sorted_by_key(v),
    ensures
        text_sorted(views(v)),
{
    assert forall|i: int, j: int| 0 <= i < j < views(v).len() implies !key_lt(
        text_key(#[trigger] views(v)[j]),
        text_key(#[trigger] views(v)[i]),
    ) by {
        assert(views(v)[j] == v[j]@ && views(v)[i] == v[i]@);
        assert(v[j].key() == text_key(v[j]@));
        assert(v[i].key() == text_key(v[i]@));
    }
}

/// The strings of a sorted vector are the sorted arrangement of any collection
/// with the same strings.
pub proof fn lemma_sorted_text_unique(v: Seq<String>, s: Seq<Seq<char>>)
    requires
        sorted_by_key(v),
        views(v).to_multiset() == s.to_multiset(),
    ensures
        views(v) == sorted_text(s),
{
    lemma_sorted_views(v);
    lemma_sorted_text_is(views(v), s);
}

/// Where `x` goes in a sorted `h` to keep it sorted: after every string not
/// greater than `x`.
pub open spec fn insert_pos(h: Seq<Seq<char>>, x: Seq<char>) -> int
    decreases h.len(),
{
    if h.len() == 0 {
        0
    } else if key_lt(text_key(x), text_key(h.last())) {
        insert_pos(h.drop_last(), x)
    } else {
        h.len() as int
    }
}

proof fn lemma_insert_pos(h: Seq<Seq<char>>, x: Seq<char>)
    requires
        text_sorted(h),
    ensures
        0 <= insert_pos(h, x) <= h.len(),
        forall|i: int| 0 <= i < insert_pos(h, x) ==> !key_lt(text_key(x), text_key(#[trigger] h[i])),
        forall|i: int| insert_pos(h, x) <= i < h.len() ==> key_lt(text_key(x), text_key(#[trigger] h[i])),
    decreases h.len(),
{
    if h.len() > 0 {
        let d = h.drop_last();
        assert(h.last() == h[h.len() - 1]);
        assert forall|p: int, q: int| 0 <= p < q < d.len() implies !key_lt(
            text_key(#[trigger] d[q]),
            text_key(#[trigger] d[p]),
        ) by {
            assert(d[p] == h[p] && d[q] == h[q]);
        }
        lemma_insert_pos(d, x);
        if key_lt(text_key(x), text_key(h.last())) {
            assert forall|i: int| 0 <= i < insert_pos(h, x) implies !key_lt(text_key(x), text_key(#[trigger] h[i])) by {
                assert(h[i] == d[i]);
            }
            assert forall|i: int| insert_pos(h, x) <= i < h.len() implies key_lt(text_key(x), text_key(#[trigger] h[i])) by {
                if i < h.len() - 1 {
                    assert(h[i] == d[i]);
                }
            }
        } else {
            assert forall|i: int| 0 <= i < h.len() implies !key_lt(text_key(x), text_key(#[trigger] h[i])) by {
                if i < h.len() - 1 && key_lt(text_key(x), text_key(h[i])) {
                    let a = text_key(h[i]);
                    let b = text_key(h.last());
                    assert(!key_lt(b, a));
                    lemma_key_lt_total(a, b);
                    if a != b {
                        crate::sorting::lemma_key_lt_trans(text_key(x), a, b);
                    }
                }
            }
        }
    }
}

/// A sorted arrangement of any collection of strings exists: `sorted_text`
/// is sorted and holds the same strings.
pub proof fn lemma_sorted_text_sorted(s: Seq<Seq<char>>)
    ensures
        text_sorted(sorted_text(s)),
        sorted_text(s).to_multiset() == s.to_multiset(),
    decreases s.len(),
{
    if s.len() == 0 {
        let h = Seq::<Seq<char>>::empty();
        assert(text_sorted(h));
        assert(h.to_multiset() =~= s.to_multiset()) by {
            assert(s =~= h);
        }
    } else {
        let d = s.drop_last();
        let x = s.last();
        lemma_sorted_text_sorted(d);
        let h0 = sorted_text(d);
        lemma_insert_pos(h0, x);
        let p = insert_pos(h0, x);
        let h = h0.insert(p, x);
        assert forall|i: int, j: int| 0 <= i < j < h.len() implies !key_lt(
            text_key(#[trigger] h[j]),
            text_key(#[trigger] h[i]),
        ) by {
            if j < p {
                assert(h[i] == h0[i] && h[j] == h0[j]);
            } else if j == p {
                assert(h[i] == h0[i] && h[j] == x);
            } else if i < p {
                assert(h[i] == h0[i] && h[j] == h0[j - 1]);
            } else if i == p {
                assert(h[i] == x && h[j] == h0[j - 1]);
                crate::sorting::lemma_key_lt_asym(text_key(x), text_key(h0[j - 1]));
            } else {
                assert(h[i] == h0[i - 1] && h[j] == h0[j - 1]);
            }
        }
        vstd::seq_lib::to_multiset_insert(h0, p, x);
        assert(s =~= d.push(x));
        assert(h.to_multiset() =~= s.to_multiset()) by {
            broadcast use vstd::multiset::group_multiset_axioms;
            vstd::seq_lib::lemma_multiset_commutative(d, seq![x]);
            assert(d + seq![x] =~= d.push(x));
        }
        lemma_sorted_text_is(h, s);
    }
}

/// Sorts strings in code-point order.
pub fn sort_strings(v: Vec<String>) -> (r: Vec<String>)
    ensures
        views(r@) == sorted_text(views(v@)),
{
    let ghost v0 = v@;
    let r = sort_by_key(v);
    proof {
        crate::text::lemma_views_multiset(r@, v0);
        lemma_sorted_text_unique(r@, views(v0));
    }
    r
}

} // verus!
