//! Stable sorting by lexicographically compared keys.
use vstd::prelude::*;

verus! {

broadcast use vstd::seq_lib::group_to_multiset_ensures;

/// Lexicographic order on key sequences (a proper prefix is smaller).
pub open spec fn key_lt(a: Seq<u128>, b: Seq<u128>) -> bool
    decreases a.len(),
{
    if b.len() == 0 {
        false
    } else if a.len() == 0 {
        true
    } else if a[0] < b[0] {
        true
    } else if a[0] > b[0] {
        false
    } else {
        key_lt(a.drop_first(), b.drop_first())
    }
}

/// No key sequence is below itself.
pub proof fn lemma_key_lt_irrefl(a: Seq<u128>)
    ensures
        !key_lt(a, a),
    decreases a.len(),
{
    if a.len() > 0 {
        lemma_key_lt_irrefl(a.drop_first());
    }
}

/// Any two key sequences are ordered one way or the other, or equal.
pub proof fn lemma_key_lt_total(a: Seq<u128>, b: Seq<u128>)
    ensures
        key_lt(a, b) || key_lt(b, a) || a == b,
    decreases a.len(),
{
    if a.len() > 0 && b.len() > 0 && a[0] == b[0] {
        lemma_key_lt_total(a.drop_first(), b.drop_first());
        if a.drop_first() == b.drop_first() {
            assert(a =~= seq![a[0]] + a.drop_first());
            assert(b =~= seq![b[0]] + b.drop_first());
        }
    } else if a.len() == 0 && b.len() == 0 {
        assert(a =~= b);
    }
}

/// The key order is transitive.
pub proof fn lemma_key_lt_trans(a: Seq<u128>, b: Seq<u128>, c: Seq<u128>)
    requires
        key_lt(a, b),
        key_lt(b, c),
    ensures
        key_lt(a, c),
    decreases a.len(),
{
    if a.len() > 0 && b.len() > 0 && c.len() > 0 && a[0] == b[0] && b[0] == c[0] {
        lemma_key_lt_trans(a.drop_first(), b.drop_first(), c.drop_first());
    }
}

/// The key order is asymmetric.
pub proof fn lemma_key_lt_asym(a: Seq<u128>, b: Seq<u128>)
    requires
        key_lt(a, b),
    ensures
        !key_lt(b, a),
{
    if key_lt(b, a) {
        lemma_key_lt_trans(a, b, a);
        lemma_key_lt_irrefl(a);
    }
}

/// Values that are ordered by a key sequence.
pub trait SortKey: Sized {
    spec fn key(&self) -> Seq<u128>;

    fn key_vec(&self) -> (r: Vec<u128>)
        ensures
            r@ == self.key(),
    ;
}

/// The sequence is in non-decreasing key order.
pub open spec fn sorted_by_key<T: SortKey>(s: Seq<T>) -> bool {
    forall|i: int, j: int| 0 <= i < j < s.len() ==> !key_lt(#[trigger] s[j].key(), #[trigger] s[i].key())
}

/// The elements of `s` whose key is `kk`, in the order they have in `s`.
pub open spec fn with_key<T: SortKey>(s: Seq<T>, kk: Seq<u128>) -> Seq<T>
    decreases s.len(),
{
    if s.len() == 0 {
        Seq::empty()
    } else if s.last().key() == kk {
        with_key(s.drop_last(), kk).push(s.last())
    } else {
        with_key(s.drop_last(), kk)
    }
}

/// For every key, `r` holds the elements of `v` with that key in the same
/// order: elements with equal keys keep their relative order.
pub open spec fn keeps_ties<T: SortKey>(r: Seq<T>, v: Seq<T>) -> bool {
    forall|kk: Seq<u128>| #[trigger] with_key(r, kk) == with_key(v, kk)
}

/// `keeps_ties`, with elements compared through `f`.
pub open spec fn keeps_ties_by<T: SortKey, V>(r: Seq<T>, v: Seq<T>, f: spec_fn(T) -> V) -> bool {
    forall|kk: Seq<u128>| #[trigger] with_key(r, kk).map_values(f) == with_key(v, kk).map_values(f)
}

/// What is kept for a key from a concatenation is what is kept from each part.
pub proof fn lemma_with_key_add<T: SortKey>(a: Seq<T>, b: Seq<T>, kk: Seq<u128>)
    ensures
        with_key(a + b, kk) == with_key(a, kk) + with_key(b, kk),
    decreases b.len(),
{
    if b.len() == 0 {
        assert(a + b =~= a);
        assert(with_key(a, kk) + with_key(b, kk) =~= with_key(a, kk));
    } else {
        assert((a + b).drop_last() =~= a + b.drop_last());
        assert((a + b).last() == b.last());
        lemma_with_key_add(a, b.drop_last(), kk);
        if b.last().key() == kk {
            assert(with_key(a + b, kk) =~= with_key(a, kk) + with_key(b, kk));
        } else {
            assert(with_key(a + b, kk) =~= with_key(a, kk) + with_key(b, kk));
        }
    }
}

/// No element has key `kk`: nothing is kept for it.
pub proof fn lemma_with_key_absent<T: SortKey>(s: Seq<T>, kk: Seq<u128>)
    requires
        forall|i: int| 0 <= i < s.len() ==> #[trigger] s[i].key() != kk,
    ensures
        with_key(s, kk) == Seq::<T>::empty(),
    decreases s.len(),
{
    if s.len() > 0 {
        assert(s.last() == s[s.len() - 1]);
        lemma_with_key_absent(s.drop_last(), kk);
    }
}

/// What is kept for a key from a single element.
pub proof fn lemma_with_key_single<T: SortKey>(x: T, kk: Seq<u128>)
    ensures
        with_key(seq![x], kk) == (if x.key() == kk {
            seq![x]
        } else {
            Seq::<T>::empty()
        }),
{
    assert(seq![x].drop_last() =~= Seq::<T>::empty());
    assert(seq![x].last() == x);
    assert(with_key(Seq::<T>::empty(), kk) == Seq::<T>::empty());
    if x.key() == kk {
        assert(Seq::<T>::empty().push(x) =~= seq![x]);
    }
}

/// Two sequences that agree, element by element, on `f` and on the key keep
/// the same elements for every key, seen through `f`.
pub proof fn lemma_with_key_pointwise<T: SortKey, V>(
    s: Seq<T>,
    t: Seq<T>,
    f: spec_fn(T) -> V,
    kk: Seq<u128>,
)
    requires
        s.len() == t.len(),
        forall|i: int| 0 <= i < s.len() ==> f(#[trigger] s[i]) == f(t[i]) && s[i].key() == t[i].key(),
    ensures
        with_key(s, kk).map_values(f) == with_key(t, kk).map_values(f),
    decreases s.len(),
{
    if s.len() > 0 {
        assert(s.last() == s[s.len() - 1] && t.last() == t[t.len() - 1]);
        lemma_with_key_pointwise(s.drop_last(), t.drop_last(), f, kk);
        if s.last().key() == kk {
            assert(with_key(s, kk).map_values(f) =~= with_key(s.drop_last(), kk).map_values(f).push(
                f(s.last()),
            ));
            assert(with_key(t, kk).map_values(f) =~= with_key(t.drop_last(), kk).map_values(f).push(
                f(t.last()),
            ));
        }
    }
}

/// Tie order carries over to a sequence that agrees element by element, on
/// `f` and on the key, with the one the order was kept from.
pub proof fn lemma_keeps_ties_pointwise<T: SortKey, V>(
    r: Seq<T>,
    s: Seq<T>,
    t: Seq<T>,
    f: spec_fn(T) -> V,
)
    requires
        keeps_ties(r, s),
        s.len() == t.len(),
        forall|i: int| 0 <= i < s.len() ==> f(#[trigger] s[i]) == f(t[i]) && s[i].key() == t[i].key(),
    ensures
        keeps_ties_by(r, t, f),
{
    assert forall|kk: Seq<u128>| #[trigger] with_key(r, kk).map_values(f) == with_key(
        t,
        kk,
    ).map_values(f) by {
        assert(with_key(r, kk) == with_key(s, kk));
        lemma_with_key_pointwise(s, t, f, kk);
    }
}

/// Inserting `x` ahead of every element with a greater key, and nowhere
/// else, moves it from the front of `rest` to the end of its key's run.
proof fn lemma_insert_keeps_ties<T: SortKey>(
    out0: Seq<T>,
    rest: Seq<T>,
    x: T,
    p: int,
    kk: Seq<u128>,
)
    requires
        0 <= p <= out0.len(),
        forall|j: int| p <= j < out0.len() ==> key_lt(x.key(), #[trigger] out0[j].key()),
    ensures
        with_key(out0.insert(p, x), kk) + with_key(rest, kk) == with_key(out0, kk) + with_key(
            seq![x] + rest,
            kk,
        ),
{
    let head = out0.take(p);
    let tail = out0.skip(p);
    assert(out0 =~= head + tail);
    assert(out0.insert(p, x) =~= (head + seq![x]) + tail);
    lemma_with_key_add(head + seq![x], tail, kk);
    lemma_with_key_add(head, seq![x], kk);
    lemma_with_key_add(head, tail, kk);
    lemma_with_key_add(seq![x], rest, kk);
    lemma_with_key_single(x, kk);
    if x.key() == kk {
        assert forall|i: int| 0 <= i < tail.len() implies #[trigger] tail[i].key() != kk by {
            assert(tail[i] == out0[p + i]);
            assert(key_lt(x.key(), out0[p + i].key()));
            lemma_key_lt_irrefl(x.key());
        }
        lemma_with_key_absent(tail, kk);
        assert(with_key(out0.insert(p, x), kk) + with_key(rest, kk) =~= with_key(out0, kk)
            + with_key(seq![x] + rest, kk));
    } else {
        assert(with_key(out0.insert(p, x), kk) + with_key(rest, kk) =~= with_key(out0, kk)
            + with_key(seq![x] + rest, kk));
    }
}

/// A sequence has an element with key `kk` exactly when something is kept
/// for `kk`.
proof fn lemma_with_key_present<T: SortKey>(s: Seq<T>, kk: Seq<u128>) -> (i: int)
    requires
        with_key(s, kk).len() > 0,
    ensures
        0 <= i < s.len(),
        s[i].key() == kk,
{
    if forall|i: int| 0 <= i < s.len() ==> #[trigger] s[i].key() != kk {
        lemma_with_key_absent(s, kk);
    }
    choose|i: int| 0 <= i < s.len() && s[i].key() == kk
}

/// Two key-ordered sequences that keep the same elements, in the same order,
/// for every key (seen through `f`) are equal (seen through `f`): a stable
/// sort has one result.
pub proof fn lemma_stable_order_unique<T: SortKey, V>(a: Seq<T>, b: Seq<T>, f: spec_fn(T) -> V)
    requires
        sorted_by_key(a),
        sorted_by_key(b),
        keeps_ties_by(a, b, f),
    ensures
        a.map_values(f) == b.map_values(f),
    decreases a.len() + b.len(),
{
    if a.len() == 0 || b.len() == 0 {
        if a.len() > 0 {
            let k = a[0].key();
            lemma_with_key_add(seq![a[0]], a.drop_first(), k);
            lemma_with_key_single(a[0], k);
            assert(seq![a[0]] + a.drop_first() =~= a);
            assert(with_key(a, k).map_values(f) == with_key(b, k).map_values(f));
            lemma_with_key_absent(b, k);
            assert(with_key(a, k).len() > 0);
        } else if b.len() > 0 {
            let k = b[0].key();
            lemma_with_key_add(seq![b[0]], b.drop_first(), k);
            lemma_with_key_single(b[0], k);
            assert(seq![b[0]] + b.drop_first() =~= b);
            assert(with_key(a, k).map_values(f) == with_key(b, k).map_values(f));
            lemma_with_key_absent(a, k);
            assert(with_key(b, k).len() > 0);
        }
        assert(a.map_values(f) =~= b.map_values(f));
    } else {
        let ka = a[0].key();
        let kb = b[0].key();
        let a1 = a.drop_first();
        let b1 = b.drop_first();
        assert(seq![a[0]] + a1 =~= a);
        assert(seq![b[0]] + b1 =~= b);
        assert(ka == kb) by {
            lemma_with_key_add(seq![b[0]], b1, kb);
            lemma_with_key_single(b[0], kb);
            assert(with_key(a, kb).map_values(f) == with_key(b, kb).map_values(f));
            let i = lemma_with_key_present(a, kb);
            if i > 0 {
                assert(!key_lt(a[i].key(), a[0].key()));
            }
            lemma_with_key_add(seq![a[0]], a1, ka);
            lemma_with_key_single(a[0], ka);
            assert(with_key(a, ka).map_values(f) == with_key(b, ka).map_values(f));
            let j = lemma_with_key_present(b, ka);
            if j > 0 {
                assert(!key_lt(b[j].key(), b[0].key()));
            }
            lemma_key_lt_total(ka, kb);
        }
        assert forall|kk: Seq<u128>| #[trigger] with_key(a1, kk).map_values(f) == with_key(
            b1,
            kk,
        ).map_values(f) by {
            lemma_with_key_add(seq![a[0]], a1, kk);
            lemma_with_key_add(seq![b[0]], b1, kk);
            lemma_with_key_single(a[0], kk);
            lemma_with_key_single(b[0], kk);
            let wa = with_key(a, kk).map_values(f);
            let wb = with_key(b, kk).map_values(f);
            assert(wa == wb);
            if ka == kk {
                assert(wa =~= seq![f(a[0])] + with_key(a1, kk).map_values(f));
                assert(wb =~= seq![f(b[0])] + with_key(b1, kk).map_values(f));
                assert(with_key(a1, kk).map_values(f) =~= wa.drop_first());
                assert(with_key(b1, kk).map_values(f) =~= wb.drop_first());
            } else {
                assert(with_key(a, kk) =~= with_key(a1, kk));
                assert(with_key(b, kk) =~= with_key(b1, kk));
            }
        }
        assert(f(a[0]) == f(b[0])) by {
            lemma_with_key_add(seq![a[0]], a1, ka);
            lemma_with_key_add(seq![b[0]], b1, ka);
            lemma_with_key_single(a[0], ka);
            lemma_with_key_single(b[0], ka);
            assert(with_key(a, ka).map_values(f) == with_key(b, ka).map_values(f));
            assert(with_key(a, ka).map_values(f)[0] == f(a[0]));
            assert(with_key(b, ka).map_values(f)[0] == f(b[0]));
        }
        assert(sorted_by_key(a1)) by {
            assert forall|i: int, j: int| 0 <= i < j < a1.len() implies !key_lt(
                #[trigger] a1[j].key(),
                #[trigger] a1[i].key(),
            ) by {
                assert(a1[i] == a[i + 1] && a1[j] == a[j + 1]);
            }
        }
        assert(sorted_by_key(b1)) by {
            assert forall|i: int, j: int| 0 <= i < j < b1.len() implies !key_lt(
                #[trigger] b1[j].key(),
                #[trigger] b1[i].key(),
            ) by {
                assert(b1[i] == b[i + 1] && b1[j] == b[j + 1]);
            }
        }
        lemma_stable_order_unique(a1, b1, f);
        assert(a.map_values(f) =~= seq![f(a[0])] + a1.map_values(f));
        assert(b.map_values(f) =~= seq![f(b[0])] + b1.map_values(f));
    }
}

/// Lexicographic comparison of two key vectors.
pub fn keys_less(a: &Vec<u128>, b: &Vec<u128>) -> (r: bool)
    ensures
        r == key_lt(a@, b@),
{
    let mut i: usize = 0;
    assert(a@.skip(0) =~= a@ && b@.skip(0) =~= b@);
    while i < a.len() && i < b.len()
        invariant
            0 <= i <= a@.len(),
            i <= b@.len(),
            forall|k: int| 0 <= k < i ==> a@[k] == b@[k],
            key_lt(a@, b@) == key_lt(a@.skip(i as int), b@.skip(i as int)),
        decreases a@.len() - i,
    {
        if a[i] < b[i] {
            return true;
        }
        if a[i] > b[i] {
            return false;
        }
        assert(a@.skip(i as int).drop_first() =~= a@.skip(i + 1));
        assert(b@.skip(i as int).drop_first() =~= b@.skip(i + 1));
        i = i + 1;
    }
    i < b.len()
}

/// Whether two key vectors are equal.
pub fn keys_equal(a: &Vec<u128>, b: &Vec<u128>) -> (r: bool)
    ensures
        r == (a@ == b@),
{
    if a.len() != b.len() {
        return false;
    }
    let mut i: usize = 0;
    while i < a.len()
        invariant
            0 <= i <= a@.len(),
            a@.len() == b@.len(),
            forall|k: int| 0 <= k < i ==> a@[k] == b@[k],
        decreases a@.len() - i,
    {
        if a[i] != b[i] {
            return false;
        }
        i = i + 1;
    }
    assert(a@ =~= b@);
    true
}

/// Index at which a value with key `k` is inserted into a sorted sequence to
/// keep it sorted and stable: the first element whose key is greater.
fn insertion_point<T: SortKey>(out: &Vec<T>, k: &Vec<u128>) -> (p: usize)
    requires
        sorted_by_key(out@),
    ensures
        p <= out@.len(),
        forall|j: int| 0 <= j < p ==> !key_lt(k@, #[trigger] out@[j].key()),
        forall|j: int| p <= j < out@.len() ==> key_lt(k@, #[trigger] out@[j].key()),
{
    let mut p: usize = out.len();
    while p > 0
        invariant
            p <= out@.len(),
            sorted_by_key(out@),
            forall|j: int| p <= j < out@.len() ==> key_lt(k@, #[trigger] out@[j].key()),
        decreases p,
    {
        let kp = out[p - 1].key_vec();
        if keys_less(k, &kp) {
            p = p - 1;
        } else {
            assert forall|j: int| 0 <= j < p implies !key_lt(k@, #[trigger] out@[j].key()) by {
                if j < p - 1 {
                    let a = out@[j].key();
                    let b = out@[p - 1].key();
                    assert(!key_lt(b, a));
                    lemma_key_lt_total(a, b);
                    if key_lt(k@, a) {
                        if a == b {
                        } else {
                            lemma_key_lt_trans(k@, a, b);
                        }
                    }
                }
            }
            return p;
        }
    }
    p
}

/// Sorts stably by key: the result is ordered, holds the same elements, and
/// keeps elements with equal keys in their order in `v`.
pub fn sort_by_key<T: SortKey>(v: Vec<T>) -> (r: Vec<T>)
    ensures
        sorted_by_key(r@),
        keeps_ties(r@, v@),
        r@.to_multiset() == v@.to_multiset(),
        r@.len() == v@.len(),
{
    let mut rest = v;
    let mut out: Vec<T> = Vec::new();
    while rest.len() > 0
        invariant
            sorted_by_key(out@),
            out@.to_multiset().add(rest@.to_multiset()) == v@.to_multiset(),
            forall|kk: Seq<u128>| #[trigger] with_key(out@, kk) + with_key(rest@, kk) == with_key(v@, kk),
        decreases rest@.len(),
    {
        let ghost rest0 = rest@;
        let ghost out0 = out@;
        let x = rest.remove(0);
        proof {
            assert(rest0.remove(0) =~= rest@);
            vstd::seq_lib::to_multiset_remove(rest0, 0);
        }
        let k = x.key_vec();
        let p = insertion_point(&out, &k);
        out.insert(p, x);
        proof {
            assert(out@ =~= out0.insert(p as int, x));
            assert(rest0 =~= seq![x] + rest@);
            assert forall|kk: Seq<u128>| #[trigger] with_key(out@, kk) + with_key(rest@, kk) == with_key(
                v@,
                kk,
            ) by {
                lemma_insert_keeps_ties(out0, rest@, x, p as int, kk);
            }
            vstd::seq_lib::to_multiset_insert(out0, p as int, x);
            assert(out@.to_multiset().add(rest@.to_multiset()) =~= v@.to_multiset());
            assert forall|i: int, j: int| 0 <= i < j < out@.len() implies !key_lt(
                #[trigger] out@[j].key(),
                #[trigger] out@[i].key(),
            ) by {
                if i < p && j < p {
                    assert(out@[i] == out0[i] && out@[j] == out0[j]);
                } else if i < p && j == p {
                    assert(out@[i] == out0[i]);
                } else if i < p && j > p {
                    assert(out@[i] == out0[i] && out@[j] == out0[j - 1]);
                } else if i == p {
                    assert(out@[j] == out0[j - 1]);
                    assert(key_lt(k@, out0[j - 1].key()));
                    lemma_key_lt_asym(k@, out0[j - 1].key());
                } else {
                    assert(out@[i] == out0[i - 1] && out@[j] == out0[j - 1]);
                }
            }
        }
    }
    proof {
        assert forall|kk: Seq<u128>| #[trigger] with_key(out@, kk) == with_key(v@, kk) by {
            assert(with_key(rest@, kk) == Seq::<T>::empty());
            assert(with_key(out@, kk) + with_key(rest@, kk) =~= with_key(out@, kk));
        }
        assert(rest@.to_multiset() =~= vstd::multiset::Multiset::empty());
        assert(out@.to_multiset().add(rest@.to_multiset()) =~= out@.to_multiset());
        assert(out@.to_multiset().len() == v@.to_multiset().len());
    }
    out
}

/// Rearranging a sequence rearranges its image under any map the same way.
pub proof fn lemma_map_multiset<A, B>(a: Seq<A>, b: Seq<A>, f: spec_fn(A) -> B)
    requires
        a.to_multiset() == b.to_multiset(),
    ensures
        a.map_values(f).to_multiset() == b.map_values(f).to_multiset(),
    decreases a.len(),
{
    broadcast use vstd::multiset::group_multiset_axioms;

    if a.len() == 0 {
        assert(b.to_multiset().len() == 0);
        assert(a.map_values(f) =~= Seq::<B>::empty());
        assert(b.map_values(f) =~= Seq::<B>::empty());
    } else {
        let x = a[0];
        assert(a.to_multiset().count(x) > 0) by {
            assert(a.contains(x));
        }
        assert(b.contains(x));
        let j = choose|j: int| 0 <= j < b.len() && b[j] == x;
        let a1 = a.remove(0);
        let b1 = b.remove(j);
        vstd::seq_lib::to_multiset_remove(a, 0);
        vstd::seq_lib::to_multiset_remove(b, j);
        lemma_map_multiset(a1, b1, f);
        assert(a.map_values(f) =~= a1.map_values(f).insert(0, f(x)));
        assert(b.map_values(f) =~= b1.map_values(f).insert(j, f(x)));
        vstd::seq_lib::to_multiset_insert(a1.map_values(f), 0, f(x));
        vstd::seq_lib::to_multiset_insert(b1.map_values(f), j, f(x));
    }
}

} // verus!
