//! Character-level text utilities with exact specifications over `Seq<char>`.
use vstd::prelude::*;

verus! {

/// Wraps `String::push`: the string gains `c` at its end.
#[verifier::external_body]
pub fn push_char(s: &mut String, c: char)
    ensures
        final(s)@ == old(s)@.push(c),
{
    s.push(c);
}

/// Appends a string slice.
pub fn push_str(s: &mut String, t: &str)
    ensures
        final(s)@ == old(s)@ + t@,
{
    s.append(t);
}

/// The characters of a string slice, in order.
pub fn chars_of(s: &str) -> (r: Vec<char>)
    ensures
        r@ == s@,
{
    let mut out: Vec<char> = Vec::new();
    for c in it: s.chars()
        invariant
            out@ == it.seq().take(it.index() as int),
            it.seq() == s@,
    {
        out.push(c);
    }
    out
}

/// Builds a string from a sequence of characters.
pub fn string_from_chars(v: &[char]) -> (r: String)
    ensures
        r@ == v@,
{
    let mut out = String::new();
    let mut i: usize = 0;
    while i < v.len()
        invariant
            0 <= i <= v@.len(),
            out@ == v@.take(i as int),
        decreases v@.len() - i,
    {
        push_char(&mut out, v[i]);
        assert(v@.take(i + 1) =~= v@.take(i as int).push(v@[i as int]));
        i = i + 1;
    }
    assert(v@.take(v@.len() as int) =~= v@);
    out
}

/// A copy of a string slice as an owned string.
pub fn owned(s: &str) -> (r: String)
    ensures
        r@ == s@,
{
    String::from_str(s)
}

/// Unicode `White_Space` characters (those for which `char::is_whitespace` holds).
pub open spec fn is_ws(c: char) -> bool {
    ||| ('\u{9}' <= c && c <= '\u{d}')
    ||| c == ' '
    ||| c == '\u{85}'
    ||| c == '\u{a0}'
    ||| c == '\u{1680}'
    ||| ('\u{2000}' <= c && c <= '\u{200a}')
    ||| c == '\u{2028}'
    ||| c == '\u{2029}'
    ||| c == '\u{202f}'
    ||| c == '\u{205f}'
    ||| c == '\u{3000}'
}

pub fn is_whitespace(c: char) -> (r: bool)
    ensures
        r == is_ws(c),
{
    ('\u{9}' <= c && c <= '\u{d}') || c == ' ' || c == '\u{85}' || c == '\u{a0}' || c
        == '\u{1680}' || ('\u{2000}' <= c && c <= '\u{200a}') || c == '\u{2028}' || c
        == '\u{2029}' || c == '\u{202f}' || c == '\u{205f}' || c == '\u{3000}'
}

/// Number of leading whitespace characters.
pub open spec fn lead_ws(s: Seq<char>) -> nat
    decreases s.len(),
{
    if s.len() > 0 && is_ws(s[0]) {
        1 + lead_ws(s.drop_first())
    } else {
        0
    }
}

/// Number of trailing whitespace characters.
pub open spec fn trail_ws(s: Seq<char>) -> nat
    decreases s.len(),
{
    if s.len() > 0 && is_ws(s.last()) {
        1 + trail_ws(s.drop_last())
    } else {
        0
    }
}

pub open spec fn trim_start_spec(s: Seq<char>) -> Seq<char> {
    s.skip(lead_ws(s) as int)
}

pub open spec fn trim_end_spec(s: Seq<char>) -> Seq<char> {
    s.take(s.len() - trail_ws(s))
}

/// `str::trim`: leading and trailing whitespace removed.
pub open spec fn trim_spec(s: Seq<char>) -> Seq<char> {
    trim_end_spec(trim_start_spec(s))
}

proof fn lemma_lead_ws_bound(s: Seq<char>)
    ensures
        lead_ws(s) <= s.len(),
        forall|j: int| 0 <= j < lead_ws(s) ==> is_ws(#[trigger] s[j]),
        lead_ws(s) < s.len() ==> !is_ws(s[lead_ws(s) as int]),
    decreases s.len(),
{
    if s.len() > 0 && is_ws(s[0]) {
        lemma_lead_ws_bound(s.drop_first());
        assert forall|j: int| 0 <= j < lead_ws(s) implies is_ws(#[trigger] s[j]) by {
            if j > 0 {
                assert(s[j] == s.drop_first()[j - 1]);
            }
        }
    }
}

proof fn lemma_lead_ws_char(s: Seq<char>, k: int)
    requires
        0 <= k <= s.len(),
        forall|j: int| 0 <= j < k ==> is_ws(#[trigger] s[j]),
        k == s.len() || !is_ws(s[k]),
    ensures
        lead_ws(s) == k,
    decreases s.len(),
{
    if k > 0 {
        assert forall|j: int| 0 <= j < k - 1 implies is_ws(#[trigger] s.drop_first()[j]) by {
            assert(s.drop_first()[j] == s[j + 1]);
        }
        if k - 1 < s.drop_first().len() {
            assert(s.drop_first()[k - 1] == s[k]);
        }
        lemma_lead_ws_char(s.drop_first(), k - 1);
    }
}

proof fn lemma_trail_ws_char(s: Seq<char>, k: int)
    requires
        0 <= k <= s.len(),
        forall|j: int| s.len() - k <= j < s.len() ==> is_ws(#[trigger] s[j]),
        k == s.len() || !is_ws(s[s.len() - k - 1]),
    ensures
        trail_ws(s) == k,
    decreases s.len(),
{
    if k > 0 {
        let t = s.drop_last();
        assert forall|j: int| t.len() - (k - 1) <= j < t.len() implies is_ws(#[trigger] t[j]) by {
            assert(t[j] == s[j]);
        }
        if k - 1 < t.len() {
            assert(t[t.len() - (k - 1) - 1] == s[s.len() - k - 1]);
        }
        lemma_trail_ws_char(t, k - 1);
    }
}

/// Index of the first non-whitespace character (or the length).
fn skip_ws_start(v: &Vec<char>) -> (k: usize)
    ensures
        k == lead_ws(v@),
{
    let mut k: usize = 0;
    while k < v.len() && is_whitespace(v[k])
        invariant
            0 <= k <= v@.len(),
            forall|j: int| 0 <= j < k ==> is_ws(#[trigger] v@[j]),
        decreases v@.len() - k,
    {
        k = k + 1;
    }
    proof {
        lemma_lead_ws_char(v@, k as int);
    }
    k
}

/// Number of trailing whitespace characters.
fn count_ws_end(v: &Vec<char>) -> (k: usize)
    ensures
        k == trail_ws(v@),
{
    let mut k: usize = 0;
    while k < v.len() && is_whitespace(v[v.len() - 1 - k])
        invariant
            0 <= k <= v@.len(),
            forall|j: int| v@.len() - k <= j < v@.len() ==> is_ws(#[trigger] v@[j]),
        decreases v@.len() - k,
    {
        k = k + 1;
    }
    proof {
        lemma_trail_ws_char(v@, k as int);
    }
    k
}

/// The characters `v[from..to]` as a string.
pub fn slice_string(v: &Vec<char>, from: usize, to: usize) -> (r: String)
    requires
        from <= to <= v@.len(),
    ensures
        r@ == v@.subrange(from as int, to as int),
{
    let mut out = String::new();
    let mut i = from;
    while i < to
        invariant
            from <= i <= to <= v@.len(),
            out@ == v@.subrange(from as int, i as int),
        decreases to - i,
    {
        push_char(&mut out, v[i]);
        assert(v@.subrange(from as int, i + 1) =~= v@.subrange(from as int, i as int).push(
            v@[i as int],
        ));
        i = i + 1;
    }
    out
}

/// `str::trim`.
pub fn trim(s: &str) -> (r: String)
    ensures
        r@ == trim_spec(s@),
{
    let v = chars_of(s);
    let a = skip_ws_start(&v);
    proof {
        lemma_lead_ws_bound(v@);
    }
    let w: Vec<char> = vec_skip(&v, a);
    let b = count_ws_end(&w);
    proof {
        lemma_trail_bound(w@);
    }
    slice_string(&w, 0, w.len() - b)
}

/// `str::trim_start`.
pub fn trim_start(s: &str) -> (r: String)
    ensures
        r@ == trim_start_spec(s@),
{
    let v = chars_of(s);
    let a = skip_ws_start(&v);
    proof {
        lemma_lead_ws_bound(v@);
    }
    slice_string(&v, a, v.len())
}

/// `str::trim_end`.
pub fn trim_end(s: &str) -> (r: String)
    ensures
        r@ == trim_end_spec(s@),
{
    let v = chars_of(s);
    let b = count_ws_end(&v);
    proof {
        lemma_trail_bound(v@);
    }
    slice_string(&v, 0, v.len() - b)
}

proof fn lemma_trail_bound(s: Seq<char>)
    ensures
        trail_ws(s) <= s.len(),
    decreases s.len(),
{
    if s.len() > 0 && is_ws(s.last()) {
        lemma_trail_bound(s.drop_last());
    }
}

/// The characters of `v` from index `k` on.
pub fn vec_skip(v: &Vec<char>, k: usize) -> (r: Vec<char>)
    requires
        k <= v@.len(),
    ensures
        r@ == v@.skip(k as int),
{
    let mut out: Vec<char> = Vec::new();
    let mut i = k;
    while i < v.len()
        invariant
            k <= i <= v@.len(),
            out@ == v@.subrange(k as int, i as int),
        decreases v@.len() - i,
    {
        out.push(v[i]);
        assert(v@.subrange(k as int, i + 1) =~= v@.subrange(k as int, i as int).push(v@[i as int]));
        i = i + 1;
    }
    assert(v@.subrange(k as int, v@.len() as int) =~= v@.skip(k as int));
    out
}

/// ASCII lowercase mapping of a character.
pub open spec fn lower_char(c: char) -> char {
    if 'A' <= c && c <= 'Z' {
        ((c as u32) + 32) as char
    } else {
        c
    }
}

/// ASCII uppercase mapping of a character.
pub open spec fn upper_char(c: char) -> char {
    if 'a' <= c && c <= 'z' {
        ((c as u32) - 32) as char
    } else {
        c
    }
}

pub open spec fn lower_seq(s: Seq<char>) -> Seq<char> {
    s.map_values(|c: char| lower_char(c))
}

pub open spec fn upper_seq(s: Seq<char>) -> Seq<char> {
    s.map_values(|c: char| upper_char(c))
}

pub fn to_lower_char(c: char) -> (r: char)
    ensures
        r == lower_char(c),
{
    if 'A' <= c && c <= 'Z' {
        let b: u8 = c as u8;
        ((b + 32) as char)
    } else {
        c
    }
}

pub fn to_upper_char(c: char) -> (r: char)
    ensures
        r == upper_char(c),
{
    if 'a' <= c && c <= 'z' {
        let b: u8 = c as u8;
        ((b - 32) as char)
    } else {
        c
    }
}

/// `str::to_ascii_lowercase`.
pub fn to_ascii_lowercase(s: &str) -> (r: String)
    ensures
        r@ == lower_seq(s@),
{
    let v = chars_of(s);
    let mut out = String::new();
    let mut i: usize = 0;
    while i < v.len()
        invariant
            0 <= i <= v@.len(),
            v@ == s@,
            out@ == lower_seq(v@.take(i as int)),
        decreases v@.len() - i,
    {
        push_char(&mut out, to_lower_char(v[i]));
        assert(lower_seq(v@.take(i + 1)) =~= lower_seq(v@.take(i as int)).push(
            lower_char(v@[i as int]),
        ));
        i = i + 1;
    }
    assert(v@.take(v@.len() as int) =~= v@);
    out
}

/// `str::to_ascii_uppercase`.
pub fn to_ascii_uppercase(s: &str) -> (r: String)
    ensures
        r@ == upper_seq(s@),
{
    let v = chars_of(s);
    let mut out = String::new();
    let mut i: usize = 0;
    while i < v.len()
        invariant
            0 <= i <= v@.len(),
            v@ == s@,
            out@ == upper_seq(v@.take(i as int)),
        decreases v@.len() - i,
    {
        push_char(&mut out, to_upper_char(v[i]));
        assert(upper_seq(v@.take(i + 1)) =~= upper_seq(v@.take(i as int)).push(
            upper_char(v@[i as int]),
        ));
        i = i + 1;
    }
    assert(v@.take(v@.len() as int) =~= v@);
    out
}

/// Whether `v[at..at + n.len()]` equals `n`.
fn matches_at(v: &Vec<char>, n: &Vec<char>, at: usize) -> (r: bool)
    requires
        at + n@.len() <= v@.len(),
    ensures
        r == (v@.subrange(at as int, at + n@.len()) == n@),
{
    let mut j: usize = 0;
    while j < n.len()
        invariant
            0 <= j <= n@.len(),
            at + n@.len() <= v@.len(),
            v@.len() == v.len(),
            forall|k: int| 0 <= k < j ==> v@[at + k] == n@[k],
        decreases n@.len() - j,
    {
        if v[at + j] != n[j] {
            assert(v@.subrange(at as int, at + n@.len())[j as int] != n@[j as int]);
            return false;
        }
        j = j + 1;
    }
    assert(v@.subrange(at as int, at + n@.len()) =~= n@);
    true
}

/// Equality of two strings.
pub fn str_eq(a: &str, b: &str) -> (r: bool)
    ensures
        r == (a@ == b@),
{
    let x = owned(a);
    let y = owned(b);
    x == y
}

pub open spec fn is_prefix(p: Seq<char>, s: Seq<char>) -> bool {
    p.len() <= s.len() && s.take(p.len() as int) == p
}

pub open spec fn is_suffix(p: Seq<char>, s: Seq<char>) -> bool {
    p.len() <= s.len() && s.skip(s.len() - p.len()) == p
}

/// `n` occurs in `s` starting at index `i`.
pub open spec fn occurs_at(s: Seq<char>, n: Seq<char>, i: int) -> bool {
    0 <= i && i + n.len() <= s.len() && s.subrange(i, i + n.len()) == n
}

/// `str::contains` with a string pattern.
pub open spec fn contains_spec(s: Seq<char>, n: Seq<char>) -> bool {
    exists|i: int| occurs_at(s, n, i)
}

/// `str::find`: the first index at which `n` occurs.
pub open spec fn find_spec(s: Seq<char>, n: Seq<char>) -> Option<int> {
    if contains_spec(s, n) {
        Some(choose|i: int| occurs_at(s, n, i) && forall|j: int| 0 <= j < i ==> !occurs_at(s, n, j))
    } else {
        None
    }
}

/// An optional index widened to `int`.
pub open spec fn opt_int(r: Option<usize>) -> Option<int> {
    match r {
        Some(i) => Some(i as int),
        None => None,
    }
}

/// First occurrence of `n` in `v` (as a character index).
pub fn find_chars(v: &Vec<char>, n: &Vec<char>) -> (r: Option<usize>)
    ensures
        opt_int(r) == find_spec(v@, n@),
        r matches Some(i) ==> occurs_at(v@, n@, i as int) && forall|j: int|
            0 <= j < i ==> !occurs_at(v@, n@, j),
        r is None ==> !contains_spec(v@, n@),
{
    if n.len() > v.len() {
        assert(!contains_spec(v@, n@));
        return None;
    }
    let limit = v.len() - n.len();
    let mut i: usize = 0;
    loop
        invariant
            n@.len() <= v@.len(),
            limit == v@.len() - n@.len(),
            0 <= i <= limit,
            forall|j: int| 0 <= j < i ==> !occurs_at(v@, n@, j),
        ensures
            forall|j: int| 0 <= j <= limit ==> !occurs_at(v@, n@, j),
        decreases limit - i,
    {
        if matches_at(v, n, i) {
            assert(occurs_at(v@, n@, i as int));
            proof {
                let w = choose|k: int|
                    occurs_at(v@, n@, k) && forall|j: int| 0 <= j < k ==> !occurs_at(v@, n@, j);
                assert(occurs_at(v@, n@, i as int) && forall|j: int|
                    0 <= j < i ==> !occurs_at(v@, n@, j));
                assert(occurs_at(v@, n@, w) && forall|j: int| 0 <= j < w ==> !occurs_at(v@, n@, j));
                if w < i as int {
                    assert(!occurs_at(v@, n@, w));
                }
                if w > i as int {
                    assert(!occurs_at(v@, n@, i as int));
                }
                assert(w == i);
            }
            return Some(i);
        }
        if i == limit {
            break;
        }
        i = i + 1;
    }
    assert forall|j: int| !occurs_at(v@, n@, j) by {
        if 0 <= j <= limit {
        }
    }
    None
}

/// `str::find` (character index).
pub fn find(s: &str, n: &str) -> (r: Option<usize>)
    ensures
        opt_int(r) == find_spec(s@, n@),
        r matches Some(i) ==> occurs_at(s@, n@, i as int),
        r is None <==> !contains_spec(s@, n@),
{
    let v = chars_of(s);
    let w = chars_of(n);
    find_chars(&v, &w)
}

/// `str::contains`.
pub fn contains(s: &str, n: &str) -> (r: bool)
    ensures
        r == contains_spec(s@, n@),
{
    find(s, n).is_some()
}

/// `str::starts_with`.
pub fn starts_with(s: &str, p: &str) -> (r: bool)
    ensures
        r == is_prefix(p@, s@),
{
    let v = chars_of(s);
    let w = chars_of(p);
    if w.len() > v.len() {
        return false;
    }
    let r = matches_at(&v, &w, 0);
    assert(v@.subrange(0, w@.len() as int) =~= v@.take(w@.len() as int));
    r
}

/// `str::ends_with`.
pub fn ends_with(s: &str, p: &str) -> (r: bool)
    ensures
        r == is_suffix(p@, s@),
{
    let v = chars_of(s);
    let w = chars_of(p);
    if w.len() > v.len() {
        return false;
    }
    let r = matches_at(&v, &w, v.len() - w.len());
    assert(v@.subrange(v@.len() - w@.len(), v@.len() as int) =~= v@.skip(v@.len() - w@.len()));
    r
}

/// Joins pieces with a separator (`[T]::join`).
pub open spec fn seq_join(list: Seq<Seq<char>>, sep: Seq<char>) -> Seq<char>
    decreases list.len(),
{
    if list.len() == 0 {
        Seq::empty()
    } else if list.len() == 1 {
        list[0]
    } else {
        seq_join(list.drop_last(), sep) + sep + list.last()
    }
}

/// A joined list starts with its first item.
pub proof fn lemma_seq_join_first(list: Seq<Seq<char>>, sep: Seq<char>)
    ensures
        list.len() > 0 ==> is_prefix(list[0], seq_join(list, sep)),
    decreases list.len(),
{
    if list.len() > 1 {
        let d = list.drop_last();
        lemma_seq_join_first(d, sep);
        assert(d[0] == list[0]);
        let j = seq_join(d, sep);
        assert((j + sep + list.last()).take(list[0].len() as int) =~= j.take(list[0].len() as int));
    } else if list.len() == 1 {
        assert(seq_join(list, sep).take(list[0].len() as int) =~= list[0]);
    }
}

/// The views of a sequence of strings.
pub open spec fn views(v: Seq<String>) -> Seq<Seq<char>> {
    v.map_values(|s: String| s@)
}

/// `parts.join(sep)`.
pub fn join(parts: &Vec<String>, sep: &str) -> (r: String)
    ensures
        r@ == seq_join(views(parts@), sep@),
{
    let mut out = String::new();
    let mut i: usize = 0;
    while i < parts.len()
        invariant
            0 <= i <= parts@.len(),
            out@ == seq_join(views(parts@).take(i as int), sep@),
        decreases parts@.len() - i,
    {
        let ghost pre = views(parts@).take(i as int);
        assert(views(parts@).take(i + 1).drop_last() =~= pre);
        if i > 0 {
            push_str(&mut out, sep);
        }
        push_str(&mut out, parts[i].as_str());
        proof {
            if i == 0 {
                assert(out@ =~= views(parts@).take(1)[0]);
            }
        }
        i = i + 1;
    }
    assert(views(parts@).take(parts@.len() as int) =~= views(parts@));
    out
}

/// Multiset equality of strings carries over to their views.
pub proof fn lemma_views_multiset(a: Seq<String>, b: Seq<String>)
    requires
        a.to_multiset() == b.to_multiset(),
    ensures
        views(a).to_multiset() == views(b).to_multiset(),
    decreases a.len(),
{
    broadcast use vstd::seq_lib::group_to_multiset_ensures;
    broadcast use vstd::multiset::group_multiset_axioms;

    if a.len() == 0 {
        assert(b.to_multiset().len() == 0);
        assert(views(a) =~= Seq::<Seq<char>>::empty());
        assert(views(b) =~= Seq::<Seq<char>>::empty());
    } else {
        let x = a[0];
        assert(a.to_multiset().count(x) > 0) by {
            assert(a.contains(x));
        }
        assert(b.contains(x));
        let j = choose|j: int| 0 <= j < b.len() && b[j] == x;
        let a1 = a.remove(0);
        let b1 = b.remove(j);
        assert(a1.to_multiset() == a.to_multiset().remove(x));
        assert(b1.to_multiset() == b.to_multiset().remove(x));
        lemma_views_multiset(a1, b1);
        assert(views(a) =~= views(a1).insert(0, x@));
        assert(views(b) =~= views(b1).insert(j, x@));
        assert(views(a).to_multiset() == views(a1).to_multiset().insert(x@));
        assert(views(b).to_multiset() == views(b1).to_multiset().insert(x@));
    }
}

/// Sort rank of a character in code-point order (ranks 0 and 1 are left free
/// for separators).
pub open spec fn char_rank(c: char) -> u128 {
    ((c as u32) + 2) as u128
}

/// Code-point order key of a string, as sort keys.
pub fn text_key_vec(s: &str) -> (r: Vec<u128>)
    ensures
        r@ == s@.map_values(|c: char| char_rank(c)),
{
    let v = chars_of(s);
    let mut out: Vec<u128> = Vec::new();
    let mut i: usize = 0;
    while i < v.len()
        invariant
            0 <= i <= v@.len(),
            v@ == s@,
            out@ == v@.take(i as int).map_values(|c: char| char_rank(c)),
        decreases v@.len() - i,
    {
        let c = v[i];
        let k: u128 = (c as u32) as u128 + 2;
        out.push(k);
        assert(v@.take(i + 1).map_values(|c: char| char_rank(c)) =~= v@.take(i as int).map_values(
            |c: char| char_rank(c),
        ).push(char_rank(c)));
        i = i + 1;
    }
    assert(v@.take(v@.len() as int) =~= v@);
    out
}

/// Decimal digit character.
pub open spec fn digit_char(d: nat) -> char {
    (('0' as u32) + d) as char
}

/// Decimal rendering of a natural number.
pub open spec fn decimal(n: nat) -> Seq<char>
    decreases n,
{
    if n < 10 {
        seq![digit_char(n)]
    } else {
        decimal(n / 10).push(digit_char(n % 10))
    }
}

/// Appends the decimal rendering of `n`.
pub fn push_decimal(out: &mut String, n: u128)
    ensures
        final(out)@ == old(out)@ + decimal(n as nat),
    decreases n,
{
    if n < 10 {
        let d: u8 = n as u8;
        push_char(out, ((48u8 + d) as char));
        assert(seq![digit_char(n as nat)] =~= Seq::<char>::empty().push(digit_char(n as nat)));
    } else {
        push_decimal(out, n / 10);
        let d: u8 = (n % 10) as u8;
        push_char(out, ((48u8 + d) as char));
    }
}

/// Decimal rendering of a signed number.
pub open spec fn signed_decimal(n: int) -> Seq<char> {
    if n < 0 {
        seq!['-'] + decimal((-n) as nat)
    } else {
        decimal(n as nat)
    }
}

pub fn push_signed_decimal(out: &mut String, n: i64)
    ensures
        final(out)@ == old(out)@ + signed_decimal(n as int),
{
    if n < 0 {
        push_char(out, '-');
        let m: u128 = (0i128 - (n as i128)) as u128;
        push_decimal(out, m);
        assert(old(out)@.push('-') + decimal((-n) as nat) =~= old(out)@ + (seq!['-'] + decimal(
            (-n) as nat,
        )));
    } else {
        push_decimal(out, n as u128);
    }
}

/// Position of the first `c` in `s` (the length when absent).
pub open spec fn char_pos(s: Seq<char>, c: char) -> nat
    decreases s.len(),
{
    if s.len() == 0 {
        0
    } else if s[0] == c {
        0
    } else {
        1 + char_pos(s.drop_first(), c)
    }
}

/// `char_pos` is the position of the first `c`, or the length when there is none.
pub proof fn lemma_char_pos(s: Seq<char>, c: char)
    ensures
        char_pos(s, c) <= s.len(),
        forall|j: int| 0 <= j < char_pos(s, c) ==> #[trigger] s[j] != c,
        char_pos(s, c) < s.len() ==> s[char_pos(s, c) as int] == c,
    decreases s.len(),
{
    if s.len() > 0 && s[0] != c {
        lemma_char_pos(s.drop_first(), c);
        assert forall|j: int| 0 <= j < char_pos(s, c) implies #[trigger] s[j] != c by {
            if j > 0 {
                assert(s[j] == s.drop_first()[j - 1]);
            }
        }
    }
}

/// `str::split(c)` segments.
pub open spec fn split_spec(s: Seq<char>, c: char) -> Seq<Seq<char>>
    decreases s.len(),
{
    let i = char_pos(s, c);
    if i >= s.len() {
        seq![s]
    } else {
        proof {
            lemma_char_pos(s, c);
        }
        seq![s.take(i as int)] + split_spec(s.skip(i as int + 1), c)
    }
}

/// A line with its carriage return removed (`str::lines` drops `\r` before `\n`).
pub open spec fn strip_cr(s: Seq<char>) -> Seq<char> {
    if s.len() > 0 && s.last() == '\r' {
        s.drop_last()
    } else {
        s
    }
}

/// `str::lines`.
pub open spec fn lines_spec(s: Seq<char>) -> Seq<Seq<char>>
    decreases s.len(),
{
    if s.len() == 0 {
        Seq::empty()
    } else {
        let i = char_pos(s, '\n');
        if i >= s.len() {
            seq![s]
        } else {
            seq![strip_cr(s.take(i as int))] + lines_spec(s.skip(i as int + 1))
        }
    }
}


/// The two strings one after the other.
pub fn concat(a: &str, b: &str) -> (r: String)
    ensures
        r@ == a@ + b@,
{
    let mut out = owned(a);
    push_str(&mut out, b);
    out
}

/// `Path::join` on textual paths: a name that starts with `/` replaces the
/// base; otherwise the two are joined by one `/` (none after an empty base or
/// one that already ends with `/`).
pub open spec fn path_join_spec(base: Seq<char>, name: Seq<char>) -> Seq<char> {
    if name.len() > 0 && name[0] == '/' {
        name
    } else if base.len() == 0 {
        name
    } else if base.last() == '/' {
        base + name
    } else {
        base + seq!['/'] + name
    }
}

/// Joins a relative name onto a path.
pub fn path_join(base: &str, name: &str) -> (r: String)
    ensures
        r@ == path_join_spec(base@, name@),
{
    let b = chars_of(base);
    let n = chars_of(name);
    if n.len() > 0 && n[0] == '/' {
        return owned(name);
    }
    if b.len() == 0 {
        return owned(name);
    }
    let mut out = owned(base);
    if b[b.len() - 1] != '/' {
        push_char(&mut out, '/');
    }
    push_str(&mut out, name);
    out
}


/// The first `c` of `s` is at `k` (or `s` has none and `k` is its length).
pub proof fn lemma_char_pos_is(s: Seq<char>, c: char, k: int)
    requires
        0 <= k <= s.len(),
        forall|j: int| 0 <= j < k ==> #[trigger] s[j] != c,
        k < s.len() ==> s[k] == c,
    ensures
        char_pos(s, c) == k,
    decreases k,
{
    if k > 0 {
        assert forall|j: int| 0 <= j < k - 1 implies #[trigger] s.drop_first()[j] != c by {
            assert(s.drop_first()[j] == s[j + 1]);
        }
        lemma_char_pos_is(s.drop_first(), c, k - 1);
    }
}

/// Index of the first `c` at or after `start` (the length when there is none).
fn next_char(v: &Vec<char>, c: char, start: usize) -> (p: usize)
    requires
        start <= v@.len(),
    ensures
        start <= p <= v@.len(),
        forall|j: int| start <= j < p ==> #[trigger] v@[j] != c,
        p < v@.len() ==> v@[p as int] == c,
        char_pos(v@.skip(start as int), c) == p - start,
{
    let mut p = start;
    while p < v.len() && v[p] != c
        invariant
            start <= p <= v@.len(),
            forall|j: int| start <= j < p ==> #[trigger] v@[j] != c,
        decreases v@.len() - p,
    {
        p = p + 1;
    }
    proof {
        let t = v@.skip(start as int);
        assert forall|j: int| 0 <= j < p - start implies #[trigger] t[j] != c by {
            assert(t[j] == v@[start + j]);
        }
        lemma_char_pos_is(t, c, p - start);
    }
    p
}

/// `s.split(c)`.
pub fn split_char(s: &str, c: char) -> (r: Vec<String>)
    ensures
        views(r@) == split_spec(s@, c),
{
    let v = chars_of(s);
    let mut out: Vec<String> = Vec::new();
    let mut start: usize = 0;
    assert(v@.skip(0) =~= v@);
    loop
        invariant
            0 <= start <= v@.len(),
            v@ == s@,
            views(out@) + split_spec(v@.skip(start as int), c) == split_spec(v@, c),
        decreases v@.len() - start,
    {
        let ghost t = v@.skip(start as int);
        let ghost pre = out@;
        let p = next_char(&v, c, start);
        let seg = slice_string(&v, start, p);
        out.push(seg);
        assert(views(out@) =~= views(pre).push(seg@));
        if p >= v.len() {
            assert(seg@ =~= t);
            assert(split_spec(t, c) == seq![t]);
            assert(views(pre) + seq![t] =~= views(out@));
            return out;
        }
        proof {
            lemma_char_pos(t, c);
            assert(t.take(p - start) =~= seg@);
            assert(t.skip(p - start + 1) =~= v@.skip(p + 1));
            assert(split_spec(t, c) == seq![t.take(p - start)] + split_spec(t.skip(p - start + 1), c));
            assert(views(out@) + split_spec(v@.skip(p + 1), c) =~= views(pre) + split_spec(t, c));
        }
        start = p + 1;
    }
}

/// `s.lines()`.
pub fn lines(s: &str) -> (r: Vec<String>)
    ensures
        views(r@) == lines_spec(s@),
{
    let v = chars_of(s);
    let mut out: Vec<String> = Vec::new();
    let mut start: usize = 0;
    assert(v@.skip(0) =~= v@);
    loop
        invariant
            0 <= start <= v@.len(),
            v@ == s@,
            views(out@) + lines_spec(v@.skip(start as int)) == lines_spec(v@),
        decreases v@.len() - start,
    {
        let ghost t = v@.skip(start as int);
        let ghost pre = out@;
        if start >= v.len() {
            assert(t.len() == 0);
            assert(views(out@) + lines_spec(t) =~= views(out@));
            return out;
        }
        let p = next_char(&v, '\n', start);
        let mut end = p;
        if p < v.len() && end > start && v[end - 1] == '\r' {
            end = end - 1;
        }
        let seg = slice_string(&v, start, end);
        out.push(seg);
        assert(views(out@) =~= views(pre).push(seg@));
        if p >= v.len() {
            assert(lines_spec(t) == seq![t]);
            assert(seg@ =~= t);
            assert(views(pre) + seq![t] =~= views(out@));
            return out;
        }
        proof {
            lemma_char_pos(t, '\n');
            assert(seg@ =~= strip_cr(t.take(p - start)));
            assert(t.skip(p - start + 1) =~= v@.skip(p + 1));
            assert(views(out@) + lines_spec(v@.skip(p + 1)) =~= views(pre) + lines_spec(t));
        }
        start = p + 1;
    }
}


/// The first segment of `split` is the text before the first separator.
pub proof fn lemma_split_first(s: Seq<char>, c: char)
    ensures
        split_spec(s, c).len() > 0,
        split_spec(s, c)[0] == s.take(char_pos(s, c) as int),
{
    lemma_char_pos(s, c);
    if char_pos(s, c) >= s.len() {
        assert(s.take(char_pos(s, c) as int) =~= s);
    }
}


/// Appends copies of `items` to `out`.
pub fn extend_strings(out: &mut Vec<String>, items: &Vec<String>)
    ensures
        views(final(out)@) == views(old(out)@) + views(items@),
{
    let ghost pre = views(out@);
    let mut k: usize = 0;
    while k < items.len()
        invariant
            0 <= k <= items@.len(),
            views(out@) == pre + views(items@).take(k as int),
        decreases items@.len() - k,
    {
        let ghost before = out@;
        let item = items[k].clone();
        out.push(item);
        assert(views(items@).take(k + 1) =~= views(items@).take(k as int).push(items@[k as int]@));
        assert(views(out@) =~= views(before).push(item@));
        k = k + 1;
    }
    assert(views(items@).take(items@.len() as int) =~= views(items@));
}

} // verus!
