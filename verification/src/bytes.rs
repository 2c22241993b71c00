//! Searching byte buffers.
use vstd::prelude::*;

verus! {

/// `n` occurs in `h` at offset `i`.
pub open spec fn bytes_at(h: Seq<u8>, n: Seq<u8>, i: int) -> bool {
    0 <= i && i + n.len() <= h.len() && h.subrange(i, i + n.len()) == n
}

/// `n` occurs somewhere in `h`.
pub closed spec fn has_bytes(h: Seq<u8>, n: Seq<u8>) -> bool {
    exists|i: int| bytes_at(h, n, i)
}

/// The first offset at which `n` occurs in `h`.
pub closed spec fn first_bytes_at(h: Seq<u8>, n: Seq<u8>) -> Option<int> {
    if has_bytes(h, n) {
        Some(choose|i: int| bytes_at(h, n, i) && forall|j: int| 0 <= j < i ==> !bytes_at(h, n, j))
    } else {
        None
    }
}

fn bytes_match_at(h: &[u8], n: &[u8], at: usize) -> (r: bool)
    requires
        at + n@.len() <= h@.len(),
    ensures
        r == (h@.subrange(at as int, at + n@.len()) == n@),
{
    let mut j: usize = 0;
    while j < n.len()
        invariant
            0 <= j <= n@.len(),
            at + n@.len() <= h@.len(),
            h@.len() == h.len(),
            forall|k: int| 0 <= k < j ==> h@[at + k] == n@[k],
        decreases n@.len() - j,
    {
        if h[at + j] != n[j] {
            assert(h@.subrange(at as int, at + n@.len())[j as int] != n@[j as int]);
            return false;
        }
        j = j + 1;
    }
    assert(h@.subrange(at as int, at + n@.len()) =~= n@);
    true
}

/// The first offset at which `needle` occurs in `haystack`.
pub fn find_subslice(haystack: &[u8], needle: &[u8]) -> (r: Option<usize>)
    ensures
        match r {
            Some(i) => first_bytes_at(haystack@, needle@) == Some(i as int),
            None => first_bytes_at(haystack@, needle@) is None,
        },
        r matches Some(i) ==> bytes_at(haystack@, needle@, i as int),
        r is None <==> !has_bytes(haystack@, needle@),
{
    if needle.len() > haystack.len() {
        assert(!has_bytes(haystack@, needle@));
        return None;
    }
    let limit = haystack.len() - needle.len();
    let mut i: usize = 0;
    loop
        invariant
            needle@.len() <= haystack@.len(),
            limit == haystack@.len() - needle@.len(),
            0 <= i <= limit,
            forall|j: int| 0 <= j < i ==> !bytes_at(haystack@, needle@, j),
        ensures
            forall|j: int| 0 <= j <= limit ==> !bytes_at(haystack@, needle@, j),
        decreases limit - i,
    {
        if bytes_match_at(haystack, needle, i) {
            assert(bytes_at(haystack@, needle@, i as int));
            proof {
                let w = choose|k: int|
                    bytes_at(haystack@, needle@, k) && forall|j: int| 0 <= j < k ==> !bytes_at(haystack@, needle@, j);
                assert(bytes_at(haystack@, needle@, i as int) && forall|j: int|
                    0 <= j < i ==> !bytes_at(haystack@, needle@, j));
                assert(bytes_at(haystack@, needle@, w) && forall|j: int| 0 <= j < w ==> !bytes_at(haystack@, needle@, j));
                if w < i as int {
                    assert(!bytes_at(haystack@, needle@, w));
                }
                if w > i as int {
                    assert(!bytes_at(haystack@, needle@, i as int));
                }
                assert(w == i);
            }
            return Some(i);
        }
        if i == limit {
            break;
        }
        i = i + 1;
    }
    assert forall|j: int| !bytes_at(haystack@, needle@, j) by {
        if 0 <= j <= limit {
        }
    }
    None
}

/// Whether `needle` occurs in `haystack`.
pub fn contains_subslice(haystack: &[u8], needle: &[u8]) -> (r: bool)
    ensures
        r == has_bytes(haystack@, needle@),
{
    find_subslice(haystack, needle).is_some()
}

/// The bytes `data[from..to]` as a vector.
pub fn copy_range(data: &[u8], from: usize, to: usize) -> (r: Vec<u8>)
    requires
        from <= to <= data@.len(),
    ensures
        r@ == data@.subrange(from as int, to as int),
{
    let mut out: Vec<u8> = Vec::new();
    let mut i = from;
    while i < to
        invariant
            from <= i <= to <= data@.len(),
            out@ == data@.subrange(from as int, i as int),
        decreases to - i,
    {
        out.push(data[i]);
        assert(data@.subrange(from as int, i + 1) =~= data@.subrange(from as int, i as int).push(
            data@[i as int],
        ));
        i = i + 1;
    }
    out
}

} // verus!
