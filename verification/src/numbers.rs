//! Decimal numbers in text: `u32` parsing as `str::parse::<u32>` does it, and
//! dotted version numbers.
use vstd::prelude::*;
use crate::text::{chars_of, split_char, split_spec, views};

verus! {

pub open spec fn is_digit(c: char) -> bool {
    '0' <= c && c <= '9'
}

pub open spec fn all_digits(s: Seq<char>) -> bool {
    forall|i: int| 0 <= i < s.len() ==> is_digit(#[trigger] s[i])
}

/// The value of a string of decimal digits.
pub open spec fn digits_value(s: Seq<char>) -> int
    decreases s.len(),
{
    if s.len() == 0 {
        0
    } else {
        digits_value(s.drop_last()) * 10 + (s.last() as int - '0' as int)
    }
}

/// `str::parse::<u32>`: an optional `+`, then one or more ASCII digits whose
/// value fits in a `u32`.
pub open spec fn parse_u32_spec(s: Seq<char>) -> Option<u32> {
    let d = if s.len() > 0 && s[0] == '+' {
        s.drop_first()
    } else {
        s
    };
    if d.len() > 0 && all_digits(d) && digits_value(d) <= u32::MAX {
        Some(digits_value(d) as u32)
    } else {
        None
    }
}

proof fn lemma_digits_value_grows(s: Seq<char>, i: int)
    requires
        0 <= i <= s.len(),
        all_digits(s),
    ensures
        0 <= digits_value(s.take(i)) <= digits_value(s),
    decreases s.len() - i,
{
    if i < s.len() {
        assert(s.take(i + 1).drop_last() =~= s.take(i));
        assert(is_digit(s[i]));
        assert(s.take(i + 1).last() == s[i]);
        lemma_digits_value_grows(s, i + 1);
    } else {
        assert(s.take(i) =~= s);
    }
    lemma_digits_value_nonneg(s.take(i));
}

proof fn lemma_digits_value_nonneg(s: Seq<char>)
    requires
        all_digits(s),
    ensures
        digits_value(s) >= 0,
    decreases s.len(),
{
    if s.len() > 0 {
        assert(is_digit(s[s.len() - 1]));
        lemma_digits_value_nonneg(s.drop_last());
    }
}

/// Parses a `u32` as `str::parse::<u32>` does.
pub fn parse_u32(s: &str) -> (r: Option<u32>)
    ensures
        r == parse_u32_spec(s@),
{
    let v = chars_of(s);
    let mut i: usize = 0;
    if v.len() > 0 && v[0] == '+' {
        i = 1;
    }
    let ghost d = if s@.len() > 0 && s@[0] == '+' {
        s@.drop_first()
    } else {
        s@
    };
    let start = i;
    assert(d =~= v@.skip(start as int));
    if i >= v.len() {
        return None;
    }
    let mut value: u64 = 0;
    while i < v.len()
        invariant
            start <= i <= v@.len(),
            v@ == s@,
            d == v@.skip(start as int),
            d == (if s@.len() > 0 && s@[0] == '+' {
                s@.drop_first()
            } else {
                s@
            }),
            all_digits(d.take(i - start)),
            value == digits_value(d.take(i - start)),
            value <= u32::MAX,
        decreases v@.len() - i,
    {
        let c = v[i];
        if c < '0' || c > '9' {
            assert(d[i - start] == c);
            assert(!all_digits(d));
            return None;
        }
        let digit: u64 = ((c as u32) - 48) as u64;
        assert(d.take(i - start + 1).drop_last() =~= d.take(i - start));
        assert(d.take(i - start + 1).last() == c);
        let next: u64 = value * 10 + digit;
        if next > 0xffff_ffff {
            proof {
                assert(all_digits(d.take(i - start + 1)));
                if all_digits(d) {
                    lemma_digits_value_grows(d, i - start + 1);
                }
            }
            return None;
        }
        value = next;
        i = i + 1;
    }
    assert(d.take(i - start) =~= d);
    Some(value as u32)
}

/// The numeric parts of a dotted version: `split('.')` keeping the parts that
/// parse as `u32`.
pub open spec fn version_parts(s: Seq<char>) -> Seq<u32> {
    parsed_parts(split_spec(s, '.'))
}

pub open spec fn parsed_parts(parts: Seq<Seq<char>>) -> Seq<u32>
    decreases parts.len(),
{
    if parts.len() == 0 {
        Seq::empty()
    } else {
        match parse_u32_spec(parts.last()) {
            Some(n) => parsed_parts(parts.drop_last()).push(n),
            None => parsed_parts(parts.drop_last()),
        }
    }
}

/// The numeric parts of a dotted version string.
pub fn parse_version(s: &str) -> (r: Vec<u32>)
    ensures
        r@ == version_parts(s@),
{
    let parts = split_char(s, '.');
    let mut out: Vec<u32> = Vec::new();
    let mut i: usize = 0;
    while i < parts.len()
        invariant
            0 <= i <= parts@.len(),
            out@ == parsed_parts(views(parts@).take(i as int)),
        decreases parts@.len() - i,
    {
        assert(views(parts@).take(i + 1).drop_last() =~= views(parts@).take(i as int));
        assert(views(parts@).take(i + 1).last() == parts@[i as int]@);
        if let Some(n) = parse_u32(parts[i].as_str()) {
            out.push(n);
        }
        i = i + 1;
    }
    assert(views(parts@).take(parts@.len() as int) =~= views(parts@));
    out
}

/// The `i`-th part, `0` past the end.
pub open spec fn part_at(p: Seq<u32>, i: int) -> u32 {
    if 0 <= i < p.len() {
        p[i]
    } else {
        0
    }
}

/// `a` is greater than `b` when both are padded with zeros: at the first
/// position where they differ, `a` holds the larger number.
pub open spec fn parts_higher(a: Seq<u32>, b: Seq<u32>) -> bool {
    exists|k: int|
        0 <= k < a.len() && part_at(a, k) > part_at(b, k) && forall|j: int|
            0 <= j < k ==> #[trigger] part_at(a, j) == part_at(b, j)
}

/// Whether version `v1` is higher than version `v2`.
pub fn is_version_higher(v1: &str, v2: &str) -> (r: bool)
    ensures
        r == parts_higher(version_parts(v1@), version_parts(v2@)),
{
    let p1 = parse_version(v1);
    let p2 = parse_version(v2);
    let n = if p1.len() > p2.len() {
        p1.len()
    } else {
        p2.len()
    };
    let mut i: usize = 0;
    while i < n
        invariant
            0 <= i <= n,
            p1@ == version_parts(v1@),
            p2@ == version_parts(v2@),
            n == if p1@.len() > p2@.len() { p1@.len() } else { p2@.len() },
            forall|j: int| 0 <= j < i ==> #[trigger] part_at(p1@, j) == part_at(p2@, j),
        decreases n - i,
    {
        let a: u32 = if i < p1.len() {
            p1[i]
        } else {
            0
        };
        let b: u32 = if i < p2.len() {
            p2[i]
        } else {
            0
        };
        assert(a == part_at(p1@, i as int) && b == part_at(p2@, i as int));
        if a > b {
            assert(i < p1@.len());
            assert(part_at(p1@, i as int) > part_at(p2@, i as int));
            return true;
        }
        if a < b {
            proof {
                if parts_higher(p1@, p2@) {
                    let k = choose|k: int|
                        0 <= k < p1@.len() && part_at(p1@, k) > part_at(p2@, k) && forall|j: int|
                            0 <= j < k ==> #[trigger] part_at(p1@, j) == part_at(p2@, j);
                    if k < i {
                        assert(part_at(p1@, k) == part_at(p2@, k));
                    } else if k > i {
                        assert(part_at(p1@, i as int) == part_at(p2@, i as int));
                    }
                }
            }
            return false;
        }
        i = i + 1;
    }
    proof {
        if parts_higher(p1@, p2@) {
            let k = choose|k: int|
                0 <= k < p1@.len() && part_at(p1@, k) > part_at(p2@, k) && forall|j: int|
                    0 <= j < k ==> #[trigger] part_at(p1@, j) == part_at(p2@, j);
            assert(part_at(p1@, k) == part_at(p2@, k));
        }
    }
    false
}

} // verus!
