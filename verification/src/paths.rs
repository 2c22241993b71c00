//! Paths as text: the last component, trimming of bundle suffixes, and the
//! choice of a bundle's executable among the paths that exist.
use vstd::prelude::*;
use crate::agent_assets::{last_slash, last_slash_exec};
use crate::rules::entitlements::strings_contain;
use crate::text::{chars_of, ends_with, is_suffix, owned, path_join, path_join_spec, slice_string, views};

verus! {

/// The last component of a path.
pub open spec fn base_name(p: Seq<char>) -> Seq<char> {
    match last_slash(p) {
        Some(k) => p.skip(k + 1),
        None => p,
    }
}

/// The last component of a path.
pub fn file_name(p: &str) -> (r: String)
    ensures
        r@ == base_name(p@),
{
    let v = chars_of(p);
    match last_slash_exec(&v) {
        Some(k) => {
            let n = v.len();
            let s = slice_string(&v, k + 1, n);
            assert(s@ =~= p@.skip(k + 1));
            s
        },
        None => owned(p),
    }
}

/// `str::trim_end_matches` with a text: every trailing copy removed.
pub open spec fn trim_suffix_all(s: Seq<char>, suffix: Seq<char>) -> Seq<char>
    decreases s.len(),
{
    if suffix.len() > 0 && is_suffix(suffix, s) {
        trim_suffix_all(s.take(s.len() - suffix.len()), suffix)
    } else {
        s
    }
}

pub fn trim_end_matches(s: &str, suffix: &str) -> (r: String)
    ensures
        r@ == trim_suffix_all(s@, suffix@),
{
    let v = chars_of(s);
    let n = chars_of(suffix).len();
    let mut end: usize = v.len();
    let mut cur = owned(s);
    assert(v@.take(end as int) =~= s@);
    while n > 0 && ends_with(cur.as_str(), suffix)
        invariant
            end <= v@.len(),
            v@ == s@,
            n == suffix@.len(),
            cur@ == v@.take(end as int),
            trim_suffix_all(s@, suffix@) == trim_suffix_all(cur@, suffix@),
        decreases end,
    {
        end = end - n;
        cur = slice_string(&v, 0, end);
        assert(cur@ =~= v@.take(end as int));
        assert(v@.take(end + n).take(end as int) =~= v@.take(end as int));
    }
    cur
}

/// The path a bundle's executable is found at: the one `Info.plist` names,
/// when it exists, else the bundle's name without its suffixes, when it
/// exists.
pub open spec fn executable_spec(
    bundle: Seq<char>,
    declared: Option<Seq<char>>,
    stem: Seq<char>,
    present: Seq<Seq<char>>,
) -> Option<Seq<char>> {
    let from_plist = match declared {
        Some(e) => if present.contains(path_join_spec(bundle, e)) {
            Some(path_join_spec(bundle, e))
        } else {
            None
        },
        None => None,
    };
    match from_plist {
        Some(p) => Some(p),
        None => if stem.len() > 0 && present.contains(path_join_spec(bundle, stem)) {
            Some(path_join_spec(bundle, stem))
        } else {
            None
        },
    }
}

pub open spec fn opt_text(o: Option<&str>) -> Option<Seq<char>> {
    match o {
        Some(s) => Some(s@),
        None => None,
    }
}

pub open spec fn opt_string(o: Option<String>) -> Option<Seq<char>> {
    match o {
        Some(s) => Some(s@),
        None => None,
    }
}

/// Chooses a bundle's executable among the paths that exist (`present`).
pub fn choose_executable(bundle: &str, declared: Option<&str>, stem: &str, present: &Vec<String>) -> (r: Option<String>)
    ensures
        opt_string(r) == executable_spec(bundle@, opt_text(declared), stem@, views(present@)),
{
    if let Some(e) = declared {
        let candidate = path_join(bundle, e);
        if strings_contain(present, candidate.as_str()) {
            return Some(candidate);
        }
    }
    if chars_of(stem).len() > 0 {
        let fallback = path_join(bundle, stem);
        if strings_contain(present, fallback.as_str()) {
            return Some(fallback);
        }
    }
    None
}

} // verus!
