//! Nested bundles (frameworks, extensions, app clips, watch apps, XPC services)
//! inside an app bundle.
use vstd::prelude::*;
use crate::sorting::{key_lt, lemma_key_lt_asym, lemma_key_lt_irrefl, lemma_key_lt_total, lemma_key_lt_trans, sort_by_key, sorted_by_key, SortKey};
use crate::text::{char_rank, chars_of, owned, push_str, slice_string, str_eq, to_ascii_lowercase, lower_seq};

verus! {

broadcast use vstd::seq_lib::group_to_multiset_ensures;

/// Directories of an app bundle that hold nested bundles.
pub open spec fn container_dir(i: int) -> Seq<char> {
    if i == 0 {
        "Frameworks"@
    } else if i == 1 {
        "PlugIns"@
    } else if i == 2 {
        "Extensions"@
    } else if i == 3 {
        "AppClips"@
    } else if i == 4 {
        "Watch"@
    } else {
        "XPCServices"@
    }
}

pub const NESTED_BUNDLE_CONTAINER_DIR_COUNT: usize = 6;

/// The name of the `i`-th container directory, searched in this order.
pub fn nested_bundle_container_dir(i: usize) -> (r: &'static str)
    ensures
        r@ == container_dir(i as int),
{
    if i == 0 {
        "Frameworks"
    } else if i == 1 {
        "PlugIns"
    } else if i == 2 {
        "Extensions"
    } else if i == 3 {
        "AppClips"
    } else if i == 4 {
        "Watch"
    } else {
        "XPCServices"
    }
}

pub enum BundleScanError {
    /// Walking a directory failed; the I/O error's message.
    Io(String),
}

impl BundleScanError {
    pub fn message(&self) -> (r: String)
        ensures
            r@ == match self {
                BundleScanError::Io(m) => "IO Error: "@ + m@,
            },
    {
        match self {
            BundleScanError::Io(m) => {
                let mut out = owned("IO Error: ");
                push_str(&mut out, m.as_str());
                out
            },
        }
    }
}

/// A nested bundle: its path and its file name.
pub struct BundleTarget {
    pub bundle_path: String,
    pub display_name: String,
}

/// An entry met while walking the container directories, in walk order: its
/// path and its file name ("" when it has none).
pub struct WalkedEntry {
    pub path: String,
    pub file_name: String,
}

/// Index of the last `.` in `s`, if any.
pub open spec fn last_dot(s: Seq<char>) -> Option<int>
    decreases s.len(),
{
    if s.len() == 0 {
        None
    } else if s.last() == '.' {
        Some(s.len() - 1)
    } else {
        last_dot(s.drop_last())
    }
}

/// `Path::extension` of a file name: the text after the last `.`, unless the
/// name has no `.`, starts with its only `.`, or is `..`.
pub open spec fn extension_of(name: Seq<char>) -> Option<Seq<char>> {
    if name == ".."@ {
        None
    } else {
        match last_dot(name) {
            Some(k) => if k == 0 {
                None
            } else {
                Some(name.skip(k + 1))
            },
            None => None,
        }
    }
}

proof fn lemma_last_dot_char(s: Seq<char>, k: int)
    requires
        -1 <= k < s.len(),
        k >= 0 ==> s[k] == '.',
        forall|j: int| k < j < s.len() ==> #[trigger] s[j] != '.',
    ensures
        last_dot(s) == if k >= 0 {
            Some(k)
        } else {
            None::<int>
        },
    decreases s.len(),
{
    if s.len() > 0 && k < s.len() - 1 {
        assert forall|j: int| k < j < s.len() - 1 implies #[trigger] s.drop_last()[j] != '.' by {
            assert(s.drop_last()[j] == s[j]);
        }
        lemma_last_dot_char(s.drop_last(), k);
    }
}

/// `Path::extension` of a file name.
pub fn path_extension(name: &str) -> (r: Option<String>)
    ensures
        match r {
            Some(e) => extension_of(name@) == Some(e@),
            None => extension_of(name@) is None,
        },
{
    if str_eq(name, "..") {
        return None;
    }
    let v = chars_of(name);
    let mut k: usize = v.len();
    while k > 0 && v[k - 1] != '.'
        invariant
            k <= v@.len(),
            forall|j: int| k <= j < v@.len() ==> #[trigger] v@[j] != '.',
        decreases k,
    {
        k = k - 1;
    }
    proof {
        if k > 0 {
            lemma_last_dot_char(v@, k - 1);
        } else {
            lemma_last_dot_char(v@, -1);
        }
    }
    if k <= 1 {
        None
    } else {
        Some(slice_string(&v, k, v.len()))
    }
}

/// Extensions of nested bundles.
pub open spec fn nested_extension(e: Seq<char>) -> bool {
    e == "app"@ || e == "appex"@ || e == "framework"@ || e == "xpc"@
}

/// A file name whose (lowercased) extension marks a nested bundle.
pub open spec fn is_nested_name(name: Seq<char>) -> bool {
    match extension_of(name) {
        Some(e) => nested_extension(lower_seq(e)),
        None => false,
    }
}

/// Whether a file name marks a nested bundle.
pub fn is_nested_bundle(name: &str) -> (r: bool)
    ensures
        r == is_nested_name(name@),
{
    match path_extension(name) {
        Some(e) => {
            let l = to_ascii_lowercase(e.as_str());
            str_eq(l.as_str(), "app") || str_eq(l.as_str(), "appex") || str_eq(
                l.as_str(),
                "framework",
            ) || str_eq(l.as_str(), "xpc")
        },
        None => false,
    }
}

/// Path order key: components compare first, so `/` ranks below every other
/// character.
pub open spec fn path_key(p: Seq<char>) -> Seq<u128> {
    p.map_values(|c: char| if c == '/' { 1u128 } else { char_rank(c) })
}

impl SortKey for BundleTarget {
    open spec fn key(&self) -> Seq<u128> {
        path_key(self.bundle_path@)
    }

    fn key_vec(&self) -> (r: Vec<u128>) {
        let v = chars_of(self.bundle_path.as_str());
        let mut out: Vec<u128> = Vec::new();
        let mut i: usize = 0;
        while i < v.len()
            invariant
                0 <= i <= v@.len(),
                v@ == self.bundle_path@,
                out@ == path_key(v@.take(i as int)),
            decreases v@.len() - i,
        {
            let c = v[i];
            let k: u128 = if c == '/' {
                1
            } else {
                (c as u32) as u128 + 2
            };
            out.push(k);
            assert(path_key(v@.take(i + 1)) =~= path_key(v@.take(i as int)).push(k));
            i = i + 1;
        }
        assert(v@.take(v@.len() as int) =~= v@);
        out
    }
}

/// The walked entries that are nested bundles, as targets, in walk order.
pub open spec fn nested_targets(walked: Seq<WalkedEntry>) -> Seq<(Seq<char>, Seq<char>)>
    decreases walked.len(),
{
    if walked.len() == 0 {
        Seq::empty()
    } else {
        let prev = nested_targets(walked.drop_last());
        let w = walked.last();
        if is_nested_name(w.file_name@) {
            prev.push((w.path@, w.file_name@))
        } else {
            prev
        }
    }
}

/// The view of a target.
pub open spec fn target_view(t: BundleTarget) -> (Seq<char>, Seq<char>) {
    (t.bundle_path@, t.display_name@)
}

/// Keys strictly increase.
pub open spec fn strictly_sorted<T: SortKey>(s: Seq<T>) -> bool {
    forall|i: int, j: int| 0 <= i < j < s.len() ==> key_lt(#[trigger] s[i].key(), #[trigger] s[j].key())
}

/// Drops each element whose key equals the key of the element kept before it.
pub fn dedup_by_key<T: SortKey>(v: Vec<T>) -> (r: Vec<T>)
    requires
        sorted_by_key(v@),
    ensures
        strictly_sorted(r@),
        forall|i: int| 0 <= i < r@.len() ==> v@.contains(#[trigger] r@[i]),
        forall|j: int| 0 <= j < v@.len() ==> exists|i: int|
            0 <= i < r@.len() && (#[trigger] r@[i]).key() == (#[trigger] v@[j]).key(),
{
    let ghost orig = v@;
    let mut rest = v;
    let mut out: Vec<T> = Vec::new();
    let mut last: Vec<u128> = Vec::new();
    let ghost mut taken: int = 0;
    while rest.len() > 0
        invariant
            0 <= taken <= orig.len(),
            rest@ == orig.skip(taken),
            sorted_by_key(orig),
            strictly_sorted(out@),
            out@.len() > 0 ==> last@ == out@.last().key(),
            out@.len() == 0 ==> taken == 0,
            forall|i: int| 0 <= i < out@.len() ==> orig.take(taken).contains(#[trigger] out@[i]),
            forall|j: int| 0 <= j < taken ==> exists|i: int|
                0 <= i < out@.len() && (#[trigger] out@[i]).key() == (#[trigger] orig[j]).key(),
            out@.len() > 0 ==> forall|j: int|
                0 <= j < taken ==> !key_lt(out@.last().key(), #[trigger] orig[j].key()),
        decreases rest@.len(),
    {
        let ghost out0 = out@;
        assert(rest@[0] == orig[taken]);
        let x = rest.remove(0);
        let k = x.key_vec();
        let keep = out.len() == 0 || !crate::sorting::keys_equal(&last, &k);
        proof {
            assert(orig.take(taken + 1) =~= orig.take(taken).push(x));
        }
        if keep {
            proof {
                if out0.len() > 0 {
                    let lk = out0.last().key();
                    let j0 = choose|j: int| 0 <= j < taken && orig.take(taken)[j] == out0.last();
                    assert(orig[j0] == out0.last());
                    assert(!key_lt(x.key(), orig[j0].key()));
                    lemma_key_lt_total(lk, x.key());
                }
            }
            out.push(x);
            last = k;
            proof {
                assert forall|i: int, j: int| 0 <= i < j < out@.len() implies key_lt(
                    #[trigger] out@[i].key(),
                    #[trigger] out@[j].key(),
                ) by {
                    if j == out@.len() - 1 && i < j {
                        if i < out0.len() - 1 {
                            lemma_key_lt_trans(out0[i].key(), out0.last().key(), x.key());
                        }
                        assert(out@[i] == out0[i]);
                    } else {
                        assert(out@[i] == out0[i] && out@[j] == out0[j]);
                    }
                }
                assert forall|i: int| 0 <= i < out@.len() implies orig.take(taken + 1).contains(
                    #[trigger] out@[i],
                ) by {
                    if i < out0.len() {
                        assert(out@[i] == out0[i]);
                        let j = choose|j: int| 0 <= j < taken && orig.take(taken)[j] == out0[i];
                        assert(orig.take(taken + 1)[j] == out0[i]);
                    } else {
                        assert(orig.take(taken + 1)[taken] == x);
                    }
                }
                assert forall|j: int| 0 <= j < taken + 1 implies exists|i: int|
                    0 <= i < out@.len() && (#[trigger] out@[i]).key() == (
                    #[trigger] orig[j]).key() by {
                    if j < taken {
                        let i = choose|i: int|
                            0 <= i < out0.len() && (#[trigger] out0[i]).key() == orig[j].key();
                        assert(out@[i] == out0[i]);
                    } else {
                        assert(out@[out@.len() - 1] == x);
                    }
                }
                assert forall|j: int| 0 <= j < taken + 1 implies !key_lt(
                    out@.last().key(),
                    #[trigger] orig[j].key(),
                ) by {
                    if j < taken {
                        assert(!key_lt(x.key(), orig[j].key()));
                        if key_lt(x.key(), orig[j].key()) {
                        }
                        assert(!key_lt(orig[taken].key(), orig[j].key()));
                    } else {
                        lemma_key_lt_irrefl(x.key());
                    }
                }
            }
        } else {
            proof {
                assert forall|i: int| 0 <= i < out@.len() implies orig.take(taken + 1).contains(
                    #[trigger] out@[i],
                ) by {
                    let j = choose|j: int| 0 <= j < taken && orig.take(taken)[j] == out@[i];
                    assert(orig.take(taken + 1)[j] == out@[i]);
                }
                assert forall|j: int| 0 <= j < taken + 1 implies exists|i: int|
                    0 <= i < out@.len() && (#[trigger] out@[i]).key() == (
                    #[trigger] orig[j]).key() by {
                    if j == taken {
                        assert(out@[out@.len() - 1].key() == orig[j].key());
                    }
                }
                assert forall|j: int| 0 <= j < taken + 1 implies !key_lt(
                    out@.last().key(),
                    #[trigger] orig[j].key(),
                ) by {
                    if j == taken {
                        lemma_key_lt_irrefl(x.key());
                    }
                }
            }
        }
        proof {
            assert(rest@ =~= orig.skip(taken + 1));
            taken = taken + 1;
        }
    }
    proof {
        assert(orig.take(taken) =~= orig);
    }
    out
}

/// Every target's path occurs among the bundles.
pub open spec fn covers_paths(r: Seq<BundleTarget>, targets: Seq<(Seq<char>, Seq<char>)>) -> bool {
    forall|j: int| 0 <= j < targets.len() ==> #[trigger] has_path(r, targets[j].0)
}

/// Some bundle has the path.
pub open spec fn has_path(r: Seq<BundleTarget>, p: Seq<char>) -> bool {
    exists|i: int| 0 <= i < r.len() && (#[trigger] r[i]).bundle_path@ == p
}

/// The nested bundles among the walked entries, ordered by path, each path once.
pub fn find_nested_bundles(walked: Vec<WalkedEntry>) -> (r: Vec<BundleTarget>)
    ensures
        strictly_sorted(r@),
        forall|i: int| 0 <= i < r@.len() ==> nested_targets(walked@).contains(
            #[trigger] target_view(r@[i]),
        ),
        covers_paths(r@, nested_targets(walked@)),
{
    let mut found: Vec<BundleTarget> = Vec::new();
    let mut i: usize = 0;
    while i < walked.len()
        invariant
            0 <= i <= walked@.len(),
            found@.map_values(|t: BundleTarget| target_view(t)) == nested_targets(
                walked@.take(i as int),
            ),
        decreases walked@.len() - i,
    {
        assert(walked@.take(i + 1).drop_last() =~= walked@.take(i as int));
        let w = &walked[i];
        if is_nested_bundle(w.file_name.as_str()) {
            let ghost pre = found@;
            found.push(
                BundleTarget { bundle_path: w.path.clone(), display_name: w.file_name.clone() },
            );
            assert(found@.map_values(|t: BundleTarget| target_view(t)) =~= pre.map_values(
                |t: BundleTarget| target_view(t),
            ).push((w.path@, w.file_name@)));
        }
        i = i + 1;
    }
    assert(walked@.take(walked@.len() as int) =~= walked@);
    let ghost nt = nested_targets(walked@);
    let ghost f0 = found@;
    let sorted = sort_by_key(found);
    let r = dedup_by_key(sorted);
    proof {
        assert forall|i: int| 0 <= i < r@.len() implies nt.contains(
            #[trigger] target_view(r@[i]),
        ) by {
            assert(sorted@.contains(r@[i]));
            assert(sorted@.to_multiset().count(r@[i]) > 0);
            assert(f0.contains(r@[i]));
            let j = choose|j: int| 0 <= j < f0.len() && f0[j] == r@[i];
            assert(nt[j] == target_view(f0[j]));
        }
        assert forall|j: int| 0 <= j < nt.len() implies #[trigger] has_path(r@, nt[j].0) by {
            assert(nt[j] == target_view(f0[j]));
            assert(f0.contains(f0[j]));
            assert(f0.to_multiset().count(f0[j]) > 0);
            assert(sorted@.contains(f0[j]));
            let k = choose|k: int| 0 <= k < sorted@.len() && sorted@[k] == f0[j];
            let i = choose|i: int| 0 <= i < r@.len() && (#[trigger] r@[i]).key() == sorted@[k].key();
            lemma_path_key_injective(r@[i].bundle_path@, f0[j].bundle_path@);
            assert(0 <= i < r@.len());
            assert(r@[i].bundle_path@ == nt[j].0);
        }
        assert(covers_paths(r@, nt));
    }
    r
}

proof fn lemma_path_key_injective(a: Seq<char>, b: Seq<char>)
    requires
        path_key(a) == path_key(b),
    ensures
        a == b,
{
    let ka = path_key(a);
    let kb = path_key(b);
    assert(ka.len() == a.len() && kb.len() == b.len());
    assert forall|i: int| 0 <= i < a.len() implies a[i] == b[i] by {
        assert(ka[i] == kb[i]);
        assert(ka[i] == (if a[i] == '/' { 1u128 } else { char_rank(a[i]) }));
        assert(kb[i] == (if b[i] == '/' { 1u128 } else { char_rank(b[i]) }));
        if a[i] != '/' && b[i] != '/' {
            let ua = a[i] as u32;
            let ub = b[i] as u32;
            vstd::utf8::char_u32_cast(a[i], ua);
            vstd::utf8::char_u32_cast(b[i], ub);
            assert(ua == ub);
        }
    }
    assert(a =~= b);
}

} // verus!
