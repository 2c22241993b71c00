//! Files of the app bundle that rules read.
use vstd::prelude::*;
use crate::parsers::plist_reader::{info_plist_of, InfoPlist};
use crate::rules::base::BundleFile;
use crate::text::{ends_with, is_suffix, str_eq};

verus! {

/// The first file whose path below the bundle root is `name`.
pub open spec fn root_file(files: Seq<BundleFile>, name: Seq<char>) -> Option<BundleFile>
    decreases files.len(),
{
    if files.len() == 0 {
        None
    } else if files[0].relative_path@ == name {
        Some(files[0])
    } else {
        root_file(files.drop_first(), name)
    }
}

/// Index of the first file whose path below the bundle root is `name`.
pub fn find_root_file(files: &Vec<BundleFile>, name: &str) -> (r: Option<usize>)
    ensures
        match r {
            Some(i) => i < files@.len() && root_file(files@, name@) == Some(files@[i as int]),
            None => root_file(files@, name@) is None,
        },
{
    let mut i: usize = 0;
    assert(files@.skip(0) =~= files@);
    while i < files.len()
        invariant
            0 <= i <= files@.len(),
            root_file(files@, name@) == root_file(files@.skip(i as int), name@),
        decreases files@.len() - i,
    {
        assert(files@.skip(i as int)[0] == files@[i as int]);
        if str_eq(files[i].relative_path.as_str(), name) {
            return Some(i);
        }
        assert(files@.skip(i as int).drop_first() =~= files@.skip(i + 1));
        i = i + 1;
    }
    None
}

/// The property list a file holds, when it was read and parses with a
/// dictionary root.
pub open spec fn manifest_of(f: BundleFile) -> Option<InfoPlist> {
    match f.contents {
        Some(Ok(b)) => match info_plist_of(b@) {
            Ok(p) => Some(p),
            Err(_) => None,
        },
        _ => None,
    }
}

/// Parses the property list a bundle file holds.
pub fn read_manifest(f: &BundleFile) -> (r: Option<InfoPlist>)
    ensures
        r == manifest_of(*f),
{
    match &f.contents {
        Some(Ok(b)) => match InfoPlist::from_bytes(b.as_slice()) {
            Ok(p) => Some(p),
            Err(_) => None,
        },
        _ => None,
    }
}

/// The files whose contents the rules read: PNG images and the privacy
/// manifest.
pub open spec fn contents_wanted(file_name: Seq<char>) -> bool {
    is_suffix(".png"@, file_name) || file_name == "PrivacyInfo.xcprivacy"@
}

/// Whether the rules read the contents of a file with this name.
pub fn contents_needed(file_name: &str) -> (r: bool)
    ensures
        r == contents_wanted(file_name@),
{
    ends_with(file_name, ".png") || str_eq(file_name, "PrivacyInfo.xcprivacy")
}

} // verus!
