//! Transparency in the app icon images.
use vstd::prelude::*;
use crate::rules::base::{
    bare, outcome, report_of, with_evidence, with_message, AppStoreRule, ArtifactContext,
    ReportView, RuleCategory, RuleError, RuleReport, RuleStatus, Severity,
};
use crate::bytes::{contains_subslice, has_bytes};
use crate::rules::base::BundleFile;
use crate::rules::info_plist::{unique_sorted, unique_sorted_spec};
use crate::text::{concat, ends_with, extend_strings, is_prefix, is_suffix, join, seq_join, starts_with, views};

verus! {

pub struct AppIconAlphaRule;

/// The PNG file signature.
pub open spec fn png_signature() -> Seq<u8> {
    seq![0x89u8, 0x50u8, 0x4eu8, 0x47u8, 0x0du8, 0x0au8, 0x1au8, 0x0au8]
}

/// The ASCII bytes of `IHDR`.
pub open spec fn ihdr_tag() -> Seq<u8> {
    seq![0x49u8, 0x48u8, 0x44u8, 0x52u8]
}

/// The ASCII bytes of `tRNS`.
pub open spec fn trns_tag() -> Seq<u8> {
    seq![0x74u8, 0x52u8, 0x4eu8, 0x53u8]
}

/// A PNG whose header declares an alpha channel, or an indexed PNG with a
/// transparency chunk.
pub open spec fn png_alpha(b: Seq<u8>) -> bool {
    if b.len() < 26 {
        false
    } else if b.subrange(0, 8) != png_signature() {
        false
    } else if b.subrange(12, 16) != ihdr_tag() {
        false
    } else if b[25] == 4 || b[25] == 6 {
        true
    } else if b[25] == 3 {
        has_bytes(b, trns_tag())
    } else {
        false
    }
}

/// Whether PNG bytes carry transparency.
pub fn check_png_alpha(bytes: &[u8]) -> (r: bool)
    ensures
        r == png_alpha(bytes@),
{
    if bytes.len() < 26 {
        return false;
    }
    let sig: Vec<u8> = vec![0x89u8, 0x50u8, 0x4eu8, 0x47u8, 0x0du8, 0x0au8, 0x1au8, 0x0au8];
    let mut i: usize = 0;
    while i < 8
        invariant
            0 <= i <= 8,
            bytes@.len() >= 26,
            sig@ == png_signature(),
            forall|j: int| 0 <= j < i ==> bytes@[j] == sig@[j],
        decreases 8 - i,
    {
        if bytes[i] != sig[i] {
            assert(bytes@.subrange(0, 8)[i as int] != png_signature()[i as int]);
            return false;
        }
        i = i + 1;
    }
    assert(bytes@.subrange(0, 8) =~= png_signature());
    let tag: Vec<u8> = vec![0x49u8, 0x48u8, 0x44u8, 0x52u8];
    let mut k: usize = 0;
    while k < 4
        invariant
            0 <= k <= 4,
            bytes@.len() >= 26,
            tag@ == ihdr_tag(),
            forall|j: int| 0 <= j < k ==> bytes@[12 + j] == tag@[j],
        decreases 4 - k,
    {
        if bytes[12 + k] != tag[k] {
            assert(bytes@.subrange(12, 16)[k as int] != ihdr_tag()[k as int]);
            return false;
        }
        k = k + 1;
    }
    assert(bytes@.subrange(12, 16) =~= ihdr_tag());
    let color_type = bytes[25];
    if color_type == 4 || color_type == 6 {
        true
    } else if color_type == 3 {
        let trns: Vec<u8> = vec![0x74u8, 0x52u8, 0x4eu8, 0x53u8];
        assert(trns@ =~= trns_tag());
        contains_subslice(bytes, trns.as_slice())
    } else {
        false
    }
}

/// A bundle file is an icon file for `name` that carries transparency.
pub open spec fn alpha_icon_file(name: Seq<char>, f: BundleFile) -> bool {
    is_prefix(name, f.file_name@) && is_suffix(".png"@, f.file_name@) && match f.contents {
        Some(Ok(b)) => png_alpha(b@),
        _ => false,
    }
}

/// The names of the files that are transparent icon files for `name`, in order.
pub open spec fn icon_hits(name: Seq<char>, files: Seq<BundleFile>) -> Seq<Seq<char>>
    decreases files.len(),
{
    if files.len() == 0 {
        Seq::empty()
    } else {
        let prev = icon_hits(name, files.drop_last());
        if alpha_icon_file(name, files.last()) {
            prev.push(files.last().file_name@)
        } else {
            prev
        }
    }
}

/// The transparent icon files for all icon names, name by name.
pub open spec fn all_icon_hits(names: Seq<Seq<char>>, files: Seq<BundleFile>) -> Seq<Seq<char>>
    decreases names.len(),
{
    if names.len() == 0 {
        Seq::empty()
    } else {
        all_icon_hits(names.drop_last(), files) + icon_hits(names.last(), files)
    }
}

/// What the icon transparency check reports.
pub open spec fn app_icon_outcome(a: ArtifactContext) -> Result<ReportView, RuleError> {
    match a.info_plist {
        None => Ok(report_of(RuleStatus::Skip, Some("Info.plist not found"@), None)),
        Some(p) => {
            let names = p.app_icons();
            if names.len() == 0 {
                Ok(report_of(RuleStatus::Skip, Some("No app icons found in Info.plist"@), None))
            } else {
                let hits = all_icon_hits(names, a.bundle_files@);
                if hits.len() == 0 {
                    Ok(
                        report_of(
                            RuleStatus::Pass,
                            Some("No alpha channel detected in app icons"@),
                            None,
                        ),
                    )
                } else {
                    Ok(
                        report_of(
                            RuleStatus::Fail,
                            Some("App icons contain alpha channel (transparency)"@),
                            Some("Icons with alpha: "@ + seq_join(unique_sorted_spec(hits), ", "@)),
                        ),
                    )
                }
            }
        },
    }
}

/// The transparent icon files for one icon name.
fn icon_hits_for(name: &str, files: &Vec<BundleFile>) -> (r: Vec<String>)
    ensures
        views(r@) == icon_hits(name@, files@),
{
    let mut out: Vec<String> = Vec::new();
    let mut i: usize = 0;
    assert(views(out@) =~= Seq::<Seq<char>>::empty());
    while i < files.len()
        invariant
            0 <= i <= files@.len(),
            views(out@) == icon_hits(name@, files@.take(i as int)),
        decreases files@.len() - i,
    {
        assert(files@.take(i + 1).drop_last() =~= files@.take(i as int));
        let f = &files[i];
        let fname = f.file_name.as_str();
        if starts_with(fname, name) && ends_with(fname, ".png") {
            let alpha = match &f.contents {
                Some(Ok(b)) => check_png_alpha(b.as_slice()),
                _ => false,
            };
            if alpha {
                let ghost pre = views(out@);
                out.push(f.file_name.clone());
                assert(views(out@) =~= pre.push(f.file_name@));
            }
        }
        i = i + 1;
    }
    assert(files@.take(files@.len() as int) =~= files@);
    out
}

impl AppStoreRule for AppIconAlphaRule {
    fn id(&self) -> (r: &'static str)
        ensures
            r@ == "RULE_APP_ICON_ALPHA"@,
    {
        "RULE_APP_ICON_ALPHA"
    }

    fn name(&self) -> (r: &'static str)
        ensures
            r@ == "App Icon Alpha Channel Check"@,
    {
        "App Icon Alpha Channel Check"
    }

    fn category(&self) -> (r: RuleCategory)
        ensures
            r == RuleCategory::Metadata,
    {
        RuleCategory::Metadata
    }

    fn severity(&self) -> (r: Severity)
        ensures
            r == Severity::Error,
    {
        Severity::Error
    }

    fn recommendation(&self) -> (r: &'static str)
        ensures
            r@ == "Remove the alpha channel from your app icon. App Store icons must be opaque."@,
    {
        "Remove the alpha channel from your app icon. App Store icons must be opaque."
    }

    fn evaluate(&self, artifact: &ArtifactContext) -> (r: Result<RuleReport, RuleError>)
        ensures
            outcome(r) == app_icon_outcome(*artifact),
    {
        let plist = match &artifact.info_plist {
            None => {
                return Ok(with_message(RuleStatus::Skip, "Info.plist not found"));
            },
            Some(p) => p,
        };
        let names = plist.get_app_icons();
        if names.len() == 0 {
            return Ok(with_message(RuleStatus::Skip, "No app icons found in Info.plist"));
        }
        let mut hits: Vec<String> = Vec::new();
        let mut i: usize = 0;
        assert(views(hits@) =~= Seq::<Seq<char>>::empty());
        while i < names.len()
            invariant
                0 <= i <= names@.len(),
                views(hits@) == all_icon_hits(views(names@).take(i as int), artifact.bundle_files@),
            decreases names@.len() - i,
        {
            assert(views(names@).take(i + 1).drop_last() =~= views(names@).take(i as int));
            assert(views(names@).take(i + 1).last() == names@[i as int]@);
            let found = icon_hits_for(names[i].as_str(), &artifact.bundle_files);
            extend_strings(&mut hits, &found);
            i = i + 1;
        }
        assert(views(names@).take(names@.len() as int) =~= views(names@));
        if hits.len() == 0 {
            return Ok(with_message(RuleStatus::Pass, "No alpha channel detected in app icons"));
        }
        let unique = unique_sorted(hits);
        let joined = join(&unique, ", ");
        let evidence = concat("Icons with alpha: ", joined.as_str());
        Ok(
            with_evidence(
                RuleStatus::Fail,
                "App icons contain alpha channel (transparency)",
                evidence,
            ),
        )
    }
}

} // verus!
