//! Identifiers and versions of nested bundles against the app.
use vstd::prelude::*;
use crate::rules::base::{
    bare, outcome, report_of, with_evidence, with_message, AppStoreRule, ArtifactContext,
    ReportView, RuleCategory, RuleError, RuleReport, RuleStatus, Severity,
};
use crate::parsers::bundle_scanner::{extension_of, path_extension};
use crate::parsers::plist_reader::InfoPlist;
use crate::rules::base::BundleFacts;
use crate::rules::entitlements::EntitlementsError;
use crate::text::{concat, is_prefix, join, push_str, seq_join, starts_with, str_eq, views};

verus! {

pub struct BundleMetadataConsistencyRule;

/// An app or app extension bundle, by its name's extension.
pub open spec fn is_app_like(name: Seq<char>) -> bool {
    extension_of(name) == Some("appex"@) || extension_of(name) == Some("app"@)
}

/// `"{name}: {key} {child}{sep}{app}"`.
pub open spec fn meta_line(
    name: Seq<char>,
    key: Seq<char>,
    child: Seq<char>,
    sep: Seq<char>,
    app: Seq<char>,
) -> Seq<char> {
    name + ": "@ + key + " "@ + child + sep + app
}

/// The metadata lines of one nested bundle against the app's plist.
pub open spec fn bundle_metadata_lines(app: InfoPlist, b: BundleFacts) -> Seq<Seq<char>> {
    if !is_app_like(b.display_name@) {
        Seq::empty()
    } else {
        match b.info_plist {
            Ok(Some(p)) => {
                let n = b.display_name@;
                (match (app.string_at("CFBundleIdentifier"@), p.string_at("CFBundleIdentifier"@)) {
                    (Some(a), Some(c)) => if !is_prefix(a, c) {
                        seq![meta_line(n, "CFBundleIdentifier"@, c, " not under "@, a)]
                    } else {
                        Seq::empty()
                    },
                    _ => Seq::empty(),
                }) + (match (
                    app.string_at("CFBundleShortVersionString"@),
                    p.string_at("CFBundleShortVersionString"@),
                ) {
                    (Some(a), Some(c)) => if c != a {
                        seq![meta_line(n, "CFBundleShortVersionString"@, c, " != "@, a)]
                    } else {
                        Seq::empty()
                    },
                    _ => Seq::empty(),
                }) + (match (app.string_at("CFBundleVersion"@), p.string_at("CFBundleVersion"@)) {
                    (Some(a), Some(c)) => if c != a {
                        seq![meta_line(n, "CFBundleVersion"@, c, " != "@, a)]
                    } else {
                        Seq::empty()
                    },
                    _ => Seq::empty(),
                })
            },
            _ => Seq::empty(),
        }
    }
}

/// The metadata lines of all nested bundles, in order.
pub open spec fn metadata_mismatches(app: InfoPlist, bundles: Seq<BundleFacts>) -> Seq<Seq<char>>
    decreases bundles.len(),
{
    if bundles.len() == 0 {
        Seq::empty()
    } else {
        metadata_mismatches(app, bundles.drop_last()) + bundle_metadata_lines(app, bundles.last())
    }
}

/// What the metadata consistency check reports.
pub open spec fn bundle_metadata_outcome(a: ArtifactContext) -> Result<ReportView, RuleError> {
    match a.info_plist {
        None => Ok(report_of(RuleStatus::Skip, Some("Info.plist not found"@), None)),
        Some(app) => match a.nested_bundles {
            Err(_) => Err(RuleError::Entitlements(EntitlementsError::ParseFailure)),
            Ok(b) => if b@.len() == 0 {
                Ok(report_of(RuleStatus::Pass, Some("No nested bundles found"@), None))
            } else {
                let m = metadata_mismatches(app, b@);
                if m.len() == 0 {
                    Ok(report_of(RuleStatus::Pass, None, None))
                } else {
                    Ok(
                        report_of(
                            RuleStatus::Fail,
                            Some("Bundle metadata mismatches"@),
                            Some(seq_join(m, "; "@)),
                        ),
                    )
                }
            },
        },
    }
}

/// Whether a bundle name's extension is `appex` or `app`.
fn app_like(name: &str) -> (r: bool)
    ensures
        r == is_app_like(name@),
{
    match path_extension(name) {
        Some(e) => str_eq(e.as_str(), "appex") || str_eq(e.as_str(), "app"),
        None => false,
    }
}

/// `"{name}: {key} {child}{sep}{app}"`.
fn metadata_line(name: &str, key: &str, child: &str, sep: &str, app: &str) -> (r: String)
    ensures
        r@ == meta_line(name@, key@, child@, sep@, app@),
{
    let mut line = concat(name, ": ");
    push_str(&mut line, key);
    push_str(&mut line, " ");
    push_str(&mut line, child);
    push_str(&mut line, sep);
    push_str(&mut line, app);
    line
}

/// The lines of `bundle_metadata_lines`.
pub fn bundle_metadata_for(app: &InfoPlist, b: &BundleFacts) -> (r: Vec<String>)
    ensures
        views(r@) == bundle_metadata_lines(*app, *b),
{
    let mut out: Vec<String> = Vec::new();
    if !app_like(b.display_name.as_str()) {
        assert(views(out@) =~= Seq::<Seq<char>>::empty());
        return out;
    }
    let p = match &b.info_plist {
        Ok(Some(p)) => p,
        _ => {
            assert(views(out@) =~= Seq::<Seq<char>>::empty());
            return out;
        },
    };
    let n = b.display_name.as_str();
    if let (Some(a), Some(c)) = (app.get_string("CFBundleIdentifier"), p.get_string("CFBundleIdentifier")) {
        if !starts_with(c, a) {
            out.push(metadata_line(n, "CFBundleIdentifier", c, " not under ", a));
        }
    }
    let ghost l1 = views(out@);
    if let (Some(a), Some(c)) = (
        app.get_string("CFBundleShortVersionString"),
        p.get_string("CFBundleShortVersionString"),
    ) {
        if !str_eq(c, a) {
            out.push(metadata_line(n, "CFBundleShortVersionString", c, " != ", a));
        }
    }
    let ghost l2 = views(out@);
    if let (Some(a), Some(c)) = (app.get_string("CFBundleVersion"), p.get_string("CFBundleVersion")) {
        if !str_eq(c, a) {
            out.push(metadata_line(n, "CFBundleVersion", c, " != ", a));
        }
    }
    assert(views(out@) =~= bundle_metadata_lines(*app, *b));
    out
}

impl AppStoreRule for BundleMetadataConsistencyRule {
    fn id(&self) -> (r: &'static str)
        ensures
            r@ == "RULE_BUNDLE_METADATA_CONSISTENCY"@,
    {
        "RULE_BUNDLE_METADATA_CONSISTENCY"
    }

    fn name(&self) -> (r: &'static str)
        ensures
            r@ == "Bundle Metadata Consistency"@,
    {
        "Bundle Metadata Consistency"
    }

    fn category(&self) -> (r: RuleCategory)
        ensures
            r == RuleCategory::Metadata,
    {
        RuleCategory::Metadata
    }

    fn severity(&self) -> (r: Severity)
        ensures
            r == Severity::Warning,
    {
        Severity::Warning
    }

    fn recommendation(&self) -> (r: &'static str)
        ensures
            r@ == "Align CFBundleIdentifier and versioning across app and extensions."@,
    {
        "Align CFBundleIdentifier and versioning across app and extensions."
    }

    fn evaluate(&self, artifact: &ArtifactContext) -> (r: Result<RuleReport, RuleError>)
        ensures
            outcome(r) == bundle_metadata_outcome(*artifact),
    {
        let app = match &artifact.info_plist {
            None => {
                return Ok(with_message(RuleStatus::Skip, "Info.plist not found"));
            },
            Some(p) => p,
        };
        let bundles = match &artifact.nested_bundles {
            Err(_) => {
                return Err(RuleError::Entitlements(EntitlementsError::ParseFailure));
            },
            Ok(b) => b,
        };
        if bundles.len() == 0 {
            return Ok(with_message(RuleStatus::Pass, "No nested bundles found"));
        }
        let mut mismatches: Vec<String> = Vec::new();
        let mut i: usize = 0;
        while i < bundles.len()
            invariant
                0 <= i <= bundles@.len(),
                views(mismatches@) == metadata_mismatches(*app, bundles@.take(i as int)),
            decreases bundles@.len() - i,
        {
            assert(bundles@.take(i + 1).drop_last() =~= bundles@.take(i as int));
            let lines = bundle_metadata_for(app, &bundles[i]);
            let ghost pre = views(mismatches@);
            let mut k: usize = 0;
            while k < lines.len()
                invariant
                    0 <= k <= lines@.len(),
                    views(mismatches@) == pre + views(lines@).take(k as int),
                decreases lines@.len() - k,
            {
                let ghost before = mismatches@;
                let item = lines[k].clone();
                mismatches.push(item);
                assert(views(lines@).take(k + 1) =~= views(lines@).take(k as int).push(lines@[k as int]@));
                assert(views(mismatches@) =~= views(before).push(item@));
                assert(views(mismatches@) =~= pre + views(lines@).take(k + 1));
                k = k + 1;
            }
            assert(views(lines@).take(lines@.len() as int) =~= views(lines@));
            i = i + 1;
        }
        assert(bundles@.take(bundles@.len() as int) =~= bundles@);
        if mismatches.len() == 0 {
            return Ok(bare(RuleStatus::Pass));
        }
        let evidence = join(&mismatches, "; ");
        Ok(with_evidence(RuleStatus::Fail, "Bundle metadata mismatches", evidence))
    }
}

} // verus!
