//! API categories the executable uses against the privacy manifest.
use vstd::prelude::*;
use crate::rules::base::{
    bare, outcome, report_of, with_evidence, with_message, AppStoreRule, ArtifactContext,
    ReportView, RuleCategory, RuleError, RuleReport, RuleStatus, Severity,
};
use crate::parsers::macho_scanner::{scan_usage_from_app_bundle, str_views, usage_scan_of};
use crate::parsers::plist_reader::{array_of, dict_get, dict_of, lookup, string_of, InfoPlist, PlistValue};
use crate::rules::entitlements::{missing_strings, missing_values};
use crate::rules::files::{find_root_file, manifest_of, read_manifest, root_file};
use crate::text::{concat, join, owned, seq_join, views};
use crate::text_order::{sort_strings, sorted_text};

verus! {

pub struct PrivacyManifestCompletenessRule;

/// The API types that the manifest's `NSPrivacyAccessedAPITypes` entries declare.
pub open spec fn declared_api_types(items: Seq<PlistValue>) -> Seq<Seq<char>>
    decreases items.len(),
{
    if items.len() == 0 {
        Seq::empty()
    } else {
        let prev = declared_api_types(items.drop_last());
        match dict_of(Some(items.last())) {
            Some(d) => match string_of(lookup(d, "NSPrivacyAccessedAPIType"@)) {
                Some(s) => prev.push(s),
                None => prev,
            },
            None => prev,
        }
    }
}

/// The declared API types of a manifest.
pub open spec fn manifest_api_types(m: InfoPlist) -> Seq<Seq<char>> {
    match array_of(m.value("NSPrivacyAccessedAPITypes"@)) {
        Some(a) => declared_api_types(a),
        None => Seq::empty(),
    }
}

/// What the privacy manifest completeness check reports.
pub open spec fn privacy_manifest_outcome(a: ArtifactContext) -> Result<ReportView, RuleError> {
    match root_file(a.bundle_files@, "PrivacyInfo.xcprivacy"@) {
        None => Ok(report_of(RuleStatus::Skip, Some("PrivacyInfo.xcprivacy not found"@), None)),
        Some(f) => match manifest_of(f) {
            None => Ok(
                report_of(
                    RuleStatus::Skip,
                    Some("PrivacyInfo.xcprivacy is empty or invalid; skipping"@),
                    Some(f.path@),
                ),
            ),
            Some(m) => match a.scanned_executable {
                Err(e) => Ok(
                    report_of(RuleStatus::Skip, Some("Usage scan skipped: "@ + e.message_spec()), None),
                ),
                Ok(b) => {
                    let s = usage_scan_of(b@);
                    if s.required_keys.len() == 0 && !s.requires_location_key {
                        Ok(report_of(RuleStatus::Pass, Some("No usage APIs detected"@), None))
                    } else {
                        let missing = missing_values(s.privacy_categories, manifest_api_types(m));
                        if missing.len() == 0 {
                            Ok(report_of(RuleStatus::Pass, None, None))
                        } else {
                            Ok(
                                report_of(
                                    RuleStatus::Fail,
                                    Some("Privacy manifest missing required API declarations"@),
                                    Some(
                                        "Missing categories in NSPrivacyAccessedAPITypes: "@
                                            + seq_join(sorted_text(missing), ", "@),
                                    ),
                                ),
                            )
                        }
                    }
                },
            },
        },
    }
}

/// The declared API types of a manifest.
pub fn collect_api_types(m: &InfoPlist) -> (r: Vec<String>)
    ensures
        views(r@) == manifest_api_types(*m),
{
    let mut out: Vec<String> = Vec::new();
    assert(views(out@) =~= Seq::<Seq<char>>::empty());
    let items = match m.get_value("NSPrivacyAccessedAPITypes") {
        Some(v) => match v.as_array() {
            Some(a) => a,
            None => {
                return out;
            },
        },
        None => {
            return out;
        },
    };
    let mut i: usize = 0;
    while i < items.len()
        invariant
            0 <= i <= items@.len(),
            views(out@) == declared_api_types(items@.take(i as int)),
        decreases items@.len() - i,
    {
        assert(items@.take(i + 1).drop_last() =~= items@.take(i as int));
        if let Some(d) = items[i].as_dictionary() {
            if let Some(t) = dict_get(d, "NSPrivacyAccessedAPIType") {
                if let Some(s) = t.as_string() {
                    let ghost pre = views(out@);
                    out.push(owned(s));
                    assert(views(out@) =~= pre.push(s@));
                }
            }
        }
        i = i + 1;
    }
    assert(items@.take(items@.len() as int) =~= items@);
    out
}

/// The categories of `cats` not among `declared`, in order.
fn missing_categories(cats: &Vec<&'static str>, declared: &Vec<String>) -> (r: Vec<String>)
    ensures
        views(r@) == missing_values(str_views(cats@), views(declared@)),
{
    let mut list: Vec<String> = Vec::new();
    let mut i: usize = 0;
    assert(views(list@) =~= Seq::<Seq<char>>::empty());
    while i < cats.len()
        invariant
            0 <= i <= cats@.len(),
            views(list@) == str_views(cats@).take(i as int),
        decreases cats@.len() - i,
    {
        let ghost pre = views(list@);
        list.push(owned(cats[i]));
        assert(str_views(cats@).take(i + 1) =~= pre.push(cats@[i as int]@));
        assert(views(list@) =~= pre.push(cats@[i as int]@));
        i = i + 1;
    }
    assert(str_views(cats@).take(cats@.len() as int) =~= str_views(cats@));
    missing_strings(&list, declared)
}

impl AppStoreRule for PrivacyManifestCompletenessRule {
    fn id(&self) -> (r: &'static str)
        ensures
            r@ == "RULE_PRIVACY_MANIFEST_COMPLETENESS"@,
    {
        "RULE_PRIVACY_MANIFEST_COMPLETENESS"
    }

    fn name(&self) -> (r: &'static str)
        ensures
            r@ == "Privacy Manifest Completeness"@,
    {
        "Privacy Manifest Completeness"
    }

    fn category(&self) -> (r: RuleCategory)
        ensures
            r == RuleCategory::Privacy,
    {
        RuleCategory::Privacy
    }

    fn severity(&self) -> (r: Severity)
        ensures
            r == Severity::Warning,
    {
        Severity::Warning
    }

    fn recommendation(&self) -> (r: &'static str)
        ensures
            r@ == "Declare accessed API categories in PrivacyInfo.xcprivacy."@,
    {
        "Declare accessed API categories in PrivacyInfo.xcprivacy."
    }

    fn evaluate(&self, artifact: &ArtifactContext) -> (r: Result<RuleReport, RuleError>)
        ensures
            outcome(r) == privacy_manifest_outcome(*artifact),
    {
        let file = match find_root_file(&artifact.bundle_files, "PrivacyInfo.xcprivacy") {
            None => {
                return Ok(with_message(RuleStatus::Skip, "PrivacyInfo.xcprivacy not found"));
            },
            Some(i) => &artifact.bundle_files[i],
        };
        let manifest = match read_manifest(file) {
            None => {
                return Ok(
                    with_evidence(
                        RuleStatus::Skip,
                        "PrivacyInfo.xcprivacy is empty or invalid; skipping",
                        file.path.clone(),
                    ),
                );
            },
            Some(m) => m,
        };
        let scan = match scan_usage_from_app_bundle(&artifact.scanned_executable) {
            Ok(s) => s,
            Err(err) => {
                let m = err.message();
                let msg = concat("Usage scan skipped: ", m.as_str());
                return Ok(RuleReport { status: RuleStatus::Skip, message: Some(msg), evidence: None });
            },
        };
        if scan.required_keys.len() == 0 && !scan.requires_location_key {
            return Ok(with_message(RuleStatus::Pass, "No usage APIs detected"));
        }
        let declared = collect_api_types(&manifest);
        let missing = missing_categories(&scan.privacy_categories, &declared);
        if missing.len() == 0 {
            return Ok(bare(RuleStatus::Pass));
        }
        let sorted = sort_strings(missing);
        let joined = join(&sorted, ", ");
        let evidence = concat("Missing categories in NSPrivacyAccessedAPITypes: ", joined.as_str());
        Ok(
            with_evidence(
                RuleStatus::Fail,
                "Privacy manifest missing required API declarations",
                evidence,
            ),
        )
    }
}

} // verus!
