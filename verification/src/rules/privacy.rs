//! Presence of the privacy manifest at the bundle root.
use vstd::prelude::*;
use crate::rules::base::{
    bare, outcome, report_of, with_message, AppStoreRule, ArtifactContext, ReportView,
    RuleCategory, RuleError, RuleReport, RuleStatus, Severity,
};
use crate::rules::files::{find_root_file, root_file};

verus! {

pub struct MissingPrivacyManifestRule;

/// What the privacy manifest presence check reports: a failing report with
/// "Missing PrivacyInfo.xcprivacy" when the bundle root has no manifest, as
/// the documented scan output shows it (status FAIL), and a pass otherwise.
pub open spec fn missing_manifest_outcome(a: ArtifactContext) -> Result<ReportView, RuleError> {
    match root_file(a.bundle_files@, "PrivacyInfo.xcprivacy"@) {
        None => Ok(report_of(RuleStatus::Fail, Some("Missing PrivacyInfo.xcprivacy"@), None)),
        Some(_) => Ok(report_of(RuleStatus::Pass, None, None)),
    }
}

impl AppStoreRule for MissingPrivacyManifestRule {
    fn id(&self) -> (r: &'static str)
        ensures
            r@ == "RULE_PRIVACY_MANIFEST"@,
    {
        "RULE_PRIVACY_MANIFEST"
    }

    fn name(&self) -> (r: &'static str)
        ensures
            r@ == "Missing Privacy Manifest"@,
    {
        "Missing Privacy Manifest"
    }

    fn category(&self) -> (r: RuleCategory)
        ensures
            r == RuleCategory::Privacy,
    {
        RuleCategory::Privacy
    }

    fn severity(&self) -> (r: Severity)
        ensures
            r == Severity::Error,
    {
        Severity::Error
    }

    fn recommendation(&self) -> (r: &'static str)
        ensures
            r@ == "Add a PrivacyInfo.xcprivacy manifest to the app bundle."@,
    {
        "Add a PrivacyInfo.xcprivacy manifest to the app bundle."
    }

    fn evaluate(&self, artifact: &ArtifactContext) -> (r: Result<RuleReport, RuleError>)
        ensures
            outcome(r) == missing_manifest_outcome(*artifact),
    {
        match find_root_file(&artifact.bundle_files, "PrivacyInfo.xcprivacy") {
            None => Ok(with_message(RuleStatus::Fail, "Missing PrivacyInfo.xcprivacy")),
            Some(_) => Ok(bare(RuleStatus::Pass)),
        }
    }
}

} // verus!
