//! The export compliance (encryption) declaration.
use vstd::prelude::*;
use crate::rules::base::{
    bare, outcome, report_of, with_evidence, with_message, AppStoreRule, ArtifactContext,
    ReportView, RuleCategory, RuleError, RuleReport, RuleStatus, Severity,
};
use crate::text::owned;

verus! {

pub struct ExportComplianceRule;

/// What the export compliance check reports.
pub open spec fn export_compliance_outcome(a: ArtifactContext) -> Result<ReportView, RuleError> {
    match a.info_plist {
        None => Ok(report_of(RuleStatus::Skip, Some("Info.plist not found"@), None)),
        Some(p) => match p.bool_at("ITSAppUsesNonExemptEncryption"@) {
            Some(false) => Ok(report_of(RuleStatus::Pass, None, None)),
            Some(true) => Ok(
                report_of(
                    RuleStatus::Fail,
                    Some("App uses non-exempt encryption"@),
                    Some("ITSAppUsesNonExemptEncryption=true"@),
                ),
            ),
            None => Ok(
                report_of(
                    RuleStatus::Fail,
                    Some("Missing export compliance declaration"@),
                    Some("ITSAppUsesNonExemptEncryption not set"@),
                ),
            ),
        },
    }
}

impl AppStoreRule for ExportComplianceRule {
    fn id(&self) -> (r: &'static str)
        ensures
            r@ == "RULE_EXPORT_COMPLIANCE"@,
    {
        "RULE_EXPORT_COMPLIANCE"
    }

    fn name(&self) -> (r: &'static str)
        ensures
            r@ == "Export Compliance Declaration"@,
    {
        "Export Compliance Declaration"
    }

    fn category(&self) -> (r: RuleCategory)
        ensures
            r == RuleCategory::Metadata,
    {
        RuleCategory::Metadata
    }

    fn severity(&self) -> (r: Severity)
        ensures
            r == Severity::Warning,
    {
        Severity::Warning
    }

    fn recommendation(&self) -> (r: &'static str)
        ensures
            r@ == "Set ITSAppUsesNonExemptEncryption to avoid App Store Connect prompts."@,
    {
        "Set ITSAppUsesNonExemptEncryption to avoid App Store Connect prompts."
    }

    fn evaluate(&self, artifact: &ArtifactContext) -> (r: Result<RuleReport, RuleError>)
        ensures
            outcome(r) == export_compliance_outcome(*artifact),
    {
        let plist = match &artifact.info_plist {
            None => {
                return Ok(with_message(RuleStatus::Skip, "Info.plist not found"));
            },
            Some(p) => p,
        };
        match plist.get_bool("ITSAppUsesNonExemptEncryption") {
            Some(false) => Ok(bare(RuleStatus::Pass)),
            Some(true) => Ok(
                with_evidence(
                    RuleStatus::Fail,
                    "App uses non-exempt encryption",
                    owned("ITSAppUsesNonExemptEncryption=true"),
                ),
            ),
            None => Ok(
                with_evidence(
                    RuleStatus::Fail,
                    "Missing export compliance declaration",
                    owned("ITSAppUsesNonExemptEncryption not set"),
                ),
            ),
        }
    }
}

} // verus!
