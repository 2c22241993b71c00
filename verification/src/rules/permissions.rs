//! The camera usage description of the app's Info.plist.
use vstd::prelude::*;
use crate::rules::base::{
    bare, outcome, report_of, AppStoreRule, ArtifactContext, ReportView,
    RuleCategory, RuleError, RuleReport, RuleStatus, Severity,
};

verus! {

pub struct CameraUsageDescriptionRule;

/// What the camera usage description check reports: an error when the app
/// has an Info.plist without `NSCameraUsageDescription`, a pass otherwise
/// (also without an Info.plist). The rule's own code refuses a missing key
/// with an error rather than a failing report, so a report shows the finding
/// with status `Error`; that behaviour is kept.
pub open spec fn camera_usage_outcome(a: ArtifactContext) -> Result<ReportView, RuleError> {
    match a.info_plist {
        Some(p) => if !p.has("NSCameraUsageDescription"@) {
            Err(RuleError::MissingCameraUsageDescription)
        } else {
            Ok(report_of(RuleStatus::Pass, None, None))
        },
        None => Ok(report_of(RuleStatus::Pass, None, None)),
    }
}

impl AppStoreRule for CameraUsageDescriptionRule {
    fn id(&self) -> (r: &'static str)
        ensures
            r@ == "RULE_CAMERA_USAGE"@,
    {
        "RULE_CAMERA_USAGE"
    }

    fn name(&self) -> (r: &'static str)
        ensures
            r@ == "Missing Camera Usage Description"@,
    {
        "Missing Camera Usage Description"
    }

    fn category(&self) -> (r: RuleCategory)
        ensures
            r == RuleCategory::Permissions,
    {
        RuleCategory::Permissions
    }

    fn severity(&self) -> (r: Severity)
        ensures
            r == Severity::Error,
    {
        Severity::Error
    }

    fn recommendation(&self) -> (r: &'static str)
        ensures
            r@ == "Add NSCameraUsageDescription to Info.plist with a user-facing reason."@,
    {
        "Add NSCameraUsageDescription to Info.plist with a user-facing reason."
    }

    fn evaluate(&self, artifact: &ArtifactContext) -> (r: Result<RuleReport, RuleError>)
        ensures
            outcome(r) == camera_usage_outcome(*artifact),
    {
        if let Some(plist) = &artifact.info_plist {
            if !plist.has_key("NSCameraUsageDescription") {
                return Err(RuleError::MissingCameraUsageDescription);
            }
        }
        Ok(bare(RuleStatus::Pass))
    }
}

} // verus!
