//! Launch screen configuration.
use vstd::prelude::*;
use crate::rules::base::{
    bare, outcome, report_of, with_evidence, with_message, AppStoreRule, ArtifactContext,
    ReportView, RuleCategory, RuleError, RuleReport, RuleStatus, Severity,
};
use crate::text::owned;

verus! {

pub struct LaunchScreenStoryboardRule;

/// What the launch screen check reports.
pub open spec fn launch_screen_outcome(a: ArtifactContext) -> Result<ReportView, RuleError> {
    match a.info_plist {
        None => Ok(report_of(RuleStatus::Skip, Some("No Info.plist found"@), None)),
        Some(p) => if p.has("NSExtension"@) {
            Ok(report_of(RuleStatus::Skip, Some("Rule does not apply to app extensions"@), None))
        } else if p.has("UILaunchImages"@) {
            Ok(
                report_of(
                    RuleStatus::Fail,
                    Some("App uses deprecated UILaunchImages."@),
                    Some("UILaunchImages key found in Info.plist"@),
                ),
            )
        } else if !p.has("UILaunchStoryboardName"@) {
            Ok(
                report_of(
                    RuleStatus::Fail,
                    Some("App is missing UILaunchStoryboardName."@),
                    Some("UILaunchStoryboardName key missing from Info.plist"@),
                ),
            )
        } else {
            Ok(report_of(RuleStatus::Pass, None, None))
        },
    }
}

impl AppStoreRule for LaunchScreenStoryboardRule {
    fn id(&self) -> (r: &'static str)
        ensures
            r@ == "RULE_LAUNCH_SCREEN_STORYBOARD"@,
    {
        "RULE_LAUNCH_SCREEN_STORYBOARD"
    }

    fn name(&self) -> (r: &'static str)
        ensures
            r@ == "Launch Screen Storyboard Requirement"@,
    {
        "Launch Screen Storyboard Requirement"
    }

    fn category(&self) -> (r: RuleCategory)
        ensures
            r == RuleCategory::Metadata,
    {
        RuleCategory::Metadata
    }

    fn severity(&self) -> (r: Severity)
        ensures
            r == Severity::Error,
    {
        Severity::Error
    }

    fn recommendation(&self) -> (r: &'static str)
        ensures
            r@ == "Remove UILaunchImages from Info.plist and use UILaunchStoryboardName instead."@,
    {
        "Remove UILaunchImages from Info.plist and use UILaunchStoryboardName instead."
    }

    fn evaluate(&self, artifact: &ArtifactContext) -> (r: Result<RuleReport, RuleError>)
        ensures
            outcome(r) == launch_screen_outcome(*artifact),
    {
        let plist = match &artifact.info_plist {
            None => {
                return Ok(with_message(RuleStatus::Skip, "No Info.plist found"));
            },
            Some(p) => p,
        };
        if plist.has_key("NSExtension") {
            return Ok(with_message(RuleStatus::Skip, "Rule does not apply to app extensions"));
        }
        let has_launch_images = plist.has_key("UILaunchImages");
        let has_storyboard = plist.has_key("UILaunchStoryboardName");
        if has_launch_images {
            return Ok(
                with_evidence(
                    RuleStatus::Fail,
                    "App uses deprecated UILaunchImages.",
                    owned("UILaunchImages key found in Info.plist"),
                ),
            );
        }
        if !has_storyboard {
            return Ok(
                with_evidence(
                    RuleStatus::Fail,
                    "App is missing UILaunchStoryboardName.",
                    owned("UILaunchStoryboardName key missing from Info.plist"),
                ),
            );
        }
        Ok(bare(RuleStatus::Pass))
    }
}

} // verus!
