//! Deprecated UIKit APIs in the executable.
use vstd::prelude::*;
use crate::rules::base::{
    bare, outcome, report_of, with_evidence, with_message, AppStoreRule, ArtifactContext,
    ReportView, RuleCategory, RuleError, RuleReport, RuleStatus, Severity,
};
use crate::bytes::{contains_subslice, has_bytes};
use crate::parsers::macho_parser::MachOError;
use crate::text::owned;

verus! {

pub struct DeprecatedApiRule;

/// The ASCII bytes of `UIWebView`.
pub open spec fn uiwebview_bytes() -> Seq<u8> {
    seq![85u8, 73u8, 87u8, 101u8, 98u8, 86u8, 105u8, 101u8, 119u8]
}

/// What the check reports.
pub open spec fn deprecated_api_outcome(a: ArtifactContext) -> Result<ReportView, RuleError> {
    match a.main_executable {
        None => Ok(report_of(RuleStatus::Skip, Some("No executable found in bundle"@), None)),
        Some(f) => match f.contents {
            Err(m) => Err(RuleError::MachO(MachOError::Io(m))),
            Ok(b) => if has_bytes(b@, uiwebview_bytes()) {
                Ok(
                    report_of(
                        RuleStatus::Fail,
                        Some("Deprecated API UIWebView detected in binary."@),
                        Some("Executable contains 'UIWebView'"@),
                    ),
                )
            } else {
                Ok(report_of(RuleStatus::Pass, None, None))
            },
        },
    }
}

impl AppStoreRule for DeprecatedApiRule {
    fn id(&self) -> (r: &'static str)
        ensures
            r@ == "RULE_DEPRECATED_API"@,
    {
        "RULE_DEPRECATED_API"
    }

    fn name(&self) -> (r: &'static str)
        ensures
            r@ == "Deprecated API Usage"@,
    {
        "Deprecated API Usage"
    }

    fn category(&self) -> (r: RuleCategory)
        ensures
            r == RuleCategory::Other,
    {
        RuleCategory::Other
    }

    fn severity(&self) -> (r: Severity)
        ensures
            r == Severity::Error,
    {
        Severity::Error
    }

    fn recommendation(&self) -> (r: &'static str)
        ensures
            r@ == "Remove usages of deprecated APIs (e.g., UIWebView). Use WKWebView instead."@,
    {
        "Remove usages of deprecated APIs (e.g., UIWebView). Use WKWebView instead."
    }

    fn evaluate(&self, artifact: &ArtifactContext) -> (r: Result<RuleReport, RuleError>)
        ensures
            outcome(r) == deprecated_api_outcome(*artifact),
    {
        let file = match &artifact.main_executable {
            None => {
                return Ok(with_message(RuleStatus::Skip, "No executable found in bundle"));
            },
            Some(f) => f,
        };
        let bytes = match &file.contents {
            Err(m) => {
                return Err(RuleError::MachO(MachOError::Io(m.clone())));
            },
            Ok(b) => b,
        };
        let target: Vec<u8> = vec![85u8, 73u8, 87u8, 101u8, 98u8, 86u8, 105u8, 101u8, 119u8];
        assert(target@ =~= uiwebview_bytes());
        if contains_subslice(bytes.as_slice(), target.as_slice()) {
            return Ok(
                with_evidence(
                    RuleStatus::Fail,
                    "Deprecated API UIWebView detected in binary.",
                    owned("Executable contains 'UIWebView'"),
                ),
            );
        }
        Ok(bare(RuleStatus::Pass))
    }
}

} // verus!
