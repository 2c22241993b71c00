//! Private API signatures in the executable.
use vstd::prelude::*;
use crate::rules::base::{
    bare, outcome, report_of, with_evidence, with_message, AppStoreRule, ArtifactContext,
    ReportView, RuleCategory, RuleError, RuleReport, RuleStatus, Severity,
};
use crate::parsers::macho_scanner::{private_api_found, scan_private_api_from_app_bundle, PRIVATE_API_SIGNATURE_COUNT};
use crate::text::{concat, join, seq_join, views};
use crate::text_order::{lemma_sorted_text_unique, sorted_text};

verus! {

pub struct PrivateApiRule;

/// What the private API check reports.
pub open spec fn private_api_outcome(a: ArtifactContext) -> Result<ReportView, RuleError> {
    match a.scanned_executable {
        Err(e) => Ok(
            report_of(RuleStatus::Skip, Some("Private API scan skipped: "@ + e.message_spec()), None),
        ),
        Ok(b) => {
            let hits = private_api_found(b@, PRIVATE_API_SIGNATURE_COUNT as nat);
            if hits.len() == 0 {
                Ok(report_of(RuleStatus::Pass, None, None))
            } else {
                Ok(
                    report_of(
                        RuleStatus::Fail,
                        Some("Private API signatures found"@),
                        Some(seq_join(sorted_text(hits), ", "@)),
                    ),
                )
            }
        },
    }
}

impl AppStoreRule for PrivateApiRule {
    fn id(&self) -> (r: &'static str)
        ensures
            r@ == "RULE_PRIVATE_API"@,
    {
        "RULE_PRIVATE_API"
    }

    fn name(&self) -> (r: &'static str)
        ensures
            r@ == "Private API Usage Detected"@,
    {
        "Private API Usage Detected"
    }

    fn category(&self) -> (r: RuleCategory)
        ensures
            r == RuleCategory::ThirdParty,
    {
        RuleCategory::ThirdParty
    }

    fn severity(&self) -> (r: Severity)
        ensures
            r == Severity::Warning,
    {
        Severity::Warning
    }

    fn recommendation(&self) -> (r: &'static str)
        ensures
            r@ == "Remove private API usage or replace with public alternatives."@,
    {
        "Remove private API usage or replace with public alternatives."
    }

    fn evaluate(&self, artifact: &ArtifactContext) -> (r: Result<RuleReport, RuleError>)
        ensures
            outcome(r) == private_api_outcome(*artifact),
    {
        let scan = match scan_private_api_from_app_bundle(&artifact.scanned_executable) {
            Ok(scan) => scan,
            Err(err) => {
                let m = err.message();
                let msg = concat("Private API scan skipped: ", m.as_str());
                return Ok(RuleReport { status: RuleStatus::Skip, message: Some(msg), evidence: None });
            },
        };
        proof {
            broadcast use vstd::seq_lib::group_to_multiset_ensures;

            if let Ok(b) = &artifact.scanned_executable {
                let found = private_api_found(b@, PRIVATE_API_SIGNATURE_COUNT as nat);
                lemma_sorted_text_unique(scan.hits@, found);
                assert(views(scan.hits@).to_multiset().len() == found.to_multiset().len());
            }
        }
        if scan.hits.len() == 0 {
            return Ok(bare(RuleStatus::Pass));
        }
        let evidence = join(&scan.hits, ", ");
        Ok(with_evidence(RuleStatus::Fail, "Private API signatures found", evidence))
    }
}

} // verus!
