//! Third-party SDKs against the privacy manifest.
use vstd::prelude::*;
use crate::rules::base::{
    bare, outcome, report_of, with_evidence, with_message, AppStoreRule, ArtifactContext,
    ReportView, RuleCategory, RuleError, RuleReport, RuleStatus, Severity,
};
use crate::parsers::macho_scanner::{scan_sdks_from_app_bundle, sdk_found, SDK_SIGNATURE_COUNT};
use crate::parsers::plist_reader::{array_of, InfoPlist};
use crate::rules::entitlements::EntitlementsError;
use crate::rules::files::{find_root_file, manifest_of, read_manifest, root_file};
use crate::text::{concat, join, seq_join, views};
use crate::text_order::{lemma_sorted_text_unique, sorted_text};

verus! {

pub struct PrivacyManifestSdkCrossCheckRule;

/// The manifest declares a non-empty array under `key`.
pub open spec fn declares(m: InfoPlist, key: Seq<char>) -> bool {
    match array_of(m.value(key)) {
        Some(a) => a.len() > 0,
        None => false,
    }
}

/// What the SDK/privacy manifest cross-check reports.
pub open spec fn privacy_sdk_outcome(a: ArtifactContext) -> Result<ReportView, RuleError> {
    match root_file(a.bundle_files@, "PrivacyInfo.xcprivacy"@) {
        None => Ok(report_of(RuleStatus::Skip, Some("PrivacyInfo.xcprivacy not found"@), None)),
        Some(f) => match manifest_of(f) {
            None => Err(RuleError::Entitlements(EntitlementsError::ParseFailure)),
            Some(m) => match a.scanned_executable {
                Err(e) => Ok(
                    report_of(RuleStatus::Skip, Some("SDK scan skipped: "@ + e.message_spec()), None),
                ),
                Ok(b) => {
                    let hits = sdk_found(b@, SDK_SIGNATURE_COUNT as nat);
                    if hits.len() == 0 {
                        Ok(report_of(RuleStatus::Pass, Some("No SDK signatures detected"@), None))
                    } else if declares(m, "NSPrivacyCollectedDataTypes"@) || declares(
                        m,
                        "NSPrivacyAccessedAPITypes"@,
                    ) {
                        Ok(
                            report_of(
                                RuleStatus::Pass,
                                Some("Privacy manifest includes SDK data declarations"@),
                                None,
                            ),
                        )
                    } else {
                        Ok(
                            report_of(
                                RuleStatus::Fail,
                                Some("SDKs detected but privacy manifest lacks declarations"@),
                                Some("SDK signatures: "@ + seq_join(sorted_text(hits), ", "@)),
                            ),
                        )
                    }
                },
            },
        },
    }
}

/// Whether the manifest declares a non-empty array under `key`.
fn non_empty_array(m: &InfoPlist, key: &str) -> (r: bool)
    ensures
        r == declares(*m, key@),
{
    match m.get_value(key) {
        Some(v) => match v.as_array() {
            Some(a) => a.len() > 0,
            None => false,
        },
        None => false,
    }
}

impl AppStoreRule for PrivacyManifestSdkCrossCheckRule {
    fn id(&self) -> (r: &'static str)
        ensures
            r@ == "RULE_PRIVACY_SDK_CROSSCHECK"@,
    {
        "RULE_PRIVACY_SDK_CROSSCHECK"
    }

    fn name(&self) -> (r: &'static str)
        ensures
            r@ == "Privacy Manifest vs SDK Usage"@,
    {
        "Privacy Manifest vs SDK Usage"
    }

    fn category(&self) -> (r: RuleCategory)
        ensures
            r == RuleCategory::Privacy,
    {
        RuleCategory::Privacy
    }

    fn severity(&self) -> (r: Severity)
        ensures
            r == Severity::Warning,
    {
        Severity::Warning
    }

    fn recommendation(&self) -> (r: &'static str)
        ensures
            r@ == "Ensure PrivacyInfo.xcprivacy declares data collection and accessed APIs for included SDKs."@,
    {
        "Ensure PrivacyInfo.xcprivacy declares data collection and accessed APIs for included SDKs."
    }

    fn evaluate(&self, artifact: &ArtifactContext) -> (r: Result<RuleReport, RuleError>)
        ensures
            outcome(r) == privacy_sdk_outcome(*artifact),
    {
        let file = match find_root_file(&artifact.bundle_files, "PrivacyInfo.xcprivacy") {
            None => {
                return Ok(with_message(RuleStatus::Skip, "PrivacyInfo.xcprivacy not found"));
            },
            Some(i) => &artifact.bundle_files[i],
        };
        let manifest = match read_manifest(file) {
            None => {
                return Err(RuleError::Entitlements(EntitlementsError::ParseFailure));
            },
            Some(m) => m,
        };
        let scan = match scan_sdks_from_app_bundle(&artifact.scanned_executable) {
            Ok(scan) => scan,
            Err(err) => {
                let m = err.message();
                let msg = concat("SDK scan skipped: ", m.as_str());
                return Ok(RuleReport { status: RuleStatus::Skip, message: Some(msg), evidence: None });
            },
        };
        proof {
            broadcast use vstd::seq_lib::group_to_multiset_ensures;

            if let Ok(b) = &artifact.scanned_executable {
                let found = sdk_found(b@, SDK_SIGNATURE_COUNT as nat);
                lemma_sorted_text_unique(scan.hits@, found);
                assert(views(scan.hits@).to_multiset().len() == found.to_multiset().len());
            }
        }
        if scan.hits.len() == 0 {
            return Ok(with_message(RuleStatus::Pass, "No SDK signatures detected"));
        }
        let has_data_types = non_empty_array(&manifest, "NSPrivacyCollectedDataTypes");
        let has_accessed_api_types = non_empty_array(&manifest, "NSPrivacyAccessedAPITypes");
        if has_data_types || has_accessed_api_types {
            return Ok(
                with_message(RuleStatus::Pass, "Privacy manifest includes SDK data declarations"),
            );
        }
        let joined = join(&scan.hits, ", ");
        let evidence = concat("SDK signatures: ", joined.as_str());
        Ok(
            with_evidence(
                RuleStatus::Fail,
                "SDKs detected but privacy manifest lacks declarations",
                evidence,
            ),
        )
    }
}

} // verus!
