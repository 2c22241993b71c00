//! Minimum OS versions of the app and its nested bundles.
use vstd::prelude::*;
use crate::rules::base::{
    bare, outcome, report_of, with_evidence, with_message, AppStoreRule, ArtifactContext,
    ReportView, RuleCategory, RuleError, RuleReport, RuleStatus, Severity,
};
use crate::numbers::{is_version_higher, parts_higher, version_parts};
use crate::parsers::plist_reader::InfoPlist;
use crate::rules::base::BundleFacts;
use crate::text::{concat, join, push_str, seq_join, views};

verus! {

pub struct OSVersionConsistencyRule;

/// One line per nested bundle whose `MinimumOSVersion` is higher than `main`.
pub open spec fn os_version_issues(bundles: Seq<BundleFacts>, main: Seq<char>) -> Seq<Seq<char>>
    decreases bundles.len(),
{
    if bundles.len() == 0 {
        Seq::empty()
    } else {
        let prev = os_version_issues(bundles.drop_last(), main);
        let b = bundles.last();
        match b.info_plist {
            Ok(Some(sub)) => match sub.string_at("MinimumOSVersion"@) {
                Some(v) => if parts_higher(version_parts(v), version_parts(main)) {
                    prev.push(
                        b.display_name@ + " has higher MinimumOSVersion ("@ + v + ") than main app ("@
                            + main + ")"@,
                    )
                } else {
                    prev
                },
                None => prev,
            },
            _ => prev,
        }
    }
}

/// The app's `MinimumOSVersion`, `0.0` when absent.
pub open spec fn main_os_version(p: InfoPlist) -> Seq<char> {
    match p.string_at("MinimumOSVersion"@) {
        Some(v) => v,
        None => "0.0"@,
    }
}

/// What the minimum OS version check reports.
pub open spec fn os_version_outcome(a: ArtifactContext) -> Result<ReportView, RuleError> {
    match a.info_plist {
        None => Ok(report_of(RuleStatus::Skip, Some("Main Info.plist not found"@), None)),
        Some(p) => {
            let main = main_os_version(p);
            let issues = match a.nested_bundles {
                Ok(b) => os_version_issues(b@, main),
                Err(_) => Seq::empty(),
            };
            if issues.len() == 0 {
                Ok(
                    report_of(
                        RuleStatus::Pass,
                        Some("MinimumOSVersion ("@ + main + ") is consistent across all bundles"@),
                        None,
                    ),
                )
            } else {
                Ok(
                    report_of(
                        RuleStatus::Fail,
                        Some("Inconsistent MinimumOSVersion detected"@),
                        Some(seq_join(issues, " | "@)),
                    ),
                )
            }
        },
    }
}

/// The lines of `os_version_issues`.
pub fn collect_os_version_issues(bundles: &Vec<BundleFacts>, main: &str) -> (r: Vec<String>)
    ensures
        views(r@) == os_version_issues(bundles@, main@),
{
    let mut issues: Vec<String> = Vec::new();
    let mut i: usize = 0;
    while i < bundles.len()
        invariant
            0 <= i <= bundles@.len(),
            views(issues@) == os_version_issues(bundles@.take(i as int), main@),
        decreases bundles@.len() - i,
    {
        assert(bundles@.take(i + 1).drop_last() =~= bundles@.take(i as int));
        let b = &bundles[i];
        if let Ok(Some(sub)) = &b.info_plist {
            if let Some(v) = sub.get_string("MinimumOSVersion") {
                if is_version_higher(v, main) {
                    let ghost pre = views(issues@);
                    let mut line = concat(b.display_name.as_str(), " has higher MinimumOSVersion (");
                    push_str(&mut line, v);
                    push_str(&mut line, ") than main app (");
                    push_str(&mut line, main);
                    push_str(&mut line, ")");
                    issues.push(line);
                    assert(views(issues@) =~= pre.push(
                        b.display_name@ + " has higher MinimumOSVersion ("@ + v@ + ") than main app ("@
                            + main@ + ")"@,
                    ));
                }
            }
        }
        i = i + 1;
    }
    assert(bundles@.take(bundles@.len() as int) =~= bundles@);
    issues
}

impl AppStoreRule for OSVersionConsistencyRule {
    fn id(&self) -> (r: &'static str)
        ensures
            r@ == "RULE_OS_VERSION_CONSISTENCY"@,
    {
        "RULE_OS_VERSION_CONSISTENCY"
    }

    fn name(&self) -> (r: &'static str)
        ensures
            r@ == "Minimum OS Version Consistency Check"@,
    {
        "Minimum OS Version Consistency Check"
    }

    fn category(&self) -> (r: RuleCategory)
        ensures
            r == RuleCategory::Bundling,
    {
        RuleCategory::Bundling
    }

    fn severity(&self) -> (r: Severity)
        ensures
            r == Severity::Warning,
    {
        Severity::Warning
    }

    fn recommendation(&self) -> (r: &'static str)
        ensures
            r@ == "Ensure MinimumOSVersion is consistent across the main app and all extensions. Extensions should generally not have a higher MinimumOSVersion than the main app."@,
    {
        "Ensure MinimumOSVersion is consistent across the main app and all extensions. Extensions should generally not have a higher MinimumOSVersion than the main app."
    }

    fn evaluate(&self, artifact: &ArtifactContext) -> (r: Result<RuleReport, RuleError>)
        ensures
            outcome(r) == os_version_outcome(*artifact),
    {
        let plist = match &artifact.info_plist {
            None => {
                return Ok(with_message(RuleStatus::Skip, "Main Info.plist not found"));
            },
            Some(p) => p,
        };
        let main = match plist.get_string("MinimumOSVersion") {
            Some(v) => v,
            None => "0.0",
        };
        let issues = match &artifact.nested_bundles {
            Ok(b) => collect_os_version_issues(b, main),
            Err(_) => Vec::new(),
        };
        proof {
            assert(views(Seq::<String>::empty()) =~= Seq::<Seq<char>>::empty());
        }
        if issues.len() == 0 {
            let mut msg = concat("MinimumOSVersion (", main);
            push_str(&mut msg, ") is consistent across all bundles");
            return Ok(RuleReport { status: RuleStatus::Pass, message: Some(msg), evidence: None });
        }
        let evidence = join(&issues, " | ");
        Ok(with_evidence(RuleStatus::Fail, "Inconsistent MinimumOSVersion detected", evidence))
    }
}

} // verus!
