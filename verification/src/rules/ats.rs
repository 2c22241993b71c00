//! App Transport Security exceptions.
use vstd::prelude::*;
use crate::rules::base::{
    bare, outcome, report_of, with_evidence, with_message, AppStoreRule, ArtifactContext,
    ReportView, RuleCategory, RuleError, RuleReport, RuleStatus, Severity,
};
use crate::parsers::plist_reader::{bool_of, dict_get, dict_of, lookup, PlistEntry, PlistValue};
use crate::text::{concat, join, owned, seq_join, views};

verus! {

pub struct AtsAuditRule;

/// The optional boolean under `key` is `true`.
pub open spec fn flag_set(entries: Seq<PlistEntry>, key: Seq<char>) -> bool {
    bool_of(lookup(entries, key)) == Some(true)
}

/// A domain's exception dictionary allows insecure HTTP loads.
pub open spec fn allows_insecure(v: PlistValue) -> bool {
    match dict_of(Some(v)) {
        Some(d) => flag_set(d, "NSExceptionAllowsInsecureHTTPLoads"@),
        None => false,
    }
}

/// One line per exception domain that allows insecure HTTP loads, in order.
pub open spec fn insecure_domains(domains: Seq<PlistEntry>) -> Seq<Seq<char>>
    decreases domains.len(),
{
    if domains.len() == 0 {
        Seq::empty()
    } else {
        let prev = insecure_domains(domains.drop_last());
        let e = domains.last();
        if allows_insecure(e.value) {
            prev.push("NSExceptionAllowsInsecureHTTPLoads for "@ + e.key@)
        } else {
            prev
        }
    }
}

/// The ATS exceptions found in an `NSAppTransportSecurity` dictionary.
pub open spec fn ats_issues(ats: Seq<PlistEntry>) -> Seq<Seq<char>> {
    (if flag_set(ats, "NSAllowsArbitraryLoads"@) {
        seq!["NSAllowsArbitraryLoads=true"@]
    } else {
        Seq::empty()
    }) + (if flag_set(ats, "NSAllowsArbitraryLoadsInWebContent"@) {
        seq!["NSAllowsArbitraryLoadsInWebContent=true"@]
    } else {
        Seq::empty()
    }) + match dict_of(lookup(ats, "NSExceptionDomains"@)) {
        Some(d) => insecure_domains(d),
        None => Seq::empty(),
    }
}

/// What the ATS audit reports.
pub open spec fn ats_outcome(a: ArtifactContext) -> Result<ReportView, RuleError> {
    match a.info_plist {
        None => Ok(report_of(RuleStatus::Skip, Some("Info.plist not found"@), None)),
        Some(p) => match dict_of(p.value("NSAppTransportSecurity"@)) {
            None => Ok(report_of(RuleStatus::Pass, None, None)),
            Some(ats) => {
                let issues = ats_issues(ats);
                if issues.len() == 0 {
                    Ok(report_of(RuleStatus::Pass, None, None))
                } else {
                    Ok(
                        report_of(
                            RuleStatus::Fail,
                            Some("ATS exceptions detected"@),
                            Some(seq_join(issues, "; "@)),
                        ),
                    )
                }
            },
        },
    }
}

/// Whether the boolean under `key` is `true`.
fn flag(entries: &Vec<PlistEntry>, key: &str) -> (r: bool)
    ensures
        r == flag_set(entries@, key@),
{
    match dict_get(entries, key) {
        Some(v) => v.as_boolean() == Some(true),
        None => false,
    }
}

/// The ATS exceptions of an `NSAppTransportSecurity` dictionary.
pub fn collect_ats_issues(ats: &Vec<PlistEntry>) -> (r: Vec<String>)
    ensures
        views(r@) == ats_issues(ats@),
{
    let mut issues: Vec<String> = Vec::new();
    if flag(ats, "NSAllowsArbitraryLoads") {
        issues.push(owned("NSAllowsArbitraryLoads=true"));
    }
    if flag(ats, "NSAllowsArbitraryLoadsInWebContent") {
        issues.push(owned("NSAllowsArbitraryLoadsInWebContent=true"));
    }
    let ghost head = views(issues@);
    assert(head =~= (if flag_set(ats@, "NSAllowsArbitraryLoads"@) {
        seq!["NSAllowsArbitraryLoads=true"@]
    } else {
        Seq::empty()
    }) + (if flag_set(ats@, "NSAllowsArbitraryLoadsInWebContent"@) {
        seq!["NSAllowsArbitraryLoadsInWebContent=true"@]
    } else {
        Seq::empty()
    }));
    let domains = match dict_get(ats, "NSExceptionDomains") {
        Some(v) => v.as_dictionary(),
        None => None,
    };
    if let Some(d) = domains {
        let mut i: usize = 0;
        while i < d.len()
            invariant
                0 <= i <= d@.len(),
                views(issues@) == head + insecure_domains(d@.take(i as int)),
            decreases d@.len() - i,
        {
            assert(d@.take(i + 1).drop_last() =~= d@.take(i as int));
            let e = &d[i];
            let insecure = match e.value.as_dictionary() {
                Some(cfg) => flag(cfg, "NSExceptionAllowsInsecureHTTPLoads"),
                None => false,
            };
            if insecure {
                let ghost pre = views(issues@);
                issues.push(concat("NSExceptionAllowsInsecureHTTPLoads for ", e.key.as_str()));
                assert(views(issues@) =~= pre.push("NSExceptionAllowsInsecureHTTPLoads for "@ + e.key@));
            }
            i = i + 1;
        }
        assert(d@.take(d@.len() as int) =~= d@);
    } else {
        assert(views(issues@) =~= head + Seq::<Seq<char>>::empty());
    }
    issues
}

impl AppStoreRule for AtsAuditRule {
    fn id(&self) -> (r: &'static str)
        ensures
            r@ == "RULE_ATS_AUDIT"@,
    {
        "RULE_ATS_AUDIT"
    }

    fn name(&self) -> (r: &'static str)
        ensures
            r@ == "ATS Exceptions Detected"@,
    {
        "ATS Exceptions Detected"
    }

    fn category(&self) -> (r: RuleCategory)
        ensures
            r == RuleCategory::Ats,
    {
        RuleCategory::Ats
    }

    fn severity(&self) -> (r: Severity)
        ensures
            r == Severity::Warning,
    {
        Severity::Warning
    }

    fn recommendation(&self) -> (r: &'static str)
        ensures
            r@ == "Remove ATS exceptions or scope them to specific domains with justification."@,
    {
        "Remove ATS exceptions or scope them to specific domains with justification."
    }

    fn evaluate(&self, artifact: &ArtifactContext) -> (r: Result<RuleReport, RuleError>)
        ensures
            outcome(r) == ats_outcome(*artifact),
    {
        let plist = match &artifact.info_plist {
            None => {
                return Ok(with_message(RuleStatus::Skip, "Info.plist not found"));
            },
            Some(p) => p,
        };
        let ats = match plist.get_dictionary("NSAppTransportSecurity") {
            None => {
                return Ok(bare(RuleStatus::Pass));
            },
            Some(d) => d,
        };
        let issues = collect_ats_issues(ats);
        if issues.len() == 0 {
            return Ok(bare(RuleStatus::Pass));
        }
        let evidence = join(&issues, "; ");
        Ok(with_evidence(RuleStatus::Fail, "ATS exceptions detected", evidence))
    }
}

/// Some exception domain allows insecure HTTP loads.
pub open spec fn some_insecure_domain(ats: Seq<PlistEntry>) -> bool {
    match dict_of(lookup(ats, "NSExceptionDomains"@)) {
        Some(d) => exists|j: int| 0 <= j < d.len() && allows_insecure(#[trigger] d[j].value),
        None => false,
    }
}

proof fn lemma_insecure_domains(d: Seq<PlistEntry>)
    ensures
        insecure_domains(d).len() > 0 <==> exists|j: int| 0 <= j < d.len() && allows_insecure(#[trigger] d[j].value),
    decreases d.len(),
{
    if d.len() > 0 {
        lemma_insecure_domains(d.drop_last());
        if exists|j: int| 0 <= j < d.len() && allows_insecure(#[trigger] d[j].value) {
            let j = choose|j: int| 0 <= j < d.len() && allows_insecure(#[trigger] d[j].value);
            if j < d.len() - 1 {
                assert(d.drop_last()[j] == d[j]);
            }
        }
        if exists|j: int| 0 <= j < d.drop_last().len() && allows_insecure(#[trigger] d.drop_last()[j].value) {
            let j = choose|j: int| 0 <= j < d.drop_last().len() && allows_insecure(#[trigger] d.drop_last()[j].value);
            assert(d[j] == d.drop_last()[j]);
        }
    }
}

/// The ATS audit on an app with an `NSAppTransportSecurity` dictionary: it
/// fails with "ATS exceptions detected" as soon as one exception is present
/// (arbitrary loads, arbitrary loads in web content, or a domain allowing
/// insecure HTTP loads), and passes without one. With arbitrary loads as the
/// only exception, the evidence is "NSAllowsArbitraryLoads=true".
pub proof fn lemma_ats_exceptions_fail(a: ArtifactContext, ats: Seq<PlistEntry>)
    requires
        match a.info_plist {
            Some(p) => dict_of(p.value("NSAppTransportSecurity"@)) == Some(ats),
            None => false,
        },
    ensures
        (flag_set(ats, "NSAllowsArbitraryLoads"@) || flag_set(ats, "NSAllowsArbitraryLoadsInWebContent"@)
            || some_insecure_domain(ats)) ==> ats_outcome(a) == Ok::<ReportView, RuleError>(
            report_of(RuleStatus::Fail, Some("ATS exceptions detected"@), Some(seq_join(ats_issues(ats), "; "@))),
        ),
        !(flag_set(ats, "NSAllowsArbitraryLoads"@) || flag_set(ats, "NSAllowsArbitraryLoadsInWebContent"@)
            || some_insecure_domain(ats)) ==> ats_outcome(a) == Ok::<ReportView, RuleError>(
            report_of(RuleStatus::Pass, None, None),
        ),
        (flag_set(ats, "NSAllowsArbitraryLoads"@) && !flag_set(ats, "NSAllowsArbitraryLoadsInWebContent"@)
            && !some_insecure_domain(ats)) ==> ats_outcome(a) == Ok::<ReportView, RuleError>(
            report_of(RuleStatus::Fail, Some("ATS exceptions detected"@), Some("NSAllowsArbitraryLoads=true"@)),
        ),
{
    match dict_of(lookup(ats, "NSExceptionDomains"@)) {
        Some(d) => lemma_insecure_domains(d),
        None => {},
    }
    let issues = ats_issues(ats);
    if flag_set(ats, "NSAllowsArbitraryLoads"@) && !flag_set(ats, "NSAllowsArbitraryLoadsInWebContent"@)
        && !some_insecure_domain(ats) {
        assert(issues =~= seq!["NSAllowsArbitraryLoads=true"@]);
    }
}

} // verus!
