//! The agent fix pack: failing findings enriched with where and how to fix
//! them, and its markdown rendering.
use vstd::prelude::*;
use crate::report::data::{failing, is_failing, AgentFinding, AgentPack, ReportData, ReportItem};
use crate::rules::base::{category_label, category_name, opt_view, severity_label, severity_name, RuleCategory, Severity};
use crate::rules::entitlements::strings_contain;
use crate::parsers::macho_scanner::text_key;
use crate::sorting::{
    keeps_ties_by, lemma_keeps_ties_pointwise, sort_by_key, sorted_by_key, SortKey,
};
use crate::text::{concat, join, owned, push_decimal, push_str, seq_join, str_eq, trim, trim_spec, views, decimal};

verus! {

broadcast use vstd::seq_lib::group_to_multiset_ensures;

pub open spec fn priority_of(s: Severity) -> Seq<char> {
    match s {
        Severity::Error => "high"@,
        Severity::Warning => "medium"@,
        Severity::Info => "low"@,
    }
}

/// The fix priority of a severity.
pub fn agent_priority(severity: Severity) -> (r: &'static str)
    ensures
        r@ == priority_of(severity),
{
    match severity {
        Severity::Error => "high",
        Severity::Warning => "medium",
        Severity::Info => "low",
    }
}

pub open spec fn fix_scope_of(c: RuleCategory) -> Seq<char> {
    match c {
        RuleCategory::Privacy | RuleCategory::Permissions | RuleCategory::Metadata => "Info.plist"@,
        RuleCategory::Entitlements | RuleCategory::Signing => "entitlements"@,
        RuleCategory::Bundling => "bundle-resources"@,
        RuleCategory::Ats => "ats-config"@,
        RuleCategory::ThirdParty => "dependencies"@,
        RuleCategory::Other => "app-bundle"@,
    }
}

fn fix_scope(c: RuleCategory) -> (r: &'static str)
    ensures
        r@ == fix_scope_of(c),
{
    match c {
        RuleCategory::Privacy | RuleCategory::Permissions | RuleCategory::Metadata => "Info.plist",
        RuleCategory::Entitlements | RuleCategory::Signing => "entitlements",
        RuleCategory::Bundling => "bundle-resources",
        RuleCategory::Ats => "ats-config",
        RuleCategory::ThirdParty => "dependencies",
        RuleCategory::Other => "app-bundle",
    }
}

/// The part of the project a finding's fix touches.
pub fn suggested_fix_scope(item: &ReportItem) -> (r: String)
    ensures
        r@ == fix_scope_of(item.category),
{
    owned(fix_scope(item.category))
}

/// Older rule identifiers mapped to the current ones.
pub open spec fn canonical_id(id: Seq<char>) -> Seq<char> {
    if id == "RULE_USAGE_DESCRIPTIONS_VALUE"@ {
        "RULE_USAGE_DESCRIPTIONS_EMPTY"@
    } else if id == "RULE_CAMERA_USAGE_DESCRIPTION"@ {
        "RULE_CAMERA_USAGE"@
    } else if id == "RULE_LSAPPLICATIONQUERIESSCHEMES"@ {
        "RULE_LSAPPLICATIONQUERIES_SCHEMES_AUDIT"@
    } else if id == "RULE_UIREQUIREDDEVICECAPABILITIES"@ {
        "RULE_DEVICE_CAPABILITIES_AUDIT"@
    } else if id == "RULE_EXTENSION_ENTITLEMENTS"@ {
        "RULE_EXTENSION_ENTITLEMENTS_COMPAT"@
    } else if id == "RULE_EMBEDDED_SIGNING_CONSISTENCY"@ {
        "RULE_EMBEDDED_TEAM_ID_MISMATCH"@
    } else {
        id
    }
}

pub fn canonical_rule_id(rule_id: &str) -> (r: String)
    ensures
        r@ == canonical_id(rule_id@),
{
    if str_eq(rule_id, "RULE_USAGE_DESCRIPTIONS_VALUE") {
        owned("RULE_USAGE_DESCRIPTIONS_EMPTY")
    } else if str_eq(rule_id, "RULE_CAMERA_USAGE_DESCRIPTION") {
        owned("RULE_CAMERA_USAGE")
    } else if str_eq(rule_id, "RULE_LSAPPLICATIONQUERIESSCHEMES") {
        owned("RULE_LSAPPLICATIONQUERIES_SCHEMES_AUDIT")
    } else if str_eq(rule_id, "RULE_UIREQUIREDDEVICECAPABILITIES") {
        owned("RULE_DEVICE_CAPABILITIES_AUDIT")
    } else if str_eq(rule_id, "RULE_EXTENSION_ENTITLEMENTS") {
        owned("RULE_EXTENSION_ENTITLEMENTS_COMPAT")
    } else if str_eq(rule_id, "RULE_EMBEDDED_SIGNING_CONSISTENCY") {
        owned("RULE_EMBEDDED_TEAM_ID_MISMATCH")
    } else {
        owned(rule_id)
    }
}

/// How to patch a finding.
pub open spec fn patch_hint_of(item: ReportItem) -> Seq<char> {
    let id = canonical_id(item.rule_id@);
    if id == "RULE_USAGE_DESCRIPTIONS"@ || id == "RULE_USAGE_DESCRIPTIONS_EMPTY"@ || id == "RULE_CAMERA_USAGE"@ {
        "Update Info.plist with the required NS*UsageDescription keys and give each key a user-facing reason that matches the in-app behavior."@
    } else if id == "RULE_LSAPPLICATIONQUERIES_SCHEMES_AUDIT"@ {
        "Trim LSApplicationQueriesSchemes to only the schemes the app really probes, remove duplicates, and avoid private or overly broad schemes."@
    } else if id == "RULE_DEVICE_CAPABILITIES_AUDIT"@ {
        "Align UIRequiredDeviceCapabilities with real binary usage so review devices are not excluded by mistake and unsupported hardware is not declared."@
    } else if id == "RULE_INFO_PLIST_VERSIONING"@ {
        "Set a valid CFBundleShortVersionString and increment CFBundleVersion before the next submission."@
    } else if id == "RULE_PRIVACY_MANIFEST"@ || id == "RULE_PRIVACY_MANIFEST_COMPLETENESS"@ {
        "Add PrivacyInfo.xcprivacy to the shipped bundle and declare the accessed APIs and collected data used by the app or bundled SDKs."@
    } else if id == "RULE_PRIVACY_SDK_CROSSCHECK"@ {
        "Review bundled SDKs and extend PrivacyInfo.xcprivacy so their accessed APIs and collected data are explicitly declared."@
    } else if id == "RULE_ATS_AUDIT"@ {
        "Narrow NSAppTransportSecurity exceptions, remove arbitrary loads when possible, and scope domain exceptions to the smallest set that works."@
    } else if id == "RULE_BUNDLE_RESOURCE_LEAKAGE"@ {
        "Remove secrets, certificates, provisioning artifacts, debug leftovers, and environment files from the packaged app bundle before archiving."@
    } else if id == "RULE_ENTITLEMENTS_MISMATCH"@ || id == "RULE_ENTITLEMENTS_PROVISIONING_MISMATCH"@ {
        "Make the exported entitlements match the provisioning profile and enabled capabilities for APNs, keychain groups, and iCloud."@
    } else if id == "RULE_EXTENSION_ENTITLEMENTS_COMPAT"@ || id == "RULE_NESTED_ENTITLEMENTS_MISMATCH"@ {
        "Make each extension entitlement set a valid subset of the host app and add the extension-specific capabilities it actually needs."@
    } else if id == "RULE_NESTED_DEBUG_ENTITLEMENT"@ {
        "Strip debug-only entitlements like get-task-allow from release builds and regenerate the final signed archive."@
    } else if id == "RULE_EMBEDDED_TEAM_ID_MISMATCH"@ {
        "Re-sign embedded frameworks, dylibs, and extensions with the same Team ID and release identity as the host app."@
    } else if id == "RULE_PRIVATE_API"@ {
        "Remove or replace private API references in the app binary or third-party SDKs, then rebuild so the shipped binary no longer exposes them."@
    } else {
        "Patch the "@ + fix_scope_of(item.category) + " scope first, then re-run voc to confirm the finding disappears."@
    }
}

pub fn patch_hint(item: &ReportItem) -> (r: String)
    ensures
        r@ == patch_hint_of(*item),
{
    let c = canonical_rule_id(item.rule_id.as_str());
    let id = c.as_str();
    if str_eq(id, "RULE_USAGE_DESCRIPTIONS") || str_eq(id, "RULE_USAGE_DESCRIPTIONS_EMPTY") || str_eq(id, "RULE_CAMERA_USAGE") {
        owned("Update Info.plist with the required NS*UsageDescription keys and give each key a user-facing reason that matches the in-app behavior.")
    } else if str_eq(id, "RULE_LSAPPLICATIONQUERIES_SCHEMES_AUDIT") {
        owned("Trim LSApplicationQueriesSchemes to only the schemes the app really probes, remove duplicates, and avoid private or overly broad schemes.")
    } else if str_eq(id, "RULE_DEVICE_CAPABILITIES_AUDIT") {
        owned("Align UIRequiredDeviceCapabilities with real binary usage so review devices are not excluded by mistake and unsupported hardware is not declared.")
    } else if str_eq(id, "RULE_INFO_PLIST_VERSIONING") {
        owned("Set a valid CFBundleShortVersionString and increment CFBundleVersion before the next submission.")
    } else if str_eq(id, "RULE_PRIVACY_MANIFEST") || str_eq(id, "RULE_PRIVACY_MANIFEST_COMPLETENESS") {
        owned("Add PrivacyInfo.xcprivacy to the shipped bundle and declare the accessed APIs and collected data used by the app or bundled SDKs.")
    } else if str_eq(id, "RULE_PRIVACY_SDK_CROSSCHECK") {
        owned("Review bundled SDKs and extend PrivacyInfo.xcprivacy so their accessed APIs and collected data are explicitly declared.")
    } else if str_eq(id, "RULE_ATS_AUDIT") {
        owned("Narrow NSAppTransportSecurity exceptions, remove arbitrary loads when possible, and scope domain exceptions to the smallest set that works.")
    } else if str_eq(id, "RULE_BUNDLE_RESOURCE_LEAKAGE") {
        owned("Remove secrets, certificates, provisioning artifacts, debug leftovers, and environment files from the packaged app bundle before archiving.")
    } else if str_eq(id, "RULE_ENTITLEMENTS_MISMATCH") || str_eq(id, "RULE_ENTITLEMENTS_PROVISIONING_MISMATCH") {
        owned("Make the exported entitlements match the provisioning profile and enabled capabilities for APNs, keychain groups, and iCloud.")
    } else if str_eq(id, "RULE_EXTENSION_ENTITLEMENTS_COMPAT") || str_eq(id, "RULE_NESTED_ENTITLEMENTS_MISMATCH") {
        owned("Make each extension entitlement set a valid subset of the host app and add the extension-specific capabilities it actually needs.")
    } else if str_eq(id, "RULE_NESTED_DEBUG_ENTITLEMENT") {
        owned("Strip debug-only entitlements like get-task-allow from release builds and regenerate the final signed archive.")
    } else if str_eq(id, "RULE_EMBEDDED_TEAM_ID_MISMATCH") {
        owned("Re-sign embedded frameworks, dylibs, and extensions with the same Team ID and release identity as the host app.")
    } else if str_eq(id, "RULE_PRIVATE_API") {
        owned("Remove or replace private API references in the app binary or third-party SDKs, then rebuild so the shipped binary no longer exposes them.")
    } else {
        let mut s = concat("Patch the ", fix_scope(item.category));
        push_str(&mut s, " scope first, then re-run voc to confirm the finding disappears.");
        s
    }
}

/// Why App Review rejects a finding.
pub open spec fn why_of(item: ReportItem) -> Seq<char> {
    let id = canonical_id(item.rule_id@);
    if id == "RULE_USAGE_DESCRIPTIONS"@ || id == "RULE_USAGE_DESCRIPTIONS_EMPTY"@ || id == "RULE_CAMERA_USAGE"@ {
        "App Review rejects binaries that touch protected APIs without clear, user-facing usage descriptions in Info.plist."@
    } else if id == "RULE_LSAPPLICATIONQUERIES_SCHEMES_AUDIT"@ {
        "Overreaching canOpenURL allowlists look like app enumeration and often trigger manual review questions or rejection."@
    } else if id == "RULE_DEVICE_CAPABILITIES_AUDIT"@ {
        "Incorrect device capability declarations can exclude valid review devices or misrepresent the hardware the app actually requires."@
    } else if id == "RULE_INFO_PLIST_VERSIONING"@ {
        "Invalid or non-incrementing version metadata blocks submission and confuses App Store release processing."@
    } else if id == "RULE_PRIVACY_MANIFEST"@ || id == "RULE_PRIVACY_MANIFEST_COMPLETENESS"@ || id == "RULE_PRIVACY_SDK_CROSSCHECK"@ {
        "Apple now expects accurate privacy manifests for apps and bundled SDKs, and missing declarations can block review."@
    } else if id == "RULE_ATS_AUDIT"@ {
        "Broad ATS exceptions weaken transport security and are a common reason App Review asks teams to justify or remove insecure settings."@
    } else if id == "RULE_BUNDLE_RESOURCE_LEAKAGE"@ {
        "Shipping secrets, certificates, or provisioning artifacts in the final bundle is treated as a serious distribution and security issue."@
    } else if id == "RULE_ENTITLEMENTS_MISMATCH"@ || id == "RULE_ENTITLEMENTS_PROVISIONING_MISMATCH"@ || id == "RULE_EXTENSION_ENTITLEMENTS_COMPAT"@ || id == "RULE_NESTED_ENTITLEMENTS_MISMATCH"@ || id == "RULE_NESTED_DEBUG_ENTITLEMENT"@ {
        "Entitlements that do not match the signed capabilities or release profile frequently cause validation failures or manual rejection."@
    } else if id == "RULE_EMBEDDED_TEAM_ID_MISMATCH"@ {
        "Embedded code signed with a different identity or Team ID can fail notarization-style checks during App Store validation."@
    } else if id == "RULE_PRIVATE_API"@ {
        "Private API usage is one of the clearest App Store rejection reasons because it relies on unsupported system behavior."@
    } else {
        "This finding maps to the "@ + fix_scope_of(item.category) + " scope and signals metadata, signing, or bundle state that App Review may treat as invalid or risky."@
    }
}

pub fn why_it_fails_review(item: &ReportItem) -> (r: String)
    ensures
        r@ == why_of(*item),
{
    let c = canonical_rule_id(item.rule_id.as_str());
    let id = c.as_str();
    if str_eq(id, "RULE_USAGE_DESCRIPTIONS") || str_eq(id, "RULE_USAGE_DESCRIPTIONS_EMPTY") || str_eq(id, "RULE_CAMERA_USAGE") {
        owned("App Review rejects binaries that touch protected APIs without clear, user-facing usage descriptions in Info.plist.")
    } else if str_eq(id, "RULE_LSAPPLICATIONQUERIES_SCHEMES_AUDIT") {
        owned("Overreaching canOpenURL allowlists look like app enumeration and often trigger manual review questions or rejection.")
    } else if str_eq(id, "RULE_DEVICE_CAPABILITIES_AUDIT") {
        owned("Incorrect device capability declarations can exclude valid review devices or misrepresent the hardware the app actually requires.")
    } else if str_eq(id, "RULE_INFO_PLIST_VERSIONING") {
        owned("Invalid or non-incrementing version metadata blocks submission and confuses App Store release processing.")
    } else if str_eq(id, "RULE_PRIVACY_MANIFEST") || str_eq(id, "RULE_PRIVACY_MANIFEST_COMPLETENESS") || str_eq(id, "RULE_PRIVACY_SDK_CROSSCHECK") {
        owned("Apple now expects accurate privacy manifests for apps and bundled SDKs, and missing declarations can block review.")
    } else if str_eq(id, "RULE_ATS_AUDIT") {
        owned("Broad ATS exceptions weaken transport security and are a common reason App Review asks teams to justify or remove insecure settings.")
    } else if str_eq(id, "RULE_BUNDLE_RESOURCE_LEAKAGE") {
        owned("Shipping secrets, certificates, or provisioning artifacts in the final bundle is treated as a serious distribution and security issue.")
    } else if str_eq(id, "RULE_ENTITLEMENTS_MISMATCH") || str_eq(id, "RULE_ENTITLEMENTS_PROVISIONING_MISMATCH") || str_eq(id, "RULE_EXTENSION_ENTITLEMENTS_COMPAT") || str_eq(id, "RULE_NESTED_ENTITLEMENTS_MISMATCH") || str_eq(id, "RULE_NESTED_DEBUG_ENTITLEMENT") {
        owned("Entitlements that do not match the signed capabilities or release profile frequently cause validation failures or manual rejection.")
    } else if str_eq(id, "RULE_EMBEDDED_TEAM_ID_MISMATCH") {
        owned("Embedded code signed with a different identity or Team ID can fail notarization-style checks during App Store validation.")
    } else if str_eq(id, "RULE_PRIVATE_API") {
        owned("Private API usage is one of the clearest App Store rejection reasons because it relies on unsupported system behavior.")
    } else {
        let mut s = concat("This finding maps to the ", fix_scope(item.category));
        push_str(
            &mut s,
            " scope and signals metadata, signing, or bundle state that App Review may treat as invalid or risky.",
        );
        s
    }
}

/// The project files a finding points at.
pub open spec fn target_files_of(item: ReportItem) -> Seq<Seq<char>> {
    let id = canonical_id(item.rule_id@);
    if id == "RULE_USAGE_DESCRIPTIONS"@ || id == "RULE_USAGE_DESCRIPTIONS_EMPTY"@ || id == "RULE_CAMERA_USAGE"@ || id == "RULE_INFO_PLIST_VERSIONING"@ {
        seq!["Info.plist"@]
    } else if id == "RULE_LSAPPLICATIONQUERIES_SCHEMES_AUDIT"@ || id == "RULE_DEVICE_CAPABILITIES_AUDIT"@ {
        seq!["Info.plist"@]
    } else if id == "RULE_PRIVACY_MANIFEST"@ || id == "RULE_PRIVACY_MANIFEST_COMPLETENESS"@ || id == "RULE_PRIVACY_SDK_CROSSCHECK"@ {
        seq!["PrivacyInfo.xcprivacy"@]
    } else if id == "RULE_ATS_AUDIT"@ {
        seq!["Info.plist (NSAppTransportSecurity)"@]
    } else if id == "RULE_BUNDLE_RESOURCE_LEAKAGE"@ {
        seq!["App bundle resources"@]
    } else if id == "RULE_ENTITLEMENTS_MISMATCH"@ || id == "RULE_ENTITLEMENTS_PROVISIONING_MISMATCH"@ || id == "RULE_EXTENSION_ENTITLEMENTS_COMPAT"@ || id == "RULE_NESTED_ENTITLEMENTS_MISMATCH"@ || id == "RULE_NESTED_DEBUG_ENTITLEMENT"@ {
        seq!["App entitlements plist"@, "embedded.mobileprovision"@]
    } else if id == "RULE_EMBEDDED_TEAM_ID_MISMATCH"@ {
        seq!["Main app executable signature"@, "Embedded frameworks/extensions"@]
    } else if id == "RULE_PRIVATE_API"@ {
        seq!["Linked SDKs or app binary"@]
    } else {
        match item.category {
            RuleCategory::Privacy | RuleCategory::Permissions | RuleCategory::Metadata => seq!["Info.plist"@],
            RuleCategory::Entitlements | RuleCategory::Signing => seq!["App signing and entitlements"@],
            RuleCategory::Bundling => seq!["App bundle resources"@],
            RuleCategory::Ats => seq!["Info.plist (NSAppTransportSecurity)"@],
            RuleCategory::ThirdParty => seq!["Embedded SDKs or dependencies"@],
            RuleCategory::Other => seq!["App bundle"@],
        }
    }
}

fn one(a: &str) -> (r: Vec<String>)
    ensures
        views(r@) == seq![a@],
{
    let mut v: Vec<String> = Vec::new();
    v.push(owned(a));
    assert(views(v@) =~= seq![a@]);
    v
}

fn two(a: &str, b: &str) -> (r: Vec<String>)
    ensures
        views(r@) == seq![a@, b@],
{
    let mut v: Vec<String> = Vec::new();
    v.push(owned(a));
    v.push(owned(b));
    assert(views(v@) =~= seq![a@, b@]);
    v
}

pub fn target_files(item: &ReportItem) -> (r: Vec<String>)
    ensures
        views(r@) == target_files_of(*item),
{
    let c = canonical_rule_id(item.rule_id.as_str());
    let id = c.as_str();
    if str_eq(id, "RULE_USAGE_DESCRIPTIONS") || str_eq(id, "RULE_USAGE_DESCRIPTIONS_EMPTY") || str_eq(id, "RULE_CAMERA_USAGE") || str_eq(id, "RULE_INFO_PLIST_VERSIONING") {
        one("Info.plist")
    } else if str_eq(id, "RULE_LSAPPLICATIONQUERIES_SCHEMES_AUDIT") || str_eq(id, "RULE_DEVICE_CAPABILITIES_AUDIT") {
        one("Info.plist")
    } else if str_eq(id, "RULE_PRIVACY_MANIFEST") || str_eq(id, "RULE_PRIVACY_MANIFEST_COMPLETENESS") || str_eq(id, "RULE_PRIVACY_SDK_CROSSCHECK") {
        one("PrivacyInfo.xcprivacy")
    } else if str_eq(id, "RULE_ATS_AUDIT") {
        one("Info.plist (NSAppTransportSecurity)")
    } else if str_eq(id, "RULE_BUNDLE_RESOURCE_LEAKAGE") {
        one("App bundle resources")
    } else if str_eq(id, "RULE_ENTITLEMENTS_MISMATCH") || str_eq(id, "RULE_ENTITLEMENTS_PROVISIONING_MISMATCH") || str_eq(id, "RULE_EXTENSION_ENTITLEMENTS_COMPAT") || str_eq(id, "RULE_NESTED_ENTITLEMENTS_MISMATCH") || str_eq(id, "RULE_NESTED_DEBUG_ENTITLEMENT") {
        two("App entitlements plist", "embedded.mobileprovision")
    } else if str_eq(id, "RULE_EMBEDDED_TEAM_ID_MISMATCH") {
        two("Main app executable signature", "Embedded frameworks/extensions")
    } else if str_eq(id, "RULE_PRIVATE_API") {
        one("Linked SDKs or app binary")
    } else {
        match item.category {
            RuleCategory::Privacy | RuleCategory::Permissions | RuleCategory::Metadata => one("Info.plist"),
            RuleCategory::Entitlements | RuleCategory::Signing => one("App signing and entitlements"),
            RuleCategory::Bundling => one("App bundle resources"),
            RuleCategory::Ats => one("Info.plist (NSAppTransportSecurity)"),
            RuleCategory::ThirdParty => one("Embedded SDKs or dependencies"),
            RuleCategory::Other => one("App bundle"),
        }
    }
}

/// The finding a failing report item becomes.
pub open spec fn finding_matches(f: AgentFinding, item: ReportItem) -> bool {
    &&& f.rule_id@ == item.rule_id@
    &&& f.rule_name@ == item.rule_name@
    &&& f.severity == item.severity
    &&& f.category == item.category
    &&& f.priority@ == priority_of(item.severity)
    &&& f.message@ == match item.message {
        Some(m) => m@,
        None => item.rule_name@,
    }
    &&& opt_view(f.evidence) == opt_view(item.evidence)
    &&& f.recommendation@ == item.recommendation@
    &&& f.suggested_fix_scope@ == fix_scope_of(item.category)
    &&& views(f.target_files@) == target_files_of(item)
    &&& f.patch_hint@ == patch_hint_of(item)
    &&& f.why_it_fails_review@ == why_of(item)
}

/// The failing items of a report, in order.
pub open spec fn failing_items(items: Seq<ReportItem>) -> Seq<ReportItem>
    decreases items.len(),
{
    if items.len() == 0 {
        Seq::empty()
    } else if is_failing(items.last().status) {
        failing_items(items.drop_last()).push(items.last())
    } else {
        failing_items(items.drop_last())
    }
}

fn copy_opt(o: &Option<String>) -> (r: Option<String>)
    ensures
        opt_view(r) == opt_view(*o),
{
    match o {
        Some(s) => Some(s.clone()),
        None => None,
    }
}

fn agent_finding(item: &ReportItem) -> (r: AgentFinding)
    ensures
        finding_matches(r, *item),
{
    AgentFinding {
        rule_id: item.rule_id.clone(),
        rule_name: item.rule_name.clone(),
        severity: item.severity,
        category: item.category,
        priority: owned(agent_priority(item.severity)),
        message: match &item.message {
            Some(m) => m.clone(),
            None => item.rule_name.clone(),
        },
        evidence: copy_opt(&item.evidence),
        recommendation: item.recommendation.clone(),
        suggested_fix_scope: suggested_fix_scope(item),
        target_files: target_files(item),
        patch_hint: patch_hint(item),
        why_it_fails_review: why_it_fails_review(item),
    }
}

/// The fix pack of a report: one finding per failing item, in report order.
pub fn build_agent_pack(report: &ReportData) -> (r: AgentPack)
    ensures
        r.generated_at_unix == report.generated_at_unix,
        r.total_findings == r.findings@.len(),
        r.findings@.len() == failing_items(report.results@).len(),
        forall|i: int|
            0 <= i < r.findings@.len() ==> finding_matches(
                #[trigger] r.findings@[i],
                failing_items(report.results@)[i],
            ),
{
    let mut findings: Vec<AgentFinding> = Vec::new();
    let mut i: usize = 0;
    while i < report.results.len()
        invariant
            0 <= i <= report.results@.len(),
            findings@.len() == failing_items(report.results@.take(i as int)).len(),
            forall|k: int|
                0 <= k < findings@.len() ==> finding_matches(
                    #[trigger] findings@[k],
                    failing_items(report.results@.take(i as int))[k],
                ),
        decreases report.results@.len() - i,
    {
        assert(report.results@.take(i + 1).drop_last() =~= report.results@.take(i as int));
        let item = &report.results[i];
        if failing(item.status) {
            let f = agent_finding(item);
            findings.push(f);
        }
        i = i + 1;
    }
    assert(report.results@.take(report.results@.len() as int) =~= report.results@);
    let n = findings.len();
    AgentPack { generated_at_unix: report.generated_at_unix, total_findings: n, findings }
}

/// `"{rule_id}|{message, trimmed}"`.
pub open spec fn pack_key(rule_id: Seq<char>, message: Seq<char>) -> Seq<char> {
    rule_id + "|"@ + trim_spec(message)
}

fn pack_key_of(rule_id: &str, message: &str) -> (r: String)
    ensures
        r@ == pack_key(rule_id@, message@),
{
    let t = trim(message);
    let mut out = concat(rule_id, "|");
    push_str(&mut out, t.as_str());
    out
}

/// The key under which a baseline item suppresses fix pack findings: its rule
/// and its trimmed message.
pub fn agent_pack_baseline_key_from_report(item: &ReportItem) -> (r: String)
    ensures
        r@ == pack_key(
            item.rule_id@,
            match item.message {
                Some(m) => m@,
                None => Seq::empty(),
            },
        ),
{
    match &item.message {
        Some(m) => pack_key_of(item.rule_id.as_str(), m.as_str()),
        None => {
            let empty = String::new();
            pack_key_of(item.rule_id.as_str(), empty.as_str())
        },
    }
}

/// The key a fix pack finding is matched by.
pub fn agent_pack_baseline_key_from_finding(item: &AgentFinding) -> (r: String)
    ensures
        r@ == pack_key(item.rule_id@, item.message@),
{
    pack_key_of(item.rule_id.as_str(), item.message.as_str())
}

/// The keys of a baseline's failing items, as the fix pack matches them.
pub open spec fn pack_baseline_keys(items: Seq<ReportItem>) -> Seq<Seq<char>>
    decreases items.len(),
{
    if items.len() == 0 {
        Seq::empty()
    } else if is_failing(items.last().status) {
        pack_baseline_keys(items.drop_last()).push(
            pack_key(
                items.last().rule_id@,
                match items.last().message {
                    Some(m) => m@,
                    None => Seq::empty(),
                },
            ),
        )
    } else {
        pack_baseline_keys(items.drop_last())
    }
}

/// The findings whose keys a baseline does not hold, in order.
pub open spec fn new_findings(findings: Seq<AgentFinding>, keys: Seq<Seq<char>>) -> Seq<AgentFinding>
    decreases findings.len(),
{
    if findings.len() == 0 {
        Seq::empty()
    } else if keys.contains(pack_key(findings.last().rule_id@, findings.last().message@)) {
        new_findings(findings.drop_last(), keys)
    } else {
        new_findings(findings.drop_last(), keys).push(findings.last())
    }
}

/// Drops the findings that a baseline report already records.
pub fn apply_agent_pack_baseline(pack: &mut AgentPack, baseline: &ReportData)
    ensures
        final(pack).findings@ == new_findings(
            old(pack).findings@,
            pack_baseline_keys(baseline.results@),
        ),
        final(pack).total_findings == final(pack).findings@.len(),
        final(pack).generated_at_unix == old(pack).generated_at_unix,
{
    let mut keys: Vec<String> = Vec::new();
    let mut i: usize = 0;
    assert(views(keys@) =~= Seq::<Seq<char>>::empty());
    while i < baseline.results.len()
        invariant
            0 <= i <= baseline.results@.len(),
            views(keys@) == pack_baseline_keys(baseline.results@.take(i as int)),
        decreases baseline.results@.len() - i,
    {
        assert(baseline.results@.take(i + 1).drop_last() =~= baseline.results@.take(i as int));
        let item = &baseline.results[i];
        if failing(item.status) {
            let ghost pre = views(keys@);
            let key = agent_pack_baseline_key_from_report(item);
            keys.push(key);
            assert(views(keys@) =~= pre.push(
                pack_key(
                    item.rule_id@,
                    match item.message {
                        Some(m) => m@,
                        None => Seq::empty(),
                    },
                ),
            ));
        }
        i = i + 1;
    }
    assert(baseline.results@.take(baseline.results@.len() as int) =~= baseline.results@);
    let ghost ks = views(keys@);
    let mut old_findings: Vec<AgentFinding> = Vec::new();
    std::mem::swap(&mut old_findings, &mut pack.findings);
    let ghost orig = old_findings@;
    let total = old_findings.len();
    let mut kept: Vec<AgentFinding> = Vec::new();
    let mut k: usize = 0;
    while old_findings.len() > 0
        invariant
            total == orig.len(),
            k + old_findings@.len() == orig.len(),
            old_findings@ == orig.skip(k as int),
            kept@ == new_findings(orig.take(k as int), ks),
            views(keys@) == ks,
        decreases old_findings@.len(),
    {
        let f = old_findings.remove(0);
        assert(f == orig[k as int]);
        assert(orig.take(k + 1).drop_last() =~= orig.take(k as int));
        let key = agent_pack_baseline_key_from_finding(&f);
        if !strings_contain(&keys, key.as_str()) {
            kept.push(f);
        }
        assert(old_findings@ =~= orig.skip(k + 1));
        k = k + 1;
    }
    assert(orig.take(orig.len() as int) =~= orig);
    pack.findings = kept;
    pack.total_findings = pack.findings.len();
}

/// Findings are rendered grouped by fix scope, then ordered by rule identifier.
impl SortKey for AgentFinding {
    open spec fn key(&self) -> Seq<u128> {
        text_key(self.suggested_fix_scope@) + seq![0u128] + text_key(self.rule_id@)
    }

    fn key_vec(&self) -> (r: Vec<u128>) {
        let mut v = crate::text::text_key_vec(self.suggested_fix_scope.as_str());
        v.push(0);
        let t = crate::text::text_key_vec(self.rule_id.as_str());
        let ghost head = v@;
        let mut i: usize = 0;
        while i < t.len()
            invariant
                0 <= i <= t@.len(),
                v@ == head + t@.take(i as int),
            decreases t@.len() - i,
        {
            v.push(t[i]);
            assert(t@.take(i + 1) =~= t@.take(i as int).push(t@[i as int]));
            assert(v@ =~= head + t@.take(i + 1));
            i = i + 1;
        }
        assert(t@.take(t@.len() as int) =~= t@);
        v
    }
}

/// The heading lines of one finding.
pub open spec fn finding_head(f: AgentFinding) -> Seq<char> {
    finding_title(f) + finding_labels(f)
}

/// Name, identifier and priority lines of a finding.
pub open spec fn finding_title(f: AgentFinding) -> Seq<char> {
    "- **"@ + f.rule_name@ + "** (`"@ + f.rule_id@ + "`)\n"@ + "  - Priority: `"@ + f.priority@
        + "`\n"@
}

/// Severity, category and message lines of a finding.
pub open spec fn finding_labels(f: AgentFinding) -> Seq<char> {
    "  - Severity: `"@ + severity_name(f.severity) + "`\n"@ + "  - Category: `"@ + category_name(
        f.category,
    ) + "`\n"@ + "  - Message: "@ + f.message@ + "\n"@
}

/// The optional lines of one finding.
pub open spec fn finding_extras(f: AgentFinding) -> Seq<char> {
    (match f.evidence {
        Some(e) => "  - Evidence: "@ + e@ + "\n"@,
        None => Seq::empty(),
    }) + (if f.target_files@.len() > 0 {
        "  - Target files: "@ + seq_join(views(f.target_files@), ", "@) + "\n"@
    } else {
        Seq::empty()
    })
}

/// The closing lines of one finding.
pub open spec fn finding_tail(f: AgentFinding) -> Seq<char> {
    "  - Why it fails review: "@ + f.why_it_fails_review@ + "\n"@ + "  - Patch hint: "@
        + f.patch_hint@ + "\n"@ + "  - Recommendation: "@ + f.recommendation@ + "\n"@
}

/// The markdown lines of one finding.
pub open spec fn finding_block(f: AgentFinding) -> Seq<char> {
    finding_head(f) + finding_extras(f) + finding_tail(f)
}

/// The findings section: a heading before each change of scope.
pub open spec fn findings_body(fs: Seq<AgentFinding>) -> Seq<char>
    decreases fs.len(),
{
    if fs.len() == 0 {
        Seq::empty()
    } else {
        let prev = findings_body(fs.drop_last());
        let f = fs.last();
        let heading = if fs.len() == 1 {
            "### "@ + f.suggested_fix_scope@ + "\n\n"@
        } else if fs[fs.len() - 2].suggested_fix_scope@ != f.suggested_fix_scope@ {
            "\n"@ + "### "@ + f.suggested_fix_scope@ + "\n\n"@
        } else {
            Seq::empty()
        };
        prev + heading + finding_block(f)
    }
}

/// The markdown fix pack, given its findings in rendering order.
pub open spec fn pack_markdown(pack: AgentPack, ordered: Seq<AgentFinding>) -> Seq<char> {
    let head = "# verifyOS Agent Fix Pack\n\n"@ + "- Generated at: `"@ + decimal(
        pack.generated_at_unix as nat,
    ) + "`\n"@ + "- Total findings: `"@ + decimal(pack.total_findings as nat) + "`\n\n"@;
    if pack.findings@.len() == 0 {
        head + "## Findings\n\n- No failing findings.\n"@
    } else {
        head + "## Findings by Fix Scope\n\n"@ + findings_body(ordered)
    }
}

fn push_finding_head(out: &mut String, f: &AgentFinding)
    ensures
        final(out)@ == old(out)@ + finding_head(*f),
{
    let ghost start = out@;
    push_str(out, "- **");
    push_str(out, f.rule_name.as_str());
    push_str(out, "** (`");
    push_str(out, f.rule_id.as_str());
    push_str(out, "`)\n");
    push_str(out, "  - Priority: `");
    push_str(out, f.priority.as_str());
    push_str(out, "`\n");
    assert(out@ =~= start + finding_title(*f));
    let ghost mid = out@;
    push_str(out, "  - Severity: `");
    push_str(out, severity_label(f.severity));
    push_str(out, "`\n");
    push_str(out, "  - Category: `");
    push_str(out, category_label(f.category));
    push_str(out, "`\n");
    push_str(out, "  - Message: ");
    push_str(out, f.message.as_str());
    push_str(out, "\n");
    assert(out@ =~= mid + finding_labels(*f));
    assert(out@ =~= start + finding_head(*f));
}

fn push_finding_extras(out: &mut String, f: &AgentFinding)
    ensures
        final(out)@ == old(out)@ + finding_extras(*f),
{
    let ghost start = out@;
    if let Some(e) = &f.evidence {
        push_str(out, "  - Evidence: ");
        push_str(out, e.as_str());
        push_str(out, "\n");
    }
    let ghost b = out@;
    if f.target_files.len() > 0 {
        let joined = join(&f.target_files, ", ");
        push_str(out, "  - Target files: ");
        push_str(out, joined.as_str());
        push_str(out, "\n");
    }
    assert(out@ =~= start + finding_extras(*f));
}

fn push_finding_tail(out: &mut String, f: &AgentFinding)
    ensures
        final(out)@ == old(out)@ + finding_tail(*f),
{
    let ghost start = out@;
    push_str(out, "  - Why it fails review: ");
    push_str(out, f.why_it_fails_review.as_str());
    push_str(out, "\n");
    push_str(out, "  - Patch hint: ");
    push_str(out, f.patch_hint.as_str());
    push_str(out, "\n");
    push_str(out, "  - Recommendation: ");
    push_str(out, f.recommendation.as_str());
    push_str(out, "\n");
    assert(out@ =~= start + finding_tail(*f));
}

fn push_finding_block(out: &mut String, f: &AgentFinding)
    ensures
        final(out)@ == old(out)@ + finding_block(*f),
{
    let ghost start = out@;
    push_finding_head(out, f);
    push_finding_extras(out, f);
    push_finding_tail(out, f);
    assert(out@ =~= start + finding_block(*f));
}

/// Renders the fix pack as markdown, findings grouped by fix scope.
#[verifier::rlimit(40)]
pub fn render_agent_pack_markdown(pack: &AgentPack) -> (r: String)
    ensures
        exists|ordered: Seq<AgentFinding>|
            sorted_by_key(ordered) && keeps_ties_by(ordered, pack.findings@, |f: AgentFinding| fview(f))
                && ordered.map_values(|f: AgentFinding| fview(f)).to_multiset()
                == pack.findings@.map_values(|f: AgentFinding| fview(f)).to_multiset() && r@
                == pack_markdown(*pack, ordered),
{
    let mut out = owned("# verifyOS Agent Fix Pack\n\n");
    push_str(&mut out, "- Generated at: `");
    crate::text::push_decimal(&mut out, pack.generated_at_unix as u128);
    push_str(&mut out, "`\n");
    push_str(&mut out, "- Total findings: `");
    crate::text::push_decimal(&mut out, pack.total_findings as u128);
    push_str(&mut out, "`\n\n");
    let ghost head = out@;
    if pack.findings.len() == 0 {
        push_str(&mut out, "## Findings\n\n- No failing findings.\n");
        assert(out@ =~= pack_markdown(*pack, pack.findings@));
        assert(sorted_by_key(pack.findings@));
        return out;
    }
    let mut copies: Vec<AgentFinding> = Vec::new();
    let mut i: usize = 0;
    while i < pack.findings.len()
        invariant
            0 <= i <= pack.findings@.len(),
            copies@.len() == i,
            forall|k: int| 0 <= k < i ==> fview(#[trigger] copies@[k]) == fview(pack.findings@[k]),
        decreases pack.findings@.len() - i,
    {
        copies.push(copy_finding(&pack.findings[i]));
        i = i + 1;
    }
    let ghost cviews = copies@.map_values(|f: AgentFinding| fview(f));
    assert(cviews =~= pack.findings@.map_values(|f: AgentFinding| fview(f)));
    let ghost c0 = copies@;
    let findings = sort_by_key(copies);
    proof {
        crate::sorting::lemma_map_multiset(findings@, c0, |f: AgentFinding| fview(f));
        assert forall|i: int| 0 <= i < c0.len() implies fview(#[trigger] c0[i]) == fview(
            pack.findings@[i],
        ) && c0[i].key() == pack.findings@[i].key() by {
            assert(fview(c0[i]) == fview(pack.findings@[i]));
        }
        lemma_keeps_ties_pointwise(findings@, c0, pack.findings@, |f: AgentFinding| fview(f));
    }
    push_str(&mut out, "## Findings by Fix Scope\n\n");
    let ghost body_start = out@;
    let mut j: usize = 0;
    assert(findings@.take(0) =~= Seq::<AgentFinding>::empty());
    while j < findings.len()
        invariant
            0 <= j <= findings@.len(),
            out@ == body_start + findings_body(findings@.take(j as int)),
        decreases findings@.len() - j,
    {
        let ghost pre = findings@.take(j as int);
        assert(findings@.take(j + 1).drop_last() =~= pre);
        let f = &findings[j];
        if j == 0 {
            push_str(&mut out, "### ");
            push_str(&mut out, f.suggested_fix_scope.as_str());
            push_str(&mut out, "\n\n");
        } else if !str_eq(findings[j - 1].suggested_fix_scope.as_str(), f.suggested_fix_scope.as_str()) {
            push_str(&mut out, "\n");
            push_str(&mut out, "### ");
            push_str(&mut out, f.suggested_fix_scope.as_str());
            push_str(&mut out, "\n\n");
        }
        push_finding_block(&mut out, f);
        proof {
            let t = findings@.take(j + 1);
            assert(t.last() == findings@[j as int]);
            if j > 0 {
                assert(t[t.len() - 2] == findings@[j - 1]);
            }
        }
        assert(out@ =~= body_start + findings_body(findings@.take(j + 1)));
        j = j + 1;
    }
    assert(findings@.take(findings@.len() as int) =~= findings@);
    assert(out@ == pack_markdown(*pack, findings@));
    out
}

/// A finding with its texts as character sequences.
pub struct FindingView {
    pub rule_id: Seq<char>,
    pub rule_name: Seq<char>,
    pub severity: Severity,
    pub category: RuleCategory,
    pub priority: Seq<char>,
    pub message: Seq<char>,
    pub evidence: Option<Seq<char>>,
    pub recommendation: Seq<char>,
    pub suggested_fix_scope: Seq<char>,
    pub target_files: Seq<Seq<char>>,
    pub patch_hint: Seq<char>,
    pub why_it_fails_review: Seq<char>,
}

pub open spec fn fview(f: AgentFinding) -> FindingView {
    FindingView {
        rule_id: f.rule_id@,
        rule_name: f.rule_name@,
        severity: f.severity,
        category: f.category,
        priority: f.priority@,
        message: f.message@,
        evidence: opt_view(f.evidence),
        recommendation: f.recommendation@,
        suggested_fix_scope: f.suggested_fix_scope@,
        target_files: views(f.target_files@),
        patch_hint: f.patch_hint@,
        why_it_fails_review: f.why_it_fails_review@,
    }
}

/// A copy of a finding.
fn copy_finding(f: &AgentFinding) -> (r: AgentFinding)
    ensures
        fview(r) == fview(*f),
{
    let mut files: Vec<String> = Vec::new();
    let mut i: usize = 0;
    while i < f.target_files.len()
        invariant
            0 <= i <= f.target_files@.len(),
            files@ == f.target_files@.take(i as int),
        decreases f.target_files@.len() - i,
    {
        files.push(f.target_files[i].clone());
        assert(files@ =~= f.target_files@.take(i + 1));
        i = i + 1;
    }
    assert(files@ =~= f.target_files@);
    assert(views(files@) =~= views(f.target_files@));
    AgentFinding {
        rule_id: f.rule_id.clone(),
        rule_name: f.rule_name.clone(),
        severity: f.severity,
        category: f.category,
        priority: f.priority.clone(),
        message: f.message.clone(),
        evidence: match &f.evidence {
            Some(e) => Some(e.clone()),
            None => None,
        },
        recommendation: f.recommendation.clone(),
        suggested_fix_scope: f.suggested_fix_scope.clone(),
        target_files: files,
        patch_hint: f.patch_hint.clone(),
        why_it_fails_review: f.why_it_fails_review.clone(),
    }
}

} // verus!
