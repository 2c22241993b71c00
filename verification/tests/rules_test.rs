use verifyos_cli::parsers::plist_reader::{InfoPlist, PlistEntry, PlistValue};
use verifyos_cli::report::agent_pack::build_agent_pack;
use verifyos_cli::report::data::{ArtifactCacheStats, ReportData, ReportItem};
use verifyos_cli::rules::base::{RuleCategory, RuleStatus, Severity};
use verifyos_cli::rules::entitlements::{ICLOUD_CONTAINER_IDENTIFIERS_KEY, KEYCHAIN_ACCESS_GROUPS_KEY};
use verifyos_cli::rules::extensions::compare_entitlements;

fn strings(values: &[&str]) -> PlistValue {
    PlistValue::Array(values.iter().map(|v| PlistValue::String(v.to_string())).collect())
}

fn entry(key: &str, value: PlistValue) -> PlistEntry {
    PlistEntry { key: key.to_string(), value }
}

#[test]
fn compare_entitlements_uses_shared_subset_keys() {
    let app = vec![
        entry(KEYCHAIN_ACCESS_GROUPS_KEY, strings(&["group.shared"])),
        entry(ICLOUD_CONTAINER_IDENTIFIERS_KEY, strings(&["iCloud.shared"])),
    ];
    let ext = vec![entry(KEYCHAIN_ACCESS_GROUPS_KEY, strings(&["group.shared", "group.extra"]))];

    let issues = compare_entitlements(&InfoPlist::from_dictionary(app), &InfoPlist::from_dictionary(ext));

    assert_eq!(
        issues,
        vec!["entitlement keychain-access-groups values not in host app: group.extra".to_string()]
    );
}

fn report_item(rule_id: &str) -> ReportItem {
    ReportItem {
        rule_id: rule_id.to_string(),
        rule_name: rule_id.to_string(),
        category: RuleCategory::Metadata,
        severity: Severity::Warning,
        status: RuleStatus::Fail,
        message: Some("example".to_string()),
        evidence: None,
        recommendation: "fix it".to_string(),
        duration_ms: 1,
    }
}

#[test]
fn agent_pack_maps_current_rule_ids() {
    let report = ReportData {
        ruleset_version: "test".to_string(),
        generated_at_unix: 0,
        total_duration_ms: 0,
        cache_stats: ArtifactCacheStats::empty(),
        slow_rules: Vec::new(),
        results: vec![
            report_item("RULE_USAGE_DESCRIPTIONS_EMPTY"),
            report_item("RULE_LSAPPLICATIONQUERIES_SCHEMES_AUDIT"),
            report_item("RULE_DEVICE_CAPABILITIES_AUDIT"),
        ],
    };

    let pack = build_agent_pack(&report);

    assert_eq!(pack.total_findings, 3);
    assert!(pack.findings.iter().all(|finding| finding.target_files == vec!["Info.plist".to_string()]));
}

#[test]
fn compare_entitlements_is_quiet_when_extension_is_a_subset() {
    let app = vec![entry(KEYCHAIN_ACCESS_GROUPS_KEY, strings(&["group.shared", "group.other"]))];
    let ext = vec![entry(KEYCHAIN_ACCESS_GROUPS_KEY, strings(&["group.shared"]))];
    let issues = compare_entitlements(&InfoPlist::from_dictionary(app), &InfoPlist::from_dictionary(ext));
    assert!(issues.is_empty());
}

#[test]
fn plist_bytes_parse_into_a_dictionary() {
    let xml = br#"<?xml version="1.0" encoding="UTF-8"?>
<!DOCTYPE plist PUBLIC "-//Apple//DTD PLIST 1.0//EN" "http://www.apple.com/DTDs/PropertyList-1.0.dtd">
<plist version="1.0"><dict><key>CFBundleExecutable</key><string>Runner</string></dict></plist>"#;
    let plist = match InfoPlist::from_bytes(xml) {
        Ok(p) => p,
        Err(_) => panic!("parse"),
    };
    assert_eq!(plist.get_string("CFBundleExecutable"), Some("Runner"));
}

#[test]
fn plist_that_is_not_a_dictionary_is_refused() {
    let xml = br#"<?xml version="1.0" encoding="UTF-8"?>
<plist version="1.0"><array><string>x</string></array></plist>"#;
    assert!(InfoPlist::from_bytes(xml).is_err());
}
