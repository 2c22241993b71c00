use verifyos_cli::backend::uploads::{check_upload, ProjectUpload, MISSING_BUNDLE_ERROR, PROJECT_ARCHIVE_ERROR};
use verifyos_cli::ci_comment::summary_from_lines;
use verifyos_cli::parsers::macho_scanner::UsageScanError;
use verifyos_cli::parsers::plist_reader::{InfoPlist, PlistEntry, PlistValue};
use verifyos_cli::profiles::{available_rule_ids, rule_detail, rule_inventory, ScanProfile};
use verifyos_cli::rules::base::{AppStoreRule, ArtifactContext, BundleFacts, BundleFile, RuleStatus};
use verifyos_cli::rules::permissions::CameraUsageDescriptionRule;
use verifyos_cli::rules::privacy::MissingPrivacyManifestRule;

fn bundle(path: &str) -> BundleFacts {
    BundleFacts {
        bundle_path: path.to_string(),
        display_name: "TestApp.app".to_string(),
        info_plist: Ok(None),
        executable: None,
        entitlements: Ok(None),
        provisioning: Ok(None),
    }
}

fn context(files: Vec<&str>, plist: Option<InfoPlist>) -> ArtifactContext {
    ArtifactContext {
        app_bundle_path: "TestApp.app".to_string(),
        info_plist: plist,
        main_bundle: bundle("TestApp.app"),
        app_executable: None,
        main_executable: None,
        scanned_executable: Err(UsageScanError::MissingExecutable),
        nested_bundles: Ok(vec![]),
        bundle_files: files
            .into_iter()
            .map(|f| BundleFile {
                path: format!("TestApp.app/{f}"),
                relative_path: f.to_string(),
                file_name: f.to_string(),
                contents: None,
            })
            .collect(),
        clock: None,
    }
}

fn plist_with(key: &str) -> InfoPlist {
    InfoPlist::from_dictionary(vec![PlistEntry { key: key.to_string(), value: PlistValue::String("Scan".to_string()) }])
}

#[test]
fn test_privacy_manifest_rule_passes() {
    let result = MissingPrivacyManifestRule.evaluate(&context(vec!["PrivacyInfo.xcprivacy"], None));
    match result {
        Ok(r) => assert_eq!(r.status, RuleStatus::Pass),
        Err(_) => panic!("rule error"),
    }
}

#[test]
fn test_privacy_manifest_rule_fails() {
    let result = MissingPrivacyManifestRule.evaluate(&context(vec![], None));
    match result {
        Ok(r) => {
            assert_eq!(r.status, RuleStatus::Fail);
            assert_eq!(r.message.as_deref(), Some("Missing PrivacyInfo.xcprivacy"));
        }
        Err(_) => panic!("rule error"),
    }
}

#[test]
fn test_camera_usage_rule_passes() {
    let result = CameraUsageDescriptionRule.evaluate(&context(vec![], Some(plist_with("NSCameraUsageDescription"))));
    match result {
        Ok(r) => assert_eq!(r.status, RuleStatus::Pass),
        Err(_) => panic!("rule error"),
    }
    let missing = CameraUsageDescriptionRule.evaluate(&context(vec![], Some(plist_with("CFBundleName"))));
    assert!(missing.is_err());
    match CameraUsageDescriptionRule.evaluate(&context(vec![], None)) {
        Ok(r) => assert_eq!(r.status, RuleStatus::Pass),
        Err(_) => panic!("rule error"),
    }
}

#[test]
fn inventory_is_strictly_ordered_and_lists_profiles() {
    let inv = rule_inventory();
    for w in inv.windows(2) {
        assert!(w[0].rule_id < w[1].rule_id);
    }
    let privacy = inv.iter().find(|i| i.rule_id == "RULE_PRIVACY_MANIFEST").expect("privacy rule");
    assert_eq!(privacy.default_profiles, vec!["basic".to_string(), "full".to_string()]);
    let private_api = inv.iter().find(|i| i.rule_id == "RULE_PRIVATE_API").expect("private api rule");
    assert_eq!(private_api.default_profiles, vec!["full".to_string()]);
}

#[test]
fn detail_agrees_with_the_inventory() {
    let detail = rule_detail(" rule_private_api ").expect("detail");
    assert_eq!(detail.rule_id, "RULE_PRIVATE_API");
    assert_eq!(detail.default_profiles, vec!["full".to_string()]);
    let inv = rule_inventory();
    let item = inv.iter().find(|i| i.rule_id == detail.rule_id).expect("item");
    assert_eq!(item.name, detail.name);
    assert!(rule_detail("RULE_NOPE").is_none());
}

#[test]
fn basic_ids_are_full_ids() {
    let basic = available_rule_ids(ScanProfile::Basic);
    let full = available_rule_ids(ScanProfile::Full);
    for id in &basic {
        assert!(full.contains(id));
        assert_eq!(id.trim().to_ascii_uppercase(), *id);
    }
    for w in full.windows(2) {
        assert!(w[0] < w[1]);
    }
    assert!(basic.contains(&"RULE_CAMERA_USAGE".to_string()));
}

#[test]
fn doctor_summary_joins_lines() {
    assert_eq!(summary_from_lines(&vec!["A: PASS".to_string(), "B: FAIL".to_string()]), "A: PASS, B: FAIL");
    assert_eq!(summary_from_lines(&vec![]), "doctor report missing");
}

#[test]
fn uploads_without_a_bundle_are_refused() {
    match check_upload(false, Some("zip")) {
        Err(e) => assert_eq!(e, MISSING_BUNDLE_ERROR),
        Ok(_) => panic!("accepted"),
    }
    match check_upload(true, Some("XcodeProj")) {
        Err(e) => assert_eq!(e, PROJECT_ARCHIVE_ERROR),
        Ok(_) => panic!("accepted"),
    }
    assert!(matches!(check_upload(true, Some("ZIP")), Ok(ProjectUpload::Extract)));
    assert!(matches!(check_upload(true, None), Ok(ProjectUpload::Ignore)));
}
