use verifyos_cli::agent_assets::{build_repair_plan, AgentAssetLayout, RepairPolicy};
use verifyos_cli::backend::auth::{AuthError, AuthStore};
use verifyos_cli::backend::rate_limit::{RateLimitError, RateLimiter};
use verifyos_cli::backend::scan::{build_rule_selection, ScanError, ScanProfileInput, ScanService};
use verifyos_cli::backend::uploads::{
    append_rule_list, apply_text_field, archive_manifest, client_ip, empty_request, field_kind,
    find_project_path, handoff_hints, handoff_profile, parse_profile_field, parse_scan_format, project_action,
    repair_plan_markdown, ProjectUpload, ScanOutputFormat, UploadField, FORMAT_ERROR,
};
use verifyos_cli::profiles::ScanProfile;

#[test]
fn scan_format_names_are_read_in_any_case() {
    assert_eq!(parse_scan_format("JSON"), Some(ScanOutputFormat::Json));
    assert_eq!(parse_scan_format("md"), Some(ScanOutputFormat::Markdown));
    assert_eq!(parse_scan_format("markdown"), Some(ScanOutputFormat::Markdown));
    assert_eq!(parse_scan_format("Sarif"), Some(ScanOutputFormat::Sarif));
    assert_eq!(parse_scan_format("xml"), None);
}

#[test]
fn rule_lists_are_split_and_trimmed() {
    let mut values = vec!["A".to_string()];
    append_rule_list(&mut values, " b , ,c,");
    assert_eq!(values, vec!["A".to_string(), "b".to_string(), "c".to_string()]);
}

#[test]
fn upload_fields_fill_the_request() {
    let mut request = empty_request();
    let mut format = ScanOutputFormat::Json;
    assert_eq!(field_kind("profile"), UploadField::Profile);
    assert_eq!(field_kind("other"), UploadField::Ignored);
    assert!(apply_text_field(&mut request, &mut format, UploadField::Profile, "BASIC").is_ok());
    assert_eq!(request.profile, Some(ScanProfileInput::Basic));
    assert!(apply_text_field(&mut request, &mut format, field_kind("in\x63lude"), "R1,R2").is_ok());
    assert_eq!(request.included, vec!["R1".to_string(), "R2".to_string()]);
    assert!(apply_text_field(&mut request, &mut format, UploadField::Format, "md").is_ok());
    assert_eq!(format, ScanOutputFormat::Markdown);
    assert_eq!(
        apply_text_field(&mut request, &mut format, UploadField::Format, "pdf"),
        Err(FORMAT_ERROR.to_string())
    );
    assert_eq!(parse_profile_field("gold"), None);
}

#[test]
fn uploaded_projects_must_be_archives() {
    assert_eq!(project_action(Some("ZIP")), ProjectUpload::Extract);
    assert_eq!(project_action(Some("xcodeproj")), ProjectUpload::Refuse);
    assert_eq!(project_action(Some("txt")), ProjectUpload::Ignore);
    assert_eq!(project_action(None), ProjectUpload::Ignore);
}

#[test]
fn workspace_wins_over_project() {
    let dirs = vec!["/x/A.xcodeproj".to_string(), "/x/sub".to_string(), "/x/sub/W.XCWORKSPACE".to_string()];
    assert_eq!(find_project_path(&dirs), Some("/x/sub/W.XCWORKSPACE".to_string()));
    let only = vec!["/x/sub".to_string(), "/x/A.xcodeproj".to_string(), "/x/B.xcodeproj".to_string()];
    assert_eq!(find_project_path(&only), Some("/x/A.xcodeproj".to_string()));
    assert_eq!(find_project_path(&vec![]), None);
}

#[test]
fn client_ip_prefers_forwarded_header() {
    assert_eq!(client_ip(Some(" 1.2.3.4 , 5.6.7.8"), Some("9.9.9.9")), Some("1.2.3.4".to_string()));
    assert_eq!(client_ip(Some("  ,5.6.7.8"), Some(" 9.9.9.9 ")), Some("9.9.9.9".to_string()));
    assert_eq!(client_ip(None, Some("  ")), None);
}

#[test]
fn rate_limiter_refuses_past_the_limit_until_the_window_ends() {
    let mut limiter = RateLimiter::new(2);
    assert!(limiter.check("ip", 0).is_ok());
    assert!(limiter.check("ip", 10).is_ok());
    assert_eq!(limiter.check("ip", 20), Err(RateLimitError::Exceeded));
    assert!(limiter.check("other", 20).is_ok());
    assert!(limiter.check("ip", 60_000).is_ok());
    let mut floor = RateLimiter::new(0);
    assert!(floor.check("k", 0).is_ok());
    assert!(floor.check("k", 1).is_err());
}

#[test]
fn login_codes_are_used_once() {
    let mut store = AuthStore::new(10, 24, 20, false);
    let code = store.start_login("a@b.c", "abcdef123456", 1_000);
    assert_eq!(code, "ABCDEF");
    assert!(matches!(store.verify_code("a@b.c", "WRONG1", "tok", 2_000), Err(AuthError::InvalidCode)));
    let token = store.verify_code("a@b.c", "ABCDEF", "tok", 2_000).unwrap();
    assert_eq!(token.email, "a@b.c");
    assert_eq!(token.expires_in_seconds, 24 * 3600);
    assert!(matches!(store.verify_code("a@b.c", "ABCDEF", "tok2", 3_000), Err(AuthError::InvalidCode)));
    assert_eq!(store.authorize("tok", 4_000), Ok("a@b.c".to_string()));
    assert_eq!(store.authorize("nope", 4_000), Err(AuthError::InvalidToken));
}

#[test]
fn expired_codes_and_states_are_refused() {
    let mut store = AuthStore::new(1, 1, 1, true);
    store.start_login("x", "zz", 0);
    assert!(matches!(store.verify_code("x", "ZZ", "t", 60_001), Err(AuthError::InvalidCode)));
    let state = store.start_oauth_state("s1", 0);
    assert_eq!(state, "s1");
    assert_eq!(store.consume_oauth_state("s1", 600_001), Err(AuthError::InvalidState));
    store.start_oauth_state("s2", 0);
    assert_eq!(store.consume_oauth_state("s2", 5), Ok(()));
    assert_eq!(store.consume_oauth_state("s2", 6), Err(AuthError::InvalidState));
    assert!(store.dev_mode());
}

#[test]
fn sessions_are_rate_limited_and_expire() {
    let mut store = AuthStore::new(10, 1, 1, false);
    store.issue_session("m", "t", 0).unwrap();
    assert_eq!(store.authorize("t", 1), Ok("m".to_string()));
    assert_eq!(store.authorize("t", 2), Err(AuthError::RateLimited));
    assert_eq!(store.authorize("t", 60_001), Ok("m".to_string()));
    assert_eq!(store.authorize("t", 3_600_001), Err(AuthError::InvalidToken));
    assert_eq!(store.authorize("t", 3_600_002), Err(AuthError::InvalidToken));
}

#[test]
fn backend_selection_names_the_unavailable_rule() {
    match build_rule_selection(ScanProfile::Basic, &vec!["nope".to_string()], &vec![]) {
        Err(ScanError::ScanFailed(m)) => assert_eq!(m, "Rule `NOPE` is not available for this profile"),
        Ok(_) => panic!("unavailable rule"),
    }
    let e = ScanError::ScanFailed("x".to_string());
    assert_eq!(e.message(), "scan failed: x");
}

#[test]
fn scan_without_targets_reports_nothing() {
    let service = ScanService::new();
    let mut request = empty_request();
    request.profile = Some(ScanProfileInput::Basic);
    let outcome = match service.run_scan_report(request, &vec![]) {
        Ok(o) => o,
        Err(_) => panic!("scan"),
    };
    assert!(outcome.report.results.is_empty());
    assert!(outcome.baseline.is_none());
}

#[test]
fn handoff_pieces_follow_the_layout() {
    let layout = AgentAssetLayout::from_output_dir("/tmp/h/.verifyos");
    assert_eq!(handoff_profile(None), "full");
    assert_eq!(handoff_profile(Some(ScanProfileInput::Basic)), "basic");
    let hints = handoff_hints(&layout, "App.ipa", "full");
    assert_eq!(hints.agent_pack_dir, Some("/tmp/h/.verifyos/.verifyos-agent".to_string()));
    let manifest = archive_manifest(&layout, "App.ipa", "full");
    assert_eq!(manifest.assets.len(), 9);
    assert_eq!(manifest.assets[8], "/tmp/h/.verifyos/report.json");
    let plan = build_repair_plan(&layout, &RepairPolicy::new(vec![], true, true));
    let text = repair_plan_markdown(Some("App.ipa"), &plan);
    assert!(text.starts_with("# verifyOS Repair Plan\n\n## Context\n\n- Source: `fresh-scan`\n- Scan artifact: `App.ipa`\n"));
    assert!(text.contains("- **pr-comment**\n  - Path: `/tmp/h/.verifyos/pr-comment.md`\n  - Reason: refresh sticky PR comment draft\n"));
}
