use verifyos_cli::report::agent_pack::{apply_agent_pack_baseline, build_agent_pack, render_agent_pack_markdown};
use verifyos_cli::report::data::{
    apply_baseline, finding_key, should_exit_with_failure, top_slow_rules, ArtifactCacheStats, CacheCounter,
    FailOn, ReportData, ReportItem, SlowRule, TimingMode,
};
use verifyos_cli::report::renderers::{
    format_cache_counter, format_cache_stats, format_slow_rules, markdown_cache_stats, render_markdown,
    render_table, sarif_level, table_cells,
};
use verifyos_cli::report::sarif::sarif_log;
use verifyos_cli::rules::base::{RuleCategory, RuleStatus, Severity};

fn item(id: &str, status: RuleStatus, severity: Severity, ms: u128) -> ReportItem {
    ReportItem {
        rule_id: id.to_string(),
        rule_name: format!("{id} name"),
        category: RuleCategory::Privacy,
        severity,
        status,
        message: if status == RuleStatus::Pass { None } else { Some(format!("{id} message")) },
        evidence: Some("ev".to_string()),
        recommendation: "do it".to_string(),
        duration_ms: ms,
    }
}

fn sample() -> ReportData {
    ReportData {
        ruleset_version: "1".to_string(),
        generated_at_unix: 7,
        total_duration_ms: 42,
        cache_stats: ArtifactCacheStats::empty(),
        slow_rules: vec![SlowRule { rule_id: "B".to_string(), rule_name: "B name".to_string(), duration_ms: 9 }],
        results: vec![
            item("A", RuleStatus::Pass, Severity::Info, 1),
            item("B", RuleStatus::Fail, Severity::Error, 9),
            item("C", RuleStatus::Error, Severity::Warning, 3),
        ],
    }
}

#[test]
fn sarif_log_holds_every_rule_and_the_failing_results() {
    let log = sarif_log(&sample());
    assert_eq!(log.rules.len(), 3);
    assert_eq!(log.results.len(), 2);
    assert_eq!(log.results[0].rule_id, "B");
    assert_eq!(log.results[0].level, "error");
    assert_eq!(log.results[1].level, "warning");
    assert_eq!(log.rules[0].full_description, "");
    assert_eq!(log.rules[1].category, "Privacy");
    assert_eq!(log.slow_rules.len(), 1);
    assert_eq!(sarif_level(Severity::Info), "note");
}

#[test]
fn markdown_counts_failures_and_lists_them() {
    let md = render_markdown(&sample(), Some(2), TimingMode::Off);
    assert!(md.starts_with("# verifyOS-cli Report\n\n- Total rules: 3\n- Failures: 2\n"));
    assert!(md.contains("- Baseline suppressed: 2\n"));
    assert!(md.contains("- **B name** (`B`)\n"));
    assert!(!md.contains("(`A`)"));
    let mut clean = sample();
    clean.results.truncate(1);
    assert!(render_markdown(&clean, None, TimingMode::Off).ends_with("## Findings\n\n- No failing findings.\n"));
}

#[test]
fn table_has_a_row_per_result_and_the_timing_summary() {
    let table = render_table(&sample(), TimingMode::Summary, false);
    assert!(table.contains("A name"));
    assert!(table.contains("WARNING"));
    assert!(table.contains("\nTotal scan time: 42 ms\nSlowest rules: B (9 ms)\n"));
    let plain = render_table(&sample(), TimingMode::Off, false);
    assert!(!plain.contains("Total scan time"));
    let cells = table_cells(&sample().results[1], TimingMode::Full, &vec!["a".to_string(), "b".to_string()]);
    assert_eq!(
        cells,
        vec!["B name", "Privacy", "ERROR", "FAIL", "a\nb", "9 ms"].into_iter().map(String::from).collect::<Vec<_>>()
    );
}

#[test]
fn long_messages_are_wrapped_in_the_table() {
    let mut report = sample();
    report.results[1].message = Some("word ".repeat(30));
    let table = render_table(&report, TimingMode::Off, false);
    assert!(!table.contains(&"word ".repeat(12)));
}

#[test]
fn cache_and_slow_rule_summaries() {
    let mut stats = ArtifactCacheStats::empty();
    assert_eq!(format_cache_stats(&stats), "");
    stats.usage_scan = CacheCounter { hits: 2, misses: 1 };
    assert_eq!(markdown_cache_stats(&stats), vec!["usage_scan h/m=2/1".to_string()]);
    assert_eq!(format_cache_stats(&stats), "\nCache activity: usage_scan h/m=2/1");
    assert_eq!(format_cache_counter("x", CacheCounter { hits: 0, misses: 5 }), "x h/m=0/5");
    assert_eq!(format_slow_rules(&vec![]), "");
}

#[test]
fn baseline_drops_known_failures_only() {
    let mut report = sample();
    let mut baseline = sample();
    baseline.results.remove(2);
    let summary = apply_baseline(&mut report, &baseline);
    assert_eq!(summary.suppressed, 1);
    let ids: Vec<&str> = report.results.iter().map(|r| r.rule_id.as_str()).collect();
    assert_eq!(ids, vec!["A", "C"]);
    let again = apply_baseline(&mut report, &baseline);
    assert_eq!(again.suppressed, 0);
    assert_eq!(finding_key(&sample().results[1]), "B|ev");
}

#[test]
fn failure_threshold_follows_fail_on() {
    let report = sample();
    assert!(should_exit_with_failure(&report, FailOn::Error));
    assert!(should_exit_with_failure(&report, FailOn::Warning));
    assert!(!should_exit_with_failure(&report, FailOn::Off));
    let slow = top_slow_rules(&report, 2);
    assert_eq!(slow.len(), 2);
    assert_eq!(slow[0].rule_id, "B");
    assert_eq!(slow[1].rule_id, "C");
}

#[test]
fn agent_pack_keeps_failures_and_applies_baseline() {
    let report = sample();
    let mut pack = build_agent_pack(&report);
    assert_eq!(pack.total_findings, 2);
    let md = render_agent_pack_markdown(&pack);
    assert!(md.starts_with("# verifyOS Agent Fix Pack\n\n- Generated at: `7`\n- Total findings: `2`\n\n"));
    apply_agent_pack_baseline(&mut pack, &report);
    assert_eq!(pack.total_findings, 0);
    assert!(pack.findings.is_empty());
}

#[test]
fn equal_sort_keys_keep_their_report_order() {
    let mut report = sample();
    let mut first = item("B", RuleStatus::Fail, Severity::Error, 9);
    first.rule_name = "first".to_string();
    first.message = Some("first message".to_string());
    let mut second = item("B", RuleStatus::Fail, Severity::Error, 9);
    second.rule_name = "second".to_string();
    second.message = Some("second message".to_string());
    report.results = vec![first, item("A", RuleStatus::Fail, Severity::Error, 9), second];
    let slow = top_slow_rules(&report, 3);
    let names: Vec<&str> = slow.iter().map(|s| s.rule_name.as_str()).collect();
    assert_eq!(names, vec!["A name", "first", "second"]);
    let pack = build_agent_pack(&report);
    let md = render_agent_pack_markdown(&pack);
    let a = md.find("first message").unwrap();
    let b = md.find("second message").unwrap();
    assert!(a < b);
}

#[test]
fn table_is_plain_unless_styled() {
    let plain = render_table(&sample(), TimingMode::Off, false);
    assert!(!plain.contains('\u{1b}'));
    let styled = render_table(&sample(), TimingMode::Off, true);
    assert!(styled.contains("FAIL"));
    assert!(styled.len() >= plain.len());
}
