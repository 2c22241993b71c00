use verifyos_cli::agent_assets::{
    build_repair_plan, handoff_manifest, relative_to_agents, AgentAssetLayout, RepairPolicy, RepairTarget,
};
use verifyos_cli::agents::CommandHints;
use verifyos_cli::commands::doctor::{render_doctor_report, repair_decision, DoctorOutput};
use verifyos_cli::commands::init::{build_command_hints, check_fix_prompt_source, should_write_agent_bundle};
use verifyos_cli::commands::listing::{render_rule_detail, render_rule_inventory, ListingOutput};
use verifyos_cli::commands::support::{
    agent_pack_format_key, build_rule_selection, fail_on_key, output_format_key, parse_agent_pack_format,
    parse_fail_on, parse_output_format, parse_profile, parse_timing_mode, profile_key, timing_key,
    AgentPackOutput, FailOnLevel, OutputFormat, TimingLevel,
};
use verifyos_cli::config::{resolve_config_path, resolve_runtime_config, CliOverrides, FileConfig};
use verifyos_cli::doctor::{
    build_plan_context, parse_repair_target, parse_repair_targets, plan_context_for, DoctorReport,
};
use verifyos_cli::profiles::{
    available_rule_ids, normalize_rule_id, profile_rules, register_rules, RuleSelection, ScanProfile,
};
use verifyos_cli::report::data::{AgentPackFormat, FailOn, TimingMode};

#[test]
fn option_keys_read_back() {
    for f in [OutputFormat::Table, OutputFormat::Json, OutputFormat::Sarif] {
        assert_eq!(parse_output_format(&output_format_key(f)), Ok(f));
    }
    assert_eq!(parse_profile(&profile_key(ScanProfile::Basic)), Ok(ScanProfile::Basic));
    assert_eq!(parse_fail_on(&fail_on_key(FailOnLevel::Warning)), Ok(FailOn::Warning));
    assert_eq!(parse_timing_mode(&timing_key(TimingLevel::Full)), Ok(TimingMode::Full));
    assert_eq!(parse_agent_pack_format(&agent_pack_format_key(AgentPackOutput::Bundle)), Ok(AgentPackFormat::Bundle));
}

#[test]
fn option_parsing_ignores_case_and_names_unknown_values() {
    assert_eq!(parse_output_format("SARIF"), Ok(OutputFormat::Sarif));
    assert_eq!(
        parse_output_format("xml"),
        Err("Unknown output format `xml`. Expected one of: table, json, sarif".to_string())
    );
    assert_eq!(parse_profile("nope"), Err("Unknown profile `nope`. Expected one of: basic, full".to_string()));
    assert_eq!(parse_timing_mode("OFF"), Ok(TimingMode::Off));
    assert!(parse_fail_on("never").is_err());
}

#[test]
fn rule_selection_normalizes_and_checks_requested_rules() {
    let available = available_rule_ids(ScanProfile::Basic);
    let first = available[0].clone();
    let requested = vec![format!("  {}  ", first.to_lowercase()), first.clone()];
    let sel = match build_rule_selection(ScanProfile::Basic, &requested, &vec![]) {
        Ok(s) => s,
        Err(e) => panic!("{e}"),
    };
    assert_eq!(sel.included, vec![first.clone()]);
    assert!(sel.excluded.is_empty());
    let err = match build_rule_selection(ScanProfile::Basic, &vec!["rule_nope".to_string()], &vec![]) {
        Err(e) => e,
        Ok(_) => panic!("unavailable rule"),
    };
    assert!(err.starts_with("Rule `RULE_NOPE` is not available for this profile via --include. Valid values: "));
    assert!(err.ends_with(&available.join(", ")));
    let skipped = match build_rule_selection(ScanProfile::Basic, &vec![], &vec!["x".to_string()]) {
        Err(e) => e,
        Ok(_) => panic!("unavailable rule"),
    };
    assert!(skipped.contains("via --exclude"));
}

#[test]
fn runtime_config_prefers_command_line_then_file_then_defaults() {
    let file = FileConfig {
        format: Some("json".to_string()),
        profile: Some("basic".to_string()),
        included: Some(vec!["A".to_string()]),
        ..FileConfig::default()
    };
    let cli = CliOverrides { format: Some("sarif".to_string()), ..CliOverrides::default() };
    let rc = resolve_runtime_config(file, cli);
    assert_eq!(rc.format, "sarif");
    assert_eq!(rc.profile, "basic");
    assert_eq!(rc.fail_on, "error");
    assert_eq!(rc.timings, "off");
    assert_eq!(rc.agent_pack_format, "json");
    assert_eq!(rc.included, vec!["A".to_string()]);
    assert!(rc.excluded.is_empty());
    assert_eq!(resolve_config_path(None, true), Some("verifyos.toml".to_string()));
    assert_eq!(resolve_config_path(None, false), None);
    assert_eq!(resolve_config_path(Some("x.toml"), false), Some("x.toml".to_string()));
}

#[test]
fn layout_places_assets_under_the_output_dir() {
    let layout = AgentAssetLayout::from_output_dir(".verifyos");
    assert_eq!(layout.agents_path, ".verifyos/AGENTS.md");
    assert_eq!(layout.agent_bundle_dir, ".verifyos/.verifyos-agent");
    assert_eq!(layout.agent_pack_json_path, ".verifyos/.verifyos-agent/agent-pack.json");
    assert_eq!(layout.next_steps_script_path, ".verifyos/.verifyos-agent/next-steps.sh");
    assert_eq!(layout.pr_comment_path, ".verifyos/pr-comment.md");
    let moved = layout.with_agents_path("AGENTS.md");
    assert_eq!(moved.agents_path, "AGENTS.md");
    assert_eq!(moved.fix_prompt_path, ".verifyos/fix-prompt.md");
}

#[test]
fn repair_plan_covers_what_the_policy_names() {
    let layout = AgentAssetLayout::from_output_dir("out");
    let all = build_repair_plan(&layout, &RepairPolicy::new(vec![], false, false));
    let targets: Vec<&str> = all.iter().map(|i| i.target.as_str()).collect();
    assert_eq!(targets, vec!["agents", "agent-bundle", "fix-prompt"]);
    let some = build_repair_plan(&layout, &RepairPolicy::new(vec![RepairTarget::PrComment], true, false));
    let targets: Vec<&str> = some.iter().map(|i| i.target.as_str()).collect();
    assert_eq!(targets, vec!["pr-brief", "pr-comment"]);
    assert_eq!(some[1].path, "out/pr-comment.md");
    assert_eq!(some[1].reason, "refresh sticky PR comment draft");
}

#[test]
fn relative_paths_are_taken_from_the_agents_directory() {
    assert_eq!(relative_to_agents("/r/AGENTS.md", "/r/.verifyos-agent/a.md"), ".verifyos-agent/a.md");
    assert_eq!(relative_to_agents("/r/AGENTS.md", "/other/a.md"), "/other/a.md");
    assert_eq!(relative_to_agents("AGENTS.md", "x/a.md"), "x/a.md");
    assert_eq!(relative_to_agents("/r/AGENTS.md", "/rx/a.md"), "/rx/a.md");
}

#[test]
fn repair_targets_parse_in_any_case() {
    assert_eq!(parse_repair_target("PR-Brief"), Ok(RepairTarget::PrBrief));
    assert_eq!(
        parse_repair_target("all"),
        Err("Unknown repair target `all`. Expected one of: agents, agent-bundle, fix-prompt, pr-brief, pr-comment".to_string())
    );
    assert_eq!(parse_repair_targets(None), Ok(vec![]));
    let list = vec!["agents".to_string(), "bogus".to_string()];
    assert!(parse_repair_targets(Some(&list)).is_err());
    assert_eq!(RepairTarget::AgentBundle.key(), "agent-bundle");
}

#[test]
fn plan_context_lists_targets_sorted() {
    let policy = RepairPolicy::new(vec![RepairTarget::PrComment, RepairTarget::Agents, RepairTarget::Agents], false, false);
    let ctx = build_plan_context(Some("app.ipa"), None, Some("out/report.json".to_string()), &policy);
    assert_eq!(ctx.source, "fresh-scan");
    assert_eq!(ctx.repair_targets, vec!["agents".to_string(), "pr-comment".to_string()]);
    let all = build_plan_context(None, None, None, &RepairPolicy::new(vec![], false, false));
    assert_eq!(all.source, "existing-assets");
    assert_eq!(all.repair_targets, vec!["all".to_string()]);
}

#[test]
fn repair_decision_prefers_command_line_hints() {
    let layout = AgentAssetLayout::from_output_dir("out");
    let inferred = CommandHints {
        app_path: Some("old.ipa".to_string()),
        baseline_path: Some("old.json".to_string()),
        agent_pack_dir: None,
        profile: Some("basic".to_string()),
        shell_script: false,
        fix_prompt_path: None,
        pr_brief_path: None,
    };
    let policy = RepairPolicy::new(vec![RepairTarget::Agents], false, false);
    let d = repair_decision(&layout, Some("new.ipa"), None, ScanProfile::Full, &policy, &inferred);
    assert_eq!(d.hints.app_path, Some("new.ipa".to_string()));
    assert_eq!(d.hints.baseline_path, Some("old.json".to_string()));
    assert_eq!(d.hints.profile, Some("full".to_string()));
    assert!(d.write_agents && !d.write_bundle && !d.write_pr_brief);
    let none = repair_decision(&layout, None, None, ScanProfile::Full, &policy, &inferred);
    assert_eq!(none.hints.profile, Some("basic".to_string()));
}

#[test]
fn doctor_report_refuses_sarif() {
    let report = DoctorReport { checks: vec![], repair_plan: vec![], plan_context: None };
    assert!(matches!(render_doctor_report(&report, OutputFormat::Json, false), Ok(DoctorOutput::Json)));
    assert!(render_doctor_report(&report, OutputFormat::Sarif, false).is_err());
    match render_doctor_report(&report, OutputFormat::Table, false) {
        Ok(DoctorOutput::Text(t)) => assert!(t.contains("Check")),
        _ => panic!("table"),
    }
}

#[test]
fn init_hints_and_decisions() {
    let hints = build_command_hints(Some("a.ipa"), None, "dir", "fp.md", ScanProfile::Basic, true, false);
    assert_eq!(hints.profile, Some("basic".to_string()));
    assert_eq!(hints.fix_prompt_path, None);
    assert!(should_write_agent_bundle(true, false, false, true));
    assert!(!should_write_agent_bundle(false, true, true, true));
    assert!(check_fix_prompt_source(true, false).is_err());
    assert!(check_fix_prompt_source(true, true).is_ok());
}

#[test]
fn handoff_manifest_lists_the_assets() {
    let layout = AgentAssetLayout::from_output_dir("out");
    let m = handoff_manifest(&layout, "app.ipa", Some("b.json"), "full");
    assert_eq!(m.assets.len(), 8);
    assert_eq!(m.assets[2], "out/repair-plan.md");
    assert_eq!(m.baseline_path, Some("b.json".to_string()));
}

#[test]
fn listings_refuse_sarif_and_unknown_rules() {
    assert!(render_rule_inventory(OutputFormat::Sarif).is_err());
    assert!(matches!(render_rule_inventory(OutputFormat::Table), Ok(ListingOutput::Text(_))));
    match render_rule_detail("rule_nope", OutputFormat::Table) {
        Err(e) => assert_eq!(e, "Unknown rule ID `rule_nope`"),
        Ok(_) => panic!("unknown rule"),
    }
    let id = available_rule_ids(ScanProfile::Full)[0].clone();
    assert!(matches!(render_rule_detail(&id, OutputFormat::Json), Ok(ListingOutput::Json(_))));
}

#[test]
fn normalizing_twice_changes_nothing() {
    let once = normalize_rule_id("  rule_ats_audit \t");
    assert_eq!(once, "RULE_ATS_AUDIT");
    assert_eq!(normalize_rule_id(&once), once);
}

#[test]
fn empty_selection_runs_the_whole_profile() {
    let all = register_rules(ScanProfile::Full, &RuleSelection { included: vec![], excluded: vec![] });
    assert_eq!(all, profile_rules(ScanProfile::Full));
    let first = all[0].id().to_string();
    let narrowed = register_rules(ScanProfile::Full, &RuleSelection { included: vec![first.clone()], excluded: vec![] });
    assert_eq!(narrowed.len(), 1);
    assert_eq!(narrowed[0].id(), first);
    let skipped = register_rules(ScanProfile::Full, &RuleSelection { included: vec![], excluded: vec![first.clone()] });
    assert_eq!(skipped.len(), all.len() - 1);
}

#[test]
fn plan_context_takes_the_newest_report_as_freshness_source() {
    let policy = RepairPolicy::new(vec![], false, false);
    let ctx = plan_context_for(Some("app.ipa"), Some("old.json"), "out", None, None, Some(5), Some(9), &policy);
    assert_eq!(ctx.freshness_source.as_deref(), Some("out/report.sarif"));
    assert_eq!(ctx.baseline_path.as_deref(), Some("old.json"));
    let named = plan_context_for(None, None, "out", Some("r.json"), Some(1), None, None, &policy);
    assert_eq!(named.freshness_source.as_deref(), Some("out/r.json"));
    assert_eq!(named.source, "existing-assets");
}
