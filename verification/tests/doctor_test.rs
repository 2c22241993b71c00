use verifyos_cli::agent_assets::AgentAssetLayout;
use verifyos_cli::ci_comment::{load_doctor_summary, render_workflow_pr_comment, with_marker};
use verifyos_cli::doctor::{
    check_agents_presence, check_asset_freshness, check_config, check_next_commands,
    check_next_steps_script, check_referenced_assets, extract_backticked_paths, extract_script_voc_commands,
    extract_voc_commands, freshness_targets, latest_report_artifact, next_steps_script_path,
    referenced_asset_paths, resolve_freshness_source, resolve_reference, run_doctor, DoctorCheck, DoctorFacts,
    DoctorStatus, ScriptRead,
};

fn facts(agents: &str, contents: Option<&str>) -> DoctorFacts {
    let refs = contents.map(|c| referenced_asset_paths(c, agents)).unwrap_or_default();
    let targets = contents.map(|c| freshness_targets(c, agents)).unwrap_or_default();
    DoctorFacts {
        config_path: None,
        config_error: None,
        agents_path: agents.to_string(),
        agents_contents: contents.map(|c| c.to_string()),
        referenced_exist: vec![false; refs.len()],
        freshness_source: None,
        target_modified: vec![None; targets.len()],
        script: ScriptRead::Missing,
    }
}

#[test]
fn doctor_warns_when_agents_is_missing() {
    let layout = AgentAssetLayout::from_output_dir("/tmp/project");
    let report = run_doctor(&facts(&layout.agents_path, None));
    assert_eq!(report.checks.len(), 2);
    assert_eq!(report.checks[1].status, DoctorStatus::Warn);
    assert_eq!(report.checks[1].detail, "Missing /tmp/project/AGENTS.md");
}

#[test]
fn doctor_fails_when_referenced_assets_are_missing() {
    let layout = AgentAssetLayout::from_output_dir("/tmp/project");
    let agents = "### Current Project Risks\n\n- Agent bundle: `.verifyos-agent/agent-pack.json` and `.verifyos-agent/agent-pack.md`\n";
    let report = run_doctor(&facts(&layout.agents_path, Some(agents)));
    assert!(report.has_failures());
    assert_eq!(report.checks[2].status, DoctorStatus::Fail);
    assert_eq!(
        report.checks[2].detail,
        "Missing assets: /tmp/project/.verifyos-agent/agent-pack.json, /tmp/project/.verifyos-agent/agent-pack.md"
    );
}

#[test]
fn doctor_warns_when_assets_are_older_than_report() {
    let agents_path = "/tmp/project/AGENTS.md";
    let contents = "## verifyOS-cli\n\n- Shortcut script: `.verifyos-agent/next-steps.sh`\n";
    let targets = freshness_targets(contents, agents_path);
    assert_eq!(targets, vec![agents_path.to_string(), "/tmp/project/.verifyos-agent/next-steps.sh".to_string()]);
    let source = latest_report_artifact("/tmp/project", Some(20), None);
    let check = check_asset_freshness(&source, &targets, &vec![Some(10), Some(10)]);
    assert_eq!(check.name, "Asset freshness");
    assert_eq!(check.status, DoctorStatus::Warn);
    assert!(check.detail.contains("report.json"));
}

#[test]
fn doctor_passes_when_assets_are_fresh_against_report() {
    let agents_path = "/tmp/project/AGENTS.md";
    let contents = "## verifyOS-cli\n\n- Shortcut script: `.verifyos-agent/next-steps.sh`\n";
    let targets = freshness_targets(contents, agents_path);
    let source = latest_report_artifact("/tmp/project", None, Some(10));
    let check = check_asset_freshness(&source, &targets, &vec![Some(20), Some(20)]);
    assert_eq!(check.name, "Asset freshness");
    assert_eq!(check.status, DoctorStatus::Pass);
    assert_eq!(check.detail, "Generated assets are at least as new as /tmp/project/report.sarif");
}

#[test]
fn doctor_fails_when_next_steps_script_drifts_from_agents_block() {
    let agents = "## verifyOS-cli\n\n- Shortcut script: `.verifyos-agent/next-steps.sh`\n- PR comment draft: `pr-comment.md`\n";
    let script = "#!/usr/bin/env bash\nset -euo pipefail\nvoc --app path/to/app.ipa --profile basic\nvoc doctor --output-dir .verifyos --fix --from-scan path/to/app.ipa --profile basic\n";
    let check = check_next_steps_script(agents, "/tmp/p/AGENTS.md", &ScriptRead::Text(script.to_string()));
    assert_eq!(check.status, DoctorStatus::Fail);
    assert!(check.detail.contains("--open-pr-comment"));
}

#[test]
fn doctor_passes_when_next_steps_script_matches_agents_block() {
    let agents = "## verifyOS-cli\n\n- Shortcut script: `.verifyos-agent/next-steps.sh`\n- PR brief: `pr-brief.md`\n- PR comment draft: `pr-comment.md`\n";
    let script = "#!/usr/bin/env bash\nset -euo pipefail\nvoc --app path/to/app.ipa --profile basic\nvoc doctor --output-dir .verifyos --fix --from-scan path/to/app.ipa --profile basic --open-pr-brief --open-pr-comment\n";
    let check = check_next_steps_script(agents, "/tmp/p/AGENTS.md", &ScriptRead::Text(script.to_string()));
    assert_eq!(check.status, DoctorStatus::Pass);
    assert_eq!(check.detail, "Shortcut script looks valid: /tmp/p/.verifyos-agent/next-steps.sh");
}

#[test]
fn next_steps_check_reports_missing_and_unreadable_scripts() {
    let agents = "- Shortcut script: `.verifyos-agent/next-steps.sh`\n";
    let missing = check_next_steps_script(agents, "AGENTS.md", &ScriptRead::Missing);
    assert_eq!(missing.detail, "Missing script: .verifyos-agent/next-steps.sh");
    let unreadable = check_next_steps_script(agents, "AGENTS.md", &ScriptRead::Unreadable("denied".to_string()));
    assert_eq!(unreadable.detail, "Failed to read .verifyos-agent/next-steps.sh: denied");
    let empty = check_next_steps_script(agents, "AGENTS.md", &ScriptRead::Text("echo hi\n".to_string()));
    assert_eq!(empty.detail, "No voc commands found in .verifyos-agent/next-steps.sh");
    let none = check_next_steps_script("no scripts here", "AGENTS.md", &ScriptRead::Missing);
    assert_eq!(none.status, DoctorStatus::Warn);
}

#[test]
fn backticked_paths_keep_only_asset_names() {
    let found = extract_backticked_paths("`a.json` `b.txt` `c.md` `d.sh` `unclosed.md");
    assert_eq!(found, vec!["a.json".to_string(), "c.md".to_string(), "d.sh".to_string()]);
    assert_eq!(next_steps_script_path("`x.md` `run.sh`", "/r/AGENTS.md"), Some("/r/run.sh".to_string()));
}

#[test]
fn references_resolve_against_the_agents_directory() {
    assert_eq!(resolve_reference("/r/AGENTS.md", "x/y.md"), "/r/x/y.md");
    assert_eq!(resolve_reference("/r/AGENTS.md", "/abs/y.md"), "/abs/y.md");
    assert_eq!(resolve_reference("AGENTS.md", "y.md"), "y.md");
}

#[test]
fn voc_commands_come_from_fenced_blocks_only() {
    let text = "voc outside\n```bash\nvoc --app a.ipa\n  voc doctor  \nls\n```\nvoc after\n";
    assert_eq!(extract_voc_commands(text), vec!["voc --app a.ipa".to_string(), "voc doctor".to_string()]);
    assert_eq!(
        extract_script_voc_commands("  voc a \nvocx\nvoc b"),
        vec!["voc a".to_string(), "voc b".to_string()]
    );
    assert_eq!(check_next_commands(text).status, DoctorStatus::Pass);
    assert_eq!(check_next_commands("nothing").status, DoctorStatus::Warn);
    let malformed = check_next_commands("```\n  voc   \n```\n");
    assert_eq!(malformed.status, DoctorStatus::Fail);
    assert_eq!(malformed.detail, "Malformed commands: voc");
}

#[test]
fn config_and_presence_checks_report_their_inputs() {
    assert_eq!(check_config(Some("v.toml"), None).detail, "Config is valid: v.toml");
    assert_eq!(check_config(None, None).detail, "Config is valid or not present");
    let failed = check_config(None, Some("bad toml".to_string()));
    assert_eq!(failed.status, DoctorStatus::Fail);
    assert_eq!(failed.detail, "bad toml");
    assert_eq!(check_agents_presence("A.md", true).detail, "Found A.md");
}

#[test]
fn referenced_assets_pass_when_all_exist() {
    let contents = "`a.md` and `b.json`";
    let check = check_referenced_assets(contents, "/r/AGENTS.md", &vec![true, true]);
    assert_eq!(check.status, DoctorStatus::Pass);
    let none = check_referenced_assets("nothing", "/r/AGENTS.md", &vec![]);
    assert_eq!(none.status, DoctorStatus::Warn);
}

#[test]
fn freshness_source_prefers_the_named_report() {
    let named = resolve_freshness_source("/out", Some("r.json"), Some(5), Some(9), Some(9));
    assert_eq!(named, Some(("/out/r.json".to_string(), 5)));
    let unknown = resolve_freshness_source("/out", Some("r.json"), None, Some(9), None);
    assert_eq!(unknown, None);
    let tie = resolve_freshness_source("/out", None, None, Some(9), Some(9));
    assert_eq!(tie, Some(("/out/report.sarif".to_string(), 9)));
    let json = resolve_freshness_source("/out", None, None, Some(10), Some(9));
    assert_eq!(json, Some(("/out/report.json".to_string(), 10)));
}

#[test]
fn workflow_pr_comment_prefers_existing_file() {
    let body = render_workflow_pr_comment(
        "/out",
        1,
        0,
        true,
        Some(Ok("## verifyOS review summary\n".to_string())),
        0,
        "doctor report missing",
    )
    .unwrap();

    assert!(body.contains("<!-- voc-analysis-comment -->"));
    assert!(body.contains("## verifyOS review summary"));
    assert!(!body.contains("## voc analysis"));
}

#[test]
fn workflow_pr_comment_falls_back_to_doctor_and_agent_pack() {
    let checks = vec![DoctorCheck { name: "Config".to_string(), status: DoctorStatus::Pass, detail: "ok".to_string() }];
    let summary = load_doctor_summary(Some(&checks));
    let body = render_workflow_pr_comment("/out", 1, 0, false, None, 3, &summary).unwrap();

    assert!(body.contains("## voc analysis"));
    assert!(body.contains("Findings: **3**"));
    assert!(body.contains("Scan exit code: `1`"));
    assert!(body.contains("Doctor exit code: `0`"));
    assert!(body.contains("CONFIG: PASS"));
}

#[test]
fn workflow_comment_reports_read_errors_and_missing_doctor() {
    let err = render_workflow_pr_comment("/out", 0, 0, false, Some(Err("denied".to_string())), 0, "x");
    assert_eq!(err, Err("denied".to_string()));
    assert_eq!(load_doctor_summary(None), "doctor report missing");
    assert_eq!(load_doctor_summary(Some(&vec![])), "doctor report missing");
    assert_eq!(with_marker("b", false), "b");
    let full = render_workflow_pr_comment("/out", -2, 1, false, None, 0, "S").unwrap();
    assert_eq!(
        full,
        "## voc analysis\n\n- Findings: **0**\n- Scan exit code: `-2`\n- Doctor exit code: `1`\n- Assets uploaded from: `/out`\n- Includes: `report.sarif`, `AGENTS.md`, `fix-prompt.md`, `pr-brief.md`, `pr-comment.md`, `.verifyos-agent/`\n- Doctor summary: S"
    );
}
