use verifyos_cli::agents::{
    build_managed_block, merge_agents_content, render_fix_prompt, render_pr_brief, shell_quote, CommandHints,
    MANAGED_START,
};
use verifyos_cli::report::data::{AgentFinding, AgentPack};
use verifyos_cli::rules::base::{RuleCategory, Severity};

fn usage_finding() -> AgentFinding {
    AgentFinding {
        rule_id: "RULE_USAGE_DESCRIPTIONS".to_string(),
        rule_name: "Missing required usage description keys".to_string(),
        severity: Severity::Warning,
        category: RuleCategory::Privacy,
        priority: "medium".to_string(),
        message: "Missing NSCameraUsageDescription".to_string(),
        evidence: None,
        recommendation: "Add usage descriptions".to_string(),
        suggested_fix_scope: "Info.plist".to_string(),
        target_files: vec!["Info.plist".to_string()],
        patch_hint: "Update Info.plist".to_string(),
        why_it_fails_review: "Protected APIs require usage strings.".to_string(),
    }
}

fn sample_hints() -> CommandHints {
    CommandHints {
        app_path: Some("examples/bad_app.ipa".to_string()),
        baseline_path: Some("baseline.json".to_string()),
        agent_pack_dir: Some(".verifyos-agent".to_string()),
        profile: Some("basic".to_string()),
        shell_script: true,
        fix_prompt_path: Some(".verifyos-agent/fix-prompt.md".to_string()),
        pr_brief_path: Some(".verifyos-agent/pr-brief.md".to_string()),
    }
}

#[test]
fn merge_agents_content_creates_new_file_when_missing() {
    let block = build_managed_block(None, None, None);
    let merged = merge_agents_content(None, &block);

    assert!(merged.starts_with("# AGENTS.md"));
    assert!(merged.contains("## verifyOS-cli"));
    assert!(merged.contains("RULE_PRIVACY_MANIFEST"));
}

#[test]
fn merge_agents_content_replaces_existing_managed_block() {
    let block = build_managed_block(None, None, None);
    let existing = r#"# AGENTS.md

Custom note

<!-- verifyos-cli:agents:start -->
old block
<!-- verifyos-cli:agents:end -->

Keep this
"#;

    let merged = merge_agents_content(Some(existing), &block);

    assert!(merged.contains("Custom note"));
    assert!(merged.contains("Keep this"));
    assert!(!merged.contains("old block"));
    assert_eq!(merged.matches("<!-- verifyos-cli:agents:start -->").count(), 1);
}

#[test]
fn build_managed_block_includes_current_project_risks_when_scan_exists() {
    let pack = AgentPack { generated_at_unix: 0, total_findings: 1, findings: vec![usage_finding()] };

    let block = build_managed_block(Some(&pack), Some(".verifyos-agent"), None);

    assert!(block.contains("### Current Project Risks"));
    assert!(block.contains("#### Suggested Patch Order"));
    assert!(block.contains("`RULE_USAGE_DESCRIPTIONS`"));
    assert!(block.contains("Info.plist"));
    assert!(block.contains(".verifyos-agent/agent-pack.md"));
}

#[test]
fn build_managed_block_includes_next_commands_when_requested() {
    let hints = sample_hints();

    let block = build_managed_block(None, Some(".verifyos-agent"), Some(&hints));

    assert!(block.contains("### Next Commands"));
    assert!(block.contains("voc --app examples/bad_app.ipa --profile basic"));
    assert!(block.contains("--baseline baseline.json"));
    assert!(block.contains("--write-commands"));
    assert!(block.contains(".verifyos-agent/next-steps.sh"));
    assert!(block.contains("--shell-script"));
    assert!(block.contains(".verifyos-agent/fix-prompt.md"));
    assert!(block.contains(".verifyos-agent/pr-brief.md"));
}

#[test]
fn merge_keeps_text_around_the_managed_block() {
    let block = build_managed_block(None, None, None);
    let existing = format!("before\n{MANAGED_START}\nold\n<!-- verifyos-cli:agents:end -->\nafter\n");
    let merged = merge_agents_content(Some(&existing), &block);
    assert!(merged.starts_with("before\n"));
    assert!(merged.ends_with("\nafter\n"));
    assert!(merged.contains(&block));
}

#[test]
fn merge_appends_block_to_file_without_one() {
    let merged = merge_agents_content(Some("# Notes\n\nmine  \n"), "BLOCK");
    assert_eq!(merged, "# Notes\n\nmine\n\nBLOCK\n");
}

#[test]
fn merge_treats_blank_file_as_missing() {
    let merged = merge_agents_content(Some("   \n"), "BLOCK");
    assert_eq!(merged, "# AGENTS.md\n\nBLOCK");
}

#[test]
fn shell_quote_leaves_plain_words_and_quotes_others() {
    assert_eq!(shell_quote("examples/app.ipa"), "examples/app.ipa");
    assert_eq!(shell_quote("my app.ipa"), "'my app.ipa'");
    assert_eq!(shell_quote("it's"), "'it'\"'\"'s'");
}

#[test]
fn fix_prompt_lists_findings_and_validation_commands() {
    let pack = AgentPack { generated_at_unix: 0, total_findings: 1, findings: vec![usage_finding()] };
    let prompt = render_fix_prompt(&pack, &sample_hints());
    assert!(prompt.contains("RULE_USAGE_DESCRIPTIONS"));
    assert!(prompt.contains("voc --app examples/bad_app.ipa --profile basic"));
}

#[test]
fn pr_brief_names_the_scanned_app() {
    let pack = AgentPack { generated_at_unix: 0, total_findings: 1, findings: vec![usage_finding()] };
    let brief = render_pr_brief(&pack, &sample_hints());
    assert!(brief.contains("RULE_USAGE_DESCRIPTIONS"));
    assert!(brief.contains("examples/bad_app.ipa"));
}

#[test]
fn reinit_with_the_same_block_leaves_agents_unchanged() {
    let block = build_managed_block(None, None, None);
    let fresh = merge_agents_content(None, &block);
    assert_eq!(merge_agents_content(Some(&fresh), &block), fresh);
    let existing = "# AGENTS.md\n\nCustom note\n\n<!-- verifyos-cli:agents:start -->\nold\n<!-- verifyos-cli:agents:end -->\n\nKeep this\n";
    let once = merge_agents_content(Some(existing), &block);
    assert!(once.ends_with("<!-- verifyos-cli:agents:end -->\n\nKeep this\n"));
    assert_eq!(merge_agents_content(Some(&once), &block), once);
    let appended = merge_agents_content(Some("Notes\n"), &block);
    assert_eq!(merge_agents_content(Some(&appended), &block), appended);
}
