use verifyos_cli::agent_assets::RepairTarget;
use verifyos_cli::commands::doctor::{resolve_doctor_options, DoctorOverrides};
use verifyos_cli::commands::init::{resolve_init_options, InitOverrides};
use verifyos_cli::commands::support::OutputFormat;
use verifyos_cli::config::{DoctorDefaults, InitDefaults};
use verifyos_cli::profiles::ScanProfile;

fn no_init_flags() -> InitOverrides {
    InitOverrides {
        output_dir: None,
        path: None,
        agent_pack_dir: None,
        write_commands: false,
        shell_script: false,
        fix_prompt: false,
        profile: None,
    }
}

fn no_doctor_flags() -> DoctorOverrides {
    DoctorOverrides {
        output_dir: None,
        agents: None,
        format: None,
        profile: None,
        fix: false,
        repair: vec![],
        freshness_against: None,
        open_pr_brief: false,
        open_pr_comment: false,
    }
}

#[test]
fn init_section_fills_what_the_command_line_leaves_out() {
    let file = InitDefaults {
        output_dir: Some(".verifyos".to_string()),
        write_commands: Some(true),
        shell_script: Some(false),
        profile: Some("basic".to_string()),
        ..InitDefaults::default()
    };
    let o = match resolve_init_options(no_init_flags(), Some(file.clone())) {
        Ok(o) => o,
        Err(e) => panic!("{e}"),
    };
    assert_eq!(o.output_dir, ".verifyos");
    assert_eq!(o.profile, ScanProfile::Basic);
    assert!(o.write_commands && !o.shell_script && !o.fix_prompt);
    let cli = InitOverrides { output_dir: Some("out".to_string()), shell_script: true, profile: Some(ScanProfile::Full), ..no_init_flags() };
    let o = match resolve_init_options(cli, Some(file)) {
        Ok(o) => o,
        Err(e) => panic!("{e}"),
    };
    assert_eq!(o.output_dir, "out");
    assert_eq!(o.profile, ScanProfile::Full);
    assert!(o.shell_script);
    let plain = match resolve_init_options(no_init_flags(), None) {
        Ok(o) => o,
        Err(e) => panic!("{e}"),
    };
    assert_eq!(plain.output_dir, ".");
    assert_eq!(plain.profile, ScanProfile::Full);
    let bad = InitDefaults { profile: Some("huge".to_string()), ..InitDefaults::default() };
    assert!(resolve_init_options(no_init_flags(), Some(bad)).is_err());
}

#[test]
fn doctor_section_fills_what_the_command_line_leaves_out() {
    let file = DoctorDefaults {
        output_dir: Some(".verifyos".to_string()),
        repair: Some(vec!["pr-comment".to_string()]),
        freshness_against: Some("report.json".to_string()),
        open_pr_brief: Some(true),
        format: Some("json".to_string()),
        ..DoctorDefaults::default()
    };
    let o = match resolve_doctor_options(no_doctor_flags(), Some(file.clone())) {
        Ok(o) => o,
        Err(e) => panic!("{e}"),
    };
    assert_eq!(o.output_dir, ".verifyos");
    assert_eq!(o.repair_targets, vec![RepairTarget::PrComment]);
    assert!(o.fix);
    assert!(o.open_pr_brief && !o.open_pr_comment);
    assert_eq!(o.freshness_against.as_deref(), Some("report.json"));
    assert_eq!(o.format, OutputFormat::Json);
    let cli = DoctorOverrides { repair: vec![RepairTarget::Agents], format: Some(OutputFormat::Table), ..no_doctor_flags() };
    let o = match resolve_doctor_options(cli, Some(file)) {
        Ok(o) => o,
        Err(e) => panic!("{e}"),
    };
    assert_eq!(o.repair_targets, vec![RepairTarget::Agents]);
    assert_eq!(o.format, OutputFormat::Table);
    let bad = DoctorDefaults { repair: Some(vec!["nope".to_string()]), ..DoctorDefaults::default() };
    assert!(resolve_doctor_options(no_doctor_flags(), Some(bad)).is_err());
    let none = match resolve_doctor_options(no_doctor_flags(), None) {
        Ok(o) => o,
        Err(e) => panic!("{e}"),
    };
    assert!(!none.fix);
    assert_eq!(none.output_dir, ".");
}
