//! What `voc init` decides: the command hints it writes and which of its
//! outputs a run produces.
use vstd::prelude::*;
use crate::agents::CommandHints;
use crate::commands::support::{parse_optional_cli_profile, parse_profile_spec, profile_key, profile_name};
use crate::config::{first_given, flag, flag_on, opt_text, pick_text, pick_text_or, text_or, InitDefaults};
use crate::doctor::opt_view;
use crate::profiles::ScanProfile;
use crate::text::owned;

verus! {

pub open spec fn opt_str(o: Option<&str>) -> Option<Seq<char>> {
    match o {
        Some(s) => Some(s@),
        None => None,
    }
}

/// The hints `init` writes: the scanned app and baseline, the agent bundle
/// directory, the profile, and the fix prompt when one is generated.
pub fn build_command_hints(
    from_scan: Option<&str>,
    baseline: Option<&str>,
    agent_pack_dir: &str,
    fix_prompt_path: &str,
    profile: ScanProfile,
    shell_script: bool,
    fix_prompt: bool,
) -> (r: CommandHints)
    ensures
        opt_view(r.app_path) == opt_str(from_scan),
        opt_view(r.baseline_path) == opt_str(baseline),
        opt_view(r.agent_pack_dir) == Some(agent_pack_dir@),
        opt_view(r.profile) == Some(profile_name(profile)),
        r.shell_script == shell_script,
        opt_view(r.fix_prompt_path) == if fix_prompt {
            Some(fix_prompt_path@)
        } else {
            None
        },
        r.pr_brief_path is None,
{
    CommandHints {
        app_path: match from_scan {
            Some(a) => Some(owned(a)),
            None => None,
        },
        baseline_path: match baseline {
            Some(b) => Some(owned(b)),
            None => None,
        },
        agent_pack_dir: Some(owned(agent_pack_dir)),
        profile: Some(profile_key(profile)),
        shell_script,
        fix_prompt_path: if fix_prompt {
            Some(owned(fix_prompt_path))
        } else {
            None
        },
        pr_brief_path: None,
    }
}

/// Whether `init` writes the agent bundle: when it scanned an app and a
/// bundle directory was named (on the command line or in the config) or a
/// shell script was asked for.
pub fn should_write_agent_bundle(has_pack: bool, dir_given: bool, default_dir_given: bool, shell_script: bool) -> (r:
    bool)
    ensures
        r == (has_pack && (dir_given || default_dir_given || shell_script)),
{
    has_pack && (dir_given || default_dir_given || shell_script)
}

/// Whether AGENTS.md gets command hints at all.
pub fn wants_command_hints(write_commands: bool, shell_script: bool, fix_prompt: bool) -> (r: bool)
    ensures
        r == (write_commands || shell_script || fix_prompt),
{
    write_commands || shell_script || fix_prompt
}

/// A fix prompt needs findings: it is refused without a scan.
pub fn check_fix_prompt_source(fix_prompt: bool, has_pack: bool) -> (r: Result<(), String>)
    ensures
        r is Err <==> (fix_prompt && !has_pack),
        r matches Err(e) ==> e@ == "`--fix-prompt` requires `--from-scan <path>` so voc has findings to summarize"@,
{
    if fix_prompt && !has_pack {
        Err(owned("`--fix-prompt` requires `--from-scan <path>` so voc has findings to summarize"))
    } else {
        Ok(())
    }
}

/// What `voc init` was given on the command line.
pub struct InitOverrides {
    pub output_dir: Option<String>,
    pub path: Option<String>,
    pub agent_pack_dir: Option<String>,
    pub write_commands: bool,
    pub shell_script: bool,
    pub fix_prompt: bool,
    pub profile: Option<ScanProfile>,
}

/// The settings `voc init` runs with.
pub struct InitOptions {
    pub profile: ScanProfile,
    /// The output root (`.` when neither names one).
    pub output_dir: String,
    /// AGENTS.md, when one is named; else the output root's.
    pub agents_path: Option<String>,
    /// The agent bundle directory, when one is named; else the output root's.
    pub agent_pack_dir: Option<String>,
    pub write_commands: bool,
    pub shell_script: bool,
    pub fix_prompt: bool,
}

pub struct InitView {
    pub profile: ScanProfile,
    pub output_dir: Seq<char>,
    pub agents_path: Option<Seq<char>>,
    pub agent_pack_dir: Option<Seq<char>>,
    pub write_commands: bool,
    pub shell_script: bool,
    pub fix_prompt: bool,
}

pub open spec fn init_view(o: InitOptions) -> InitView {
    InitView {
        profile: o.profile,
        output_dir: o.output_dir@,
        agents_path: opt_text(o.agents_path),
        agent_pack_dir: opt_text(o.agent_pack_dir),
        write_commands: o.write_commands,
        shell_script: o.shell_script,
        fix_prompt: o.fix_prompt,
    }
}

pub open spec fn init_defaults_or_none(f: Option<InitDefaults>) -> InitDefaults {
    match f {
        Some(d) => d,
        None => InitDefaults {
            output_dir: None,
            path: None,
            agent_pack_dir: None,
            write_commands: None,
            shell_script: None,
            fix_prompt: None,
            profile: None,
        },
    }
}

/// The command line over the `[init]` section over the defaults: each
/// setting from the command line when given there, else from the file; each
/// flag on when set on the command line or `true` in the file; the profile
/// `full` when neither names one. A profile in the file that names no profile
/// is refused, as reading it is.
pub open spec fn init_options_spec(cli: InitOverrides, file: Option<InitDefaults>) -> Result<InitView, Seq<char>> {
    let d = init_defaults_or_none(file);
    let file_profile: Result<Option<ScanProfile>, Seq<char>> = match d.profile {
        Some(v) => match parse_profile_spec(v@) {
            Ok(p) => Ok(Some(p)),
            Err(e) => Err(e),
        },
        None => Ok(None),
    };
    match file_profile {
        Err(e) => Err(e),
        Ok(fp) => Ok(
            InitView {
                profile: match cli.profile {
                    Some(p) => p,
                    None => match fp {
                        Some(p) => p,
                        None => ScanProfile::Full,
                    },
                },
                output_dir: text_or(first_given(cli.output_dir, d.output_dir), "."@),
                agents_path: opt_text(first_given(cli.path, d.path)),
                agent_pack_dir: opt_text(first_given(cli.agent_pack_dir, d.agent_pack_dir)),
                write_commands: flag_on(cli.write_commands, d.write_commands),
                shell_script: flag_on(cli.shell_script, d.shell_script),
                fix_prompt: flag_on(cli.fix_prompt, d.fix_prompt),
            },
        ),
    }
}

/// Merges the command line of `voc init` with the `[init]` section.
pub fn resolve_init_options(cli: InitOverrides, file: Option<InitDefaults>) -> (r: Result<InitOptions, String>)
    ensures
        match (r, init_options_spec(cli, file)) {
            (Ok(o), Ok(v)) => init_view(o) == v,
            (Err(e), Err(m)) => e@ == m,
            _ => false,
        },
{
    let d = match file {
        Some(d) => d,
        None => InitDefaults {
            output_dir: None,
            path: None,
            agent_pack_dir: None,
            write_commands: None,
            shell_script: None,
            fix_prompt: None,
            profile: None,
        },
    };
    let file_profile = match parse_optional_cli_profile(match &d.profile {
        Some(v) => Some(v.as_str()),
        None => None,
    }) {
        Ok(p) => p,
        Err(e) => {
            return Err(e);
        },
    };
    let profile = match cli.profile {
        Some(p) => p,
        None => match file_profile {
            Some(p) => p,
            None => ScanProfile::Full,
        },
    };
    Ok(
        InitOptions {
            profile,
            output_dir: pick_text_or(cli.output_dir, d.output_dir, "."),
            agents_path: pick_text(cli.path, d.path),
            agent_pack_dir: pick_text(cli.agent_pack_dir, d.agent_pack_dir),
            write_commands: flag(cli.write_commands, d.write_commands),
            shell_script: flag(cli.shell_script, d.shell_script),
            fix_prompt: flag(cli.fix_prompt, d.fix_prompt),
        },
    )
}

} // verus!
