//! Settings from `verifyos.toml` merged with the command line: a flag given on
//! the command line wins over the file, and the file over the defaults.
use vstd::prelude::*;
use crate::text::owned;

verus! {

pub const DEFAULT_CONFIG_FILE: &'static str = "verifyos.toml";

/// The settings a config file may hold.
#[derive(Clone, Debug, Default)]
pub struct FileConfig {
    pub format: Option<String>,
    pub baseline: Option<String>,
    pub md_out: Option<String>,
    pub agent_pack: Option<String>,
    pub agent_pack_format: Option<String>,
    pub profile: Option<String>,
    pub fail_on: Option<String>,
    pub timings: Option<String>,
    pub included: Option<Vec<String>>,
    pub excluded: Option<Vec<String>>,
    /// The `[init]` section.
    pub init: Option<InitDefaults>,
    /// The `[doctor]` section.
    pub doctor: Option<DoctorDefaults>,
}

/// Defaults for `voc init` from the `[init]` section.
#[derive(Clone, Debug, Default)]
pub struct InitDefaults {
    pub output_dir: Option<String>,
    pub path: Option<String>,
    pub agent_pack_dir: Option<String>,
    pub write_commands: Option<bool>,
    pub shell_script: Option<bool>,
    pub fix_prompt: Option<bool>,
    pub profile: Option<String>,
}

/// Defaults for `voc doctor` from the `[doctor]` section.
#[derive(Clone, Debug, Default)]
pub struct DoctorDefaults {
    pub output_dir: Option<String>,
    pub agents: Option<String>,
    pub format: Option<String>,
    pub profile: Option<String>,
    pub fix: Option<bool>,
    pub repair: Option<Vec<String>>,
    pub freshness_against: Option<String>,
    pub open_pr_brief: Option<bool>,
    pub open_pr_comment: Option<bool>,
}

/// A flag set on the command line or to `true` in the file.
pub open spec fn flag_on(cli: bool, file: Option<bool>) -> bool {
    cli || file == Some(true)
}

pub fn flag(cli: bool, file: Option<bool>) -> (r: bool)
    ensures
        r == flag_on(cli, file),
{
    cli || match file {
        Some(b) => b,
        None => false,
    }
}

/// The first of two optional texts that is given.
pub fn pick_text(cli: Option<String>, file: Option<String>) -> (r: Option<String>)
    ensures
        opt_text(r) == opt_text(first_given(cli, file)),
{
    pick(cli, file)
}

/// The first given text, or a default.
pub fn pick_text_or(cli: Option<String>, file: Option<String>, default: &str) -> (r: String)
    ensures
        r@ == text_or(first_given(cli, file), default@),
{
    pick_or(cli, file, default)
}

/// The settings given on the command line.
#[derive(Clone, Debug, Default)]
pub struct CliOverrides {
    pub format: Option<String>,
    pub baseline: Option<String>,
    pub md_out: Option<String>,
    pub agent_pack: Option<String>,
    pub agent_pack_format: Option<String>,
    pub profile: Option<String>,
    pub fail_on: Option<String>,
    pub timings: Option<String>,
    pub included: Vec<String>,
    pub excluded: Vec<String>,
}

/// The settings a scan runs with.
#[derive(Clone, Debug)]
pub struct RuntimeConfig {
    pub format: String,
    pub baseline: Option<String>,
    pub md_out: Option<String>,
    pub agent_pack: Option<String>,
    pub agent_pack_format: String,
    pub profile: String,
    pub fail_on: String,
    pub timings: String,
    pub included: Vec<String>,
    pub excluded: Vec<String>,
}

/// The first of two optional settings that is given.
pub open spec fn first_given<T>(a: Option<T>, b: Option<T>) -> Option<T> {
    match a {
        Some(x) => Some(x),
        None => b,
    }
}

pub open spec fn text_or(o: Option<String>, d: Seq<char>) -> Seq<char> {
    match o {
        Some(s) => s@,
        None => d,
    }
}

pub open spec fn list_or(cli: Vec<String>, file: Option<Vec<String>>) -> Seq<String> {
    if cli@.len() > 0 {
        cli@
    } else {
        match file {
            Some(v) => v@,
            None => Seq::empty(),
        }
    }
}

pub open spec fn opt_text(o: Option<String>) -> Option<Seq<char>> {
    match o {
        Some(s) => Some(s@),
        None => None,
    }
}

fn pick(cli: Option<String>, file: Option<String>) -> (r: Option<String>)
    ensures
        r == first_given(cli, file),
{
    match cli {
        Some(c) => Some(c),
        None => file,
    }
}

fn pick_or(cli: Option<String>, file: Option<String>, default: &str) -> (r: String)
    ensures
        r@ == text_or(first_given(cli, file), default@),
{
    match pick(cli, file) {
        Some(s) => s,
        None => owned(default),
    }
}

fn pick_list(cli: Vec<String>, file: Option<Vec<String>>) -> (r: Vec<String>)
    ensures
        r@ == list_or(cli, file),
{
    if cli.len() > 0 {
        cli
    } else {
        match file {
            Some(v) => v,
            None => Vec::new(),
        }
    }
}

/// Merges the file's settings with the command line's.
pub fn resolve_runtime_config(file: FileConfig, cli: CliOverrides) -> (r: RuntimeConfig)
    ensures
        r.format@ == text_or(first_given(cli.format, file.format), "table"@),
        r.baseline == first_given(cli.baseline, file.baseline),
        r.md_out == first_given(cli.md_out, file.md_out),
        r.agent_pack == first_given(cli.agent_pack, file.agent_pack),
        r.agent_pack_format@ == text_or(
            first_given(cli.agent_pack_format, file.agent_pack_format),
            "json"@,
        ),
        r.profile@ == text_or(first_given(cli.profile, file.profile), "full"@),
        r.fail_on@ == text_or(first_given(cli.fail_on, file.fail_on), "error"@),
        r.timings@ == text_or(first_given(cli.timings, file.timings), "off"@),
        r.included@ == list_or(cli.included, file.included),
        r.excluded@ == list_or(cli.excluded, file.excluded),
{
    RuntimeConfig {
        format: pick_or(cli.format, file.format, "table"),
        baseline: pick(cli.baseline, file.baseline),
        md_out: pick(cli.md_out, file.md_out),
        agent_pack: pick(cli.agent_pack, file.agent_pack),
        agent_pack_format: pick_or(cli.agent_pack_format, file.agent_pack_format, "json"),
        profile: pick_or(cli.profile, file.profile, "full"),
        fail_on: pick_or(cli.fail_on, file.fail_on, "error"),
        timings: pick_or(cli.timings, file.timings, "off"),
        included: pick_list(cli.included, file.included),
        excluded: pick_list(cli.excluded, file.excluded),
    }
}

/// The config file to read: the one named on the command line, else
/// `verifyos.toml` in the working directory when it exists.
pub fn resolve_config_path(config_path: Option<&str>, default_exists: bool) -> (r: Option<String>)
    ensures
        match config_path {
            Some(p) => opt_text(r) == Some(p@),
            None => if default_exists {
                opt_text(r) == Some(DEFAULT_CONFIG_FILE@)
            } else {
                r is None
            },
        },
{
    match config_path {
        Some(p) => Some(owned(p)),
        None => if default_exists {
            Some(owned(DEFAULT_CONFIG_FILE))
        } else {
            None
        },
    }
}

} // verus!
