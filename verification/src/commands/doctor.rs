//! What `voc doctor` decides: which assets a repair rewrites with which
//! command hints, and how its report reads in a terminal.
use vstd::prelude::*;
use crate::agent_assets::{AgentAssetLayout, RepairPolicy, RepairTarget, plan_view};
use crate::agents::CommandHints;
use crate::commands::support::{
    parse_optional_cli_profile, parse_optional_output_format, parse_output_format_spec, parse_profile_spec,
    profile_key, profile_name, OutputFormat,
};
use crate::config::{first_given, flag, flag_on, opt_text, pick_text, pick_text_or, text_or, DoctorDefaults};
use crate::doctor::{parse_repair_target, parse_repair_target_spec};
use crate::commands::support::result_view;
use crate::doctor::{checks_view, opt_view, DoctorCheck, DoctorReport, DoctorStatus, CheckView};
use crate::profiles::ScanProfile;
use crate::tables::{draw_table, rows_view, table_text, CellColor, TableFrame};
use crate::text::{concat, join, owned, push_str, seq_join, views};

verus! {

/// The hint written when no app is known.
pub const APP_PLACEHOLDER: &'static str = "<path-to-.ipa-or-.app>";

/// What a repair writes: the command hints, and which assets it rewrites.
pub struct RepairDecision {
    pub hints: CommandHints,
    pub write_agents: bool,
    pub write_bundle: bool,
    pub write_fix_prompt: bool,
    pub write_pr_brief: bool,
    pub write_pr_comment: bool,
}

pub open spec fn opt_str(o: Option<&str>) -> Option<Seq<char>> {
    match o {
        Some(s) => Some(s@),
        None => None,
    }
}

pub open spec fn first_of(a: Option<Seq<char>>, b: Option<Seq<char>>) -> Option<Seq<char>> {
    match a {
        Some(x) => Some(x),
        None => b,
    }
}

/// Whether the PR brief is part of a repair: asked for, already referenced
/// by the existing hints, or a target of the repair.
pub open spec fn opens_brief(policy: RepairPolicy, inferred: CommandHints) -> bool {
    policy.brief_flag() || inferred.pr_brief_path is Some || policy.repairs_all_spec() || policy.names(
        RepairTarget::PrBrief,
    )
}

/// Whether the PR comment is part of a repair.
pub open spec fn opens_comment(policy: RepairPolicy) -> bool {
    policy.comment_flag() || policy.repairs_all_spec() || policy.names(RepairTarget::PrComment)
}

fn opt_owned(o: Option<&str>) -> (r: Option<String>)
    ensures
        opt_view(r) == opt_str(o),
{
    match o {
        Some(s) => Some(owned(s)),
        None => None,
    }
}

fn copy_opt(o: &Option<String>) -> (r: Option<String>)
    ensures
        opt_view(r) == opt_view(*o),
{
    match o {
        Some(s) => Some(owned(s.as_str())),
        None => None,
    }
}

/// Decides a repair of the assets under `layout`: the hints prefer what the
/// command line gives (the scanned app, its baseline and profile) over the
/// hints already written (`inferred`), and each asset is rewritten when the
/// policy covers it.
pub fn repair_decision(
    layout: &AgentAssetLayout,
    from_scan: Option<&str>,
    baseline_path: Option<&str>,
    profile: ScanProfile,
    policy: &RepairPolicy,
    inferred: &CommandHints,
) -> (r: RepairDecision)
    requires
        policy.wf(),
    ensures
        opt_view(r.hints.app_path) == Some(
            match first_of(opt_str(from_scan), opt_view(inferred.app_path)) {
                Some(a) => a,
                None => APP_PLACEHOLDER@,
            },
        ),
        opt_view(r.hints.baseline_path) == first_of(opt_str(baseline_path), opt_view(inferred.baseline_path)),
        opt_view(r.hints.agent_pack_dir) == Some(layout.agent_bundle_dir@),
        opt_view(r.hints.profile) == Some(
            if from_scan is Some {
                profile_name(profile)
            } else {
                match opt_view(inferred.profile) {
                    Some(p) => p,
                    None => profile_name(profile),
                }
            },
        ),
        r.hints.shell_script,
        opt_view(r.hints.fix_prompt_path) == Some(layout.fix_prompt_path@),
        opt_view(r.hints.pr_brief_path) == if opens_brief(*policy, *inferred) {
            Some(layout.pr_brief_path@)
        } else {
            None
        },
        r.write_agents == (policy.repairs_all_spec() || policy.names(RepairTarget::Agents)),
        r.write_bundle == (policy.repairs_all_spec() || policy.names(RepairTarget::AgentBundle)),
        r.write_fix_prompt == (policy.repairs_all_spec() || policy.names(RepairTarget::FixPrompt)),
        r.write_pr_brief == ((policy.repairs_all_spec() || policy.names(RepairTarget::PrBrief))
            && opens_brief(*policy, *inferred)),
        r.write_pr_comment == ((policy.repairs_all_spec() || policy.names(RepairTarget::PrComment))
            && opens_comment(*policy)),
{
    let open_brief = policy.opens_pr_brief() || inferred.pr_brief_path.is_some()
        || policy.should_repair_pr_brief();
    let open_comment = policy.opens_pr_comment() || policy.should_repair_pr_comment();
    let app_path = match from_scan {
        Some(a) => owned(a),
        None => match &inferred.app_path {
            Some(a) => owned(a.as_str()),
            None => owned(APP_PLACEHOLDER),
        },
    };
    let baseline = match baseline_path {
        Some(b) => Some(owned(b)),
        None => copy_opt(&inferred.baseline_path),
    };
    let profile_text = if from_scan.is_some() {
        profile_key(profile)
    } else {
        match &inferred.profile {
            Some(p) => owned(p.as_str()),
            None => profile_key(profile),
        }
    };
    let hints = CommandHints {
        app_path: Some(app_path),
        baseline_path: baseline,
        agent_pack_dir: Some(owned(layout.agent_bundle_dir.as_str())),
        profile: Some(profile_text),
        shell_script: true,
        fix_prompt_path: Some(owned(layout.fix_prompt_path.as_str())),
        pr_brief_path: if open_brief {
            Some(owned(layout.pr_brief_path.as_str()))
        } else {
            None
        },
    };
    RepairDecision {
        hints,
        write_agents: policy.should_repair_agents(),
        write_bundle: policy.should_repair_bundle(),
        write_fix_prompt: policy.should_repair_fix_prompt(),
        write_pr_brief: policy.should_repair_pr_brief() && open_brief,
        write_pr_comment: policy.should_repair_pr_comment() && open_comment,
    }
}

/// A check's status as the doctor's table prints it.
pub open spec fn doctor_status_cell(s: DoctorStatus) -> Seq<char> {
    match s {
        DoctorStatus::Pass => "PASS"@,
        DoctorStatus::Warn => "WARN"@,
        DoctorStatus::Fail => "FAIL"@,
    }
}

pub open spec fn doctor_rows_spec(checks: Seq<CheckView>) -> Seq<Seq<Seq<char>>> {
    checks.map_values(|c: CheckView| seq![c.0, doctor_status_cell(c.1), c.2])
}

/// The plan context and repair plan printed after the doctor's table.
pub open spec fn doctor_trailer_spec(report: DoctorReport) -> Seq<char> {
    (match report.plan_context {
        Some(c) => "\nPlan context:\n"@ + "- source: "@ + c.source@ + "\n"@ + (match opt_view(c.scan_artifact) {
            Some(a) => "- scan artifact: "@ + a + "\n"@,
            None => Seq::empty(),
        }) + (match opt_view(c.baseline_path) {
            Some(b) => "- baseline: "@ + b + "\n"@,
            None => Seq::empty(),
        }) + (match opt_view(c.freshness_source) {
            Some(f) => "- freshness source: "@ + f + "\n"@,
            None => Seq::empty(),
        }) + "- repair targets: "@ + seq_join(views(c.repair_targets@), ", "@) + "\n"@,
        None => Seq::empty(),
    }) + if report.repair_plan@.len() > 0 {
        "\nRepair plan:\n"@ + plan_entries(plan_view(report.repair_plan@))
    } else {
        Seq::empty()
    }
}

pub open spec fn plan_entries(plan: Seq<(Seq<char>, Seq<char>, Seq<char>)>) -> Seq<char>
    decreases plan.len(),
{
    if plan.len() == 0 {
        Seq::empty()
    } else {
        let (t, p, why) = plan.last();
        plan_entries(plan.drop_last()) + "- "@ + t + " -> "@ + p + " ("@ + why + ")\n"@
    }
}

/// The colour of a check's status cell.
pub open spec fn doctor_status_color(s: DoctorStatus) -> CellColor {
    match s {
        DoctorStatus::Pass => CellColor::Green,
        DoctorStatus::Warn => CellColor::Yellow,
        DoctorStatus::Fail => CellColor::Red,
    }
}

pub open spec fn doctor_colors_spec(checks: Seq<CheckView>) -> Seq<Seq<CellColor>> {
    checks.map_values(|c: CheckView| seq![CellColor::Plain, doctor_status_color(c.1), CellColor::Plain])
}

/// The doctor's terminal output, unstyled: its checks as a table, then the
/// plan.
pub open spec fn doctor_text_spec(report: DoctorReport) -> Seq<char> {
    table_text(
        TableFrame::Ascii,
        seq!["Check"@, "Status"@, "Detail"@],
        doctor_rows_spec(checks_view(report.checks@)),
    ) + "\n"@ + doctor_trailer_spec(report)
}

fn push_opt_line(out: &mut String, label: &str, value: &Option<String>)
    ensures
        final(out)@ == old(out)@ + match opt_view(*value) {
            Some(v) => label@ + v + "\n"@,
            None => Seq::empty(),
        },
{
    match value {
        Some(v) => {
            push_str(out, label);
            push_str(out, v.as_str());
            push_str(out, "\n");
        },
        None => {
            assert(out@ =~= old(out)@ + Seq::<char>::empty());
        },
    }
}

/// The text printed after the doctor's table.
pub fn doctor_trailer(report: &DoctorReport) -> (r: String)
    ensures
        r@ == doctor_trailer_spec(*report),
{
    let mut out = String::new();
    if let Some(c) = &report.plan_context {
        push_str(&mut out, "\nPlan context:\n");
        push_str(&mut out, "- source: ");
        push_str(&mut out, c.source.as_str());
        push_str(&mut out, "\n");
        push_opt_line(&mut out, "- scan artifact: ", &c.scan_artifact);
        push_opt_line(&mut out, "- baseline: ", &c.baseline_path);
        push_opt_line(&mut out, "- freshness source: ", &c.freshness_source);
        push_str(&mut out, "- repair targets: ");
        let joined = join(&c.repair_targets, ", ");
        push_str(&mut out, joined.as_str());
        push_str(&mut out, "\n");
    }
    let ghost head = out@;
    if report.repair_plan.len() > 0 {
        push_str(&mut out, "\nRepair plan:\n");
        let ghost start = out@;
        let ghost pv = plan_view(report.repair_plan@);
        let mut i: usize = 0;
        assert(pv.take(0) =~= Seq::<(Seq<char>, Seq<char>, Seq<char>)>::empty());
        assert(start + plan_entries(pv.take(0)) =~= start);
        while i < report.repair_plan.len()
            invariant
                0 <= i <= report.repair_plan@.len(),
                pv == plan_view(report.repair_plan@),
                out@ == start + plan_entries(pv.take(i as int)),
            decreases report.repair_plan@.len() - i,
        {
            assert(pv.take(i + 1).drop_last() =~= pv.take(i as int));
            let item = &report.repair_plan[i];
            push_str(&mut out, "- ");
            push_str(&mut out, item.target.as_str());
            push_str(&mut out, " -> ");
            push_str(&mut out, item.path.as_str());
            push_str(&mut out, " (");
            push_str(&mut out, item.reason.as_str());
            push_str(&mut out, ")\n");
            i = i + 1;
        }
        assert(pv.take(report.repair_plan@.len() as int) =~= pv);
    }
    assert(out@ =~= doctor_trailer_spec(*report));
    out
}

fn status_cell_text(s: DoctorStatus) -> (r: &'static str)
    ensures
        r@ == doctor_status_cell(s),
{
    match s {
        DoctorStatus::Pass => "PASS",
        DoctorStatus::Warn => "WARN",
        DoctorStatus::Fail => "FAIL",
    }
}

/// How the doctor's report is written out.
pub enum DoctorOutput {
    /// Text for the terminal.
    Text(String),
    /// The report itself, to be written as JSON.
    Json,
}

/// The doctor's report in a format: the table with the plan after it, the
/// report as JSON, or an error for SARIF.
pub fn render_doctor_report(report: &DoctorReport, format: OutputFormat, styled: bool) -> (r: Result<DoctorOutput, String>)
    ensures
        match format {
            OutputFormat::Table => r matches Ok(DoctorOutput::Text(t)) && (!styled ==> t@ == doctor_text_spec(*report))
                && exists|drawn: Seq<char>| t@ == drawn + "\n"@ + doctor_trailer_spec(*report),
            OutputFormat::Json => r matches Ok(DoctorOutput::Json),
            OutputFormat::Sarif => r matches Err(e) && e@ == "`doctor` supports only table or json output"@,
        },
{
    match format {
        OutputFormat::Table => {
            let mut header: Vec<String> = Vec::new();
            header.push(owned("Check"));
            header.push(owned("Status"));
            header.push(owned("Detail"));
            let mut rows: Vec<Vec<String>> = Vec::new();
            let mut colors: Vec<Vec<CellColor>> = Vec::new();
            let mut i: usize = 0;
            while i < report.checks.len()
                invariant
                    0 <= i <= report.checks@.len(),
                    rows_view(rows@) == doctor_rows_spec(checks_view(report.checks@.take(i as int))),
                    colors@.map_values(|c: Vec<CellColor>| c@) == doctor_colors_spec(checks_view(report.checks@.take(i as int))),
                decreases report.checks@.len() - i,
            {
                let c = &report.checks[i];
                let mut row: Vec<String> = Vec::new();
                row.push(owned(c.name.as_str()));
                row.push(owned(status_cell_text(c.status)));
                row.push(owned(c.detail.as_str()));
                assert(views(row@) =~= seq![c.name@, doctor_status_cell(c.status), c.detail@]);
                let ghost pre = rows_view(rows@);
                rows.push(row);
                assert(rows_view(rows@) =~= pre.push(seq![c.name@, doctor_status_cell(c.status), c.detail@]));
                assert(checks_view(report.checks@.take(i + 1)) =~= checks_view(report.checks@.take(i as int)).push(
                    (c.name@, c.status, c.detail@),
                ));
                assert(rows_view(rows@) =~= doctor_rows_spec(checks_view(report.checks@.take(i + 1))));
                let mut crow: Vec<CellColor> = Vec::new();
                crow.push(CellColor::Plain);
                crow.push(
                    match c.status {
                        DoctorStatus::Pass => CellColor::Green,
                        DoctorStatus::Warn => CellColor::Yellow,
                        DoctorStatus::Fail => CellColor::Red,
                    },
                );
                crow.push(CellColor::Plain);
                assert(crow@ =~= seq![CellColor::Plain, doctor_status_color(c.status), CellColor::Plain]);
                let ghost cpre = colors@.map_values(|c: Vec<CellColor>| c@);
                colors.push(crow);
                assert(colors@.map_values(|c: Vec<CellColor>| c@) =~= cpre.push(
                    seq![CellColor::Plain, doctor_status_color(c.status), CellColor::Plain],
                ));
                assert(colors@.map_values(|c: Vec<CellColor>| c@) =~= doctor_colors_spec(
                    checks_view(report.checks@.take(i + 1)),
                ));
                i = i + 1;
            }
            assert(report.checks@.take(report.checks@.len() as int) =~= report.checks@);
            assert(views(header@) =~= seq!["Check"@, "Status"@, "Detail"@]);
            assert forall|k: int| 0 <= k < rows@.len() implies #[trigger] colors@[k]@.len() == rows@[k]@.len() by {
                assert(colors@.map_values(|c: Vec<CellColor>| c@)[k] == colors@[k]@);
                assert(rows_view(rows@)[k] == views(rows@[k]@));
                assert(views(rows@[k]@).len() == rows@[k]@.len());
            }
            let drawn = draw_table(TableFrame::Ascii, &header, &rows, &colors, styled);
            let mut text = concat(drawn.as_str(), "\n");
            let trailer = doctor_trailer(report);
            push_str(&mut text, trailer.as_str());
            Ok(DoctorOutput::Text(text))
        },
        OutputFormat::Json => Ok(DoctorOutput::Json),
        OutputFormat::Sarif => Err(owned("`doctor` supports only table or json output")),
    }
}

/// The repair targets a list of names reads as: the first name that is no
/// target is refused.
pub open spec fn targets_spec(vs: Seq<Seq<char>>) -> Result<Seq<RepairTarget>, Seq<char>>
    decreases vs.len(),
{
    if vs.len() == 0 {
        Ok(Seq::empty())
    } else {
        match targets_spec(vs.drop_last()) {
            Err(e) => Err(e),
            Ok(ts) => match parse_repair_target_spec(vs.last()) {
                Ok(t) => Ok(ts.push(t)),
                Err(e) => Err(e),
            },
        }
    }
}

proof fn lemma_targets_error_stays(vs: Seq<Seq<char>>, i: int, e: Seq<char>)
    requires
        0 <= i <= vs.len(),
        targets_spec(vs.take(i)) == Err::<Seq<RepairTarget>, Seq<char>>(e),
    ensures
        targets_spec(vs) == Err::<Seq<RepairTarget>, Seq<char>>(e),
    decreases vs.len() - i,
{
    if i < vs.len() {
        assert(vs.take(i + 1).drop_last() =~= vs.take(i));
        lemma_targets_error_stays(vs, i + 1, e);
    } else {
        assert(vs.take(i) =~= vs);
    }
}

fn read_targets(values: &Vec<String>) -> (r: Result<Vec<RepairTarget>, String>)
    ensures
        match (r, targets_spec(views(values@))) {
            (Ok(v), Ok(w)) => v@ == w,
            (Err(e), Err(m)) => e@ == m,
            _ => false,
        },
{
    let ghost vs = views(values@);
    let mut out: Vec<RepairTarget> = Vec::new();
    let mut i: usize = 0;
    assert(vs.take(0) =~= Seq::<Seq<char>>::empty());
    while i < values.len()
        invariant
            0 <= i <= values@.len(),
            vs == views(values@),
            targets_spec(vs.take(i as int)) == Ok::<Seq<RepairTarget>, Seq<char>>(out@),
        decreases values@.len() - i,
    {
        assert(vs.take(i + 1).drop_last() =~= vs.take(i as int));
        assert(vs.take(i + 1).last() == values@[i as int]@);
        match parse_repair_target(values[i].as_str()) {
            Ok(t) => {
                out.push(t);
            },
            Err(e) => {
                proof {
                    lemma_targets_error_stays(vs, i + 1, e@);
                }
                return Err(e);
            },
        }
        i = i + 1;
    }
    assert(vs.take(vs.len() as int) =~= vs);
    Ok(out)
}

/// What `voc doctor` was given on the command line.
pub struct DoctorOverrides {
    pub output_dir: Option<String>,
    pub agents: Option<String>,
    pub format: Option<OutputFormat>,
    pub profile: Option<ScanProfile>,
    pub fix: bool,
    pub repair: Vec<RepairTarget>,
    pub freshness_against: Option<String>,
    pub open_pr_brief: bool,
    pub open_pr_comment: bool,
}

/// The settings `voc doctor` runs with.
pub struct DoctorOptions {
    pub format: OutputFormat,
    pub profile: ScanProfile,
    /// The output root (`.` when neither names one).
    pub output_dir: String,
    /// AGENTS.md, when one is named; else the output root's.
    pub agents_path: Option<String>,
    pub repair_targets: Vec<RepairTarget>,
    /// Whether to repair: asked for, or some target named.
    pub fix: bool,
    pub freshness_against: Option<String>,
    pub open_pr_brief: bool,
    pub open_pr_comment: bool,
}

pub struct DoctorView {
    pub format: OutputFormat,
    pub profile: ScanProfile,
    pub output_dir: Seq<char>,
    pub agents_path: Option<Seq<char>>,
    pub repair_targets: Seq<RepairTarget>,
    pub fix: bool,
    pub freshness_against: Option<Seq<char>>,
    pub open_pr_brief: bool,
    pub open_pr_comment: bool,
}

pub open spec fn doctor_view(o: DoctorOptions) -> DoctorView {
    DoctorView {
        format: o.format,
        profile: o.profile,
        output_dir: o.output_dir@,
        agents_path: opt_text(o.agents_path),
        repair_targets: o.repair_targets@,
        fix: o.fix,
        freshness_against: opt_text(o.freshness_against),
        open_pr_brief: o.open_pr_brief,
        open_pr_comment: o.open_pr_comment,
    }
}

pub open spec fn doctor_defaults_or_none(f: Option<DoctorDefaults>) -> DoctorDefaults {
    match f {
        Some(d) => d,
        None => DoctorDefaults {
            output_dir: None,
            agents: None,
            format: None,
            profile: None,
            fix: None,
            repair: None,
            freshness_against: None,
            open_pr_brief: None,
            open_pr_comment: None,
        },
    }
}

/// The command line over the `[doctor]` section over the defaults: format
/// `table` and profile `full` when neither names one; the repair targets of
/// the command line, else those the file names; a repair when asked for on
/// either side or when a target is named; each flag on when set on the
/// command line or `true` in the file. The file's format, profile and (when
/// the command line names no target) targets are read in that order, and the
/// first that reads as nothing is refused.
pub open spec fn doctor_options_spec(cli: DoctorOverrides, file: Option<DoctorDefaults>) -> Result<
    DoctorView,
    Seq<char>,
> {
    let d = doctor_defaults_or_none(file);
    let ff: Result<Option<OutputFormat>, Seq<char>> = match d.format {
        Some(v) => match parse_output_format_spec(v@) {
            Ok(f) => Ok(Some(f)),
            Err(e) => Err(e),
        },
        None => Ok(None),
    };
    let fp: Result<Option<ScanProfile>, Seq<char>> = match d.profile {
        Some(v) => match parse_profile_spec(v@) {
            Ok(p) => Ok(Some(p)),
            Err(e) => Err(e),
        },
        None => Ok(None),
    };
    let targets: Result<Seq<RepairTarget>, Seq<char>> = if cli.repair@.len() > 0 {
        Ok(cli.repair@)
    } else {
        match d.repair {
            Some(vs) => targets_spec(views(vs@)),
            None => Ok(Seq::empty()),
        }
    };
    match (ff, fp, targets) {
        (Err(e), _, _) => Err(e),
        (Ok(_), Err(e), _) => Err(e),
        (Ok(_), Ok(_), Err(e)) => Err(e),
        (Ok(f), Ok(p), Ok(ts)) => Ok(
            DoctorView {
                format: match cli.format {
                    Some(x) => x,
                    None => match f {
                        Some(x) => x,
                        None => OutputFormat::Table,
                    },
                },
                profile: match cli.profile {
                    Some(x) => x,
                    None => match p {
                        Some(x) => x,
                        None => ScanProfile::Full,
                    },
                },
                output_dir: text_or(first_given(cli.output_dir, d.output_dir), "."@),
                agents_path: opt_text(first_given(cli.agents, d.agents)),
                repair_targets: ts,
                fix: flag_on(cli.fix, d.fix) || ts.len() > 0,
                freshness_against: opt_text(first_given(cli.freshness_against, d.freshness_against)),
                open_pr_brief: flag_on(cli.open_pr_brief, d.open_pr_brief),
                open_pr_comment: flag_on(cli.open_pr_comment, d.open_pr_comment),
            },
        ),
    }
}

/// Merges the command line of `voc doctor` with the `[doctor]` section.
pub fn resolve_doctor_options(cli: DoctorOverrides, file: Option<DoctorDefaults>) -> (r: Result<
    DoctorOptions,
    String,
>)
    ensures
        match (r, doctor_options_spec(cli, file)) {
            (Ok(o), Ok(v)) => doctor_view(o) == v,
            (Err(e), Err(m)) => e@ == m,
            _ => false,
        },
{
    let d = match file {
        Some(d) => d,
        None => DoctorDefaults {
            output_dir: None,
            agents: None,
            format: None,
            profile: None,
            fix: None,
            repair: None,
            freshness_against: None,
            open_pr_brief: None,
            open_pr_comment: None,
        },
    };
    let ff = match parse_optional_output_format(match &d.format {
        Some(v) => Some(v.as_str()),
        None => None,
    }) {
        Ok(f) => f,
        Err(e) => {
            return Err(e);
        },
    };
    let fp = match parse_optional_cli_profile(match &d.profile {
        Some(v) => Some(v.as_str()),
        None => None,
    }) {
        Ok(p) => p,
        Err(e) => {
            return Err(e);
        },
    };
    let targets = if cli.repair.len() > 0 {
        cli.repair
    } else {
        match &d.repair {
            Some(vs) => match read_targets(vs) {
                Ok(ts) => ts,
                Err(e) => {
                    return Err(e);
                },
            },
            None => Vec::new(),
        }
    };
    let any_target = targets.len() > 0;
    Ok(
        DoctorOptions {
            format: match cli.format {
                Some(x) => x,
                None => match ff {
                    Some(x) => x,
                    None => OutputFormat::Table,
                },
            },
            profile: match cli.profile {
                Some(x) => x,
                None => match fp {
                    Some(x) => x,
                    None => ScanProfile::Full,
                },
            },
            output_dir: pick_text_or(cli.output_dir, d.output_dir, "."),
            agents_path: pick_text(cli.agents, d.agents),
            repair_targets: targets,
            fix: flag(cli.fix, d.fix) || any_target,
            freshness_against: pick_text(cli.freshness_against, d.freshness_against),
            open_pr_brief: flag(cli.open_pr_brief, d.open_pr_brief),
            open_pr_comment: flag(cli.open_pr_comment, d.open_pr_comment),
        },
    )
}

} // verus!
