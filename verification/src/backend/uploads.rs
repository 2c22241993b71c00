//! What the fields of an upload ask for, and what a handoff archive holds.
use vstd::prelude::*;
use crate::agent_assets::{
    handoff_assets_spec, handoff_manifest, plan_view, AgentAssetLayout,
    HandoffManifest, RepairPlanItem,
};
use crate::parsers::bundle_scanner::{extension_of, path_extension};
use crate::paths::{base_name, file_name};
use crate::agents::CommandHints;
use crate::backend::scan::{ScanProfileInput, ScanRequest};
use crate::text::{
    chars_of, concat, is_prefix, slice_string, lower_seq, owned, path_join, path_join_spec, push_str, split_char,
    split_spec, str_eq, to_ascii_lowercase, trim, trim_spec, views,
};

verus! {

/// How a scan's answer is written.
#[derive(Clone, Copy, Debug, PartialEq, Eq, Structural)]
pub enum ScanOutputFormat {
    Json,
    Sarif,
    Markdown,
}

pub open spec fn scan_format_spec(v: Seq<char>) -> Option<ScanOutputFormat> {
    let l = lower_seq(v);
    if l == "json"@ {
        Some(ScanOutputFormat::Json)
    } else if l == "sarif"@ {
        Some(ScanOutputFormat::Sarif)
    } else if l == "markdown"@ || l == "md"@ {
        Some(ScanOutputFormat::Markdown)
    } else {
        None
    }
}

/// Reads the `format` field, in any letter case.
pub fn parse_scan_format(value: &str) -> (r: Option<ScanOutputFormat>)
    ensures
        r == scan_format_spec(value@),
{
    let l = to_ascii_lowercase(value);
    if str_eq(l.as_str(), "json") {
        Some(ScanOutputFormat::Json)
    } else if str_eq(l.as_str(), "sarif") {
        Some(ScanOutputFormat::Sarif)
    } else if str_eq(l.as_str(), "markdown") || str_eq(l.as_str(), "md") {
        Some(ScanOutputFormat::Markdown)
    } else {
        None
    }
}

/// The answer to a `format` field that names no format.
pub const FORMAT_ERROR: &'static str = "format must be json, sarif, or markdown";

/// The answer to an upload without a bundle.
pub const MISSING_BUNDLE_ERROR: &'static str = "missing bundle file field";

/// The answer to a project uploaded as a bare directory.
pub const PROJECT_ARCHIVE_ERROR: &'static str = "Upload .xcodeproj/.xcworkspace as a .zip archive.";

/// The non-empty trimmed items of a comma-separated list.
pub open spec fn rule_items(parts: Seq<Seq<char>>) -> Seq<Seq<char>>
    decreases parts.len(),
{
    if parts.len() == 0 {
        Seq::empty()
    } else {
        let prev = rule_items(parts.drop_last());
        let t = trim_spec(parts.last());
        if t.len() > 0 {
            prev.push(t)
        } else {
            prev
        }
    }
}

/// Adds the rules of a comma-separated field to a list.
pub fn append_rule_list(values: &mut Vec<String>, input: &str)
    ensures
        views(final(values)@) == views(old(values)@) + rule_items(split_spec(input@, ',')),
{
    let parts = split_char(input, ',');
    let ghost pv = views(parts@);
    let ghost start = views(values@);
    let mut i: usize = 0;
    assert(pv.take(0) =~= Seq::<Seq<char>>::empty());
    assert(start + rule_items(pv.take(0)) =~= start);
    while i < parts.len()
        invariant
            0 <= i <= parts@.len(),
            pv == views(parts@),
            pv == split_spec(input@, ','),
            views(values@) == start + rule_items(pv.take(i as int)),
        decreases parts@.len() - i,
    {
        assert(pv.take(i + 1).drop_last() =~= pv.take(i as int));
        let t = trim(parts[i].as_str());
        if chars_of(t.as_str()).len() > 0 {
            let ghost pre = views(values@);
            values.push(t);
            assert(views(values@) =~= pre.push(trim_spec(pv[i as int])));
        }
        i = i + 1;
    }
    assert(pv.take(parts@.len() as int) =~= pv);
}

pub open spec fn profile_input_spec(v: Seq<char>) -> Option<ScanProfileInput> {
    let l = lower_seq(v);
    if l == "basic"@ {
        Some(ScanProfileInput::Basic)
    } else if l == "full"@ {
        Some(ScanProfileInput::Full)
    } else {
        None
    }
}

/// Reads the `profile` field, in any letter case; any other value leaves
/// the profile unset.
pub fn parse_profile_field(value: &str) -> (r: Option<ScanProfileInput>)
    ensures
        r == profile_input_spec(value@),
{
    let l = to_ascii_lowercase(value);
    if str_eq(l.as_str(), "basic") {
        Some(ScanProfileInput::Basic)
    } else if str_eq(l.as_str(), "full") {
        Some(ScanProfileInput::Full)
    } else {
        None
    }
}

/// What an upload field is read as.
#[derive(Clone, Copy, Debug, PartialEq, Eq, Structural)]
pub enum UploadField {
    Profile,
    RuleList(bool),
    Format,
    Baseline,
    Bundle,
    Project,
    Ignored,
}

pub open spec fn field_kind_spec(name: Seq<char>) -> UploadField {
    if name == "profile"@ {
        UploadField::Profile
    } else if name == "in\x63lude"@ {
        UploadField::RuleList(true)
    } else if name == "ex\x63lude"@ {
        UploadField::RuleList(false)
    } else if name == "format"@ {
        UploadField::Format
    } else if name == "baseline"@ {
        UploadField::Baseline
    } else if name == "bundle"@ {
        UploadField::Bundle
    } else if name == "project"@ {
        UploadField::Project
    } else {
        UploadField::Ignored
    }
}

/// What a field with this name carries: `RuleList(true)` for the rules to
/// run, `RuleList(false)` for those to skip.
pub fn field_kind(name: &str) -> (r: UploadField)
    ensures
        r == field_kind_spec(name@),
{
    if str_eq(name, "profile") {
        UploadField::Profile
    } else if str_eq(name, "in\x63lude") {
        UploadField::RuleList(true)
    } else if str_eq(name, "ex\x63lude") {
        UploadField::RuleList(false)
    } else if str_eq(name, "format") {
        UploadField::Format
    } else if str_eq(name, "baseline") {
        UploadField::Baseline
    } else if str_eq(name, "bundle") {
        UploadField::Bundle
    } else if str_eq(name, "project") {
        UploadField::Project
    } else {
        UploadField::Ignored
    }
}

/// A request with nothing asked for yet.
pub fn empty_request() -> (r: ScanRequest)
    ensures
        r.profile is None,
        r.included@.len() == 0,
        r.excluded@.len() == 0,
        r.baseline is None,
{
    ScanRequest { profile: None, included: Vec::new(), excluded: Vec::new(), baseline: None }
}

/// Applies a text field to the request being built. A `format` field sets
/// the format, or is refused when it names none.
pub fn apply_text_field(
    request: &mut ScanRequest,
    format: &mut ScanOutputFormat,
    kind: UploadField,
    value: &str,
) -> (r: Result<(), String>)
    ensures
        match kind {
            UploadField::Profile => r is Ok && final(request).profile == profile_input_spec(value@)
                && final(request).included == old(request).included && final(request).excluded
                == old(request).excluded && *final(format) == *old(format),
            UploadField::RuleList(run) => r is Ok && final(request).profile == old(request).profile
                && *final(format) == *old(format) && if run {
                views(final(request).included@) == views(old(request).included@) + rule_items(
                    split_spec(value@, ','),
                ) && final(request).excluded == old(request).excluded
            } else {
                views(final(request).excluded@) == views(old(request).excluded@) + rule_items(
                    split_spec(value@, ','),
                ) && final(request).included == old(request).included
            },
            UploadField::Format => (match scan_format_spec(value@) {
                Some(f) => r is Ok && *final(format) == f,
                None => r matches Err(e) && e@ == FORMAT_ERROR@,
            }) && final(request).profile == old(request).profile && final(request).included
                == old(request).included && final(request).excluded == old(request).excluded,
            _ => r is Ok && final(request).profile == old(request).profile && final(request).included
                == old(request).included && final(request).excluded == old(request).excluded
                && *final(format) == *old(format),
        },
        final(request).baseline == old(request).baseline,
{
    match kind {
        UploadField::Profile => {
            request.profile = parse_profile_field(value);
            Ok(())
        },
        UploadField::RuleList(run) => {
            if run {
                append_rule_list(&mut request.included, value);
            } else {
                append_rule_list(&mut request.excluded, value);
            }
            Ok(())
        },
        UploadField::Format => match parse_scan_format(value) {
            Some(f) => {
                *format = f;
                Ok(())
            },
            None => Err(owned(FORMAT_ERROR)),
        },
        _ => Ok(()),
    }
}

/// What becomes of an uploaded project, by its file's extension.
#[derive(Clone, Copy, Debug, PartialEq, Eq, Structural)]
pub enum ProjectUpload {
    Extract,
    Refuse,
    Ignore,
}

pub open spec fn project_action_spec(ext: Option<Seq<char>>) -> ProjectUpload {
    match ext {
        Some(e) => if lower_seq(e) == "zip"@ {
            ProjectUpload::Extract
        } else if lower_seq(e) == "xcodeproj"@ || lower_seq(e) == "xcworkspace"@ {
            ProjectUpload::Refuse
        } else {
            ProjectUpload::Ignore
        },
        None => ProjectUpload::Ignore,
    }
}

/// A zip archive is extracted; a bare project directory is refused (with
/// `PROJECT_ARCHIVE_ERROR`); anything else is left alone.
pub fn project_action(extension: Option<&str>) -> (r: ProjectUpload)
    ensures
        r == project_action_spec(
            match extension {
                Some(e) => Some(e@),
                None => None,
            },
        ),
{
    match extension {
        Some(e) => {
            let l = to_ascii_lowercase(e);
            if str_eq(l.as_str(), "zip") {
                ProjectUpload::Extract
            } else if str_eq(l.as_str(), "xcodeproj") || str_eq(l.as_str(), "xcworkspace") {
                ProjectUpload::Refuse
            } else {
                ProjectUpload::Ignore
            }
        },
        None => ProjectUpload::Ignore,
    }
}

/// What an upload's files decide before any scan: without a bundle the
/// upload is refused with `MISSING_BUNDLE_ERROR`; then a bare project
/// directory is refused with `PROJECT_ARCHIVE_ERROR`; otherwise the project
/// is extracted or left alone.
pub open spec fn upload_check_spec(has_bundle: bool, ext: Option<Seq<char>>) -> Result<ProjectUpload, Seq<char>> {
    if !has_bundle {
        Err(MISSING_BUNDLE_ERROR@)
    } else {
        match project_action_spec(ext) {
            ProjectUpload::Refuse => Err(PROJECT_ARCHIVE_ERROR@),
            a => Ok(a),
        }
    }
}

/// Decides an upload from whether it carried a bundle and the extension of
/// its project file (`None` without one).
pub fn check_upload(has_bundle: bool, project_extension: Option<&str>) -> (r: Result<ProjectUpload, String>)
    ensures
        match (r, upload_check_spec(
            has_bundle,
            match project_extension {
                Some(e) => Some(e@),
                None => None,
            },
        )) {
            (Ok(a), Ok(b)) => a == b,
            (Err(e), Err(f)) => e@ == f,
            _ => false,
        },
{
    if !has_bundle {
        return Err(owned(MISSING_BUNDLE_ERROR));
    }
    match project_action(project_extension) {
        ProjectUpload::Refuse => Err(owned(PROJECT_ARCHIVE_ERROR)),
        ProjectUpload::Extract => Ok(ProjectUpload::Extract),
        ProjectUpload::Ignore => Ok(ProjectUpload::Ignore),
    }
}

/// A directory's extension, compared without regard to letter case.
pub open spec fn has_extension_ci(path: Seq<char>, ext: Seq<char>) -> bool {
    match extension_of(base_name(path)) {
        Some(e) => lower_seq(e) == ext,
        None => false,
    }
}

/// The first directory with the extension, in the order given.
pub open spec fn first_with_ext(dirs: Seq<Seq<char>>, ext: Seq<char>) -> Option<Seq<char>>
    decreases dirs.len(),
{
    if dirs.len() == 0 {
        None
    } else if has_extension_ci(dirs[0], ext) {
        Some(dirs[0])
    } else {
        first_with_ext(dirs.drop_first(), ext)
    }
}

/// The project of an extracted archive: the first workspace among its
/// directories in the order they were visited, else the first project.
pub open spec fn project_path_spec(dirs: Seq<Seq<char>>) -> Option<Seq<char>> {
    match first_with_ext(dirs, "xcworkspace"@) {
        Some(w) => Some(w),
        None => first_with_ext(dirs, "xcodeproj"@),
    }
}

fn has_extension_exec(path: &str, ext: &str) -> (r: bool)
    ensures
        r == has_extension_ci(path@, ext@),
{
    let name = file_name(path);
    match path_extension(name.as_str()) {
        Some(e) => {
            let l = to_ascii_lowercase(e.as_str());
            str_eq(l.as_str(), ext)
        },
        None => false,
    }
}

fn first_with_ext_exec(dirs: &Vec<String>, ext: &str) -> (r: Option<String>)
    ensures
        opt_string_view(r) == first_with_ext(views(dirs@), ext@),
{
    let ghost dv = views(dirs@);
    let mut i: usize = 0;
    assert(dv.skip(0) =~= dv);
    while i < dirs.len()
        invariant
            0 <= i <= dirs@.len(),
            dv == views(dirs@),
            first_with_ext(dv, ext@) == first_with_ext(dv.skip(i as int), ext@),
        decreases dirs@.len() - i,
    {
        assert(dv.skip(i as int).drop_first() =~= dv.skip(i + 1));
        assert(dv.skip(i as int)[0] == dv[i as int]);
        if has_extension_exec(dirs[i].as_str(), ext) {
            return Some(owned(dirs[i].as_str()));
        }
        i = i + 1;
    }
    assert(dv.skip(dirs@.len() as int).len() == 0);
    None
}

/// Finds the project in an extracted archive from its directories, listed in
/// the order they were visited.
pub fn find_project_path(dirs: &Vec<String>) -> (r: Option<String>)
    ensures
        opt_string_view(r) == project_path_spec(views(dirs@)),
{
    match first_with_ext_exec(dirs, "xcworkspace") {
        Some(w) => Some(w),
        None => first_with_ext_exec(dirs, "xcodeproj"),
    }
}

/// The client a request comes from: the first address of
/// `X-Forwarded-For`, else `X-Real-IP`, each trimmed and only when not empty.
pub open spec fn client_ip_spec(forwarded_for: Option<Seq<char>>, real_ip: Option<Seq<char>>) -> Option<Seq<char>> {
    let from_forwarded = match forwarded_for {
        Some(v) => {
            let first = trim_spec(split_spec(v, ',')[0]);
            if first.len() > 0 {
                Some(first)
            } else {
                None
            }
        },
        None => None,
    };
    match from_forwarded {
        Some(ip) => Some(ip),
        None => match real_ip {
            Some(v) => if trim_spec(v).len() > 0 {
                Some(trim_spec(v))
            } else {
                None
            },
            None => None,
        },
    }
}

pub open spec fn opt_str_view(o: Option<&str>) -> Option<Seq<char>> {
    match o {
        Some(s) => Some(s@),
        None => None,
    }
}

pub open spec fn opt_string_view(o: Option<String>) -> Option<Seq<char>> {
    match o {
        Some(s) => Some(s@),
        None => None,
    }
}

/// Picks the client address from the two headers, as far as they are text.
pub fn client_ip(forwarded_for: Option<&str>, real_ip: Option<&str>) -> (r: Option<String>)
    ensures
        opt_string_view(r) == client_ip_spec(opt_str_view(forwarded_for), opt_str_view(real_ip)),
{
    if let Some(v) = forwarded_for {
        let parts = split_char(v, ',');
        proof {
            crate::text::lemma_split_first(v@, ',');
        }
        let first = trim(parts[0].as_str());
        if chars_of(first.as_str()).len() > 0 {
            return Some(first);
        }
    }
    if let Some(v) = real_ip {
        let t = trim(v);
        if chars_of(t.as_str()).len() > 0 {
            return Some(t);
        }
    }
    None
}

/// The profile a handoff is named with: the request's, else `full`.
pub open spec fn handoff_profile_spec(p: Option<ScanProfileInput>) -> Seq<char> {
    match p {
        Some(ScanProfileInput::Basic) => "basic"@,
        _ => "full"@,
    }
}

pub fn handoff_profile(profile: Option<ScanProfileInput>) -> (r: String)
    ensures
        r@ == handoff_profile_spec(profile),
{
    match profile {
        Some(ScanProfileInput::Basic) => owned("basic"),
        _ => owned("full"),
    }
}

/// The command hints written into a handoff: the uploaded bundle's name, the
/// profile, and the layout's paths.
pub fn handoff_hints(layout: &AgentAssetLayout, bundle_name: &str, profile: &str) -> (r: CommandHints)
    ensures
        opt_string_view(r.app_path) == Some(bundle_name@),
        r.baseline_path is None,
        opt_string_view(r.agent_pack_dir) == Some(layout.agent_bundle_dir@),
        opt_string_view(r.profile) == Some(profile@),
        r.shell_script,
        opt_string_view(r.fix_prompt_path) == Some(layout.fix_prompt_path@),
        opt_string_view(r.pr_brief_path) == Some(layout.pr_brief_path@),
{
    CommandHints {
        app_path: Some(owned(bundle_name)),
        baseline_path: None,
        agent_pack_dir: Some(owned(layout.agent_bundle_dir.as_str())),
        profile: Some(owned(profile)),
        shell_script: true,
        fix_prompt_path: Some(owned(layout.fix_prompt_path.as_str())),
        pr_brief_path: Some(owned(layout.pr_brief_path.as_str())),
    }
}

/// The assets of a handoff archive: those of the layout and the report.
pub open spec fn archive_assets_spec(layout: AgentAssetLayout) -> Seq<Seq<char>> {
    handoff_assets_spec(layout).push(path_join_spec(layout.output_dir@, "report.json"@))
}

/// Where a handoff's report is written.
pub fn report_json_path(layout: &AgentAssetLayout) -> (r: String)
    ensures
        r@ == path_join_spec(layout.output_dir@, "report.json"@),
{
    path_join(layout.output_dir.as_str(), "report.json")
}

/// The manifest of a handoff archive built from an upload.
pub fn archive_manifest(layout: &AgentAssetLayout, bundle_name: &str, profile: &str) -> (r: HandoffManifest)
    ensures
        r.app_path@ == bundle_name@,
        r.baseline_path is None,
        r.profile@ == profile@,
        r.output_dir@ == layout.output_dir@,
        views(r.assets@) == archive_assets_spec(*layout),
{
    let mut m = handoff_manifest(layout, bundle_name, None, profile);
    let ghost pre = views(m.assets@);
    m.assets.push(report_json_path(layout));
    assert(views(m.assets@) =~= pre.push(path_join_spec(layout.output_dir@, "report.json"@)));
    m
}

/// The lines of a repair plan's entries.
pub open spec fn plan_lines(plan: Seq<(Seq<char>, Seq<char>, Seq<char>)>) -> Seq<char>
    decreases plan.len(),
{
    if plan.len() == 0 {
        Seq::empty()
    } else {
        let (t, p, why) = plan.last();
        plan_lines(plan.drop_last()) + "- **"@ + t + "**\n"@ + "  - Path: `"@ + p + "`\n"@
            + "  - Reason: "@ + why + "\n"@
    }
}

/// The repair plan of a handoff as markdown.
pub open spec fn repair_plan_markdown_spec(
    app_path: Option<Seq<char>>,
    plan: Seq<(Seq<char>, Seq<char>, Seq<char>)>,
) -> Seq<char> {
    "# verifyOS Repair Plan\n\n## Context\n\n"@ + match app_path {
        Some(a) => "- Source: `fresh-scan`\n- Scan artifact: `"@ + a + "`\n"@,
        None => "- Source: `fresh-scan`\n"@,
    } + "\n## Planned Outputs\n\n"@ + plan_lines(plan)
}

pub fn repair_plan_markdown(app_path: Option<&str>, plan: &Vec<RepairPlanItem>) -> (r: String)
    ensures
        r@ == repair_plan_markdown_spec(opt_str_view(app_path), plan_view(plan@)),
{
    let mut out = owned("# verifyOS Repair Plan\n\n## Context\n\n");
    match app_path {
        Some(a) => {
            push_str(&mut out, "- Source: `fresh-scan`\n- Scan artifact: `");
            push_str(&mut out, a);
            push_str(&mut out, "`\n");
        },
        None => push_str(&mut out, "- Source: `fresh-scan`\n"),
    }
    push_str(&mut out, "\n## Planned Outputs\n\n");
    let ghost head = out@;
    let ghost pv = plan_view(plan@);
    let mut i: usize = 0;
    assert(pv.take(0) =~= Seq::<(Seq<char>, Seq<char>, Seq<char>)>::empty());
    assert(head + plan_lines(pv.take(0)) =~= head);
    while i < plan.len()
        invariant
            0 <= i <= plan@.len(),
            pv == plan_view(plan@),
            out@ == head + plan_lines(pv.take(i as int)),
        decreases plan@.len() - i,
    {
        assert(pv.take(i + 1).drop_last() =~= pv.take(i as int));
        let item = &plan[i];
        push_str(&mut out, "- **");
        push_str(&mut out, item.target.as_str());
        push_str(&mut out, "**\n");
        push_str(&mut out, "  - Path: `");
        push_str(&mut out, item.path.as_str());
        push_str(&mut out, "`\n");
        push_str(&mut out, "  - Reason: ");
        push_str(&mut out, item.reason.as_str());
        push_str(&mut out, "\n");
        i = i + 1;
    }
    assert(pv.take(plan@.len() as int) =~= pv);
    out
}

} // verus!
