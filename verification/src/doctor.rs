//! The doctor's checks of a project's agent setup: the config file, AGENTS.md,
//! the assets it points at, their freshness against the latest report, and
//! the commands it suggests.
use vstd::prelude::*;
use crate::agent_assets::{parent_spec, RepairPlanItem, RepairPolicy, RepairTarget};
use crate::commands::support::result_view;
use crate::rules::info_plist::{unique_sorted, unique_sorted_spec};
use crate::text::{
    chars_of, concat, contains, contains_spec, ends_with, is_prefix, is_suffix, join, lines,
    lines_spec, lower_seq, owned, str_eq, to_ascii_lowercase, path_join, path_join_spec, push_char, push_str, seq_join, starts_with, trim,
    trim_spec, trim_start, trim_start_spec, views,
};

verus! {

/// How a check came out.
#[derive(Clone, Copy, Debug, PartialEq, Eq, Structural)]
pub enum DoctorStatus {
    Pass,
    Warn,
    Fail,
}

/// One check: its name, outcome and what it found.
#[derive(Clone, Debug)]
pub struct DoctorCheck {
    pub name: String,
    pub status: DoctorStatus,
    pub detail: String,
}

/// Where a repair plan's inputs came from.
#[derive(Clone, Debug)]
pub struct DoctorPlanContext {
    pub source: String,
    pub scan_artifact: Option<String>,
    pub baseline_path: Option<String>,
    pub freshness_source: Option<String>,
    pub repair_targets: Vec<String>,
}

/// The doctor's findings, with the repair plan when one was asked for.
#[derive(Clone, Debug)]
pub struct DoctorReport {
    pub checks: Vec<DoctorCheck>,
    pub repair_plan: Vec<RepairPlanItem>,
    pub plan_context: Option<DoctorPlanContext>,
}

pub type CheckView = (Seq<char>, DoctorStatus, Seq<char>);

pub open spec fn check_view(c: DoctorCheck) -> CheckView {
    (c.name@, c.status, c.detail@)
}

pub open spec fn checks_view(cs: Seq<DoctorCheck>) -> Seq<CheckView> {
    cs.map_values(|c: DoctorCheck| check_view(c))
}

pub open spec fn any_failure(cs: Seq<DoctorCheck>) -> bool {
    exists|i: int| 0 <= i < cs.len() && (#[trigger] cs[i]).status == DoctorStatus::Fail
}

impl DoctorReport {
    /// Whether any check failed.
    pub fn has_failures(&self) -> (r: bool)
        ensures
            r == any_failure(self.checks@),
    {
        let mut i: usize = 0;
        while i < self.checks.len()
            invariant
                0 <= i <= self.checks@.len(),
                forall|k: int| 0 <= k < i ==> (#[trigger] self.checks@[k]).status != DoctorStatus::Fail,
            decreases self.checks@.len() - i,
        {
            if self.checks[i].status == DoctorStatus::Fail {
                return true;
            }
            i = i + 1;
        }
        false
    }
}

fn make_check(name: &str, status: DoctorStatus, detail: String) -> (r: DoctorCheck)
    ensures
        check_view(r) == (name@, status, detail@),
{
    DoctorCheck { name: owned(name), status, detail }
}

pub open spec fn config_check_spec(config_path: Option<Seq<char>>, load_error: Option<Seq<char>>) -> CheckView {
    match load_error {
        None => (
            "Config"@,
            DoctorStatus::Pass,
            match config_path {
                Some(p) => "Config is valid: "@ + p,
                None => "Config is valid or not present"@,
            },
        ),
        Some(e) => ("Config"@, DoctorStatus::Fail, e),
    }
}

pub open spec fn opt_view(o: Option<String>) -> Option<Seq<char>> {
    match o {
        Some(s) => Some(s@),
        None => None,
    }
}

/// The config check, from the outcome of loading the config file (the error
/// message when it could not be read or parsed).
pub fn check_config(config_path: Option<&str>, load_error: Option<String>) -> (r: DoctorCheck)
    ensures
        check_view(r) == config_check_spec(
            match config_path {
                Some(p) => Some(p@),
                None => None,
            },
            opt_view(load_error),
        ),
{
    match load_error {
        None => {
            let detail = match config_path {
                Some(p) => concat("Config is valid: ", p),
                None => owned("Config is valid or not present"),
            };
            make_check("Config", DoctorStatus::Pass, detail)
        },
        Some(e) => make_check("Config", DoctorStatus::Fail, e),
    }
}

pub open spec fn presence_check_spec(agents_path: Seq<char>, exists: bool) -> CheckView {
    if exists {
        ("AGENTS.md"@, DoctorStatus::Pass, "Found "@ + agents_path)
    } else {
        ("AGENTS.md"@, DoctorStatus::Warn, "Missing "@ + agents_path)
    }
}

/// Whether AGENTS.md is there.
pub fn check_agents_presence(agents_path: &str, exists: bool) -> (r: DoctorCheck)
    ensures
        check_view(r) == presence_check_spec(agents_path@, exists),
{
    if exists {
        make_check("AGENTS.md", DoctorStatus::Pass, concat("Found ", agents_path))
    } else {
        make_check("AGENTS.md", DoctorStatus::Warn, concat("Missing ", agents_path))
    }
}

/// A backticked name that refers to an asset: a JSON, markdown or shell file.
pub open spec fn is_asset_name(s: Seq<char>) -> bool {
    is_suffix(".json"@, s) || is_suffix(".md"@, s) || is_suffix(".sh"@, s)
}

/// Reading text left to right: the asset names closed so far, whether a
/// backtick is open, and what stands after it.
pub open spec fn tick_scan(s: Seq<char>) -> (Seq<Seq<char>>, bool, Seq<char>)
    decreases s.len(),
{
    if s.len() == 0 {
        (Seq::empty(), false, Seq::empty())
    } else {
        let (items, open, cur) = tick_scan(s.drop_last());
        let ch = s.last();
        if ch == '`' {
            if open {
                (if is_asset_name(cur) {
                    items.push(cur)
                } else {
                    items
                }, false, Seq::empty())
            } else {
                (items, true, cur)
            }
        } else if open {
            (items, true, cur.push(ch))
        } else {
            (items, false, cur)
        }
    }
}

/// The asset names written between backticks, in order.
pub open spec fn backticked_spec(s: Seq<char>) -> Seq<Seq<char>> {
    tick_scan(s).0
}

fn is_asset_name_exec(s: &str) -> (r: bool)
    ensures
        r == is_asset_name(s@),
{
    ends_with(s, ".json") || ends_with(s, ".md") || ends_with(s, ".sh")
}

/// The `.json`, `.md` and `.sh` names that AGENTS.md writes between backticks.
pub fn extract_backticked_paths(contents: &str) -> (r: Vec<String>)
    ensures
        views(r@) == backticked_spec(contents@),
{
    let v = chars_of(contents);
    let mut items: Vec<String> = Vec::new();
    let mut open = false;
    let mut current = String::new();
    let mut i: usize = 0;
    assert(v@.take(0) =~= Seq::<char>::empty());
    while i < v.len()
        invariant
            0 <= i <= v@.len(),
            v@ == contents@,
            (views(items@), open, current@) == tick_scan(v@.take(i as int)),
        decreases v@.len() - i,
    {
        assert(v@.take(i + 1).drop_last() =~= v@.take(i as int));
        assert(v@.take(i + 1).last() == v@[i as int]);
        let ch = v[i];
        if ch == '`' {
            if open {
                if is_asset_name_exec(current.as_str()) {
                    let ghost pre = views(items@);
                    items.push(current);
                    assert(views(items@) =~= pre.push(tick_scan(v@.take(i as int)).2));
                }
                current = String::new();
            }
            open = !open;
        } else if open {
            push_char(&mut current, ch);
        }
        i = i + 1;
    }
    assert(v@.take(v@.len() as int) =~= v@);
    items
}

/// `Path::is_absolute` on a textual path.
pub open spec fn is_absolute(p: Seq<char>) -> bool {
    p.len() > 0 && p[0] == '/'
}

/// The directory that holds AGENTS.md (`.` when the path has no parent).
pub open spec fn agents_dir(agents_path: Seq<char>) -> Seq<char> {
    match parent_spec(agents_path) {
        Some(p) => p,
        None => "."@,
    }
}

/// Where a reference in AGENTS.md points: absolute references as they are,
/// others relative to the directory that holds AGENTS.md.
pub open spec fn resolve_spec(agents_path: Seq<char>, reference: Seq<char>) -> Seq<char> {
    if is_absolute(reference) {
        reference
    } else {
        path_join_spec(agents_dir(agents_path), reference)
    }
}

/// The directory that holds AGENTS.md.
pub fn agents_output_dir(agents_path: &str) -> (r: String)
    ensures
        r@ == agents_dir(agents_path@),
{
    match crate::agent_assets::parent_of(agents_path) {
        Some(p) => p,
        None => owned("."),
    }
}

/// Resolves a reference found in AGENTS.md.
pub fn resolve_reference(agents_path: &str, reference: &str) -> (r: String)
    ensures
        r@ == resolve_spec(agents_path@, reference@),
{
    let v = chars_of(reference);
    if v.len() > 0 && v[0] == '/' {
        owned(reference)
    } else {
        let dir = agents_output_dir(agents_path);
        path_join(dir.as_str(), reference)
    }
}


/// What each asset name in AGENTS.md resolves to, in order.
pub open spec fn referenced_spec(contents: Seq<char>, agents_path: Seq<char>) -> Seq<Seq<char>> {
    backticked_spec(contents).map_values(|r: Seq<char>| resolve_spec(agents_path, r))
}

/// The paths of the assets AGENTS.md refers to, resolved; the caller tells
/// which of them exist.
pub fn referenced_asset_paths(contents: &str, agents_path: &str) -> (r: Vec<String>)
    ensures
        views(r@) == referenced_spec(contents@, agents_path@),
{
    let refs = extract_backticked_paths(contents);
    let mut out: Vec<String> = Vec::new();
    let mut i: usize = 0;
    while i < refs.len()
        invariant
            0 <= i <= refs@.len(),
            views(refs@) == backticked_spec(contents@),
            views(out@) == views(refs@).take(i as int).map_values(
                |r: Seq<char>| resolve_spec(agents_path@, r),
            ),
        decreases refs@.len() - i,
    {
        let ghost pre = views(out@);
        out.push(resolve_reference(agents_path, refs[i].as_str()));
        assert(views(out@) =~= pre.push(resolve_spec(agents_path@, views(refs@)[i as int])));
        assert(views(out@) =~= views(refs@).take(i + 1).map_values(
            |r: Seq<char>| resolve_spec(agents_path@, r),
        ));
        i = i + 1;
    }
    assert(views(refs@).take(refs@.len() as int) =~= views(refs@));
    out
}

/// The paths whose flag says they are absent, in order.
pub open spec fn absent_spec(paths: Seq<Seq<char>>, exists: Seq<bool>) -> Seq<Seq<char>>
    decreases paths.len(),
{
    if paths.len() == 0 {
        Seq::empty()
    } else {
        let prev = absent_spec(paths.drop_last(), exists.take(paths.len() - 1));
        if exists[paths.len() - 1] {
            prev
        } else {
            prev.push(paths.last())
        }
    }
}

pub open spec fn referenced_check_spec(paths: Seq<Seq<char>>, exists: Seq<bool>) -> CheckView {
    if paths.len() == 0 {
        ("Referenced assets"@, DoctorStatus::Warn, "No referenced agent assets found in AGENTS.md"@)
    } else {
        let missing = absent_spec(paths, exists);
        if missing.len() == 0 {
            ("Referenced assets"@, DoctorStatus::Pass, "All referenced agent assets exist"@)
        } else {
            ("Referenced assets"@, DoctorStatus::Fail, "Missing assets: "@ + seq_join(missing, ", "@))
        }
    }
}

fn absent_paths(paths: &Vec<String>, exists: &Vec<bool>) -> (r: Vec<String>)
    requires
        exists@.len() == paths@.len(),
    ensures
        views(r@) == absent_spec(views(paths@), exists@),
{
    let mut out: Vec<String> = Vec::new();
    let mut i: usize = 0;
    while i < paths.len()
        invariant
            0 <= i <= paths@.len(),
            exists@.len() == paths@.len(),
            views(out@) == absent_spec(views(paths@).take(i as int), exists@.take(i as int)),
        decreases paths@.len() - i,
    {
        let ghost pre = views(out@);
        assert(views(paths@).take(i + 1).drop_last() =~= views(paths@).take(i as int));
        assert(exists@.take(i + 1).take(i as int) =~= exists@.take(i as int));
        if !exists[i] {
            out.push(owned(paths[i].as_str()));
            assert(views(out@) =~= pre.push(views(paths@)[i as int]));
        }
        i = i + 1;
    }
    assert(views(paths@).take(paths@.len() as int) =~= views(paths@));
    assert(exists@.take(paths@.len() as int) =~= exists@);
    out
}

/// Whether the assets AGENTS.md refers to exist; `exists[i]` tells it of the
/// `i`-th path of `referenced_asset_paths`.
pub fn check_referenced_assets(contents: &str, agents_path: &str, exists: &Vec<bool>) -> (r: DoctorCheck)
    requires
        exists@.len() == referenced_spec(contents@, agents_path@).len(),
    ensures
        check_view(r) == referenced_check_spec(referenced_spec(contents@, agents_path@), exists@),
{
    let paths = referenced_asset_paths(contents, agents_path);
    if paths.len() == 0 {
        return make_check(
            "Referenced assets",
            DoctorStatus::Warn,
            owned("No referenced agent assets found in AGENTS.md"),
        );
    }
    let missing = absent_paths(&paths, exists);
    if missing.len() == 0 {
        make_check("Referenced assets", DoctorStatus::Pass, owned("All referenced agent assets exist"))
    } else {
        let joined = join(&missing, ", ");
        make_check("Referenced assets", DoctorStatus::Fail, concat("Missing assets: ", joined.as_str()))
    }
}

/// AGENTS.md followed by each asset it refers to, each path once.
pub open spec fn targets_spec(agents_path: Seq<char>, paths: Seq<Seq<char>>) -> Seq<Seq<char>>
    decreases paths.len(),
{
    if paths.len() == 0 {
        seq![agents_path]
    } else {
        let prev = targets_spec(agents_path, paths.drop_last());
        if prev.contains(paths.last()) {
            prev
        } else {
            prev.push(paths.last())
        }
    }
}

fn list_holds(list: &Vec<String>, s: &str) -> (r: bool)
    ensures
        r == views(list@).contains(s@),
{
    crate::rules::entitlements::strings_contain(list, s)
}

/// The files whose age the freshness check compares with the report.
pub fn freshness_targets(contents: &str, agents_path: &str) -> (r: Vec<String>)
    ensures
        views(r@) == targets_spec(agents_path@, referenced_spec(contents@, agents_path@)),
{
    let paths = referenced_asset_paths(contents, agents_path);
    let ghost ps = views(paths@);
    let mut out: Vec<String> = Vec::new();
    out.push(owned(agents_path));
    assert(views(out@) =~= seq![agents_path@]);
    assert(ps.take(0) =~= Seq::<Seq<char>>::empty());
    let mut i: usize = 0;
    while i < paths.len()
        invariant
            0 <= i <= paths@.len(),
            ps == views(paths@),
            views(out@) == targets_spec(agents_path@, ps.take(i as int)),
        decreases paths@.len() - i,
    {
        assert(ps.take(i + 1).drop_last() =~= ps.take(i as int));
        let ghost pre = views(out@);
        if !list_holds(&out, paths[i].as_str()) {
            out.push(owned(paths[i].as_str()));
            assert(views(out@) =~= pre.push(ps[i as int]));
        }
        i = i + 1;
    }
    assert(ps.take(paths@.len() as int) =~= ps);
    out
}

/// The targets older than the report, in order; a target whose age is not
/// known is left out.
pub open spec fn stale_spec(targets: Seq<Seq<char>>, modified: Seq<Option<u128>>, report: u128) -> Seq<
    Seq<char>,
>
    decreases targets.len(),
{
    if targets.len() == 0 {
        Seq::empty()
    } else {
        let prev = stale_spec(targets.drop_last(), modified.take(targets.len() - 1), report);
        match modified[targets.len() - 1] {
            Some(m) => if m < report {
                prev.push(targets.last())
            } else {
                prev
            },
            None => prev,
        }
    }
}

pub open spec fn freshness_check_spec(
    source: Option<(Seq<char>, u128)>,
    targets: Seq<Seq<char>>,
    modified: Seq<Option<u128>>,
) -> CheckView {
    match source {
        None => (
            "Asset freshness"@,
            DoctorStatus::Pass,
            "No report.json or report.sarif found; freshness check skipped"@,
        ),
        Some((path, when)) => {
            let stale = stale_spec(targets, modified, when);
            if stale.len() == 0 {
                (
                    "Asset freshness"@,
                    DoctorStatus::Pass,
                    "Generated assets are at least as new as "@ + path,
                )
            } else {
                (
                    "Asset freshness"@,
                    DoctorStatus::Warn,
                    "These assets look older than "@ + path + ": "@ + seq_join(stale, ", "@),
                )
            }
        },
    }
}

pub open spec fn source_view(s: Option<(String, u128)>) -> Option<(Seq<char>, u128)> {
    match s {
        Some((p, t)) => Some((p@, t)),
        None => None,
    }
}

/// Compares the freshness targets with the report they should be at least as
/// new as: `modified[i]` is the time the `i`-th target was last written, when
/// known, and `source` the report with its time.
pub fn check_asset_freshness(
    source: &Option<(String, u128)>,
    targets: &Vec<String>,
    modified: &Vec<Option<u128>>,
) -> (r: DoctorCheck)
    requires
        modified@.len() == targets@.len(),
    ensures
        check_view(r) == freshness_check_spec(source_view(*source), views(targets@), modified@),
{
    match source {
        None => make_check(
            "Asset freshness",
            DoctorStatus::Pass,
            owned("No report.json or report.sarif found; freshness check skipped"),
        ),
        Some((path, when)) => {
            let mut stale: Vec<String> = Vec::new();
            let mut i: usize = 0;
            while i < targets.len()
                invariant
                    0 <= i <= targets@.len(),
                    modified@.len() == targets@.len(),
                    views(stale@) == stale_spec(
                        views(targets@).take(i as int),
                        modified@.take(i as int),
                        *when,
                    ),
                decreases targets@.len() - i,
            {
                assert(views(targets@).take(i + 1).drop_last() =~= views(targets@).take(i as int));
                assert(modified@.take(i + 1).take(i as int) =~= modified@.take(i as int));
                let ghost pre = views(stale@);
                match modified[i] {
                    Some(m) => {
                        if m < *when {
                            stale.push(owned(targets[i].as_str()));
                            assert(views(stale@) =~= pre.push(views(targets@)[i as int]));
                        }
                    },
                    None => {},
                }
                i = i + 1;
            }
            assert(views(targets@).take(targets@.len() as int) =~= views(targets@));
            assert(modified@.take(targets@.len() as int) =~= modified@);
            if stale.len() == 0 {
                make_check(
                    "Asset freshness",
                    DoctorStatus::Pass,
                    concat("Generated assets are at least as new as ", path.as_str()),
                )
            } else {
                let mut detail = concat("These assets look older than ", path.as_str());
                push_str(&mut detail, ": ");
                let joined = join(&stale, ", ");
                push_str(&mut detail, joined.as_str());
                make_check("Asset freshness", DoctorStatus::Warn, detail)
            }
        },
    }
}

/// The newer of `report.json` and `report.sarif` under the output directory,
/// given when each was last written (when it exists); on a tie, the SARIF one.
pub open spec fn latest_spec(output_dir: Seq<char>, json: Option<u128>, sarif: Option<u128>) -> Option<
    (Seq<char>, u128),
> {
    let jp = path_join_spec(output_dir, "report.json"@);
    let sp = path_join_spec(output_dir, "report.sarif"@);
    match (json, sarif) {
        (None, None) => None,
        (Some(j), None) => Some((jp, j)),
        (None, Some(s)) => Some((sp, s)),
        (Some(j), Some(s)) => if s >= j {
            Some((sp, s))
        } else {
            Some((jp, j))
        },
    }
}

pub fn latest_report_artifact(output_dir: &str, json_modified: Option<u128>, sarif_modified: Option<u128>) -> (r:
    Option<(String, u128)>)
    ensures
        source_view(r) == latest_spec(output_dir@, json_modified, sarif_modified),
{
    match (json_modified, sarif_modified) {
        (None, None) => None,
        (Some(j), None) => Some((path_join(output_dir, "report.json"), j)),
        (None, Some(s)) => Some((path_join(output_dir, "report.sarif"), s)),
        (Some(j), Some(s)) => if s >= j {
            Some((path_join(output_dir, "report.sarif"), s))
        } else {
            Some((path_join(output_dir, "report.json"), j))
        },
    }
}

/// The report named with `--freshness-against`, relative to the output
/// directory unless absolute.
pub open spec fn against_path_spec(output_dir: Seq<char>, against: Seq<char>) -> Seq<char> {
    if is_absolute(against) {
        against
    } else {
        path_join_spec(output_dir, against)
    }
}

pub fn freshness_against_path(output_dir: &str, against: &str) -> (r: String)
    ensures
        r@ == against_path_spec(output_dir@, against@),
{
    let v = chars_of(against);
    if v.len() > 0 && v[0] == '/' {
        owned(against)
    } else {
        path_join(output_dir, against)
    }
}

/// The report the freshness check compares with: the one named, when its time
/// is known (and no other then), else the latest of the two default reports.
pub open spec fn freshness_source_spec(
    output_dir: Seq<char>,
    against: Option<Seq<char>>,
    against_modified: Option<u128>,
    json: Option<u128>,
    sarif: Option<u128>,
) -> Option<(Seq<char>, u128)> {
    match against {
        Some(a) => match against_modified {
            Some(m) => Some((against_path_spec(output_dir, a), m)),
            None => None,
        },
        None => latest_spec(output_dir, json, sarif),
    }
}

pub fn resolve_freshness_source(
    output_dir: &str,
    freshness_against: Option<&str>,
    against_modified: Option<u128>,
    json_modified: Option<u128>,
    sarif_modified: Option<u128>,
) -> (r: Option<(String, u128)>)
    ensures
        source_view(r) == freshness_source_spec(
            output_dir@,
            match freshness_against {
                Some(a) => Some(a@),
                None => None,
            },
            against_modified,
            json_modified,
            sarif_modified,
        ),
{
    match freshness_against {
        Some(a) => match against_modified {
            Some(m) => Some((freshness_against_path(output_dir, a), m)),
            None => None,
        },
        None => latest_report_artifact(output_dir, json_modified, sarif_modified),
    }
}

/// The path of the report the freshness check would compare with.
pub fn detect_freshness_source_path(
    output_dir: &str,
    freshness_against: Option<&str>,
    against_modified: Option<u128>,
    json_modified: Option<u128>,
    sarif_modified: Option<u128>,
) -> (r: Option<String>)
    ensures
        opt_view(r) == match freshness_source_spec(
            output_dir@,
            match freshness_against {
                Some(a) => Some(a@),
                None => None,
            },
            against_modified,
            json_modified,
            sarif_modified,
        ) {
            Some((p, _)) => Some(p),
            None => None,
        },
{
    match resolve_freshness_source(output_dir, freshness_against, against_modified, json_modified, sarif_modified) {
        Some((p, _)) => Some(p),
        None => None,
    }
}


/// Reading AGENTS.md line by line: the trimmed `voc ` lines inside fenced
/// blocks, and whether a fence is open.
pub open spec fn voc_scan(ls: Seq<Seq<char>>) -> (Seq<Seq<char>>, bool)
    decreases ls.len(),
{
    if ls.len() == 0 {
        (Seq::empty(), false)
    } else {
        let (cmds, in_block) = voc_scan(ls.drop_last());
        let line = ls.last();
        if is_prefix("```"@, trim_start_spec(line)) {
            (cmds, !in_block)
        } else if in_block && is_prefix("voc "@, trim_start_spec(line)) {
            (cmds.push(trim_spec(line)), in_block)
        } else {
            (cmds, in_block)
        }
    }
}

pub open spec fn voc_commands_spec(contents: Seq<char>) -> Seq<Seq<char>> {
    voc_scan(lines_spec(contents)).0
}

/// The `voc` commands of the fenced blocks of AGENTS.md.
pub fn extract_voc_commands(contents: &str) -> (r: Vec<String>)
    ensures
        views(r@) == voc_commands_spec(contents@),
{
    let ls = lines(contents);
    let ghost lv = views(ls@);
    let mut cmds: Vec<String> = Vec::new();
    let mut in_block = false;
    let mut i: usize = 0;
    assert(lv.take(0) =~= Seq::<Seq<char>>::empty());
    while i < ls.len()
        invariant
            0 <= i <= ls@.len(),
            lv == views(ls@),
            (views(cmds@), in_block) == voc_scan(lv.take(i as int)),
        decreases ls@.len() - i,
    {
        assert(lv.take(i + 1).drop_last() =~= lv.take(i as int));
        let start = trim_start(ls[i].as_str());
        if starts_with(start.as_str(), "```") {
            in_block = !in_block;
        } else if in_block && starts_with(start.as_str(), "voc ") {
            let ghost pre = views(cmds@);
            cmds.push(trim(ls[i].as_str()));
            assert(views(cmds@) =~= pre.push(trim_spec(lv[i as int])));
        }
        i = i + 1;
    }
    assert(lv.take(ls@.len() as int) =~= lv);
    cmds
}

/// The trimmed lines that start with `voc `.
pub open spec fn script_commands_scan(ls: Seq<Seq<char>>) -> Seq<Seq<char>>
    decreases ls.len(),
{
    if ls.len() == 0 {
        Seq::empty()
    } else {
        let prev = script_commands_scan(ls.drop_last());
        if is_prefix("voc "@, trim_spec(ls.last())) {
            prev.push(trim_spec(ls.last()))
        } else {
            prev
        }
    }
}

pub open spec fn script_commands_spec(contents: Seq<char>) -> Seq<Seq<char>> {
    script_commands_scan(lines_spec(contents))
}

/// The `voc` commands of a shell script.
pub fn extract_script_voc_commands(contents: &str) -> (r: Vec<String>)
    ensures
        views(r@) == script_commands_spec(contents@),
{
    let ls = lines(contents);
    let ghost lv = views(ls@);
    let mut cmds: Vec<String> = Vec::new();
    let mut i: usize = 0;
    assert(lv.take(0) =~= Seq::<Seq<char>>::empty());
    while i < ls.len()
        invariant
            0 <= i <= ls@.len(),
            lv == views(ls@),
            views(cmds@) == script_commands_scan(lv.take(i as int)),
        decreases ls@.len() - i,
    {
        assert(lv.take(i + 1).drop_last() =~= lv.take(i as int));
        let t = trim(ls[i].as_str());
        if starts_with(t.as_str(), "voc ") {
            let ghost pre = views(cmds@);
            cmds.push(t);
            assert(views(cmds@) =~= pre.push(trim_spec(lv[i as int])));
        }
        i = i + 1;
    }
    assert(lv.take(ls@.len() as int) =~= lv);
    cmds
}

/// The commands that do not start with `voc `.
pub open spec fn malformed_spec(cmds: Seq<Seq<char>>) -> Seq<Seq<char>>
    decreases cmds.len(),
{
    if cmds.len() == 0 {
        Seq::empty()
    } else {
        let prev = malformed_spec(cmds.drop_last());
        if is_prefix("voc "@, cmds.last()) {
            prev
        } else {
            prev.push(cmds.last())
        }
    }
}

fn malformed_commands(cmds: &Vec<String>) -> (r: Vec<String>)
    ensures
        views(r@) == malformed_spec(views(cmds@)),
{
    let ghost cv = views(cmds@);
    let mut out: Vec<String> = Vec::new();
    let mut i: usize = 0;
    assert(cv.take(0) =~= Seq::<Seq<char>>::empty());
    while i < cmds.len()
        invariant
            0 <= i <= cmds@.len(),
            cv == views(cmds@),
            views(out@) == malformed_spec(cv.take(i as int)),
        decreases cmds@.len() - i,
    {
        assert(cv.take(i + 1).drop_last() =~= cv.take(i as int));
        if !starts_with(cmds[i].as_str(), "voc ") {
            let ghost pre = views(out@);
            out.push(owned(cmds[i].as_str()));
            assert(views(out@) =~= pre.push(cv[i as int]));
        }
        i = i + 1;
    }
    assert(cv.take(cmds@.len() as int) =~= cv);
    out
}

pub open spec fn next_commands_check_spec(contents: Seq<char>) -> CheckView {
    let cmds = voc_commands_spec(contents);
    if cmds.len() == 0 {
        ("Next commands"@, DoctorStatus::Warn, "No sample voc commands found in AGENTS.md"@)
    } else {
        let bad = malformed_spec(cmds);
        if bad.len() == 0 {
            ("Next commands"@, DoctorStatus::Pass, "Sample voc commands look valid"@)
        } else {
            ("Next commands"@, DoctorStatus::Fail, "Malformed commands: "@ + seq_join(bad, " | "@))
        }
    }
}

/// Whether the sample commands of AGENTS.md are `voc` commands.
pub fn check_next_commands(contents: &str) -> (r: DoctorCheck)
    ensures
        check_view(r) == next_commands_check_spec(contents@),
{
    let cmds = extract_voc_commands(contents);
    if cmds.len() == 0 {
        return make_check(
            "Next commands",
            DoctorStatus::Warn,
            owned("No sample voc commands found in AGENTS.md"),
        );
    }
    let bad = malformed_commands(&cmds);
    if bad.len() == 0 {
        make_check("Next commands", DoctorStatus::Pass, owned("Sample voc commands look valid"))
    } else {
        let joined = join(&bad, " | ");
        make_check("Next commands", DoctorStatus::Fail, concat("Malformed commands: ", joined.as_str()))
    }
}

/// The first shell script AGENTS.md refers to, if any.
pub open spec fn first_script_ref(refs: Seq<Seq<char>>) -> Option<Seq<char>>
    decreases refs.len(),
{
    if refs.len() == 0 {
        None
    } else if is_suffix(".sh"@, refs[0]) {
        Some(refs[0])
    } else {
        first_script_ref(refs.drop_first())
    }
}

/// Where the shortcut script AGENTS.md refers to lies.
pub open spec fn script_path_spec(contents: Seq<char>, agents_path: Seq<char>) -> Option<Seq<char>> {
    match first_script_ref(backticked_spec(contents)) {
        Some(r) => Some(resolve_spec(agents_path, r)),
        None => None,
    }
}

pub fn next_steps_script_path(contents: &str, agents_path: &str) -> (r: Option<String>)
    ensures
        opt_view(r) == script_path_spec(contents@, agents_path@),
{
    let refs = extract_backticked_paths(contents);
    let ghost rv = views(refs@);
    let mut i: usize = 0;
    assert(rv.skip(0) =~= rv);
    while i < refs.len()
        invariant
            0 <= i <= refs@.len(),
            rv == views(refs@),
            rv == backticked_spec(contents@),
            first_script_ref(rv) == first_script_ref(rv.skip(i as int)),
        decreases refs@.len() - i,
    {
        assert(rv.skip(i as int).drop_first() =~= rv.skip(i + 1));
        assert(rv.skip(i as int)[0] == rv[i as int]);
        if ends_with(refs[i].as_str(), ".sh") {
            return Some(resolve_reference(agents_path, refs[i].as_str()));
        }
        i = i + 1;
    }
    assert(rv.skip(refs@.len() as int).len() == 0);
    None
}

/// What reading the shortcut script gave.
#[derive(Clone, Debug)]
pub enum ScriptRead {
    Missing,
    Unreadable(String),
    Text(String),
}

pub open spec fn script_read_view(s: ScriptRead) -> Option<Result<Seq<char>, Seq<char>>> {
    match s {
        ScriptRead::Missing => None,
        ScriptRead::Unreadable(e) => Some(Err(e@)),
        ScriptRead::Text(t) => Some(Ok(t@)),
    }
}

/// The follow-up flags AGENTS.md calls for that the script's commands lack.
pub open spec fn missing_flags_spec(contents: Seq<char>, combined: Seq<char>) -> Seq<Seq<char>> {
    (if contains_spec(contents, "pr-brief.md"@) && !contains_spec(combined, "--open-pr-brief"@) {
        seq!["--open-pr-brief"@]
    } else {
        Seq::empty()
    }) + (if contains_spec(contents, "pr-comment.md"@) && !contains_spec(combined, "--open-pr-comment"@) {
        seq!["--open-pr-comment"@]
    } else {
        Seq::empty()
    })
}

pub open spec fn script_text_check_spec(contents: Seq<char>, path: Seq<char>, text: Seq<char>) -> CheckView {
    let cmds = script_commands_spec(text);
    if cmds.len() == 0 {
        ("next-steps.sh"@, DoctorStatus::Fail, "No voc commands found in "@ + path)
    } else if malformed_spec(cmds).len() > 0 {
        (
            "next-steps.sh"@,
            DoctorStatus::Fail,
            "Malformed script commands: "@ + seq_join(malformed_spec(cmds), " | "@),
        )
    } else {
        let flags = missing_flags_spec(contents, seq_join(cmds, "\n"@));
        if flags.len() > 0 {
            (
                "next-steps.sh"@,
                DoctorStatus::Fail,
                "Script is missing follow-up flags referenced by AGENTS.md: "@ + seq_join(flags, ", "@),
            )
        } else {
            ("next-steps.sh"@, DoctorStatus::Pass, "Shortcut script looks valid: "@ + path)
        }
    }
}

pub open spec fn script_check_spec(
    contents: Seq<char>,
    agents_path: Seq<char>,
    script: Option<Result<Seq<char>, Seq<char>>>,
) -> CheckView {
    match script_path_spec(contents, agents_path) {
        None => (
            "next-steps.sh"@,
            DoctorStatus::Warn,
            "No referenced next-steps.sh script found in AGENTS.md"@,
        ),
        Some(path) => match script {
            None => ("next-steps.sh"@, DoctorStatus::Fail, "Missing script: "@ + path),
            Some(Err(e)) => ("next-steps.sh"@, DoctorStatus::Fail, "Failed to read "@ + path + ": "@ + e),
            Some(Ok(text)) => script_text_check_spec(contents, path, text),
        },
    }
}

fn missing_flags(contents: &str, combined: &str) -> (r: Vec<String>)
    ensures
        views(r@) == missing_flags_spec(contents@, combined@),
{
    let mut out: Vec<String> = Vec::new();
    if contains(contents, "pr-brief.md") && !contains(combined, "--open-pr-brief") {
        out.push(owned("--open-pr-brief"));
    }
    let ghost mid = views(out@);
    if contains(contents, "pr-comment.md") && !contains(combined, "--open-pr-comment") {
        out.push(owned("--open-pr-comment"));
    }
    assert(views(out@) =~= missing_flags_spec(contents@, combined@));
    out
}

fn check_script_text(contents: &str, path: &str, text: &str) -> (r: DoctorCheck)
    ensures
        check_view(r) == script_text_check_spec(contents@, path@, text@),
{
    let cmds = extract_script_voc_commands(text);
    if cmds.len() == 0 {
        return make_check("next-steps.sh", DoctorStatus::Fail, concat("No voc commands found in ", path));
    }
    let bad = malformed_commands(&cmds);
    if bad.len() > 0 {
        let joined = join(&bad, " | ");
        return make_check(
            "next-steps.sh",
            DoctorStatus::Fail,
            concat("Malformed script commands: ", joined.as_str()),
        );
    }
    let combined = join(&cmds, "\n");
    let flags = missing_flags(contents, combined.as_str());
    if flags.len() > 0 {
        let joined = join(&flags, ", ");
        return make_check(
            "next-steps.sh",
            DoctorStatus::Fail,
            concat("Script is missing follow-up flags referenced by AGENTS.md: ", joined.as_str()),
        );
    }
    make_check("next-steps.sh", DoctorStatus::Pass, concat("Shortcut script looks valid: ", path))
}

/// Whether the shortcut script AGENTS.md refers to is there and runs the
/// commands AGENTS.md promises; `script` is what reading it gave.
pub fn check_next_steps_script(contents: &str, agents_path: &str, script: &ScriptRead) -> (r: DoctorCheck)
    ensures
        check_view(r) == script_check_spec(contents@, agents_path@, script_read_view(*script)),
{
    match next_steps_script_path(contents, agents_path) {
        None => make_check(
            "next-steps.sh",
            DoctorStatus::Warn,
            owned("No referenced next-steps.sh script found in AGENTS.md"),
        ),
        Some(path) => match script {
            ScriptRead::Missing => make_check("next-steps.sh", DoctorStatus::Fail, concat("Missing script: ", path.as_str())),
            ScriptRead::Unreadable(e) => {
                let mut detail = concat("Failed to read ", path.as_str());
                push_str(&mut detail, ": ");
                push_str(&mut detail, e.as_str());
                make_check("next-steps.sh", DoctorStatus::Fail, detail)
            },
            ScriptRead::Text(t) => check_script_text(contents, path.as_str(), t.as_str()),
        },
    }
}


/// What the doctor read from disk: the config file's load outcome, AGENTS.md
/// (none when it is missing), whether each referenced asset exists, the
/// report to compare ages with, when each freshness target was written, and
/// the shortcut script.
#[derive(Clone, Debug)]
pub struct DoctorFacts {
    pub config_path: Option<String>,
    pub config_error: Option<String>,
    pub agents_path: String,
    pub agents_contents: Option<String>,
    pub referenced_exist: Vec<bool>,
    pub freshness_source: Option<(String, u128)>,
    pub target_modified: Vec<Option<u128>>,
    pub script: ScriptRead,
}

/// The per-path facts line up with the paths AGENTS.md yields.
pub open spec fn facts_aligned(f: DoctorFacts) -> bool {
    match f.agents_contents {
        Some(c) => f.referenced_exist@.len() == referenced_spec(c@, f.agents_path@).len()
            && f.target_modified@.len() == targets_spec(
            f.agents_path@,
            referenced_spec(c@, f.agents_path@),
        ).len(),
        None => true,
    }
}

/// The checks, in order: config and AGENTS.md always; the rest only when
/// AGENTS.md exists.
pub open spec fn doctor_checks_spec(f: DoctorFacts) -> Seq<CheckView> {
    let head = seq![
        config_check_spec(opt_view(f.config_path), opt_view(f.config_error)),
        presence_check_spec(f.agents_path@, f.agents_contents is Some),
    ];
    match f.agents_contents {
        None => head,
        Some(c) => head + seq![
            referenced_check_spec(referenced_spec(c@, f.agents_path@), f.referenced_exist@),
            freshness_check_spec(
                source_view(f.freshness_source),
                targets_spec(f.agents_path@, referenced_spec(c@, f.agents_path@)),
                f.target_modified@,
            ),
            next_commands_check_spec(c@),
            script_check_spec(c@, f.agents_path@, script_read_view(f.script)),
        ],
    }
}

/// Runs the checks on what was read.
pub fn run_doctor(facts: &DoctorFacts) -> (r: DoctorReport)
    requires
        facts_aligned(*facts),
    ensures
        checks_view(r.checks@) == doctor_checks_spec(*facts),
        r.repair_plan@.len() == 0,
        r.plan_context is None,
{
    let mut checks: Vec<DoctorCheck> = Vec::new();
    let config_path = match &facts.config_path {
        Some(p) => Some(p.as_str()),
        None => None,
    };
    let load_error = match &facts.config_error {
        Some(e) => Some(owned(e.as_str())),
        None => None,
    };
    checks.push(check_config(config_path, load_error));
    checks.push(check_agents_presence(facts.agents_path.as_str(), facts.agents_contents.is_some()));
    if let Some(c) = &facts.agents_contents {
        let agents = facts.agents_path.as_str();
        checks.push(check_referenced_assets(c.as_str(), agents, &facts.referenced_exist));
        let targets = freshness_targets(c.as_str(), agents);
        checks.push(check_asset_freshness(&facts.freshness_source, &targets, &facts.target_modified));
        checks.push(check_next_commands(c.as_str()));
        checks.push(check_next_steps_script(c.as_str(), agents, &facts.script));
    }
    assert(checks_view(checks@) =~= doctor_checks_spec(*facts));
    DoctorReport { checks, repair_plan: Vec::new(), plan_context: None }
}

pub open spec fn parse_repair_target_spec(v: Seq<char>) -> Result<RepairTarget, Seq<char>> {
    let l = lower_seq(v);
    if l == "agents"@ {
        Ok(RepairTarget::Agents)
    } else if l == "agent-bundle"@ {
        Ok(RepairTarget::AgentBundle)
    } else if l == "fix-prompt"@ {
        Ok(RepairTarget::FixPrompt)
    } else if l == "pr-brief"@ {
        Ok(RepairTarget::PrBrief)
    } else if l == "pr-comment"@ {
        Ok(RepairTarget::PrComment)
    } else {
        Err(
            "Unknown repair target `"@ + v
                + "`. Expected one of: agents, agent-bundle, fix-prompt, pr-brief, pr-comment"@,
        )
    }
}

/// Reads a repair target name, in any letter case.
pub fn parse_repair_target(value: &str) -> (r: Result<RepairTarget, String>)
    ensures
        result_view(r) == parse_repair_target_spec(value@),
{
    let l = to_ascii_lowercase(value);
    if str_eq(l.as_str(), "agents") {
        Ok(RepairTarget::Agents)
    } else if str_eq(l.as_str(), "agent-bundle") {
        Ok(RepairTarget::AgentBundle)
    } else if str_eq(l.as_str(), "fix-prompt") {
        Ok(RepairTarget::FixPrompt)
    } else if str_eq(l.as_str(), "pr-brief") {
        Ok(RepairTarget::PrBrief)
    } else if str_eq(l.as_str(), "pr-comment") {
        Ok(RepairTarget::PrComment)
    } else {
        let mut e = concat("Unknown repair target `", value);
        push_str(&mut e, "`. Expected one of: agents, agent-bundle, fix-prompt, pr-brief, pr-comment");
        Err(e)
    }
}

/// Reads a list of repair target names; the first unknown one is the error.
pub fn parse_repair_targets(raw: Option<&Vec<String>>) -> (r: Result<Vec<RepairTarget>, String>)
    ensures
        match raw {
            None => r matches Ok(v) && v@.len() == 0,
            Some(values) => match r {
                Ok(v) => v@.len() == values@.len() && forall|i: int|
                    0 <= i < values@.len() ==> parse_repair_target_spec(#[trigger] values@[i]@) == Ok::<
                        RepairTarget,
                        Seq<char>,
                    >(v@[i]),
                Err(e) => exists|k: int|
                    0 <= k < values@.len() && parse_repair_target_spec(#[trigger] values@[k]@) == Err::<
                        RepairTarget,
                        Seq<char>,
                    >(e@) && forall|j: int|
                        0 <= j < k ==> parse_repair_target_spec(#[trigger] values@[j]@) is Ok,
            },
        },
{
    let mut out: Vec<RepairTarget> = Vec::new();
    match raw {
        None => Ok(out),
        Some(values) => {
            let mut i: usize = 0;
            while i < values.len()
                invariant
                    0 <= i <= values@.len(),
                    raw == Some(values),
                    out@.len() == i,
                    forall|j: int|
                        0 <= j < i ==> parse_repair_target_spec(#[trigger] values@[j]@) == Ok::<
                            RepairTarget,
                            Seq<char>,
                        >(out@[j]),
                decreases values@.len() - i,
            {
                match parse_repair_target(values[i].as_str()) {
                    Ok(t) => out.push(t),
                    Err(e) => {
                        assert(forall|j: int|
                            0 <= j < i ==> parse_repair_target_spec(#[trigger] values@[j]@) is Ok);
                        return Err(e);
                    },
                }
                i = i + 1;
            }
            Ok(out)
        },
    }
}

/// The context printed with a repair plan.
pub open spec fn plan_context_spec(
    from_scan: Option<Seq<char>>,
    baseline_path: Option<Seq<char>>,
    freshness_source: Option<Seq<char>>,
    policy: RepairPolicy,
) -> (Seq<char>, Option<Seq<char>>, Option<Seq<char>>, Option<Seq<char>>, Seq<Seq<char>>) {
    (
        if from_scan is Some {
            "fresh-scan"@
        } else {
            "existing-assets"@
        },
        from_scan,
        baseline_path,
        freshness_source,
        if policy.repairs_all_spec() {
            seq!["all"@]
        } else {
            unique_sorted_spec(policy.targets().map_values(|t: RepairTarget| t.key_spec()))
        },
    )
}

pub open spec fn plan_context_view(c: DoctorPlanContext) -> (
    Seq<char>,
    Option<Seq<char>>,
    Option<Seq<char>>,
    Option<Seq<char>>,
    Seq<Seq<char>>,
) {
    (c.source@, opt_view(c.scan_artifact), opt_view(c.baseline_path), opt_view(c.freshness_source), views(c.repair_targets@))
}

fn opt_owned(o: Option<&str>) -> (r: Option<String>)
    ensures
        opt_view(r) == match o {
            Some(s) => Some(s@),
            None => None,
        },
{
    match o {
        Some(s) => Some(owned(s)),
        None => None,
    }
}

/// The plan's context: where the findings come from, the baseline, the report
/// freshness is judged against (as `detect_freshness_source_path` found it),
/// and the targets (`all`, or the named ones sorted).
pub fn build_plan_context(
    from_scan: Option<&str>,
    baseline_path: Option<&str>,
    freshness_source: Option<String>,
    policy: &RepairPolicy,
) -> (r: DoctorPlanContext)
    requires
        policy.wf(),
    ensures
        plan_context_view(r) == plan_context_spec(
            match from_scan {
                Some(s) => Some(s@),
                None => None,
            },
            match baseline_path {
                Some(s) => Some(s@),
                None => None,
            },
            opt_view(freshness_source),
            *policy,
        ),
{
    let repair_targets = if policy.repairs_all() {
        let mut v: Vec<String> = Vec::new();
        v.push(owned("all"));
        assert(views(v@) =~= seq!["all"@]);
        v
    } else {
        let targets = policy.repair_targets();
        let mut keys: Vec<String> = Vec::new();
        let mut i: usize = 0;
        while i < targets.len()
            invariant
                0 <= i <= targets@.len(),
                views(keys@) == targets@.take(i as int).map_values(|t: RepairTarget| t.key_spec()),
            decreases targets@.len() - i,
        {
            let ghost pre = views(keys@);
            keys.push(owned(targets[i].key()));
            assert(views(keys@) =~= pre.push(targets@[i as int].key_spec()));
            assert(views(keys@) =~= targets@.take(i + 1).map_values(|t: RepairTarget| t.key_spec()));
            i = i + 1;
        }
        assert(targets@.take(targets@.len() as int) =~= targets@);
        unique_sorted(keys)
    };
    DoctorPlanContext {
        source: if from_scan.is_some() {
            owned("fresh-scan")
        } else {
            owned("existing-assets")
        },
        scan_artifact: opt_owned(from_scan),
        baseline_path: opt_owned(baseline_path),
        freshness_source,
        repair_targets,
    }
}

/// The report `detect_freshness_source_path` finds, as a path.
pub open spec fn detected_source_spec(
    output_dir: Seq<char>,
    against: Option<Seq<char>>,
    against_modified: Option<u128>,
    json: Option<u128>,
    sarif: Option<u128>,
) -> Option<Seq<char>> {
    match freshness_source_spec(output_dir, against, against_modified, json, sarif) {
        Some((p, _)) => Some(p),
        None => None,
    }
}

/// The plan's context for an output directory: its freshness source is the
/// report `detect_freshness_source_path` finds there (given when each
/// candidate report was last modified, `None` where it does not exist).
pub fn plan_context_for(
    from_scan: Option<&str>,
    baseline_path: Option<&str>,
    output_dir: &str,
    freshness_against: Option<&str>,
    against_modified: Option<u128>,
    json_modified: Option<u128>,
    sarif_modified: Option<u128>,
    policy: &RepairPolicy,
) -> (r: DoctorPlanContext)
    requires
        policy.wf(),
    ensures
        r.source@ == (if from_scan is Some {
            "fresh-scan"@
        } else {
            "existing-assets"@
        }),
        opt_view(r.scan_artifact) == (match from_scan {
            Some(s) => Some(s@),
            None => None,
        }),
        opt_view(r.baseline_path) == (match baseline_path {
            Some(s) => Some(s@),
            None => None,
        }),
        opt_view(r.freshness_source) == detected_source_spec(
            output_dir@,
            match freshness_against {
                Some(a) => Some(a@),
                None => None,
            },
            against_modified,
            json_modified,
            sarif_modified,
        ),
        views(r.repair_targets@) == (if policy.repairs_all_spec() {
            seq!["all"@]
        } else {
            unique_sorted_spec(policy.targets().map_values(|t: RepairTarget| t.key_spec()))
        }),
{
    let source = detect_freshness_source_path(
        output_dir,
        freshness_against,
        against_modified,
        json_modified,
        sarif_modified,
    );
    build_plan_context(from_scan, baseline_path, source, policy)
}

} // verus!
