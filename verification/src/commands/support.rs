//! The command line's option values: their names, how a name is read back,
//! and how requested rule identifiers become a rule selection.
use vstd::prelude::*;
use crate::profiles::{
    available_rule_ids, kind_ids, normalize_rule_id, normalized_id, profile_kinds,
    RuleSelection, ScanProfile,
};
use crate::report::data::{AgentPackFormat, FailOn, TimingMode};
use crate::rules::info_plist::unique_sorted_spec;
use crate::rules::entitlements::strings_contain;
use crate::text::{concat, join, lower_seq, owned, push_str, seq_join, str_eq, to_ascii_lowercase, views};

verus! {

/// How the scan report is printed.
#[derive(Clone, Copy, Debug, PartialEq, Eq, Structural)]
pub enum OutputFormat {
    Table,
    Json,
    Sarif,
}

/// The `--fail-on` threshold as given on the command line.
#[derive(Clone, Copy, Debug, PartialEq, Eq, Structural)]
pub enum FailOnLevel {
    Off,
    Error,
    Warning,
}

/// The `--timings` level as given on the command line.
#[derive(Clone, Copy, Debug, PartialEq, Eq, Structural)]
pub enum TimingLevel {
    Summary,
    Full,
}

/// The `--agent-pack-format` value as given on the command line.
#[derive(Clone, Copy, Debug, PartialEq, Eq, Structural)]
pub enum AgentPackOutput {
    Json,
    Markdown,
    Bundle,
}

pub open spec fn output_format_name(v: OutputFormat) -> Seq<char> {
    match v {
        OutputFormat::Table => "table"@,
        OutputFormat::Json => "json"@,
        OutputFormat::Sarif => "sarif"@,
    }
}

pub fn output_format_key(value: OutputFormat) -> (r: String)
    ensures
        r@ == output_format_name(value),
{
    match value {
        OutputFormat::Table => owned("table"),
        OutputFormat::Json => owned("json"),
        OutputFormat::Sarif => owned("sarif"),
    }
}

pub open spec fn profile_name(v: ScanProfile) -> Seq<char> {
    match v {
        ScanProfile::Basic => "basic"@,
        ScanProfile::Full => "full"@,
    }
}

pub fn profile_key(value: ScanProfile) -> (r: String)
    ensures
        r@ == profile_name(value),
{
    match value {
        ScanProfile::Basic => owned("basic"),
        ScanProfile::Full => owned("full"),
    }
}

pub open spec fn fail_on_name(v: FailOnLevel) -> Seq<char> {
    match v {
        FailOnLevel::Off => "off"@,
        FailOnLevel::Error => "error"@,
        FailOnLevel::Warning => "warning"@,
    }
}

pub fn fail_on_key(value: FailOnLevel) -> (r: String)
    ensures
        r@ == fail_on_name(value),
{
    match value {
        FailOnLevel::Off => owned("off"),
        FailOnLevel::Error => owned("error"),
        FailOnLevel::Warning => owned("warning"),
    }
}

pub open spec fn timing_name(v: TimingLevel) -> Seq<char> {
    match v {
        TimingLevel::Summary => "summary"@,
        TimingLevel::Full => "full"@,
    }
}

pub fn timing_key(value: TimingLevel) -> (r: String)
    ensures
        r@ == timing_name(value),
{
    match value {
        TimingLevel::Summary => owned("summary"),
        TimingLevel::Full => owned("full"),
    }
}

pub open spec fn agent_pack_output_name(v: AgentPackOutput) -> Seq<char> {
    match v {
        AgentPackOutput::Json => "json"@,
        AgentPackOutput::Markdown => "markdown"@,
        AgentPackOutput::Bundle => "bundle"@,
    }
}

pub fn agent_pack_format_key(value: AgentPackOutput) -> (r: String)
    ensures
        r@ == agent_pack_output_name(value),
{
    match value {
        AgentPackOutput::Json => owned("json"),
        AgentPackOutput::Markdown => owned("markdown"),
        AgentPackOutput::Bundle => owned("bundle"),
    }
}

/// The error for a value that names no option: "Unknown {what} `{value}`.
/// Expected one of: {choices}".
pub open spec fn unknown_value(what: Seq<char>, value: Seq<char>, choices: Seq<char>) -> Seq<char> {
    "Unknown "@ + what + " `"@ + value + "`. Expected one of: "@ + choices
}

fn unknown_value_text(what: &str, value: &str, choices: &str) -> (r: String)
    ensures
        r@ == unknown_value(what@, value@, choices@),
{
    let mut out = concat("Unknown ", what);
    push_str(&mut out, " `");
    push_str(&mut out, value);
    push_str(&mut out, "`. Expected one of: ");
    push_str(&mut out, choices);
    out
}

pub open spec fn parse_output_format_spec(v: Seq<char>) -> Result<OutputFormat, Seq<char>> {
    let l = lower_seq(v);
    if l == "table"@ {
        Ok(OutputFormat::Table)
    } else if l == "json"@ {
        Ok(OutputFormat::Json)
    } else if l == "sarif"@ {
        Ok(OutputFormat::Sarif)
    } else {
        Err(unknown_value("output format"@, v, "table, json, sarif"@))
    }
}

pub open spec fn result_view<T>(r: Result<T, String>) -> Result<T, Seq<char>> {
    match r {
        Ok(t) => Ok(t),
        Err(e) => Err(e@),
    }
}

/// Reads an output format name, in any letter case.
pub fn parse_output_format(value: &str) -> (r: Result<OutputFormat, String>)
    ensures
        result_view(r) == parse_output_format_spec(value@),
{
    let l = to_ascii_lowercase(value);
    if str_eq(l.as_str(), "table") {
        Ok(OutputFormat::Table)
    } else if str_eq(l.as_str(), "json") {
        Ok(OutputFormat::Json)
    } else if str_eq(l.as_str(), "sarif") {
        Ok(OutputFormat::Sarif)
    } else {
        Err(unknown_value_text("output format", value, "table, json, sarif"))
    }
}

pub open spec fn parse_profile_spec(v: Seq<char>) -> Result<ScanProfile, Seq<char>> {
    let l = lower_seq(v);
    if l == "basic"@ {
        Ok(ScanProfile::Basic)
    } else if l == "full"@ {
        Ok(ScanProfile::Full)
    } else {
        Err(unknown_value("profile"@, v, "basic, full"@))
    }
}

/// Reads a scan profile name, in any letter case.
pub fn parse_profile(value: &str) -> (r: Result<ScanProfile, String>)
    ensures
        result_view(r) == parse_profile_spec(value@),
{
    let l = to_ascii_lowercase(value);
    if str_eq(l.as_str(), "basic") {
        Ok(ScanProfile::Basic)
    } else if str_eq(l.as_str(), "full") {
        Ok(ScanProfile::Full)
    } else {
        Err(unknown_value_text("profile", value, "basic, full"))
    }
}

/// Reads an optional profile name.
pub fn parse_optional_cli_profile(value: Option<&str>) -> (r: Result<Option<ScanProfile>, String>)
    ensures
        match value {
            None => r == Ok::<Option<ScanProfile>, String>(None),
            Some(v) => match (r, parse_profile_spec(v@)) {
                (Ok(Some(p)), Ok(q)) => p == q,
                (Err(e), Err(m)) => e@ == m,
                _ => false,
            },
        },
{
    match value {
        None => Ok(None),
        Some(v) => match parse_profile(v) {
            Ok(p) => Ok(Some(p)),
            Err(e) => Err(e),
        },
    }
}

pub open spec fn parse_fail_on_spec(v: Seq<char>) -> Result<FailOn, Seq<char>> {
    let l = lower_seq(v);
    if l == "off"@ {
        Ok(FailOn::Off)
    } else if l == "error"@ {
        Ok(FailOn::Error)
    } else if l == "warning"@ {
        Ok(FailOn::Warning)
    } else {
        Err(unknown_value("fail-on threshold"@, v, "off, error, warning"@))
    }
}

/// Reads a failure threshold, in any letter case.
pub fn parse_fail_on(value: &str) -> (r: Result<FailOn, String>)
    ensures
        result_view(r) == parse_fail_on_spec(value@),
{
    let l = to_ascii_lowercase(value);
    if str_eq(l.as_str(), "off") {
        Ok(FailOn::Off)
    } else if str_eq(l.as_str(), "error") {
        Ok(FailOn::Error)
    } else if str_eq(l.as_str(), "warning") {
        Ok(FailOn::Warning)
    } else {
        Err(unknown_value_text("fail-on threshold", value, "off, error, warning"))
    }
}

pub open spec fn parse_timing_mode_spec(v: Seq<char>) -> Result<TimingMode, Seq<char>> {
    let l = lower_seq(v);
    if l == "off"@ {
        Ok(TimingMode::Off)
    } else if l == "summary"@ {
        Ok(TimingMode::Summary)
    } else if l == "full"@ {
        Ok(TimingMode::Full)
    } else {
        Err(unknown_value("timings mode"@, v, "off, summary, full"@))
    }
}

/// Reads a timings mode, in any letter case.
pub fn parse_timing_mode(value: &str) -> (r: Result<TimingMode, String>)
    ensures
        result_view(r) == parse_timing_mode_spec(value@),
{
    let l = to_ascii_lowercase(value);
    if str_eq(l.as_str(), "off") {
        Ok(TimingMode::Off)
    } else if str_eq(l.as_str(), "summary") {
        Ok(TimingMode::Summary)
    } else if str_eq(l.as_str(), "full") {
        Ok(TimingMode::Full)
    } else {
        Err(unknown_value_text("timings mode", value, "off, summary, full"))
    }
}

pub open spec fn parse_agent_pack_format_spec(v: Seq<char>) -> Result<AgentPackFormat, Seq<char>> {
    let l = lower_seq(v);
    if l == "json"@ {
        Ok(AgentPackFormat::Json)
    } else if l == "markdown"@ {
        Ok(AgentPackFormat::Markdown)
    } else if l == "bundle"@ {
        Ok(AgentPackFormat::Bundle)
    } else {
        Err(unknown_value("agent pack format"@, v, "json, markdown, bundle"@))
    }
}

/// Reads an agent pack format, in any letter case.
pub fn parse_agent_pack_format(value: &str) -> (r: Result<AgentPackFormat, String>)
    ensures
        result_view(r) == parse_agent_pack_format_spec(value@),
{
    let l = to_ascii_lowercase(value);
    if str_eq(l.as_str(), "json") {
        Ok(AgentPackFormat::Json)
    } else if str_eq(l.as_str(), "markdown") {
        Ok(AgentPackFormat::Markdown)
    } else if str_eq(l.as_str(), "bundle") {
        Ok(AgentPackFormat::Bundle)
    } else {
        Err(unknown_value_text("agent pack format", value, "json, markdown, bundle"))
    }
}

/// Reads an optional output format.
pub fn parse_optional_output_format(value: Option<&str>) -> (r: Result<Option<OutputFormat>, String>)
    ensures
        match value {
            None => r == Ok::<Option<OutputFormat>, String>(None),
            Some(v) => match (r, parse_output_format_spec(v@)) {
                (Ok(Some(p)), Ok(q)) => p == q,
                (Err(e), Err(m)) => e@ == m,
                _ => false,
            },
        },
{
    match value {
        None => Ok(None),
        Some(v) => match parse_output_format(v) {
            Ok(p) => Ok(Some(p)),
            Err(e) => Err(e),
        },
    }
}

/// The normalized form of each requested identifier.
pub open spec fn normalized_all(values: Seq<String>) -> Seq<Seq<char>> {
    values.map_values(|v: String| normalized_id(v@))
}

/// Two lists hold the same strings, however often and in whatever order.
pub open spec fn same_members(a: Seq<Seq<char>>, b: Seq<Seq<char>>) -> bool {
    forall|s: Seq<char>| a.contains(s) <==> b.contains(s)
}

/// `k` is the first position whose identifier is not available.
pub open spec fn first_unavailable_at(ns: Seq<Seq<char>>, available: Seq<Seq<char>>, k: int) -> bool {
    &&& 0 <= k < ns.len()
    &&& !available.contains(ns[k])
    &&& forall|j: int| 0 <= j < k ==> available.contains(#[trigger] ns[j])
}

pub open spec fn all_available(ns: Seq<Seq<char>>, available: Seq<Seq<char>>) -> bool {
    forall|j: int| 0 <= j < ns.len() ==> available.contains(#[trigger] ns[j])
}

/// "Rule `{id}` is not available for this profile via {flag}. Valid values: {a, b, ...}".
pub open spec fn unavailable_message(id: Seq<char>, flag: Seq<char>, available: Seq<Seq<char>>) -> Seq<
    char,
> {
    "Rule `"@ + id + "` is not available for this profile via "@ + flag + ". Valid values: "@
        + seq_join(available, ", "@)
}

/// What normalizing a requested list against the available identifiers gives:
/// the distinct normalized identifiers, or the error for the first one that
/// is not available.
pub open spec fn normalized_request_ok(
    values: Seq<String>,
    available: Seq<Seq<char>>,
    r: Result<Vec<String>, String>,
    flag: Seq<char>,
) -> bool {
    let ns = normalized_all(values);
    match r {
        Ok(v) => all_available(ns, available) && same_members(views(v@), ns) && views(
            v@,
        ).no_duplicates(),
        Err(e) => exists|k: int|
            first_unavailable_at(ns, available, k) && e@ == unavailable_message(
                #[trigger] ns[k],
                flag,
                available,
            ),
    }
}

fn unavailable_text(id: &str, flag: &str, available: &Vec<String>) -> (r: String)
    ensures
        r@ == unavailable_message(id@, flag@, views(available@)),
{
    let mut out = concat("Rule `", id);
    push_str(&mut out, "` is not available for this profile via ");
    push_str(&mut out, flag);
    push_str(&mut out, ". Valid values: ");
    let valid = join(available, ", ");
    push_str(&mut out, valid.as_str());
    out
}

/// Normalizes requested identifiers and checks each against the available
/// ones: the distinct normalized identifiers, or the first that is not
/// available.
pub fn normalize_against(values: &Vec<String>, available: &Vec<String>) -> (r: Result<Vec<String>, String>)
    ensures
        ({
            let ns = normalized_all(values@);
            let avail = views(available@);
            match r {
                Ok(v) => all_available(ns, avail) && same_members(views(v@), ns) && views(
                    v@,
                ).no_duplicates(),
                Err(id) => exists|k: int| first_unavailable_at(ns, avail, k) && id@ == #[trigger] ns[k],
            }
        }),
{
    let ghost ns = normalized_all(values@);
    let ghost avail = views(available@);
    let mut out: Vec<String> = Vec::new();
    let mut i: usize = 0;
    while i < values.len()
        invariant
            0 <= i <= values@.len(),
            ns == normalized_all(values@),
            avail == views(available@),
            forall|j: int| 0 <= j < i ==> avail.contains(#[trigger] ns[j]),
            same_members(views(out@), ns.take(i as int)),
            views(out@).no_duplicates(),
        decreases values@.len() - i,
    {
        let n = normalize_rule_id(values[i].as_str());
        assert(n@ == ns[i as int]);
        if !strings_contain(available, n.as_str()) {
            assert(first_unavailable_at(ns, avail, i as int));
            return Err(n);
        }
        let ghost pre = views(out@);
        let ghost t0 = ns.take(i as int);
        let ghost t1 = ns.take(i + 1);
        assert(t1 =~= t0.push(ns[i as int]));
        if !strings_contain(&out, n.as_str()) {
            out.push(n);
            assert(views(out@) =~= pre.push(ns[i as int]));
            assert forall|s: Seq<char>| views(out@).contains(s) <==> t1.contains(s) by {
                if views(out@).contains(s) {
                    let k = choose|k: int| 0 <= k < views(out@).len() && views(out@)[k] == s;
                    if k < pre.len() {
                        assert(pre[k] == s);
                        assert(t0.contains(s));
                        let m = choose|m: int| 0 <= m < t0.len() && t0[m] == s;
                        assert(t1[m] == s);
                    } else {
                        assert(t1[i as int] == s);
                    }
                }
                if t1.contains(s) {
                    let m = choose|m: int| 0 <= m < t1.len() && t1[m] == s;
                    if m < i {
                        assert(t0[m] == s);
                        assert(pre.contains(s));
                        let k = choose|k: int| 0 <= k < pre.len() && pre[k] == s;
                        assert(views(out@)[k] == s);
                    } else {
                        assert(views(out@)[pre.len() as int] == s);
                    }
                }
            }
        } else {
            assert forall|s: Seq<char>| views(out@).contains(s) <==> t1.contains(s) by {
                if t1.contains(s) {
                    let m = choose|m: int| 0 <= m < t1.len() && t1[m] == s;
                    if m < i {
                        assert(t0[m] == s);
                    }
                }
                if views(out@).contains(s) {
                    assert(t0.contains(s));
                    let m = choose|m: int| 0 <= m < t0.len() && t0[m] == s;
                    assert(t1[m] == s);
                }
            }
        }
        i = i + 1;
    }
    assert(ns.take(values@.len() as int) =~= ns);
    Ok(out)
}

/// Normalizes requested identifiers and checks each against the available
/// ones (given sorted, as they appear in the error).
pub fn normalize_requested_rules(values: &Vec<String>, available: &Vec<String>, flag_name: &str) -> (r:
    Result<Vec<String>, String>)
    ensures
        normalized_request_ok(values@, views(available@), r, flag_name@),
{
    match normalize_against(values, available) {
        Ok(v) => Ok(v),
        Err(id) => Err(unavailable_text(id.as_str(), flag_name, available)),
    }
}

/// The selection for a profile from the values of the flags that request and
/// skip rules; the first value the profile does not offer is the error,
/// requested ones first.
pub fn build_rule_selection(profile: ScanProfile, requested: &Vec<String>, skipped: &Vec<String>) -> (r:
    Result<RuleSelection, String>)
    ensures
        ({
            let avail = unique_sorted_spec(kind_ids(profile_kinds(profile)));
            let inc = normalized_all(requested@);
            let exc = normalized_all(skipped@);
            match r {
                Ok(sel) => all_available(inc, avail) && all_available(exc, avail) && same_members(
                    views(sel.included@),
                    inc,
                ) && same_members(views(sel.excluded@), exc) && views(sel.included@).no_duplicates()
                    && views(sel.excluded@).no_duplicates(),
                Err(e) => (exists|k: int|
                    first_unavailable_at(inc, avail, k) && e@ == unavailable_message(
                        #[trigger] inc[k],
                        "--in\x63lude"@,
                        avail,
                    )) || (all_available(inc, avail) && exists|k: int|
                    first_unavailable_at(exc, avail, k) && e@ == unavailable_message(
                        #[trigger] exc[k],
                        "--ex\x63lude"@,
                        avail,
                    )),
            }
        }),
{
    let available = available_rule_ids(profile);
    let included = match normalize_requested_rules(requested, &available, "--in\x63lude") {
        Ok(v) => v,
        Err(e) => return Err(e),
    };
    let excluded = match normalize_requested_rules(skipped, &available, "--ex\x63lude") {
        Ok(v) => v,
        Err(e) => return Err(e),
    };
    Ok(RuleSelection { included, excluded })
}

} // verus!
