//! The sticky pull request comment a CI workflow posts: the generated
//! `pr-comment.md` when there is one, else a summary of the scan and doctor.
use vstd::prelude::*;
use crate::doctor::{DoctorCheck, DoctorStatus};
use crate::text::{concat, decimal, join, owned, push_char, push_decimal, push_signed_decimal, push_str, seq_join, signed_decimal, trim, trim_spec, views};

verus! {

pub const STICKY_MARKER: &'static str = "<!-- voc-analysis-comment -->";

/// What upper-casing a text gives (`str::to_uppercase`, Unicode's full case
/// mapping).
pub uninterp spec fn upper_text(s: Seq<char>) -> Seq<char>;

/// Upper-cases a text with `str::to_uppercase`. Which characters come out
/// is Unicode's case mapping, not stated here; only that the result depends
/// on the text alone.
#[verifier::external_body]
fn to_uppercase_text(s: &str) -> (r: String)
    ensures
        r@ == upper_text(s@),
{
    s.to_uppercase()
}

proof fn lemma_join_push(list: Seq<Seq<char>>, sep: Seq<char>, x: Seq<char>)
    requires
        list.len() > 0,
    ensures
        seq_join(list.push(x), sep) == seq_join(list, sep) + sep + x,
{
    assert(list.push(x).drop_last() =~= list);
}

pub open spec fn with_marker_spec(body: Seq<char>, sticky: bool) -> Seq<char> {
    if sticky {
        STICKY_MARKER@ + "\n"@ + body
    } else {
        body
    }
}

/// Puts the sticky marker before a body when asked.
pub fn with_marker(body: &str, sticky_marker: bool) -> (r: String)
    ensures
        r@ == with_marker_spec(body@, sticky_marker),
{
    if sticky_marker {
        let mut out = concat(STICKY_MARKER, "\n");
        push_str(&mut out, body);
        out
    } else {
        owned(body)
    }
}

pub open spec fn status_debug(s: DoctorStatus) -> Seq<char> {
    match s {
        DoctorStatus::Pass => "Pass"@,
        DoctorStatus::Warn => "Warn"@,
        DoctorStatus::Fail => "Fail"@,
    }
}

/// One check as the summary lists it: `NAME: STATUS`.
pub open spec fn check_summary(c: DoctorCheck) -> Seq<char> {
    upper_text(c.name@ + ": "@ + status_debug(c.status))
}

/// The doctor's checks, listed; a report that could not be read, or has no
/// checks, is reported missing.
pub open spec fn doctor_summary_spec(checks: Option<Seq<DoctorCheck>>) -> Seq<char> {
    match checks {
        Some(cs) => summary_of_lines(cs.map_values(|c: DoctorCheck| check_summary(c))),
        None => "doctor report missing"@,
    }
}

/// The summary lines joined with `, `; when that is empty, the report is
/// reported missing.
pub open spec fn summary_of_lines(lines: Seq<Seq<char>>) -> Seq<char> {
    let s = seq_join(lines, ", "@);
    if s.len() > 0 {
        s
    } else {
        "doctor report missing"@
    }
}

/// Joins the (upper-cased) summary lines of the checks.
pub fn summary_from_lines(lines: &Vec<String>) -> (r: String)
    ensures
        r@ == summary_of_lines(views(lines@)),
{
    let s = join(lines, ", ");
    if crate::text::chars_of(s.as_str()).len() > 0 {
        s
    } else {
        owned("doctor report missing")
    }
}

fn status_debug_text(s: DoctorStatus) -> (r: &'static str)
    ensures
        r@ == status_debug(s),
{
    match s {
        DoctorStatus::Pass => "Pass",
        DoctorStatus::Warn => "Warn",
        DoctorStatus::Fail => "Fail",
    }
}

/// The summary of a doctor report, from its checks when it could be read.
pub fn load_doctor_summary(checks: Option<&Vec<DoctorCheck>>) -> (r: String)
    ensures
        r@ == doctor_summary_spec(
            match checks {
                Some(cs) => Some(cs@),
                None => None,
            },
        ),
{
    match checks {
        None => owned("doctor report missing"),
        Some(cs) => {
            let mut parts: Vec<String> = Vec::new();
            let mut i: usize = 0;
            while i < cs.len()
                invariant
                    0 <= i <= cs@.len(),
                    views(parts@) == cs@.take(i as int).map_values(|c: DoctorCheck| check_summary(c)),
                decreases cs@.len() - i,
            {
                let ghost pre = views(parts@);
                let mut line = concat(cs[i].name.as_str(), ": ");
                push_str(&mut line, status_debug_text(cs[i].status));
                let up = to_uppercase_text(line.as_str());
                parts.push(up);
                assert(views(parts@) =~= pre.push(check_summary(cs@[i as int])));
                assert(cs@.take(i + 1).map_values(|c: DoctorCheck| check_summary(c)) =~= cs@.take(
                    i as int,
                ).map_values(|c: DoctorCheck| check_summary(c)).push(check_summary(cs@[i as int])));
                i = i + 1;
            }
            assert(cs@.take(cs@.len() as int) =~= cs@);
            summary_from_lines(&parts)
        },
    }
}

/// The comment when no `pr-comment.md` was generated.
pub open spec fn fallback_body(
    output_dir: Seq<char>,
    scan_exit: i32,
    doctor_exit: i32,
    findings: usize,
    summary: Seq<char>,
) -> Seq<char> {
    seq_join(
        seq![
            "## voc analysis"@,
            Seq::empty(),
            "- Findings: **"@ + decimal(findings as nat) + "**"@,
            "- Scan exit code: `"@ + signed_decimal(scan_exit as int) + "`"@,
            "- Doctor exit code: `"@ + signed_decimal(doctor_exit as int) + "`"@,
            "- Assets uploaded from: `"@ + output_dir + "`"@,
            "- Includes: `report.sarif`, `AGENTS.md`, `fix-prompt.md`, `pr-brief.md`, `pr-comment.md`, `.verifyos-agent/`"@,
            "- Doctor summary: "@ + summary,
        ],
        "\n"@,
    )
}

/// The workflow's comment: the trimmed `pr-comment.md` when it exists (its
/// read error when it could not be read), else the summary built from the
/// fix pack's finding count and the doctor summary; with the sticky marker
/// when asked.
pub open spec fn workflow_comment_spec(
    output_dir: Seq<char>,
    scan_exit: i32,
    doctor_exit: i32,
    sticky: bool,
    existing: Option<Result<Seq<char>, Seq<char>>>,
    findings: usize,
    summary: Seq<char>,
) -> Result<Seq<char>, Seq<char>> {
    match existing {
        Some(Ok(c)) => Ok(with_marker_spec(trim_spec(c), sticky)),
        Some(Err(e)) => Err(e),
        None => Ok(with_marker_spec(fallback_body(output_dir, scan_exit, doctor_exit, findings, summary), sticky)),
    }
}

pub open spec fn read_view(r: Option<Result<String, String>>) -> Option<Result<Seq<char>, Seq<char>>> {
    match r {
        Some(Ok(c)) => Some(Ok(c@)),
        Some(Err(e)) => Some(Err(e@)),
        None => None,
    }
}

fn line(out: &mut String, prefix: &str, middle: &str, suffix: &str)
    ensures
        final(out)@ == old(out)@ + "\n"@ + prefix@ + middle@ + suffix@,
{
    proof {
        reveal_strlit("\n");
    }
    push_char(out, '\n');
    push_str(out, prefix);
    push_str(out, middle);
    push_str(out, suffix);
}

/// Renders the workflow's comment from what was read of the output
/// directory: `existing` is `pr-comment.md` (none when absent), `findings`
/// the fix pack's finding count (0 when it could not be read) and `summary`
/// the doctor summary.
pub fn render_workflow_pr_comment(
    output_dir: &str,
    scan_exit: i32,
    doctor_exit: i32,
    sticky_marker: bool,
    existing: Option<Result<String, String>>,
    findings: usize,
    summary: &str,
) -> (r: Result<String, String>)
    ensures
        match (r, workflow_comment_spec(
            output_dir@,
            scan_exit,
            doctor_exit,
            sticky_marker,
            read_view(existing),
            findings,
            summary@,
        )) {
            (Ok(a), Ok(b)) => a@ == b,
            (Err(a), Err(b)) => a@ == b,
            _ => false,
        },
{
    match existing {
        Some(Ok(c)) => {
            let t = trim(c.as_str());
            Ok(with_marker(t.as_str(), sticky_marker))
        },
        Some(Err(e)) => Err(e),
        None => {
            let mut out = owned("## voc analysis");
            proof {
                reveal_strlit("");
            }
            let ghost parts = seq!["## voc analysis"@];
            assert(seq_join(parts, "\n"@) == parts[0]);
            line(&mut out, "", "", "");
            proof {
                lemma_join_push(parts, "\n"@, Seq::empty());
                parts = parts.push(Seq::empty());
                assert(out@ =~= seq_join(parts, "\n"@));
            }
            let mut count = String::new();
            push_decimal(&mut count, findings as u128);
            line(&mut out, "- Findings: **", count.as_str(), "**");
            proof {
                lemma_join_push(parts, "\n"@, "- Findings: **"@ + decimal(findings as nat) + "**"@);
                parts = parts.push("- Findings: **"@ + decimal(findings as nat) + "**"@);
                assert(out@ =~= seq_join(parts, "\n"@));
            }
            let mut scan = String::new();
            push_signed_decimal(&mut scan, scan_exit as i64);
            line(&mut out, "- Scan exit code: `", scan.as_str(), "`");
            proof {
                lemma_join_push(parts, "\n"@, "- Scan exit code: `"@ + signed_decimal(scan_exit as int) + "`"@);
                parts = parts.push("- Scan exit code: `"@ + signed_decimal(scan_exit as int) + "`"@);
                assert(out@ =~= seq_join(parts, "\n"@));
            }
            let mut doctor = String::new();
            push_signed_decimal(&mut doctor, doctor_exit as i64);
            line(&mut out, "- Doctor exit code: `", doctor.as_str(), "`");
            proof {
                lemma_join_push(parts, "\n"@, "- Doctor exit code: `"@ + signed_decimal(doctor_exit as int) + "`"@);
                parts = parts.push("- Doctor exit code: `"@ + signed_decimal(doctor_exit as int) + "`"@);
                assert(out@ =~= seq_join(parts, "\n"@));
            }
            line(&mut out, "- Assets uploaded from: `", output_dir, "`");
            proof {
                lemma_join_push(parts, "\n"@, "- Assets uploaded from: `"@ + output_dir@ + "`"@);
                parts = parts.push("- Assets uploaded from: `"@ + output_dir@ + "`"@);
                assert(out@ =~= seq_join(parts, "\n"@));
            }
            line(
                &mut out,
                "- Includes: `report.sarif`, `AGENTS.md`, `fix-prompt.md`, `pr-brief.md`, `pr-comment.md`, `.verifyos-agent/`",
                "",
                "",
            );
            proof {
                let inc = "- Includes: `report.sarif`, `AGENTS.md`, `fix-prompt.md`, `pr-brief.md`, `pr-comment.md`, `.verifyos-agent/`"@;
                lemma_join_push(parts, "\n"@, inc);
                parts = parts.push(inc);
                assert(out@ =~= seq_join(parts, "\n"@));
            }
            line(&mut out, "- Doctor summary: ", summary, "");
            proof {
                lemma_join_push(parts, "\n"@, "- Doctor summary: "@ + summary@);
                parts = parts.push("- Doctor summary: "@ + summary@);
                assert(out@ =~= seq_join(parts, "\n"@));
                assert(parts =~= seq![
                    "## voc analysis"@,
                    Seq::<char>::empty(),
                    "- Findings: **"@ + decimal(findings as nat) + "**"@,
                    "- Scan exit code: `"@ + signed_decimal(scan_exit as int) + "`"@,
                    "- Doctor exit code: `"@ + signed_decimal(doctor_exit as int) + "`"@,
                    "- Assets uploaded from: `"@ + output_dir@ + "`"@,
                    "- Includes: `report.sarif`, `AGENTS.md`, `fix-prompt.md`, `pr-brief.md`, `pr-comment.md`, `.verifyos-agent/`"@,
                    "- Doctor summary: "@ + summary@,
                ]);
            }
            Ok(with_marker(out.as_str(), sticky_marker))
        },
    }
}

} // verus!
