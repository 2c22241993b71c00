//! Team identifiers of the app and its embedded bundles.
use vstd::prelude::*;
use crate::rules::base::{
    bare, outcome, report_of, with_evidence, with_message, AppStoreRule, ArtifactContext,
    ReportView, RuleCategory, RuleError, RuleReport, RuleStatus, Severity,
};
use crate::parsers::macho_parser::{MachOError, MachOSignatureSummary};
use crate::parsers::plist_reader::InfoPlist;
use crate::rules::base::BundleFacts;
use crate::rules::entitlements::EntitlementsError;
use crate::text::{concat, extend_strings, join, path_join, path_join_spec, push_str, seq_join, str_eq, views};

verus! {

pub struct EmbeddedCodeSignatureTeamRule;

/// The signing problem of one nested bundle against the app's team, if any.
pub open spec fn bundle_signing_line(b: BundleFacts, app_team: Seq<char>) -> Result<
    Seq<Seq<char>>,
    RuleError,
> {
    let n = b.display_name@;
    match b.executable {
        None => Ok(seq![n + ": Missing CFBundleExecutable"@]),
        Some(f) => match f.signature {
            None => Ok(seq![n + ": Executable not found at "@ + f.path@]),
            Some(Err(e)) => Err(RuleError::MachO(e)),
            Some(Ok(s)) => if s.total_slices == 0 {
                Ok(seq![n + ": No Mach-O slices found"@])
            } else if s.signed_slices == 0 {
                Ok(seq![n + ": Missing code signature"@])
            } else if s.signed_slices < s.total_slices {
                Ok(seq![n + ": Unsigned Mach-O slices"@])
            } else {
                match s.team_id {
                    None => Ok(seq![n + ": Missing Team ID"@]),
                    Some(t) => if t@ != app_team {
                        Ok(seq![n + ": Team ID mismatch ("@ + t@ + " != "@ + app_team + ")"@])
                    } else {
                        Ok(Seq::empty())
                    },
                }
            },
        },
    }
}

/// The signing problems of all nested bundles, stopping at the first error.
pub open spec fn signing_mismatches(bundles: Seq<BundleFacts>, app_team: Seq<char>) -> Result<
    Seq<Seq<char>>,
    RuleError,
>
    decreases bundles.len(),
{
    if bundles.len() == 0 {
        Ok(Seq::empty())
    } else {
        match signing_mismatches(bundles.drop_last(), app_team) {
            Err(e) => Err(e),
            Ok(prev) => match bundle_signing_line(bundles.last(), app_team) {
                Err(e) => Err(e),
                Ok(l) => Ok(prev + l),
            },
        }
    }
}

/// The signature read from the file `CFBundleExecutable` names.
pub open spec fn app_signature(a: ArtifactContext) -> Option<Result<MachOSignatureSummary, MachOError>> {
    match a.app_executable {
        Some(f) => f.signature,
        None => None,
    }
}

/// What the team identifier check reports, given the app's plist.
pub open spec fn signing_outcome_with(a: ArtifactContext, p: InfoPlist) -> Result<ReportView, RuleError> {
    match p.string_at("CFBundleExecutable"@) {
        None => Ok(report_of(RuleStatus::Skip, Some("CFBundleExecutable not found"@), None)),
        Some(exe) => {
            let path = path_join_spec(a.app_bundle_path@, exe);
            match app_signature(a) {
                None => Ok(report_of(RuleStatus::Skip, Some("App executable not found"@), Some(path))),
                Some(Err(e)) => Err(RuleError::MachO(e)),
                Some(Ok(s)) => if s.total_slices == 0 {
                    Ok(report_of(RuleStatus::Skip, Some("No Mach-O slices found"@), Some(path)))
                } else if s.signed_slices == 0 {
                    Ok(
                        report_of(
                            RuleStatus::Fail,
                            Some("App executable missing code signature"@),
                            Some(path),
                        ),
                    )
                } else if s.signed_slices < s.total_slices {
                    Ok(
                        report_of(
                            RuleStatus::Fail,
                            Some("App executable has unsigned slices"@),
                            Some(path),
                        ),
                    )
                } else {
                    match s.team_id {
                        None => Ok(
                            report_of(
                                RuleStatus::Fail,
                                Some("App executable missing Team ID"@),
                                Some(path),
                            ),
                        ),
                        Some(team) => match a.nested_bundles {
                            Err(_) => Err(RuleError::Entitlements(EntitlementsError::ParseFailure)),
                            Ok(b) => if b@.len() == 0 {
                                Ok(
                                    report_of(
                                        RuleStatus::Pass,
                                        Some("No embedded bundles found"@),
                                        None,
                                    ),
                                )
                            } else {
                                match signing_mismatches(b@, team@) {
                                    Err(e) => Err(e),
                                    Ok(m) => if m.len() == 0 {
                                        Ok(
                                            report_of(
                                                RuleStatus::Pass,
                                                Some("Embedded bundles share the same Team ID"@),
                                                None,
                                            ),
                                        )
                                    } else {
                                        Ok(
                                            report_of(
                                                RuleStatus::Fail,
                                                Some("Embedded bundle signing mismatch"@),
                                                Some(seq_join(m, " | "@)),
                                            ),
                                        )
                                    },
                                }
                            },
                        },
                    }
                },
            }
        },
    }
}

/// What the team identifier check reports.
pub open spec fn signing_outcome(a: ArtifactContext) -> Result<ReportView, RuleError> {
    match a.info_plist {
        None => Ok(report_of(RuleStatus::Skip, Some("Info.plist not found"@), None)),
        Some(p) => signing_outcome_with(a, p),
    }
}

fn named_line(name: &str, rest: &str) -> (r: String)
    ensures
        r@ == name@ + rest@,
{
    concat(name, rest)
}

/// The line of `bundle_signing_line`.
fn bundle_signing_line_for(b: &BundleFacts, app_team: &str) -> (r: Result<Vec<String>, RuleError>)
    ensures
        match (r, bundle_signing_line(*b, app_team@)) {
            (Ok(v), Ok(l)) => views(v@) == l,
            (Err(e), Err(f)) => e == f,
            _ => false,
        },
{
    let mut out: Vec<String> = Vec::new();
    let n = b.display_name.as_str();
    match &b.executable {
        None => {
            out.push(named_line(n, ": Missing CFBundleExecutable"));
        },
        Some(f) => match &f.signature {
            None => {
                let mut line = named_line(n, ": Executable not found at ");
                push_str(&mut line, f.path.as_str());
                out.push(line);
            },
            Some(Err(e)) => {
                return Err(RuleError::MachO(e.duplicate()));
            },
            Some(Ok(s)) => {
                if s.total_slices == 0 {
                    out.push(named_line(n, ": No Mach-O slices found"));
                } else if s.signed_slices == 0 {
                    out.push(named_line(n, ": Missing code signature"));
                } else if s.signed_slices < s.total_slices {
                    out.push(named_line(n, ": Unsigned Mach-O slices"));
                } else {
                    match &s.team_id {
                        None => {
                            out.push(named_line(n, ": Missing Team ID"));
                        },
                        Some(t) => {
                            if !str_eq(t.as_str(), app_team) {
                                let mut line = named_line(n, ": Team ID mismatch (");
                                push_str(&mut line, t.as_str());
                                push_str(&mut line, " != ");
                                push_str(&mut line, app_team);
                                push_str(&mut line, ")");
                                out.push(line);
                            }
                        },
                    }
                }
            },
        },
    }
    assert(views(out@) =~= bundle_signing_line(*b, app_team@)->Ok_0);
    Ok(out)
}

proof fn lemma_signing_error_stays(bundles: Seq<BundleFacts>, team: Seq<char>, i: int)
    requires
        0 < i <= bundles.len(),
        signing_mismatches(bundles.take(i), team) is Err,
    ensures
        signing_mismatches(bundles, team) == signing_mismatches(bundles.take(i), team),
    decreases bundles.len() - i,
{
    if i < bundles.len() {
        assert(bundles.take(i + 1).drop_last() =~= bundles.take(i));
        lemma_signing_error_stays(bundles, team, i + 1);
    } else {
        assert(bundles.take(i) =~= bundles);
    }
}

/// The team identifier check against a given `Info.plist` of the app.
fn evaluate_with_plist(artifact: &ArtifactContext, info_plist: &InfoPlist) -> (r: Result<
    RuleReport,
    RuleError,
>)
    ensures
        outcome(r) == signing_outcome_with(*artifact, *info_plist),
{
    let exe = match info_plist.get_string("CFBundleExecutable") {
        None => {
            return Ok(with_message(RuleStatus::Skip, "CFBundleExecutable not found"));
        },
        Some(e) => e,
    };
    let path = path_join(artifact.app_bundle_path.as_str(), exe);
    let signature = match &artifact.app_executable {
        Some(f) => &f.signature,
        None => &None,
    };
    let summary = match signature {
        None => {
            return Ok(with_evidence(RuleStatus::Skip, "App executable not found", path));
        },
        Some(Err(e)) => {
            return Err(RuleError::MachO(e.duplicate()));
        },
        Some(Ok(s)) => s,
    };
    if summary.total_slices == 0 {
        return Ok(with_evidence(RuleStatus::Skip, "No Mach-O slices found", path));
    }
    if summary.signed_slices == 0 {
        return Ok(with_evidence(RuleStatus::Fail, "App executable missing code signature", path));
    }
    if summary.signed_slices < summary.total_slices {
        return Ok(with_evidence(RuleStatus::Fail, "App executable has unsigned slices", path));
    }
    let team = match &summary.team_id {
        None => {
            return Ok(with_evidence(RuleStatus::Fail, "App executable missing Team ID", path));
        },
        Some(t) => t,
    };
    let bundles = match &artifact.nested_bundles {
        Err(_) => {
            return Err(RuleError::Entitlements(EntitlementsError::ParseFailure));
        },
        Ok(b) => b,
    };
    if bundles.len() == 0 {
        return Ok(with_message(RuleStatus::Pass, "No embedded bundles found"));
    }
    let mut mismatches: Vec<String> = Vec::new();
    let mut i: usize = 0;
    assert(bundles@.take(0) =~= Seq::<BundleFacts>::empty());
    assert(views(mismatches@) =~= Seq::<Seq<char>>::empty());
    while i < bundles.len()
        invariant
            0 <= i <= bundles@.len(),
            bundles@.len() > 0,
            match artifact.nested_bundles {
                Ok(b) => b@ == bundles@,
                Err(_) => false,
            },
            signing_outcome_with(*artifact, *info_plist) == (match signing_mismatches(bundles@, team@) {
                Err(e) => Err(e),
                Ok(m) => if m.len() == 0 {
                    Ok(
                        report_of(
                            RuleStatus::Pass,
                            Some("Embedded bundles share the same Team ID"@),
                            None,
                        ),
                    )
                } else {
                    Ok(
                        report_of(
                            RuleStatus::Fail,
                            Some("Embedded bundle signing mismatch"@),
                            Some(seq_join(m, " | "@)),
                        ),
                    )
                },
            }),
            signing_mismatches(bundles@.take(i as int), team@) == Ok::<Seq<Seq<char>>, RuleError>(
                views(mismatches@),
            ),
        decreases bundles@.len() - i,
    {
        assert(bundles@.take(i + 1).drop_last() =~= bundles@.take(i as int));
        let lines = match bundle_signing_line_for(&bundles[i], team.as_str()) {
            Err(e) => {
                proof {
                    lemma_signing_error_stays(bundles@, team@, i as int + 1);
                }
                return Err(e);
            },
            Ok(l) => l,
        };
        extend_strings(&mut mismatches, &lines);
        i = i + 1;
    }
    assert(bundles@.take(bundles@.len() as int) =~= bundles@);
    if mismatches.len() == 0 {
        return Ok(with_message(RuleStatus::Pass, "Embedded bundles share the same Team ID"));
    }
    let evidence = join(&mismatches, " | ");
    Ok(with_evidence(RuleStatus::Fail, "Embedded bundle signing mismatch", evidence))
}

impl AppStoreRule for EmbeddedCodeSignatureTeamRule {
    fn id(&self) -> (r: &'static str)
        ensures
            r@ == "RULE_EMBEDDED_TEAM_ID_MISMATCH"@,
    {
        "RULE_EMBEDDED_TEAM_ID_MISMATCH"
    }

    fn name(&self) -> (r: &'static str)
        ensures
            r@ == "Embedded Team ID Mismatch"@,
    {
        "Embedded Team ID Mismatch"
    }

    fn category(&self) -> (r: RuleCategory)
        ensures
            r == RuleCategory::Signing,
    {
        RuleCategory::Signing
    }

    fn severity(&self) -> (r: Severity)
        ensures
            r == Severity::Error,
    {
        Severity::Error
    }

    fn recommendation(&self) -> (r: &'static str)
        ensures
            r@ == "Ensure all embedded frameworks/extensions are signed with the same Team ID as the app binary."@,
    {
        "Ensure all embedded frameworks/extensions are signed with the same Team ID as the app binary."
    }

    fn evaluate(&self, artifact: &ArtifactContext) -> (r: Result<RuleReport, RuleError>)
        ensures
            outcome(r) == signing_outcome(*artifact),
    {
        match &artifact.info_plist {
            None => Ok(with_message(RuleStatus::Skip, "Info.plist not found")),
            Some(p) => evaluate_with_plist(artifact, p),
        }
    }
}


/// A bundle's executable: the file its `Info.plist` names (`declared`), else
/// the file named after the bundle; each only when it is among the paths that
/// exist.
pub fn resolve_bundle_executable(bundle_path: &str, declared: Option<&str>, present: &Vec<String>) -> (r:
    Option<String>)
    ensures
        crate::paths::opt_string(r) == crate::paths::executable_spec(
            bundle_path@,
            crate::paths::opt_text(declared),
            crate::rules::base::bundle_stem(bundle_path@),
            crate::text::views(present@),
        ),
{
    let stem = crate::rules::base::bundle_stem_of(bundle_path);
    crate::paths::choose_executable(bundle_path, declared, stem.as_str(), present)
}

} // verus!
