//! Debug symbols and profiling instrumentation left in the executable.
use vstd::prelude::*;
use crate::rules::base::{
    bare, outcome, report_of, with_evidence, with_message, AppStoreRule, ArtifactContext,
    ReportView, RuleCategory, RuleError, RuleReport, RuleStatus, Severity,
};
use crate::parsers::macho_scanner::{
    instrumentation_found, scan_instrumentation_from_app_bundle, str_views,
    INSTRUMENTATION_SIGNATURE_COUNT,
};
use crate::parsers::macho_symbols::{check_is_stripped, stripped_of};
use crate::rules::base::ExecutableFile;
use crate::text::{concat, join, owned, seq_join, views};

verus! {

pub struct BinaryStrippingRule;

/// The hygiene findings about the main executable, or the text of the error
/// that stopped the symbol check.
pub open spec fn stripping_issues(a: ArtifactContext, f: ExecutableFile) -> Result<Seq<Seq<char>>, Seq<char>> {
    let instr = match a.scanned_executable {
        Ok(b) => {
            let hits = instrumentation_found(b@, INSTRUMENTATION_SIGNATURE_COUNT as nat);
            if hits.len() > 0 {
                seq!["Leftover LLVM instrumentation detected: "@ + seq_join(hits, ", "@)]
            } else {
                Seq::empty()
            }
        },
        Err(_) => Seq::empty(),
    };
    match f.contents {
        Err(m) => Err(m@),
        Ok(b) => match stripped_of(b@) {
            Err(e) => Err(e),
            Ok(true) => Ok(instr),
            Ok(false) => Ok(instr.push("Binary contains a symbol table (not fully stripped)"@)),
        },
    }
}

/// What the binary hygiene check reports.
pub open spec fn stripping_outcome(a: ArtifactContext) -> Result<ReportView, RuleError> {
    match a.main_executable {
        None => Ok(report_of(RuleStatus::Skip, Some("Main executable not found"@), None)),
        Some(f) => match stripping_issues(a, f) {
            Err(e) => Ok(
                report_of(RuleStatus::Error, Some("Failed to analyze binary symbols: "@ + e), None),
            ),
            Ok(issues) => if issues.len() == 0 {
                Ok(
                    report_of(
                        RuleStatus::Pass,
                        Some("Binary is stripped and free of instrumentation"@),
                        None,
                    ),
                )
            } else {
                Ok(
                    report_of(
                        RuleStatus::Fail,
                        Some("Binary hygiene issues detected"@),
                        Some(seq_join(issues, " | "@)),
                    ),
                )
            },
        },
    }
}

impl AppStoreRule for BinaryStrippingRule {
    fn id(&self) -> (r: &'static str)
        ensures
            r@ == "RULE_BINARY_STRIPPING"@,
    {
        "RULE_BINARY_STRIPPING"
    }

    fn name(&self) -> (r: &'static str)
        ensures
            r@ == "Binary Stripping & Instrumentation Check"@,
    {
        "Binary Stripping & Instrumentation Check"
    }

    fn category(&self) -> (r: RuleCategory)
        ensures
            r == RuleCategory::Bundling,
    {
        RuleCategory::Bundling
    }

    fn severity(&self) -> (r: Severity)
        ensures
            r == Severity::Error,
    {
        Severity::Error
    }

    fn recommendation(&self) -> (r: &'static str)
        ensures
            r@ == "Ensure your binary is stripped of debug symbols and LLVM profiling instrumentation in production builds."@,
    {
        "Ensure your binary is stripped of debug symbols and LLVM profiling instrumentation in production builds."
    }

    fn evaluate(&self, artifact: &ArtifactContext) -> (r: Result<RuleReport, RuleError>)
        ensures
            outcome(r) == stripping_outcome(*artifact),
    {
        let file = match &artifact.main_executable {
            None => {
                return Ok(with_message(RuleStatus::Skip, "Main executable not found"));
            },
            Some(f) => f,
        };
        let mut issues: Vec<String> = Vec::new();
        if let Ok(hits) = scan_instrumentation_from_app_bundle(&artifact.scanned_executable) {
            if hits.len() > 0 {
                let mut names: Vec<String> = Vec::new();
                let mut i: usize = 0;
                assert(views(names@) =~= Seq::<Seq<char>>::empty());
                while i < hits.len()
                    invariant
                        0 <= i <= hits@.len(),
                        views(names@) == str_views(hits@).take(i as int),
                    decreases hits@.len() - i,
                {
                    let ghost pre = views(names@);
                    names.push(owned(hits[i]));
                    assert(str_views(hits@).take(i + 1) =~= pre.push(hits@[i as int]@));
                    assert(views(names@) =~= pre.push(hits@[i as int]@));
                    i = i + 1;
                }
                assert(str_views(hits@).take(hits@.len() as int) =~= str_views(hits@));
                let joined = join(&names, ", ");
                issues.push(concat("Leftover LLVM instrumentation detected: ", joined.as_str()));
            }
        }
        let ghost instr = views(issues@);
        assert(instr == match artifact.scanned_executable {
            Ok(b) => {
                let hits = instrumentation_found(b@, INSTRUMENTATION_SIGNATURE_COUNT as nat);
                if hits.len() > 0 {
                    seq!["Leftover LLVM instrumentation detected: "@ + seq_join(hits, ", "@)]
                } else {
                    Seq::empty()
                }
            },
            Err(_) => Seq::empty(),
        });
        let stripped = match &file.contents {
            Err(m) => Err(m.clone()),
            Ok(b) => check_is_stripped(b.as_slice()),
        };
        match stripped {
            Ok(false) => {
                issues.push(owned("Binary contains a symbol table (not fully stripped)"));
                assert(views(issues@) =~= instr.push(
                    "Binary contains a symbol table (not fully stripped)"@,
                ));
            },
            Ok(true) => {},
            Err(e) => {
                let msg = concat("Failed to analyze binary symbols: ", e.as_str());
                return Ok(RuleReport { status: RuleStatus::Error, message: Some(msg), evidence: None });
            },
        }
        assert(stripping_issues(*artifact, *file) == Ok::<Seq<Seq<char>>, Seq<char>>(views(issues@)));
        if issues.len() == 0 {
            return Ok(
                with_message(RuleStatus::Pass, "Binary is stripped and free of instrumentation"),
            );
        }
        let evidence = join(&issues, " | ");
        Ok(with_evidence(RuleStatus::Fail, "Binary hygiene issues detected", evidence))
    }
}

} // verus!
