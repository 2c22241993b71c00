//! Bitcode segments in the executable.
use vstd::prelude::*;
use crate::rules::base::{
    bare, outcome, report_of, with_evidence, with_message, AppStoreRule, ArtifactContext,
    ReportView, RuleCategory, RuleError, RuleReport, RuleStatus, Severity,
};
use crate::bytes::{contains_subslice, has_bytes};
use crate::parsers::macho_parser::MachOError;
use crate::text::owned;

verus! {

pub struct BitcodeRule;

/// The segment name `__LLVM` padded with NUL bytes to sixteen bytes.
pub open spec fn llvm_segment_bytes() -> Seq<u8> {
    seq![95u8, 95u8, 76u8, 76u8, 86u8, 77u8, 0u8, 0u8, 0u8, 0u8, 0u8, 0u8, 0u8, 0u8, 0u8, 0u8]
}

/// What the check reports.
pub open spec fn bitcode_outcome(a: ArtifactContext) -> Result<ReportView, RuleError> {
    match a.main_executable {
        None => Ok(report_of(RuleStatus::Skip, Some("No executable found in bundle"@), None)),
        Some(f) => match f.contents {
            Err(m) => Err(RuleError::MachO(MachOError::Io(m))),
            Ok(b) => if has_bytes(b@, llvm_segment_bytes()) {
                Ok(
                    report_of(
                        RuleStatus::Fail,
                        Some("Bitcode segment (__LLVM) found in Mach-O binary."@),
                        Some("Mach-O contains __LLVM segment"@),
                    ),
                )
            } else {
                Ok(report_of(RuleStatus::Pass, None, None))
            },
        },
    }
}

impl AppStoreRule for BitcodeRule {
    fn id(&self) -> (r: &'static str)
        ensures
            r@ == "RULE_BITCODE_ENABLED"@,
    {
        "RULE_BITCODE_ENABLED"
    }

    fn name(&self) -> (r: &'static str)
        ensures
            r@ == "Bitcode Disabled Requirement"@,
    {
        "Bitcode Disabled Requirement"
    }

    fn category(&self) -> (r: RuleCategory)
        ensures
            r == RuleCategory::Signing,
    {
        RuleCategory::Signing
    }

    fn severity(&self) -> (r: Severity)
        ensures
            r == Severity::Error,
    {
        Severity::Error
    }

    fn recommendation(&self) -> (r: &'static str)
        ensures
            r@ == "Apple no longer accepts apps with Bitcode. Disable Bitcode in Build Settings."@,
    {
        "Apple no longer accepts apps with Bitcode. Disable Bitcode in Build Settings."
    }

    fn evaluate(&self, artifact: &ArtifactContext) -> (r: Result<RuleReport, RuleError>)
        ensures
            outcome(r) == bitcode_outcome(*artifact),
    {
        let file = match &artifact.main_executable {
            None => {
                return Ok(with_message(RuleStatus::Skip, "No executable found in bundle"));
            },
            Some(f) => f,
        };
        let bytes = match &file.contents {
            Err(m) => {
                return Err(RuleError::MachO(MachOError::Io(m.clone())));
            },
            Ok(b) => b,
        };
        let target: Vec<u8> = vec![95u8, 95u8, 76u8, 76u8, 86u8, 77u8, 0u8, 0u8, 0u8, 0u8, 0u8, 0u8, 0u8, 0u8, 0u8, 0u8];
        assert(target@ =~= llvm_segment_bytes());
        if contains_subslice(bytes.as_slice(), target.as_slice()) {
            return Ok(
                with_evidence(
                    RuleStatus::Fail,
                    "Bitcode segment (__LLVM) found in Mach-O binary.",
                    owned("Mach-O contains __LLVM segment"),
                ),
            );
        }
        Ok(bare(RuleStatus::Pass))
    }
}

} // verus!
