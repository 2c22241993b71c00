//! Running rules over an app bundle: what one evaluation yields, and how a
//! scanned directory's entries are classified as scan targets.
use vstd::prelude::*;
use crate::parsers::bundle_scanner::{extension_of, path_extension};
use crate::profiles::RuleKind;
use crate::rules::base::{outcome, ArtifactContext, ReportView, RuleCategory, RuleError, RuleReport, Severity};
use crate::text::{owned, str_eq};

verus! {

/// One rule's evaluation against one target.
pub struct EngineResult {
    pub rule_id: &'static str,
    pub rule_name: &'static str,
    pub category: RuleCategory,
    pub severity: Severity,
    pub target: String,
    pub recommendation: &'static str,
    pub report: Result<RuleReport, RuleError>,
    pub duration_ms: u128,
}

/// Evaluates one rule against a target; the caller measures the time the
/// evaluation took and passes it in.
pub fn evaluate_rule(rule: RuleKind, artifact: &ArtifactContext, target: &str) -> (r: (
    Result<RuleReport, RuleError>,
    EngineResultHead,
))
    ensures
        outcome(r.0) == rule.outcome_spec(*artifact),
        r.1.rule_id@ == rule.id_spec(),
        r.1.rule_name@ == rule.name_spec(),
        r.1.category == rule.category_spec(),
        r.1.severity == rule.severity_spec(),
        r.1.recommendation@ == rule.recommendation_spec(),
        r.1.target@ == target@,
{
    let report = rule.evaluate(artifact);
    (
        report,
        EngineResultHead {
            rule_id: rule.id(),
            rule_name: rule.name(),
            category: rule.category(),
            severity: rule.severity(),
            target: owned(target),
            recommendation: rule.recommendation(),
        },
    )
}

/// What identifies an evaluation, apart from its outcome and timing.
pub struct EngineResultHead {
    pub rule_id: &'static str,
    pub rule_name: &'static str,
    pub category: RuleCategory,
    pub severity: Severity,
    pub target: String,
    pub recommendation: &'static str,
}

/// Puts an evaluation together.
pub fn engine_result(
    head: EngineResultHead,
    report: Result<RuleReport, RuleError>,
    duration_ms: u128,
) -> (r: EngineResult)
    ensures
        r.rule_id == head.rule_id,
        r.rule_name == head.rule_name,
        r.category == head.category,
        r.severity == head.severity,
        r.target == head.target,
        r.recommendation == head.recommendation,
        r.report == report,
        r.duration_ms == duration_ms,
{
    EngineResult {
        rule_id: head.rule_id,
        rule_name: head.rule_name,
        category: head.category,
        severity: head.severity,
        target: head.target,
        recommendation: head.recommendation,
        report,
        duration_ms,
    }
}

/// What a directory entry met while looking for scan targets is.
#[derive(Clone, Copy, PartialEq, Eq, Structural, Debug)]
pub enum TargetKind {
    App,
    Project,
    Workspace,
    Ipa,
}

/// How an entry is treated: a target, a directory to descend into, or nothing.
#[derive(Clone, Copy, PartialEq, Eq, Structural, Debug)]
pub enum EntryClass {
    Target(TargetKind),
    Descend,
    Ignore,
}

pub open spec fn classify_spec(name: Seq<char>, is_dir: bool) -> EntryClass {
    let ext = extension_of(name);
    if is_dir {
        if ext == Some("app"@) {
            EntryClass::Target(TargetKind::App)
        } else if ext == Some("xcodeproj"@) {
            EntryClass::Target(TargetKind::Project)
        } else if ext == Some("xcworkspace"@) {
            EntryClass::Target(TargetKind::Workspace)
        } else {
            EntryClass::Descend
        }
    } else if ext == Some("ipa"@) {
        EntryClass::Target(TargetKind::Ipa)
    } else {
        EntryClass::Ignore
    }
}

/// Classifies a directory entry by its file name while walking a directory for
/// scan targets.
pub fn classify_entry(file_name: &str, is_dir: bool) -> (r: EntryClass)
    ensures
        r == classify_spec(file_name@, is_dir),
{
    let ext = path_extension(file_name);
    match ext {
        Some(e) => {
            let e = e.as_str();
            if is_dir {
                if str_eq(e, "app") {
                    EntryClass::Target(TargetKind::App)
                } else if str_eq(e, "xcodeproj") {
                    EntryClass::Target(TargetKind::Project)
                } else if str_eq(e, "xcworkspace") {
                    EntryClass::Target(TargetKind::Workspace)
                } else {
                    EntryClass::Descend
                }
            } else if str_eq(e, "ipa") {
                EntryClass::Target(TargetKind::Ipa)
            } else {
                EntryClass::Ignore
            }
        },
        None => {
            if is_dir {
                EntryClass::Descend
            } else {
                EntryClass::Ignore
            }
        },
    }
}

/// The label a target's results carry: its file name, or `Unknown` without one.
pub fn target_name(file_name: Option<&str>) -> (r: String)
    ensures
        r@ == match file_name {
            Some(n) => n@,
            None => "Unknown"@,
        },
{
    match file_name {
        Some(n) => owned(n),
        None => owned("Unknown"),
    }
}

} // verus!
