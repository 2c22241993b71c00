//! What a SARIF log of a report holds: one rule entry per evaluated rule, one
//! result per failing finding, and the run's timing properties.
use vstd::prelude::*;
use crate::report::data::{is_failing, ArtifactCacheStats, ReportData, ReportItem, SlowRule};
use crate::report::renderers::{sarif_level, sarif_level_of};
use crate::rules::base::{category_label, category_name, severity_label, severity_name, RuleStatus};
use crate::text::owned;

verus! {

pub const SARIF_VERSION: &'static str = "2.1.0";

pub const SARIF_SCHEMA: &'static str = "https://json.schemastore.org/sarif-2.1.0.json";

pub const TOOL_NAME: &'static str = "verifyos-cli";

/// A rule of the tool's driver.
pub struct SarifRule {
    pub id: String,
    pub name: String,
    pub full_description: String,
    pub help: String,
    pub category: String,
    pub severity: String,
    pub duration_ms: u128,
}

/// A result: a failing finding.
pub struct SarifResult {
    pub rule_id: String,
    pub level: String,
    pub message: String,
    pub category: String,
    pub evidence: String,
    pub duration_ms: u128,
}

/// A timed rule among the slowest.
pub struct SarifSlowRule {
    pub rule_id: String,
    pub rule_name: String,
    pub duration_ms: u128,
}

/// The contents of a SARIF log with one run.
pub struct SarifLog {
    pub semantic_version: String,
    pub total_duration_ms: u128,
    pub slow_rules: Vec<SarifSlowRule>,
    pub cache_stats: ArtifactCacheStats,
    pub rules: Vec<SarifRule>,
    pub results: Vec<SarifResult>,
}

pub open spec fn text_or_empty(o: Option<String>) -> Seq<char> {
    match o {
        Some(s) => s@,
        None => Seq::empty(),
    }
}

pub type RuleView = (Seq<char>, Seq<char>, Seq<char>, Seq<char>, Seq<char>, Seq<char>, u128);

pub type ResultView = (Seq<char>, Seq<char>, Seq<char>, Seq<char>, Seq<char>, u128);

/// The driver entry of a report item.
pub open spec fn rule_entry_spec(i: ReportItem) -> RuleView {
    (
        i.rule_id@,
        i.rule_name@,
        text_or_empty(i.message),
        i.recommendation@,
        category_name(i.category),
        severity_name(i.severity),
        i.duration_ms,
    )
}

/// The result of a failing item: its message, or the rule's name when it
/// has none.
pub open spec fn result_entry_spec(i: ReportItem) -> ResultView {
    (
        i.rule_id@,
        sarif_level_of(i.severity),
        match i.message {
            Some(m) => m@,
            None => i.rule_name@,
        },
        category_name(i.category),
        text_or_empty(i.evidence),
        i.duration_ms,
    )
}

pub open spec fn rule_view(r: SarifRule) -> RuleView {
    (r.id@, r.name@, r.full_description@, r.help@, r.category@, r.severity@, r.duration_ms)
}

pub open spec fn result_view(r: SarifResult) -> ResultView {
    (r.rule_id@, r.level@, r.message@, r.category@, r.evidence@, r.duration_ms)
}

pub open spec fn failing_entries(items: Seq<ReportItem>) -> Seq<ResultView>
    decreases items.len(),
{
    if items.len() == 0 {
        Seq::empty()
    } else {
        let prev = failing_entries(items.drop_last());
        if is_failing(items.last().status) {
            prev.push(result_entry_spec(items.last()))
        } else {
            prev
        }
    }
}

pub open spec fn slow_view(s: SarifSlowRule) -> (Seq<char>, Seq<char>, u128) {
    (s.rule_id@, s.rule_name@, s.duration_ms)
}

pub open spec fn slow_rule_spec(s: SlowRule) -> (Seq<char>, Seq<char>, u128) {
    (s.rule_id@, s.rule_name@, s.duration_ms)
}

fn text_or_blank(o: &Option<String>) -> (r: String)
    ensures
        r@ == text_or_empty(*o),
{
    match o {
        Some(s) => owned(s.as_str()),
        None => String::new(),
    }
}

/// The SARIF log of a report.
pub fn sarif_log(report: &ReportData) -> (r: SarifLog)
    ensures
        r.semantic_version@ == report.ruleset_version@,
        r.total_duration_ms == report.total_duration_ms,
        r.cache_stats == report.cache_stats,
        r.slow_rules@.map_values(|s: SarifSlowRule| slow_view(s)) == report.slow_rules@.map_values(
            |s: SlowRule| slow_rule_spec(s),
        ),
        r.rules@.map_values(|x: SarifRule| rule_view(x)) == report.results@.map_values(
            |i: ReportItem| rule_entry_spec(i),
        ),
        r.results@.map_values(|x: SarifResult| result_view(x)) == failing_entries(report.results@),
{
    let items = &report.results;
    let mut rules: Vec<SarifRule> = Vec::new();
    let mut results: Vec<SarifResult> = Vec::new();
    let mut i: usize = 0;
    while i < items.len()
        invariant
            0 <= i <= items@.len(),
            items == &report.results,
            rules@.map_values(|x: SarifRule| rule_view(x)) == items@.take(i as int).map_values(
                |it: ReportItem| rule_entry_spec(it),
            ),
            results@.map_values(|x: SarifResult| result_view(x)) == failing_entries(
                items@.take(i as int),
            ),
        decreases items@.len() - i,
    {
        let item = &items[i];
        let ghost pre_rules = rules@.map_values(|x: SarifRule| rule_view(x));
        let ghost pre_results = results@.map_values(|x: SarifResult| result_view(x));
        rules.push(
            SarifRule {
                id: owned(item.rule_id.as_str()),
                name: owned(item.rule_name.as_str()),
                full_description: text_or_blank(&item.message),
                help: owned(item.recommendation.as_str()),
                category: owned(category_label(item.category)),
                severity: owned(severity_label(item.severity)),
                duration_ms: item.duration_ms,
            },
        );
        assert(rules@.map_values(|x: SarifRule| rule_view(x)) =~= pre_rules.push(
            rule_entry_spec(*item),
        ));
        assert(items@.take(i + 1).map_values(|it: ReportItem| rule_entry_spec(it)) =~= items@.take(
            i as int,
        ).map_values(|it: ReportItem| rule_entry_spec(it)).push(rule_entry_spec(*item)));
        assert(items@.take(i + 1).drop_last() =~= items@.take(i as int));
        if item.status == RuleStatus::Fail || item.status == RuleStatus::Error {
            let message = match &item.message {
                Some(m) => owned(m.as_str()),
                None => owned(item.rule_name.as_str()),
            };
            results.push(
                SarifResult {
                    rule_id: owned(item.rule_id.as_str()),
                    level: owned(sarif_level(item.severity)),
                    message,
                    category: owned(category_label(item.category)),
                    evidence: text_or_blank(&item.evidence),
                    duration_ms: item.duration_ms,
                },
            );
            assert(results@.map_values(|x: SarifResult| result_view(x)) =~= pre_results.push(
                result_entry_spec(*item),
            ));
        }
        i = i + 1;
    }
    assert(items@.take(items@.len() as int) =~= items@);
    let mut slow: Vec<SarifSlowRule> = Vec::new();
    let mut k: usize = 0;
    while k < report.slow_rules.len()
        invariant
            0 <= k <= report.slow_rules@.len(),
            slow@.map_values(|s: SarifSlowRule| slow_view(s)) == report.slow_rules@.take(
                k as int,
            ).map_values(|s: SlowRule| slow_rule_spec(s)),
        decreases report.slow_rules@.len() - k,
    {
        let s = &report.slow_rules[k];
        let ghost pre = slow@.map_values(|s: SarifSlowRule| slow_view(s));
        slow.push(
            SarifSlowRule {
                rule_id: owned(s.rule_id.as_str()),
                rule_name: owned(s.rule_name.as_str()),
                duration_ms: s.duration_ms,
            },
        );
        assert(slow@.map_values(|s: SarifSlowRule| slow_view(s)) =~= pre.push(slow_rule_spec(*s)));
        assert(report.slow_rules@.take(k + 1).map_values(|s: SlowRule| slow_rule_spec(s))
            =~= report.slow_rules@.take(k as int).map_values(|s: SlowRule| slow_rule_spec(s)).push(
            slow_rule_spec(*s),
        ));
        k = k + 1;
    }
    assert(report.slow_rules@.take(report.slow_rules@.len() as int) =~= report.slow_rules@);
    SarifLog {
        semantic_version: owned(report.ruleset_version.as_str()),
        total_duration_ms: report.total_duration_ms,
        slow_rules: slow,
        cache_stats: report.cache_stats,
        rules,
        results,
    }
}

} // verus!
