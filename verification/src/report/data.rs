//! The scan report: its items, baselines, failure thresholds and slowest rules.
use vstd::prelude::*;
use crate::engine::EngineResult;
use crate::rules::base::{opt_view, RuleCategory, RuleError, RuleReport, RuleStatus, Severity, RULESET_VERSION};
use crate::rules::entitlements::strings_contain;
use crate::sorting::{keeps_ties, sort_by_key, sorted_by_key, SortKey};
use crate::parsers::macho_scanner::text_key;
use crate::text::{concat, owned, push_str, views};

verus! {

broadcast use vstd::seq_lib::group_to_multiset_ensures;

/// How often a fact was served from the scan's cache or computed afresh.
#[derive(Clone, Copy, PartialEq, Eq, Structural, Debug)]
pub struct CacheCounter {
    pub hits: u64,
    pub misses: u64,
}

/// Cache activity per kind of fact.
#[derive(Clone, Copy, PartialEq, Eq, Structural, Debug)]
pub struct ArtifactCacheStats {
    pub nested_bundles: CacheCounter,
    pub usage_scan: CacheCounter,
    pub private_api_scan: CacheCounter,
    pub sdk_scan: CacheCounter,
    pub capability_scan: CacheCounter,
    pub signature_summary: CacheCounter,
    pub bundle_plist: CacheCounter,
    pub entitlements: CacheCounter,
    pub provisioning_profile: CacheCounter,
    pub bundle_files: CacheCounter,
}

impl ArtifactCacheStats {
    /// No cache activity.
    pub fn empty() -> (r: Self)
        ensures
            r.nested_bundles == (CacheCounter { hits: 0, misses: 0 }),
            r.usage_scan == (CacheCounter { hits: 0, misses: 0 }),
            r.private_api_scan == (CacheCounter { hits: 0, misses: 0 }),
            r.sdk_scan == (CacheCounter { hits: 0, misses: 0 }),
            r.capability_scan == (CacheCounter { hits: 0, misses: 0 }),
            r.signature_summary == (CacheCounter { hits: 0, misses: 0 }),
            r.bundle_plist == (CacheCounter { hits: 0, misses: 0 }),
            r.entitlements == (CacheCounter { hits: 0, misses: 0 }),
            r.provisioning_profile == (CacheCounter { hits: 0, misses: 0 }),
            r.bundle_files == (CacheCounter { hits: 0, misses: 0 }),
    {
        let z = CacheCounter { hits: 0, misses: 0 };
        ArtifactCacheStats {
            nested_bundles: z,
            usage_scan: z,
            private_api_scan: z,
            sdk_scan: z,
            capability_scan: z,
            signature_summary: z,
            bundle_plist: z,
            entitlements: z,
            provisioning_profile: z,
            bundle_files: z,
        }
    }
}

pub struct ReportData {
    pub ruleset_version: String,
    pub generated_at_unix: u64,
    pub total_duration_ms: u128,
    pub cache_stats: ArtifactCacheStats,
    pub slow_rules: Vec<SlowRule>,
    pub results: Vec<ReportItem>,
}

pub struct ReportItem {
    pub rule_id: String,
    pub rule_name: String,
    pub category: RuleCategory,
    pub severity: Severity,
    pub status: RuleStatus,
    pub message: Option<String>,
    pub evidence: Option<String>,
    pub recommendation: String,
    pub duration_ms: u128,
}

pub struct SlowRule {
    pub rule_id: String,
    pub rule_name: String,
    pub duration_ms: u128,
}

pub struct BaselineSummary {
    pub suppressed: usize,
}

pub struct AgentPack {
    pub generated_at_unix: u64,
    pub total_findings: usize,
    pub findings: Vec<AgentFinding>,
}

pub struct AgentFinding {
    pub rule_id: String,
    pub rule_name: String,
    pub severity: Severity,
    pub category: RuleCategory,
    pub priority: String,
    pub message: String,
    pub evidence: Option<String>,
    pub recommendation: String,
    pub suggested_fix_scope: String,
    pub target_files: Vec<String>,
    pub patch_hint: String,
    pub why_it_fails_review: String,
}

#[derive(Clone, Copy, PartialEq, Eq, Structural, Debug)]
pub enum AgentPackFormat {
    Json,
    Markdown,
    Bundle,
}

#[derive(Clone, Copy, PartialEq, Eq, Structural, Debug)]
pub enum FailOn {
    Off,
    Error,
    Warning,
}

#[derive(Clone, Copy, PartialEq, Eq, Structural, Debug)]
pub enum TimingMode {
    Off,
    Summary,
    Full,
}

/// A failing finding: the rule failed or could not be evaluated.
pub open spec fn is_failing(status: RuleStatus) -> bool {
    status == RuleStatus::Fail || status == RuleStatus::Error
}

pub fn failing(status: RuleStatus) -> (r: bool)
    ensures
        r == is_failing(status),
{
    match status {
        RuleStatus::Fail | RuleStatus::Error => true,
        _ => false,
    }
}

/// The report item an evaluation becomes; an evaluation error becomes an
/// `Error` item carrying the error's text.
pub open spec fn item_matches(item: ReportItem, res: EngineResult) -> bool {
    &&& item.rule_id@ == res.rule_id@
    &&& item.rule_name@ == res.rule_name@
    &&& item.category == res.category
    &&& item.severity == res.severity
    &&& item.recommendation@ == res.recommendation@
    &&& item.duration_ms == res.duration_ms
    &&& match res.report {
        Ok(rep) => item.status == rep.status && item.message == rep.message && item.evidence
            == rep.evidence,
        Err(e) => item.status == RuleStatus::Error && opt_view(item.message) == Some(
            e.message_spec(),
        ) && opt_view(item.evidence) == Some("Rule evaluation error"@),
    }
}

fn report_item(res: EngineResult) -> (r: ReportItem)
    ensures
        item_matches(r, res),
{
    let (status, message, evidence) = match res.report {
        Ok(report) => (report.status, report.message, report.evidence),
        Err(err) => (RuleStatus::Error, Some(err.message()), Some(owned("Rule evaluation error"))),
    };
    ReportItem {
        rule_id: owned(res.rule_id),
        rule_name: owned(res.rule_name),
        category: res.category,
        severity: res.severity,
        status,
        message,
        evidence,
        recommendation: owned(res.recommendation),
        duration_ms: res.duration_ms,
    }
}

/// The slow-rule entry of a report item.
pub open spec fn slow_of(item: ReportItem) -> SlowRule {
    SlowRule { rule_id: item.rule_id, rule_name: item.rule_name, duration_ms: item.duration_ms }
}

/// Order of slow rules: longest first, then by rule identifier.
impl SortKey for SlowRule {
    open spec fn key(&self) -> Seq<u128> {
        seq![(u128::MAX - self.duration_ms) as u128] + text_key(self.rule_id@)
    }

    fn key_vec(&self) -> (r: Vec<u128>) {
        let mut v: Vec<u128> = Vec::new();
        v.push(u128::MAX - self.duration_ms);
        let t = crate::text::text_key_vec(self.rule_id.as_str());
        let mut i: usize = 0;
        while i < t.len()
            invariant
                0 <= i <= t@.len(),
                v@ == seq![(u128::MAX - self.duration_ms) as u128] + t@.take(i as int),
            decreases t@.len() - i,
        {
            v.push(t[i]);
            assert(t@.take(i + 1) =~= t@.take(i as int).push(t@[i as int]));
            assert(v@ =~= seq![(u128::MAX - self.duration_ms) as u128] + t@.take(i + 1));
            i = i + 1;
        }
        assert(t@.take(t@.len() as int) =~= t@);
        v
    }
}

pub open spec fn min(a: int, b: int) -> int {
    if a < b {
        a
    } else {
        b
    }
}

/// The `limit` slowest rules of a report, longest first (ties by identifier,
/// then in report order).
pub fn top_slow_rules(report: &ReportData, limit: usize) -> (r: Vec<SlowRule>)
    ensures
        r@.len() == min(report.results@.len() as int, limit as int),
        exists|s: Seq<SlowRule>|
            sorted_by_key(s) && keeps_ties(s, report.results@.map_values(|it: ReportItem| slow_of(it)))
                && s.to_multiset() == report.results@.map_values(
                |it: ReportItem| slow_of(it),
            ).to_multiset() && r@ == s.take(r@.len() as int),
{
    let mut items: Vec<SlowRule> = Vec::new();
    let mut i: usize = 0;
    while i < report.results.len()
        invariant
            0 <= i <= report.results@.len(),
            items@ == report.results@.take(i as int).map_values(|it: ReportItem| slow_of(it)),
        decreases report.results@.len() - i,
    {
        let it = &report.results[i];
        items.push(
            SlowRule {
                rule_id: it.rule_id.clone(),
                rule_name: it.rule_name.clone(),
                duration_ms: it.duration_ms,
            },
        );
        assert(items@ =~= report.results@.take(i + 1).map_values(|it: ReportItem| slow_of(it)));
        i = i + 1;
    }
    assert(report.results@.take(report.results@.len() as int) =~= report.results@);
    let sorted = sort_by_key(items);
    let ghost s = sorted@;
    let mut out = sorted;
    out.truncate(limit);
    assert(out@ == s.take(out@.len() as int));
    out
}

/// Builds the report of a scan: one item per evaluation, in order, and the
/// three slowest rules. `generated_at_unix` is the clock reading to record.
pub fn build_report(
    results: Vec<EngineResult>,
    total_duration_ms: u128,
    cache_stats: ArtifactCacheStats,
    generated_at_unix: u64,
) -> (r: ReportData)
    ensures
        r.ruleset_version@ == RULESET_VERSION@,
        r.generated_at_unix == generated_at_unix,
        r.total_duration_ms == total_duration_ms,
        r.cache_stats == cache_stats,
        r.results@.len() == results@.len(),
        forall|i: int| 0 <= i < results@.len() ==> item_matches(#[trigger] r.results@[i], results@[i]),
        r.slow_rules@.len() == min(results@.len() as int, 3),
        exists|s: Seq<SlowRule>|
            sorted_by_key(s) && keeps_ties(s, r.results@.map_values(|it: ReportItem| slow_of(it)))
                && s.to_multiset() == r.results@.map_values(
                |it: ReportItem| slow_of(it),
            ).to_multiset() && r.slow_rules@ == s.take(r.slow_rules@.len() as int),
{
    let mut items: Vec<ReportItem> = Vec::new();
    let mut rest = results;
    let ghost all = rest@;
    let total = rest.len();
    let mut k: usize = 0;
    while rest.len() > 0
        invariant
            total == all.len(),
            k + rest@.len() == all.len(),
            rest@ == all.skip(k as int),
            items@.len() == k,
            forall|i: int| 0 <= i < k ==> item_matches(#[trigger] items@[i], all[i]),
        decreases rest@.len(),
    {
        let res = rest.remove(0);
        assert(res == all[k as int]);
        items.push(report_item(res));
        assert(rest@ =~= all.skip(k + 1));
        k = k + 1;
    }
    let report = ReportData {
        ruleset_version: owned(RULESET_VERSION),
        generated_at_unix,
        total_duration_ms,
        cache_stats,
        slow_rules: Vec::new(),
        results: items,
    };
    let slow = top_slow_rules(&report, 3);
    ReportData { slow_rules: slow, ..report }
}

/// `"{rule_id}|{evidence}"`, the evidence empty when absent.
pub open spec fn finding_key_spec(item: ReportItem) -> Seq<char> {
    item.rule_id@ + "|"@ + match item.evidence {
        Some(e) => e@,
        None => Seq::empty(),
    }
}

/// The key under which a finding is matched against a baseline.
pub fn finding_key(item: &ReportItem) -> (r: String)
    ensures
        r@ == finding_key_spec(*item),
{
    let mut out = concat(item.rule_id.as_str(), "|");
    match &item.evidence {
        Some(e) => push_str(&mut out, e.as_str()),
        None => {},
    }
    out
}

/// The keys of a report's failing findings.
pub open spec fn failing_keys(items: Seq<ReportItem>) -> Seq<Seq<char>>
    decreases items.len(),
{
    if items.len() == 0 {
        Seq::empty()
    } else if is_failing(items.last().status) {
        failing_keys(items.drop_last()).push(finding_key_spec(items.last()))
    } else {
        failing_keys(items.drop_last())
    }
}

/// A finding survives a baseline unless it fails and the baseline holds its key.
pub open spec fn survives(item: ReportItem, keys: Seq<Seq<char>>) -> bool {
    !is_failing(item.status) || !keys.contains(finding_key_spec(item))
}

/// The findings that survive a baseline, in order.
pub open spec fn surviving(items: Seq<ReportItem>, keys: Seq<Seq<char>>) -> Seq<ReportItem>
    decreases items.len(),
{
    if items.len() == 0 {
        Seq::empty()
    } else if survives(items.last(), keys) {
        surviving(items.drop_last(), keys).push(items.last())
    } else {
        surviving(items.drop_last(), keys)
    }
}

/// Drops the failing findings that a baseline already records and says how
/// many were dropped.
pub fn apply_baseline(report: &mut ReportData, baseline: &ReportData) -> (r: BaselineSummary)
    ensures
        final(report).results@ == surviving(
            old(report).results@,
            failing_keys(baseline.results@),
        ),
        r.suppressed + final(report).results@.len() == old(report).results@.len(),
        final(report).ruleset_version == old(report).ruleset_version,
        final(report).generated_at_unix == old(report).generated_at_unix,
        final(report).total_duration_ms == old(report).total_duration_ms,
        final(report).cache_stats == old(report).cache_stats,
        final(report).slow_rules == old(report).slow_rules,
{
    let mut keys: Vec<String> = Vec::new();
    let mut i: usize = 0;
    assert(views(keys@) =~= Seq::<Seq<char>>::empty());
    while i < baseline.results.len()
        invariant
            0 <= i <= baseline.results@.len(),
            views(keys@) == failing_keys(baseline.results@.take(i as int)),
        decreases baseline.results@.len() - i,
    {
        assert(baseline.results@.take(i + 1).drop_last() =~= baseline.results@.take(i as int));
        let item = &baseline.results[i];
        if failing(item.status) {
            let ghost pre = views(keys@);
            keys.push(finding_key(item));
            assert(views(keys@) =~= pre.push(finding_key_spec(*item)));
        }
        i = i + 1;
    }
    assert(baseline.results@.take(baseline.results@.len() as int) =~= baseline.results@);
    let ghost ks = views(keys@);
    let mut old_results: Vec<ReportItem> = Vec::new();
    std::mem::swap(&mut old_results, &mut report.results);
    let ghost orig = old_results@;
    let total = old_results.len();
    let mut kept: Vec<ReportItem> = Vec::new();
    let mut suppressed: usize = 0;
    let mut k: usize = 0;
    while old_results.len() > 0
        invariant
            total == orig.len(),
            k + old_results@.len() == orig.len(),
            old_results@ == orig.skip(k as int),
            kept@ == surviving(orig.take(k as int), ks),
            suppressed + kept@.len() == k,
            ks == failing_keys(baseline.results@),
            views(keys@) == ks,
        decreases old_results@.len(),
    {
        let item = old_results.remove(0);
        assert(item == orig[k as int]);
        assert(orig.take(k + 1).drop_last() =~= orig.take(k as int));
        let keep = if !failing(item.status) {
            true
        } else {
            let key = finding_key(&item);
            !strings_contain(&keys, key.as_str())
        };
        if keep {
            kept.push(item);
        } else {
            suppressed = suppressed + 1;
        }
        assert(old_results@ =~= orig.skip(k + 1));
        k = k + 1;
    }
    assert(orig.take(orig.len() as int) =~= orig);
    report.results = kept;
    BaselineSummary { suppressed }
}

/// The threshold at which failing findings fail the run.
pub open spec fn fails_threshold(item: ReportItem, fail_on: FailOn) -> bool {
    match fail_on {
        FailOn::Off => false,
        FailOn::Error => is_failing(item.status) && item.severity == Severity::Error,
        FailOn::Warning => is_failing(item.status) && (item.severity == Severity::Error
            || item.severity == Severity::Warning),
    }
}

/// Whether the run exits with failure: some finding meets the threshold.
pub fn should_exit_with_failure(report: &ReportData, fail_on: FailOn) -> (r: bool)
    ensures
        r == exists|i: int|
            0 <= i < report.results@.len() && fails_threshold(#[trigger] report.results@[i], fail_on),
{
    let mut i: usize = 0;
    while i < report.results.len()
        invariant
            0 <= i <= report.results@.len(),
            forall|j: int| 0 <= j < i ==> !fails_threshold(#[trigger] report.results@[j], fail_on),
        decreases report.results@.len() - i,
    {
        let item = &report.results[i];
        let hit = match fail_on {
            FailOn::Off => false,
            FailOn::Error => failing(item.status) && item.severity == Severity::Error,
            FailOn::Warning => failing(item.status) && (item.severity == Severity::Error
                || item.severity == Severity::Warning),
        };
        if hit {
            assert(fails_threshold(report.results@[i as int], fail_on));
            return true;
        }
        i = i + 1;
    }
    false
}

/// A stricter threshold fails whenever a looser one does: `Error` implies
/// `Warning`, and `Off` never fails.
pub proof fn lemma_fail_on_monotone(item: ReportItem)
    ensures
        !fails_threshold(item, FailOn::Off),
        fails_threshold(item, FailOn::Error) ==> fails_threshold(item, FailOn::Warning),
{
}

/// A baseline never drops a passing or skipped finding, and every finding it
/// keeps was in the report.
pub proof fn lemma_baseline_keeps(items: Seq<ReportItem>, keys: Seq<Seq<char>>)
    ensures
        forall|i: int|
            0 <= i < surviving(items, keys).len() ==> items.contains(
                #[trigger] surviving(items, keys)[i],
            ),
        forall|i: int|
            0 <= i < items.len() && !is_failing(#[trigger] items[i].status) ==> surviving(
                items,
                keys,
            ).contains(items[i]),
        surviving(items, keys).len() <= items.len(),
    decreases items.len(),
{
    if items.len() > 0 {
        let p = items.drop_last();
        lemma_baseline_keeps(p, keys);
        let s = surviving(items, keys);
        let sp = surviving(p, keys);
        assert forall|i: int| 0 <= i < s.len() implies items.contains(#[trigger] s[i]) by {
            if i < sp.len() {
                assert(s[i] == sp[i]);
                assert(p.contains(sp[i]));
                let j = choose|j: int| 0 <= j < p.len() && p[j] == sp[i];
                assert(items[j] == p[j]);
            } else {
                assert(s[i] == items.last());
                assert(items[items.len() - 1] == items.last());
            }
        }
        assert forall|i: int|
            0 <= i < items.len() && !is_failing(#[trigger] items[i].status) implies s.contains(
            items[i],
        ) by {
            if i < items.len() - 1 {
                assert(items[i] == p[i]);
                assert(sp.contains(p[i]));
                let j = choose|j: int| 0 <= j < sp.len() && sp[j] == p[i];
                assert(s[j] == sp[j]);
            } else {
                assert(s[s.len() - 1] == items.last());
            }
        }
    }
}

/// What each `--fail-on` level fails on: `error` only a failed or
/// unevaluated finding of severity `Error`, `warning` also one of severity
/// `Warning`, `off` nothing.
pub proof fn lemma_fail_on_levels(item: ReportItem)
    ensures
        fails_threshold(item, FailOn::Error) <==> ((item.status == RuleStatus::Fail || item.status
            == RuleStatus::Error) && item.severity == Severity::Error),
        fails_threshold(item, FailOn::Warning) <==> ((item.status == RuleStatus::Fail || item.status
            == RuleStatus::Error) && (item.severity == Severity::Error || item.severity == Severity::Warning)),
        !fails_threshold(item, FailOn::Off),
{
}

/// A report without a finding of severity `Error` never fails the run under
/// `--fail-on error`, whatever it holds of warnings.
pub proof fn lemma_warnings_pass_fail_on_error(items: Seq<ReportItem>)
    requires
        forall|i: int| 0 <= i < items.len() ==> #[trigger] items[i].severity != Severity::Error,
    ensures
        !exists|i: int| 0 <= i < items.len() && fails_threshold(#[trigger] items[i], FailOn::Error),
{
}

/// The baseline's failing findings (failed or unevaluated), by key.
proof fn lemma_failing_keys(base: Seq<ReportItem>, k: Seq<char>)
    ensures
        failing_keys(base).contains(k) <==> exists|j: int|
            0 <= j < base.len() && (base[j].status == RuleStatus::Fail || base[j].status == RuleStatus::Error)
                && #[trigger] finding_key_spec(base[j]) == k,
    decreases base.len(),
{
    if base.len() > 0 {
        let p = base.drop_last();
        lemma_failing_keys(p, k);
        let fk = failing_keys(base);
        let fp = failing_keys(p);
        if fk.contains(k) {
            let i = choose|i: int| 0 <= i < fk.len() && fk[i] == k;
            if i < fp.len() {
                assert(fp[i] == k);
                assert(fp.contains(k));
                let j = choose|j: int|
                    0 <= j < p.len() && (p[j].status == RuleStatus::Fail || p[j].status == RuleStatus::Error)
                        && #[trigger] finding_key_spec(p[j]) == k;
                assert(base[j] == p[j]);
            } else {
                assert(finding_key_spec(base[base.len() - 1]) == k);
            }
        }
        if exists|j: int|
            0 <= j < base.len() && (base[j].status == RuleStatus::Fail || base[j].status == RuleStatus::Error)
                && #[trigger] finding_key_spec(base[j]) == k {
            let j = choose|j: int|
                0 <= j < base.len() && (base[j].status == RuleStatus::Fail || base[j].status == RuleStatus::Error)
                    && #[trigger] finding_key_spec(base[j]) == k;
            if j < p.len() {
                assert(p[j] == base[j]);
                assert(finding_key_spec(p[j]) == k);
                assert(fp.contains(k));
                let i = choose|i: int| 0 <= i < fp.len() && fp[i] == k;
                if is_failing(base.last().status) {
                    assert(fk[i] == k);
                }
            } else {
                assert(fk[fp.len() as int] == k);
            }
        }
    }
}

/// The findings a baseline leaves are those of the report, in order, that
/// pass, or fail with no failing finding of the baseline under their key.
proof fn lemma_surviving_members(items: Seq<ReportItem>, keys: Seq<Seq<char>>, x: ReportItem)
    ensures
        surviving(items, keys).contains(x) <==> items.contains(x) && survives(x, keys),
    decreases items.len(),
{
    if items.len() > 0 {
        let p = items.drop_last();
        lemma_surviving_members(p, keys, x);
        let s = surviving(items, keys);
        let sp = surviving(p, keys);
        if s.contains(x) {
            let i = choose|i: int| 0 <= i < s.len() && s[i] == x;
            if i < sp.len() {
                assert(sp[i] == x);
                assert(sp.contains(x));
                let j = choose|j: int| 0 <= j < p.len() && p[j] == x;
                assert(items[j] == x);
            } else {
                assert(items[items.len() - 1] == x);
            }
        }
        if items.contains(x) && survives(x, keys) {
            let j = choose|j: int| 0 <= j < items.len() && items[j] == x;
            if j < p.len() {
                assert(p[j] == x);
                assert(sp.contains(x));
                let i = choose|i: int| 0 <= i < sp.len() && sp[i] == x;
                if survives(items.last(), keys) {
                    assert(s[i] == x);
                }
            } else {
                assert(s[sp.len() as int] == x);
            }
        }
    }
}

/// Applying a baseline drops every failed or unevaluated finding of the
/// report whose `rule_id|evidence` key is that of a failed or unevaluated
/// finding of the baseline, and keeps every other finding of the report.
pub proof fn lemma_baseline_drops_known_failures(items: Seq<ReportItem>, base: Seq<ReportItem>, x: ReportItem)
    ensures
        ((x.status == RuleStatus::Fail || x.status == RuleStatus::Error) && exists|j: int|
            0 <= j < base.len() && (base[j].status == RuleStatus::Fail || base[j].status == RuleStatus::Error)
                && #[trigger] finding_key_spec(base[j]) == finding_key_spec(x)) ==> !surviving(
            items,
            failing_keys(base),
        ).contains(x),
        (items.contains(x) && !((x.status == RuleStatus::Fail || x.status == RuleStatus::Error) && exists|j: int|
            0 <= j < base.len() && (base[j].status == RuleStatus::Fail || base[j].status == RuleStatus::Error)
                && #[trigger] finding_key_spec(base[j]) == finding_key_spec(x))) ==> surviving(
            items,
            failing_keys(base),
        ).contains(x),
{
    lemma_failing_keys(base, finding_key_spec(x));
    lemma_surviving_members(items, failing_keys(base), x);
}

} // verus!
