//! The scan service behind the HTTP API: which rules a request selects, the
//! evaluation of those rules on the uploaded bundle's targets, and the report
//! with the request's baseline applied.
use vstd::prelude::*;
use crate::commands::support::{
    all_available, first_unavailable_at, normalize_against, normalized_all, same_members,
};
use crate::engine::{engine_result, evaluate_rule, EngineResult};
use crate::profiles::{
    available_rule_ids, kind_ids, normalize_rule_id, profile_kinds, register_rules, selected_kinds,
    RuleKind, RuleSelection, ScanProfile,
};
use crate::report::data::{
    apply_baseline, build_report, failing_keys, item_matches, surviving, ArtifactCacheStats,
    BaselineSummary, ReportData, ReportItem,
};
use crate::rules::base::{outcome, ArtifactContext};
use crate::rules::entitlements::strings_contain;
use crate::rules::info_plist::unique_sorted_spec;
use crate::text::{concat, decimal, owned, push_decimal, push_str, views};

verus! {

/// The profile a request asks for.
#[derive(Clone, Copy, Debug, PartialEq, Eq, Structural)]
pub enum ScanProfileInput {
    Basic,
    Full,
}

/// A scan request: profile, rules to run or skip, and a baseline report.
pub struct ScanRequest {
    pub profile: Option<ScanProfileInput>,
    pub included: Vec<String>,
    pub excluded: Vec<String>,
    pub baseline: Option<ReportData>,
}

/// Why a scan could not run.
#[derive(Clone, Debug)]
pub enum ScanError {
    ScanFailed(String),
}

impl ScanError {
    pub open spec fn message_spec(&self) -> Seq<char> {
        match self {
            ScanError::ScanFailed(m) => "scan failed: "@ + m@,
        }
    }

    /// The error as the API reports it.
    pub fn message(&self) -> (r: String)
        ensures
            r@ == self.message_spec(),
    {
        match self {
            ScanError::ScanFailed(m) => concat("scan failed: ", m.as_str()),
        }
    }
}

/// A report and, when a baseline was applied, how much it suppressed.
pub struct ScanOutcome {
    pub report: ReportData,
    pub baseline: Option<BaselineSummary>,
}

/// How much a baseline suppressed, as the API reports it.
pub struct BaselineInfo {
    pub suppressed: usize,
}

/// The API's answer to a scan.
pub struct ScanResponse {
    pub report: ReportData,
    pub warnings: Vec<String>,
    pub baseline: Option<BaselineInfo>,
}

/// One thing found in an upload to run the rules on, with what was read of it.
pub struct ScanTarget {
    pub name: String,
    pub artifact: ArtifactContext,
}

/// The milliseconds since the Unix epoch on the system clock
/// (`std::time::SystemTime::now`), 0 when the clock is set before the epoch.
/// Nothing is stated of the value: it is read from the machine's clock.
#[verifier::external_body]
fn clock_ms() -> (r: u128) {
    std::time::SystemTime::now().duration_since(std::time::UNIX_EPOCH).map(|d| d.as_millis()).unwrap_or(0)
}

pub open spec fn profile_of(p: Option<ScanProfileInput>) -> ScanProfile {
    match p {
        Some(ScanProfileInput::Basic) => ScanProfile::Basic,
        _ => ScanProfile::Full,
    }
}

/// The error for a requested rule the profile does not offer.
pub open spec fn unavailable_rule_message(id: Seq<char>) -> Seq<char> {
    "Rule `"@ + id + "` is not available for this profile"@
}

/// What a request's rule lists make of the available identifiers: each
/// value is normalized and must be available; the first that is not is the
/// error, requested rules first.
pub open spec fn selection_ok(
    profile: ScanProfile,
    requested: Seq<String>,
    skipped: Seq<String>,
    r: Result<RuleSelection, ScanError>,
) -> bool {
    let avail = unique_sorted_spec(kind_ids(profile_kinds(profile)));
    let inc = normalized_all(requested);
    let exc = normalized_all(skipped);
    match r {
        Ok(sel) => all_available(inc, avail) && all_available(exc, avail) && same_members(
            views(sel.included@),
            inc,
        ) && same_members(views(sel.excluded@), exc) && views(sel.included@).no_duplicates() && views(
            sel.excluded@,
        ).no_duplicates(),
        Err(e) => (exists|k: int|
            first_unavailable_at(inc, avail, k) && e->ScanFailed_0@ == unavailable_rule_message(
                #[trigger] inc[k],
            )) || (all_available(
            inc,
            avail,
        ) && exists|k: int|
            first_unavailable_at(exc, avail, k) && e->ScanFailed_0@ == unavailable_rule_message(
                #[trigger] exc[k],
            )),
    }
}

fn checked_rules(values: &Vec<String>, available: &Vec<String>) -> (r: Result<Vec<String>, ScanError>)
    ensures
        ({
            let ns = normalized_all(values@);
            let avail = views(available@);
            match r {
                Ok(v) => all_available(ns, avail) && same_members(views(v@), ns) && views(
                    v@,
                ).no_duplicates(),
                Err(e) => exists|k: int|
                    first_unavailable_at(ns, avail, k) && e->ScanFailed_0@ == unavailable_rule_message(
                        #[trigger] ns[k],
                    ),
            }
        }),
{
    match normalize_against(values, available) {
        Ok(v) => Ok(v),
        Err(id) => {
            let mut m = concat("Rule `", id.as_str());
            push_str(&mut m, "` is not available for this profile");
            Err(ScanError::ScanFailed(m))
        },
    }
}

/// The rule selection of a request for a profile.
pub fn build_rule_selection(profile: ScanProfile, requested: &Vec<String>, skipped: &Vec<String>) -> (r:
    Result<RuleSelection, ScanError>)
    ensures
        selection_ok(profile, requested@, skipped@, r),
{
    let available = available_rule_ids(profile);
    let included = match checked_rules(requested, &available) {
        Ok(v) => v,
        Err(e) => return Err(e),
    };
    let excluded = match checked_rules(skipped, &available) {
        Ok(v) => v,
        Err(e) => return Err(e),
    };
    Ok(RuleSelection { included, excluded })
}

/// `res` is what evaluating `rule` on `target` yields, whatever it took.
pub open spec fn evaluation_of(res: EngineResult, rule: RuleKind, target: ScanTarget) -> bool {
    &&& outcome(res.report) == rule.outcome_spec(target.artifact)
    &&& res.rule_id@ == rule.id_spec()
    &&& res.rule_name@ == rule.name_spec()
    &&& res.category == rule.category_spec()
    &&& res.severity == rule.severity_spec()
    &&& res.recommendation@ == rule.recommendation_spec()
    &&& res.target@ == target.name@
}

/// The evaluations of every rule on one target, in rule order.
pub open spec fn target_results(chunk: Seq<EngineResult>, rules: Seq<RuleKind>, target: ScanTarget) -> bool {
    chunk.len() == rules.len() && forall|k: int|
        0 <= k < rules.len() ==> evaluation_of(#[trigger] chunk[k], rules[k], target)
}

/// The evaluations of every rule on every target: target by target, in rule
/// order within each.
pub open spec fn all_results(results: Seq<EngineResult>, rules: Seq<RuleKind>, targets: Seq<ScanTarget>) -> bool
    decreases targets.len(),
{
    if targets.len() == 0 {
        results.len() == 0
    } else {
        let n = results.len() - rules.len();
        n >= 0 && all_results(results.take(n), rules, targets.drop_last()) && target_results(
            results.skip(n),
            rules,
            targets.last(),
        )
    }
}

/// `pre` is the report of the evaluations `results`, item for item.
pub open spec fn items_of(pre: Seq<ReportItem>, results: Seq<EngineResult>) -> bool {
    pre.len() == results.len() && forall|i: int|
        0 <= i < pre.len() ==> item_matches(#[trigger] pre[i], results[i])
}

/// The items a report keeps of `pre` under an optional baseline.
pub open spec fn kept_items(pre: Seq<ReportItem>, baseline: Option<ReportData>) -> Seq<ReportItem> {
    match baseline {
        Some(b) => surviving(pre, failing_keys(b.results@)),
        None => pre,
    }
}

/// A scan's outcome for a request on targets: the selected rules evaluated
/// on each target, reported, with the baseline applied.
pub open spec fn scan_outcome_of(
    sel: RuleSelection,
    results: Seq<EngineResult>,
    pre: Seq<ReportItem>,
    request: ScanRequest,
    targets: Seq<ScanTarget>,
    reported: Seq<ReportItem>,
) -> bool {
    &&& selection_ok(profile_of(request.profile), request.included@, request.excluded@, Ok(sel))
    &&& all_results(results, selected_kinds(profile_kinds(profile_of(request.profile)), sel), targets)
    &&& items_of(pre, results)
    &&& reported == kept_items(pre, request.baseline)
}

/// `rules` are the rules a selection that the request makes picks.
pub open spec fn selects(sel: RuleSelection, request: ScanRequest, rules: Seq<RuleKind>) -> bool {
    selection_ok(profile_of(request.profile), request.included@, request.excluded@, Ok(sel)) && rules
        == selected_kinds(profile_kinds(profile_of(request.profile)), sel)
}

pub struct ScanService;

impl ScanService {
    pub fn new() -> (r: Self) {
        ScanService
    }

    /// The rules a request runs, or the error for its first unavailable rule.
    pub fn select_rules(&self, request: &ScanRequest) -> (r: Result<Vec<RuleKind>, ScanError>)
        ensures
            r is Ok ==> exists|sel: RuleSelection| #[trigger] selects(sel, *request, r->Ok_0@),
            r is Err ==> selection_ok(
                profile_of(request.profile),
                request.included@,
                request.excluded@,
                Err(r->Err_0),
            ),
    {
        let profile = match request.profile {
            Some(ScanProfileInput::Basic) => ScanProfile::Basic,
            _ => ScanProfile::Full,
        };
        match build_rule_selection(profile, &request.included, &request.excluded) {
            Ok(sel) => {
                let rules = register_rules(profile, &sel);
                let r: Result<Vec<RuleKind>, ScanError> = Ok(rules);
                assert(selects(sel, *request, r->Ok_0@));
                r
            },
            Err(e) => Err(e),
        }
    }

    /// Evaluates each rule on each target, timing each evaluation.
    pub fn evaluate_targets(&self, rules: &Vec<RuleKind>, targets: &Vec<ScanTarget>) -> (r: Vec<EngineResult>)
        ensures
            all_results(r@, rules@, targets@),
    {
        let mut results: Vec<EngineResult> = Vec::new();
        let mut t: usize = 0;
        assert(targets@.take(0).len() == 0);
        while t < targets.len()
            invariant
                0 <= t <= targets@.len(),
                all_results(results@, rules@, targets@.take(t as int)),
            decreases targets@.len() - t,
        {
            let target = &targets[t];
            let ghost before = results@;
            let mut k: usize = 0;
            while k < rules.len()
                invariant
                    0 <= k <= rules@.len(),
                    results@.len() == before.len() + k,
                    results@.take(before.len() as int) == before,
                    *target == targets@[t as int],
                    forall|j: int|
                        0 <= j < k ==> evaluation_of(
                            #[trigger] results@[before.len() + j],
                            rules@[j],
                            *target,
                        ),
                decreases rules@.len() - k,
            {
                let started = clock_ms();
                let (report, head) = evaluate_rule(rules[k], &target.artifact, target.name.as_str());
                let finished = clock_ms();
                let elapsed = if finished >= started {
                    finished - started
                } else {
                    0
                };
                let ghost pre = results@;
                results.push(engine_result(head, report, elapsed));
                assert(results@.take(before.len() as int) =~= pre.take(before.len() as int));
                assert(results@[before.len() + k as int] == results@.last());
                assert forall|j: int| 0 <= j < k + 1 implies evaluation_of(
                    #[trigger] results@[before.len() + j],
                    rules@[j],
                    *target,
                ) by {
                    if j < k {
                        assert(results@[before.len() + j] == pre[before.len() + j]);
                    }
                }
                k = k + 1;
            }
            proof {
                let n = results@.len() - rules@.len();
                assert(n == before.len());
                assert(targets@.take(t + 1).drop_last() =~= targets@.take(t as int));
                assert(targets@.take(t + 1).last() == targets@[t as int]);
                assert(results@.take(n) =~= before);
                let chunk = results@.skip(n);
                assert forall|j: int| 0 <= j < rules@.len() implies evaluation_of(
                    #[trigger] chunk[j],
                    rules@[j],
                    targets@[t as int],
                ) by {
                    assert(chunk[j] == results@[before.len() + j]);
                }
                assert(target_results(chunk, rules@, targets@[t as int]));
            }
            t = t + 1;
        }
        assert(targets@.take(targets@.len() as int) =~= targets@);
        results
    }

    /// The report of a scan's evaluations, with the request's baseline
    /// applied.
    pub fn finish_scan(
        &self,
        results: Vec<EngineResult>,
        total_duration_ms: u128,
        generated_at_unix: u64,
        baseline: &Option<ReportData>,
    ) -> (r: ScanOutcome)
        ensures
            r.report.total_duration_ms == total_duration_ms,
            r.report.generated_at_unix == generated_at_unix,
            r.baseline is Some <==> baseline is Some,
            exists|pre: Seq<ReportItem>|
                #[trigger] items_of(pre, results@) && r.report.results@ == kept_items(pre, *baseline)
                    && match r.baseline {
                    Some(s) => s.suppressed + r.report.results@.len() == pre.len(),
                    None => true,
                },
    {
        let ghost rs = results@;
        let mut report = build_report(results, total_duration_ms, ArtifactCacheStats::empty(), generated_at_unix);
        let ghost pre = report.results@;
        let summary = match baseline {
            Some(b) => Some(apply_baseline(&mut report, b)),
            None => None,
        };
        assert(items_of(pre, rs));
        ScanOutcome { report, baseline: summary }
    }

    /// Runs a request on the targets read from an upload: the report of
    /// every selected rule on every target, with the baseline applied, or the
    /// error for the first rule the profile does not offer.
    pub fn run_scan_report(&self, request: ScanRequest, targets: &Vec<ScanTarget>) -> (r: Result<
        ScanOutcome,
        ScanError,
    >)
        ensures
            match r {
                Ok(o) => (o.baseline is Some <==> request.baseline is Some) && exists|
                    sel: RuleSelection,
                    results: Seq<EngineResult>,
                    pre: Seq<ReportItem>,
                | #[trigger] scan_outcome_of(sel, results, pre, request, targets@, o.report.results@),
                Err(e) => selection_ok(
                    profile_of(request.profile),
                    request.included@,
                    request.excluded@,
                    Err(e),
                ),
            },
    {
        let run_started = clock_ms();
        let selected = self.select_rules(&request);
        let rules = match selected {
            Ok(rules) => rules,
            Err(e) => return Err(e),
        };
        let results = self.evaluate_targets(&rules, targets);
        let ghost rs = results@;
        let finished = clock_ms();
        let total = if finished >= run_started {
            finished - run_started
        } else {
            0
        };
        let generated_at = finished / 1000;
        let generated_at_unix: u64 = if generated_at <= u64::MAX as u128 {
            generated_at as u64
        } else {
            u64::MAX
        };
        let outcome = self.finish_scan(results, total, generated_at_unix, &request.baseline);
        proof {
            let sel = choose|sel: RuleSelection| #[trigger] selects(sel, request, rules@);
            let pre = choose|pre: Seq<ReportItem>|
                #[trigger] items_of(pre, rs) && outcome.report.results@ == kept_items(pre, request.baseline)
                    && match outcome.baseline {
                    Some(s) => s.suppressed + outcome.report.results@.len() == pre.len(),
                    None => true,
                };
            assert(scan_outcome_of(sel, rs, pre, request, targets@, outcome.report.results@));
        }
        Ok(outcome)
    }

    /// Runs a request and answers it the way the API does, with the time the
    /// scan took among the warnings.
    pub fn run_scan(&self, request: ScanRequest, targets: &Vec<ScanTarget>) -> (r: Result<
        ScanResponse,
        ScanError,
    >)
        ensures
            match r {
                Ok(resp) => {
                    &&& resp.warnings@.len() == 1
                    &&& exists|ms: u128|
                        resp.warnings@[0]@ == "scan completed in "@ + decimal(ms as nat) + "ms"@
                    &&& (resp.baseline is Some <==> request.baseline is Some)
                    &&& exists|sel: RuleSelection, results: Seq<EngineResult>, pre: Seq<ReportItem>|
                        #[trigger] scan_outcome_of(sel, results, pre, request, targets@, resp.report.results@)
                },
                Err(e) => selection_ok(
                    profile_of(request.profile),
                    request.included@,
                    request.excluded@,
                    Err(e),
                ),
            },
    {
        let started = clock_ms();
        let ghost req = request;
        let outcome = match self.run_scan_report(request, targets) {
            Ok(o) => o,
            Err(e) => return Err(e),
        };
        let ghost reported = outcome.report.results@;
        proof {
            let (sel, results, pre) = choose|sel: RuleSelection, results: Seq<EngineResult>, pre: Seq<ReportItem>|
                #[trigger] scan_outcome_of(sel, results, pre, req, targets@, reported);
            assert(scan_outcome_of(sel, results, pre, req, targets@, reported));
        }
        let finished = clock_ms();
        let elapsed = if finished >= started {
            finished - started
        } else {
            0
        };
        let mut warning = owned("scan completed in ");
        push_decimal(&mut warning, elapsed);
        push_str(&mut warning, "ms");
        let mut warnings: Vec<String> = Vec::new();
        assert(warning@ == "scan completed in "@ + decimal(elapsed as nat) + "ms"@);
        warnings.push(warning);
        assert(warnings@[0]@ == "scan completed in "@ + decimal(elapsed as nat) + "ms"@);
        let baseline = match outcome.baseline {
            Some(s) => Some(BaselineInfo { suppressed: s.suppressed }),
            None => None,
        };
        let resp = ScanResponse { report: outcome.report, warnings, baseline };
        assert(resp.report.results@ == reported);
        Ok(resp)
    }
}

} // verus!
