//! Text renderings of a report: markdown, and the summary lines shared with
//! the table view.
use vstd::prelude::*;
use crate::report::data::{failing, is_failing, ArtifactCacheStats, CacheCounter, ReportData, ReportItem, SlowRule, TimingMode};
use crate::rules::base::{
    category_label, category_name, severity_label, severity_name, status_label, status_name,
    RuleStatus, Severity,
};
use crate::tables::{draw_table, rows_view, table_text, wrap_text, wrapped_lines, CellColor, TableFrame};
use crate::text::{concat, decimal, join, owned, push_decimal, push_str, seq_join, views};

verus! {

/// `"{name} h/m={hits}/{misses}"`.
pub open spec fn cache_counter_text(name: Seq<char>, c: CacheCounter) -> Seq<char> {
    name + " h/m="@ + decimal(c.hits as nat) + "/"@ + decimal(c.misses as nat)
}

pub fn format_cache_counter(name: &str, counter: CacheCounter) -> (r: String)
    ensures
        r@ == cache_counter_text(name@, counter),
{
    let mut out = concat(name, " h/m=");
    push_decimal(&mut out, counter.hits as u128);
    push_str(&mut out, "/");
    push_decimal(&mut out, counter.misses as u128);
    out
}

/// The named counters of the cache statistics, in report order.
pub open spec fn named_counters(s: ArtifactCacheStats) -> Seq<(Seq<char>, CacheCounter)> {
    seq![
        ("nested_bundles"@, s.nested_bundles),
        ("usage_scan"@, s.usage_scan),
        ("private_api_scan"@, s.private_api_scan),
        ("sdk_scan"@, s.sdk_scan),
        ("capability_scan"@, s.capability_scan),
        ("signature_summary"@, s.signature_summary),
        ("bundle_plist"@, s.bundle_plist),
        ("entitlements"@, s.entitlements),
        ("provisioning_profile"@, s.provisioning_profile),
        ("bundle_files"@, s.bundle_files),
    ]
}

/// The lines of the counters that saw activity, in order.
pub open spec fn active_counter_lines(cs: Seq<(Seq<char>, CacheCounter)>) -> Seq<Seq<char>>
    decreases cs.len(),
{
    if cs.len() == 0 {
        Seq::empty()
    } else {
        let prev = active_counter_lines(cs.drop_last());
        let (name, c) = cs.last();
        if c.hits > 0 || c.misses > 0 {
            prev.push(cache_counter_text(name, c))
        } else {
            prev
        }
    }
}

pub open spec fn cache_lines_of(s: ArtifactCacheStats) -> Seq<Seq<char>> {
    active_counter_lines(named_counters(s))
}

/// The lines describing cache activity, one per active counter.
pub fn markdown_cache_stats(stats: &ArtifactCacheStats) -> (r: Vec<String>)
    ensures
        views(r@) == cache_lines_of(*stats),
{
    let names: Vec<&'static str> = vec![
        "nested_bundles",
        "usage_scan",
        "private_api_scan",
        "sdk_scan",
        "capability_scan",
        "signature_summary",
        "bundle_plist",
        "entitlements",
        "provisioning_profile",
        "bundle_files",
    ];
    let counters: Vec<CacheCounter> = vec![
        stats.nested_bundles,
        stats.usage_scan,
        stats.private_api_scan,
        stats.sdk_scan,
        stats.capability_scan,
        stats.signature_summary,
        stats.bundle_plist,
        stats.entitlements,
        stats.provisioning_profile,
        stats.bundle_files,
    ];
    let ghost all = named_counters(*stats);
    assert(all.len() == 10);
    assert forall|k: int| 0 <= k < 10 implies #[trigger] all[k] == (names@[k]@, counters@[k]) by {}
    let mut out: Vec<String> = Vec::new();
    let mut i: usize = 0;
    assert(views(out@) =~= Seq::<Seq<char>>::empty());
    while i < 10
        invariant
            0 <= i <= 10,
            names@.len() == 10,
            counters@.len() == 10,
            all == named_counters(*stats),
            forall|k: int| 0 <= k < 10 ==> #[trigger] all[k] == (names@[k]@, counters@[k]),
            views(out@) == active_counter_lines(all.take(i as int)),
        decreases 10 - i,
    {
        assert(all.take(i + 1).drop_last() =~= all.take(i as int));
        assert(all.take(i + 1).last() == all[i as int]);
        let c = counters[i];
        if c.hits > 0 || c.misses > 0 {
            let ghost pre = views(out@);
            out.push(format_cache_counter(names[i], c));
            assert(views(out@) =~= pre.push(cache_counter_text(names@[i as int]@, c)));
        }
        i = i + 1;
    }
    assert(all.take(10) =~= all);
    out
}

pub open spec fn cache_summary_text(s: ArtifactCacheStats) -> Seq<char> {
    let lines = cache_lines_of(s);
    if lines.len() == 0 {
        Seq::empty()
    } else {
        "\nCache activity: "@ + seq_join(lines, ", "@)
    }
}

/// The cache activity suffix of the table view.
pub fn format_cache_stats(stats: &ArtifactCacheStats) -> (r: String)
    ensures
        r@ == cache_summary_text(*stats),
{
    let lines = markdown_cache_stats(stats);
    if lines.len() == 0 {
        return String::new();
    }
    let joined = join(&lines, ", ");
    concat("\nCache activity: ", joined.as_str())
}

pub open spec fn slow_part(s: SlowRule) -> Seq<char> {
    s.rule_id@ + " ("@ + decimal(s.duration_ms as nat) + " ms)"@
}

pub open spec fn slow_summary_text(items: Seq<SlowRule>) -> Seq<char> {
    if items.len() == 0 {
        Seq::empty()
    } else {
        "\nSlowest rules: "@ + seq_join(items.map_values(|s: SlowRule| slow_part(s)), ", "@)
    }
}

/// The slowest-rules suffix of the table view.
pub fn format_slow_rules(items: &Vec<SlowRule>) -> (r: String)
    ensures
        r@ == slow_summary_text(items@),
{
    if items.len() == 0 {
        return String::new();
    }
    let mut parts: Vec<String> = Vec::new();
    let mut i: usize = 0;
    assert(views(parts@) =~= Seq::<Seq<char>>::empty());
    while i < items.len()
        invariant
            0 <= i <= items@.len(),
            views(parts@) == items@.take(i as int).map_values(|s: SlowRule| slow_part(s)),
        decreases items@.len() - i,
    {
        let ghost pre = views(parts@);
        let mut part = concat(items[i].rule_id.as_str(), " (");
        push_decimal(&mut part, items[i].duration_ms);
        push_str(&mut part, " ms)");
        assert(part@ == slow_part(items@[i as int]));
        parts.push(part);
        assert(views(parts@) =~= pre.push(slow_part(items@[i as int])));
        assert(items@.take(i + 1).map_values(|s: SlowRule| slow_part(s)) =~= items@.take(
            i as int,
        ).map_values(|s: SlowRule| slow_part(s)).push(slow_part(items@[i as int])));
        i = i + 1;
    }
    assert(items@.take(items@.len() as int) =~= items@);
    let joined = join(&parts, ", ");
    concat("\nSlowest rules: ", joined.as_str())
}

pub open spec fn sarif_level_of(s: Severity) -> Seq<char> {
    match s {
        Severity::Error => "error"@,
        Severity::Warning => "warning"@,
        Severity::Info => "note"@,
    }
}

/// The SARIF level of a severity.
pub fn sarif_level(severity: Severity) -> (r: &'static str)
    ensures
        r@ == sarif_level_of(severity),
{
    match severity {
        Severity::Error => "error",
        Severity::Warning => "warning",
        Severity::Info => "note",
    }
}

/// How many items fail.
pub open spec fn count_failing(items: Seq<ReportItem>) -> nat
    decreases items.len(),
{
    if items.len() == 0 {
        0
    } else {
        count_failing(items.drop_last()) + if is_failing(items.last().status) {
            1nat
        } else {
            0nat
        }
    }
}

/// How many items have the severity.
pub open spec fn count_severity(items: Seq<ReportItem>, s: Severity) -> nat
    decreases items.len(),
{
    if items.len() == 0 {
        0
    } else {
        count_severity(items.drop_last(), s) + if items.last().severity == s {
            1nat
        } else {
            0nat
        }
    }
}

pub open spec fn slow_line(s: SlowRule) -> Seq<char> {
    "  - "@ + s.rule_name@ + " (`"@ + s.rule_id@ + "`): "@ + decimal(s.duration_ms as nat) + " ms\n"@
}

pub open spec fn concat_all(parts: Seq<Seq<char>>) -> Seq<char>
    decreases parts.len(),
{
    if parts.len() == 0 {
        Seq::empty()
    } else {
        concat_all(parts.drop_last()) + parts.last()
    }
}

/// The timing lines of the markdown summary.
pub open spec fn timing_lines(report: ReportData) -> Seq<char> {
    "- Total scan time: "@ + decimal(report.total_duration_ms as nat) + " ms\n"@ + (if report.slow_rules@.len()
        > 0 {
        "- Slowest rules:\n"@ + concat_all(report.slow_rules@.map_values(|s: SlowRule| slow_line(s)))
    } else {
        Seq::empty()
    }) + (if cache_lines_of(report.cache_stats).len() > 0 {
        "- Cache activity:\n"@ + concat_all(
            cache_lines_of(report.cache_stats).map_values(|l: Seq<char>| "  - "@ + l + "\n"@),
        )
    } else {
        Seq::empty()
    })
}

/// The summary lines of the markdown report.
pub open spec fn markdown_summary(report: ReportData, suppressed: Option<usize>, timing: TimingMode) -> Seq<
    char,
> {
    let items = report.results@;
    "# verifyOS-cli Report\n\n"@ + "- Total rules: "@ + decimal(items.len()) + "\n"@ + "- Failures: "@
        + decimal(count_failing(items)) + "\n"@ + "- Severity: error="@ + decimal(
        count_severity(items, Severity::Error),
    ) + ", warning="@ + decimal(count_severity(items, Severity::Warning)) + "\n"@ + (if timing
        != TimingMode::Off {
        timing_lines(report)
    } else {
        Seq::empty()
    }) + (match suppressed {
        Some(n) => "- Baseline suppressed: "@ + decimal(n as nat) + "\n"@,
        None => Seq::empty(),
    }) + "\n"@
}

/// The heading lines of one failing item.
pub open spec fn item_head(item: ReportItem) -> Seq<char> {
    "- **"@ + item.rule_name@ + "** (`"@ + item.rule_id@ + "`)\n"@ + "  - Category: `"@
        + category_name(item.category) + "`\n"@ + "  - Severity: `"@ + severity_name(item.severity)
        + "`\n"@ + "  - Status: `"@ + status_name(item.status) + "`\n"@
}

/// The message and evidence lines of one failing item.
pub open spec fn item_notes(item: ReportItem) -> Seq<char> {
    (match item.message {
        Some(m) => "  - Message: "@ + m@ + "\n"@,
        None => Seq::empty(),
    }) + (match item.evidence {
        Some(e) => "  - Evidence: "@ + e@ + "\n"@,
        None => Seq::empty(),
    })
}

/// The recommendation and timing lines of one failing item.
pub open spec fn item_trailer(item: ReportItem, timing: TimingMode) -> Seq<char> {
    (if item.recommendation@.len() > 0 {
        "  - Recommendation: "@ + item.recommendation@ + "\n"@
    } else {
        Seq::empty()
    }) + (if timing == TimingMode::Full {
        "  - Time: "@ + decimal(item.duration_ms as nat) + " ms\n"@
    } else {
        Seq::empty()
    })
}

/// The markdown lines of one failing item.
pub open spec fn item_block(item: ReportItem, timing: TimingMode) -> Seq<char> {
    item_head(item) + item_notes(item) + item_trailer(item, timing)
}

/// The blocks of the failing items, in order.
pub open spec fn failing_blocks(items: Seq<ReportItem>, timing: TimingMode) -> Seq<char>
    decreases items.len(),
{
    if items.len() == 0 {
        Seq::empty()
    } else {
        failing_blocks(items.drop_last(), timing) + if is_failing(items.last().status) {
            item_block(items.last(), timing)
        } else {
            Seq::empty()
        }
    }
}

/// The markdown report.
pub open spec fn markdown_report(report: ReportData, suppressed: Option<usize>, timing: TimingMode) -> Seq<
    char,
> {
    markdown_summary(report, suppressed, timing) + if count_failing(report.results@) == 0 {
        "## Findings\n\n- No failing findings.\n"@
    } else {
        "## Findings\n\n"@ + failing_blocks(report.results@, timing)
    }
}

fn count_items(items: &Vec<ReportItem>, sev: Option<Severity>) -> (r: usize)
    ensures
        r == match sev {
            Some(s) => count_severity(items@, s),
            None => count_failing(items@),
        },
{
    let mut n: usize = 0;
    let mut i: usize = 0;
    while i < items.len()
        invariant
            0 <= i <= items@.len(),
            n <= i,
            n == match sev {
                Some(s) => count_severity(items@.take(i as int), s),
                None => count_failing(items@.take(i as int)),
            },
        decreases items@.len() - i,
    {
        assert(items@.take(i + 1).drop_last() =~= items@.take(i as int));
        let hit = match sev {
            Some(s) => items[i].severity == s,
            None => failing(items[i].status),
        };
        if hit {
            n = n + 1;
        }
        i = i + 1;
    }
    assert(items@.take(items@.len() as int) =~= items@);
    n
}

fn push_timing_lines(out: &mut String, report: &ReportData)
    ensures
        final(out)@ == old(out)@ + timing_lines(*report),
{
    let ghost start = out@;
    push_str(out, "- Total scan time: ");
    push_decimal(out, report.total_duration_ms);
    push_str(out, " ms\n");
    let ghost a = out@;
    if report.slow_rules.len() > 0 {
        push_str(out, "- Slowest rules:\n");
        let ghost b = out@;
        let mut i: usize = 0;
        while i < report.slow_rules.len()
            invariant
                0 <= i <= report.slow_rules@.len(),
                out@ == b + concat_all(
                    report.slow_rules@.take(i as int).map_values(|s: SlowRule| slow_line(s)),
                ),
            decreases report.slow_rules@.len() - i,
        {
            let item = &report.slow_rules[i];
            let ghost pre = out@;
            push_str(out, "  - ");
            push_str(out, item.rule_name.as_str());
            push_str(out, " (`");
            push_str(out, item.rule_id.as_str());
            push_str(out, "`): ");
            push_decimal(out, item.duration_ms);
            push_str(out, " ms\n");
            let ghost t = report.slow_rules@.take(i + 1).map_values(|s: SlowRule| slow_line(s));
            assert(t.drop_last() =~= report.slow_rules@.take(i as int).map_values(
                |s: SlowRule| slow_line(s),
            ));
            assert(out@ =~= pre + slow_line(*item));
            i = i + 1;
        }
        assert(report.slow_rules@.take(report.slow_rules@.len() as int) =~= report.slow_rules@);
    }
    let ghost c = out@;
    let lines = markdown_cache_stats(&report.cache_stats);
    if lines.len() > 0 {
        push_str(out, "- Cache activity:\n");
        let ghost d = out@;
        let mut k: usize = 0;
        while k < lines.len()
            invariant
                0 <= k <= lines@.len(),
                out@ == d + concat_all(
                    views(lines@).take(k as int).map_values(|l: Seq<char>| "  - "@ + l + "\n"@),
                ),
            decreases lines@.len() - k,
        {
            let ghost pre = out@;
            push_str(out, "  - ");
            push_str(out, lines[k].as_str());
            push_str(out, "\n");
            let ghost t = views(lines@).take(k + 1).map_values(|l: Seq<char>| "  - "@ + l + "\n"@);
            assert(t.drop_last() =~= views(lines@).take(k as int).map_values(
                |l: Seq<char>| "  - "@ + l + "\n"@,
            ));
            assert(t.last() == "  - "@ + lines@[k as int]@ + "\n"@);
            k = k + 1;
        }
        assert(views(lines@).take(lines@.len() as int) =~= views(lines@));
    }
    assert(out@ =~= start + timing_lines(*report));
}

fn push_item_head(out: &mut String, item: &ReportItem)
    ensures
        final(out)@ == old(out)@ + item_head(*item),
{
    let ghost start = out@;
    push_str(out, "- **");
    push_str(out, item.rule_name.as_str());
    push_str(out, "** (`");
    push_str(out, item.rule_id.as_str());
    push_str(out, "`)\n");
    push_str(out, "  - Category: `");
    push_str(out, category_label(item.category));
    push_str(out, "`\n");
    push_str(out, "  - Severity: `");
    push_str(out, severity_label(item.severity));
    push_str(out, "`\n");
    push_str(out, "  - Status: `");
    push_str(out, status_label(item.status));
    push_str(out, "`\n");
    assert(out@ =~= start + item_head(*item));
}

fn push_item_notes(out: &mut String, item: &ReportItem)
    ensures
        final(out)@ == old(out)@ + item_notes(*item),
{
    let ghost start = out@;
    if let Some(m) = &item.message {
        push_str(out, "  - Message: ");
        push_str(out, m.as_str());
        push_str(out, "\n");
    }
    let ghost b = out@;
    if let Some(e) = &item.evidence {
        push_str(out, "  - Evidence: ");
        push_str(out, e.as_str());
        push_str(out, "\n");
    }
    assert(out@ =~= start + item_notes(*item));
}

fn push_item_trailer(out: &mut String, item: &ReportItem, timing_mode: TimingMode)
    ensures
        final(out)@ == old(out)@ + item_trailer(*item, timing_mode),
{
    let ghost start = out@;
    if !item.recommendation.as_str().is_empty() {
        push_str(out, "  - Recommendation: ");
        push_str(out, item.recommendation.as_str());
        push_str(out, "\n");
    }
    let ghost d = out@;
    if timing_mode == TimingMode::Full {
        push_str(out, "  - Time: ");
        push_decimal(out, item.duration_ms);
        push_str(out, " ms\n");
    }
    assert(out@ =~= start + item_trailer(*item, timing_mode));
}

fn push_item_block(out: &mut String, item: &ReportItem, timing_mode: TimingMode)
    ensures
        final(out)@ == old(out)@ + item_block(*item, timing_mode),
{
    let ghost start = out@;
    push_item_head(out, item);
    push_item_notes(out, item);
    push_item_trailer(out, item, timing_mode);
    assert(out@ =~= start + item_block(*item, timing_mode));
}

/// Renders the report as markdown: a summary, then the failing findings.
pub fn render_markdown(report: &ReportData, suppressed: Option<usize>, timing_mode: TimingMode) -> (r:
    String)
    ensures
        r@ == markdown_report(*report, suppressed, timing_mode),
{
    let total = report.results.len();
    let fail_count = count_items(&report.results, None);
    let warn_count = count_items(&report.results, Some(Severity::Warning));
    let error_count = count_items(&report.results, Some(Severity::Error));
    let mut out = owned("# verifyOS-cli Report\n\n");
    push_str(&mut out, "- Total rules: ");
    push_decimal(&mut out, total as u128);
    push_str(&mut out, "\n");
    push_str(&mut out, "- Failures: ");
    push_decimal(&mut out, fail_count as u128);
    push_str(&mut out, "\n");
    push_str(&mut out, "- Severity: error=");
    push_decimal(&mut out, error_count as u128);
    push_str(&mut out, ", warning=");
    push_decimal(&mut out, warn_count as u128);
    push_str(&mut out, "\n");
    let ghost a = out@;
    if timing_mode != TimingMode::Off {
        push_timing_lines(&mut out, report);
    }
    let ghost b = out@;
    if let Some(n) = suppressed {
        push_str(&mut out, "- Baseline suppressed: ");
        push_decimal(&mut out, n as u128);
        push_str(&mut out, "\n");
    }
    push_str(&mut out, "\n");
    assert(out@ =~= markdown_summary(*report, suppressed, timing_mode));
    let ghost summary = out@;
    if fail_count == 0 {
        push_str(&mut out, "## Findings\n\n- No failing findings.\n");
        return out;
    }
    push_str(&mut out, "## Findings\n\n");
    let ghost body = out@;
    let mut i: usize = 0;
    while i < report.results.len()
        invariant
            0 <= i <= report.results@.len(),
            out@ == body + failing_blocks(report.results@.take(i as int), timing_mode),
        decreases report.results@.len() - i,
    {
        assert(report.results@.take(i + 1).drop_last() =~= report.results@.take(i as int));
        let item = &report.results[i];
        if failing(item.status) {
            push_item_block(&mut out, item, timing_mode);
        }
        i = i + 1;
    }
    assert(report.results@.take(report.results@.len() as int) =~= report.results@);
    out
}

/// The severity as the table prints it.
pub open spec fn severity_cell(s: Severity) -> Seq<char> {
    match s {
        Severity::Error => "ERROR"@,
        Severity::Warning => "WARNING"@,
        Severity::Info => "INFO"@,
    }
}

fn severity_cell_text(s: Severity) -> (r: &'static str)
    ensures
        r@ == severity_cell(s),
{
    match s {
        Severity::Error => "ERROR",
        Severity::Warning => "WARNING",
        Severity::Info => "INFO",
    }
}

/// The status as the table prints it.
pub open spec fn status_cell(s: RuleStatus) -> Seq<char> {
    match s {
        RuleStatus::Pass => "PASS"@,
        RuleStatus::Fail => "FAIL"@,
        RuleStatus::Error => "ERROR"@,
        RuleStatus::Skip => "SKIP"@,
    }
}

fn status_cell_text(s: RuleStatus) -> (r: &'static str)
    ensures
        r@ == status_cell(s),
{
    match s {
        RuleStatus::Pass => "PASS",
        RuleStatus::Fail => "FAIL",
        RuleStatus::Error => "ERROR",
        RuleStatus::Skip => "SKIP",
    }
}

/// The colour of a severity cell.
pub open spec fn severity_color(s: Severity) -> CellColor {
    match s {
        Severity::Error => CellColor::Red,
        Severity::Warning => CellColor::Yellow,
        Severity::Info => CellColor::Blue,
    }
}

/// The colour of a status cell.
pub open spec fn status_color(s: RuleStatus) -> CellColor {
    match s {
        RuleStatus::Pass => CellColor::Green,
        RuleStatus::Fail => CellColor::Red,
        RuleStatus::Error => CellColor::Red,
        RuleStatus::Skip => CellColor::Yellow,
    }
}

/// The colours of a row: severity and status coloured, the rest plain.
pub open spec fn table_colors_spec(item: ReportItem, timing: TimingMode) -> Seq<CellColor> {
    seq![
        CellColor::Plain,
        CellColor::Plain,
        severity_color(item.severity),
        status_color(item.status),
        CellColor::Plain,
    ] + if timing == TimingMode::Full {
        seq![CellColor::Plain]
    } else {
        Seq::empty()
    }
}

pub open spec fn table_colors_rows(items: Seq<ReportItem>, timing: TimingMode) -> Seq<Seq<CellColor>> {
    items.map_values(|i: ReportItem| table_colors_spec(i, timing))
}

fn table_colors(item: &ReportItem, timing: TimingMode) -> (r: Vec<CellColor>)
    ensures
        r@ == table_colors_spec(*item, timing),
{
    let mut c: Vec<CellColor> = Vec::new();
    c.push(CellColor::Plain);
    c.push(CellColor::Plain);
    c.push(
        match item.severity {
            Severity::Error => CellColor::Red,
            Severity::Warning => CellColor::Yellow,
            Severity::Info => CellColor::Blue,
        },
    );
    c.push(
        match item.status {
            RuleStatus::Pass => CellColor::Green,
            RuleStatus::Fail => CellColor::Red,
            RuleStatus::Error => CellColor::Red,
            RuleStatus::Skip => CellColor::Yellow,
        },
    );
    c.push(CellColor::Plain);
    if timing == TimingMode::Full {
        c.push(CellColor::Plain);
    }
    assert(c@ =~= table_colors_spec(*item, timing));
    c
}

/// The table's columns; the time column only with full timings.
pub open spec fn table_header_spec(timing: TimingMode) -> Seq<Seq<char>> {
    seq!["Rule"@, "Category"@, "Severity"@, "Status"@, "Message"@] + if timing == TimingMode::Full {
        seq!["Time"@]
    } else {
        Seq::empty()
    }
}

/// The message a row shows: the finding's message, or `PASS`.
pub open spec fn row_message(item: ReportItem) -> Seq<char> {
    match item.message {
        Some(m) => m@,
        None => "PASS"@,
    }
}

/// The width the message column is wrapped at.
pub const MESSAGE_WIDTH: usize = 50;

/// A row of the table, its message already broken into lines.
pub open spec fn table_cells_spec(item: ReportItem, timing: TimingMode, wrapped: Seq<Seq<char>>) -> Seq<
    Seq<char>,
> {
    seq![
        item.rule_name@,
        category_name(item.category),
        severity_cell(item.severity),
        status_cell(item.status),
        seq_join(wrapped, "\n"@),
    ] + if timing == TimingMode::Full {
        seq![decimal(item.duration_ms as nat) + " ms"@]
    } else {
        Seq::empty()
    }
}

pub open spec fn table_rows_spec(items: Seq<ReportItem>, timing: TimingMode) -> Seq<Seq<Seq<char>>> {
    items.map_values(
        |i: ReportItem| table_cells_spec(i, timing, wrapped_lines(row_message(i), MESSAGE_WIDTH)),
    )
}

/// The drawn table followed, unless timings are off, by the scan time, the
/// slowest rules and the cache activity.
pub open spec fn timed_table_spec(drawn: Seq<char>, report: ReportData, timing: TimingMode) -> Seq<char> {
    if timing == TimingMode::Off {
        drawn
    } else {
        drawn + "\nTotal scan time: "@ + decimal(report.total_duration_ms as nat) + " ms"@
            + slow_summary_text(report.slow_rules@) + cache_summary_text(report.cache_stats) + "\n"@
    }
}

/// The report as an unstyled table.
pub open spec fn table_report_spec(report: ReportData, timing: TimingMode) -> Seq<char> {
    timed_table_spec(
        table_text(
            TableFrame::Rounded,
            table_header_spec(timing),
            table_rows_spec(report.results@, timing),
        ),
        report,
        timing,
    )
}

fn table_header(timing: TimingMode) -> (r: Vec<String>)
    ensures
        views(r@) == table_header_spec(timing),
{
    let mut h: Vec<String> = Vec::new();
    h.push(owned("Rule"));
    h.push(owned("Category"));
    h.push(owned("Severity"));
    h.push(owned("Status"));
    h.push(owned("Message"));
    if timing == TimingMode::Full {
        h.push(owned("Time"));
    }
    assert(views(h@) =~= table_header_spec(timing));
    h
}

/// A row of the table, from the lines its message was wrapped into.
pub fn table_cells(item: &ReportItem, timing: TimingMode, wrapped: &Vec<String>) -> (r: Vec<String>)
    ensures
        views(r@) == table_cells_spec(*item, timing, views(wrapped@)),
{
    let mut row: Vec<String> = Vec::new();
    row.push(owned(item.rule_name.as_str()));
    row.push(owned(category_label(item.category)));
    row.push(owned(severity_cell_text(item.severity)));
    row.push(owned(status_cell_text(item.status)));
    row.push(join(wrapped, "\n"));
    if timing == TimingMode::Full {
        let mut t = String::new();
        push_decimal(&mut t, item.duration_ms);
        push_str(&mut t, " ms");
        row.push(t);
    }
    assert(views(row@) =~= table_cells_spec(*item, timing, views(wrapped@)));
    row
}

/// The drawn table with the timing summary after it.
pub fn timed_table(drawn: &str, report: &ReportData, timing: TimingMode) -> (r: String)
    ensures
        r@ == timed_table_spec(drawn@, *report, timing),
{
    if timing == TimingMode::Off {
        return owned(drawn);
    }
    let mut out = concat(drawn, "\nTotal scan time: ");
    push_decimal(&mut out, report.total_duration_ms);
    push_str(&mut out, " ms");
    let slow = format_slow_rules(&report.slow_rules);
    push_str(&mut out, slow.as_str());
    let cache = format_cache_stats(&report.cache_stats);
    push_str(&mut out, cache.as_str());
    push_str(&mut out, "\n");
    out
}

/// The report as a terminal table; severity and status cells are coloured
/// when `styled` (the output is a terminal). Unstyled, the text is exact;
/// styled, the table text depends on the environment (`NO_COLOR`), and the
/// timing summary after it is exact.
pub fn render_table(report: &ReportData, timing_mode: TimingMode, styled: bool) -> (r: String)
    ensures
        !styled ==> r@ == table_report_spec(*report, timing_mode),
        exists|drawn: Seq<char>| r@ == timed_table_spec(drawn, *report, timing_mode),
{
    let header = table_header(timing_mode);
    let mut rows: Vec<Vec<String>> = Vec::new();
    let mut colors: Vec<Vec<CellColor>> = Vec::new();
    let mut i: usize = 0;
    while i < report.results.len()
        invariant
            0 <= i <= report.results@.len(),
            rows_view(rows@) == table_rows_spec(report.results@.take(i as int), timing_mode),
            colors@.map_values(|c: Vec<CellColor>| c@) == table_colors_rows(report.results@.take(i as int), timing_mode),
        decreases report.results@.len() - i,
    {
        let item = &report.results[i];
        let message = match &item.message {
            Some(m) => owned(m.as_str()),
            None => owned("PASS"),
        };
        let wrapped = wrap_text(message.as_str(), MESSAGE_WIDTH);
        let ghost pre = rows_view(rows@);
        rows.push(table_cells(item, timing_mode, &wrapped));
        let ghost cpre = colors@.map_values(|c: Vec<CellColor>| c@);
        colors.push(table_colors(item, timing_mode));
        assert(colors@.map_values(|c: Vec<CellColor>| c@) =~= cpre.push(table_colors_spec(*item, timing_mode)));
        assert(table_colors_rows(report.results@.take(i + 1), timing_mode) =~= table_colors_rows(
            report.results@.take(i as int),
            timing_mode,
        ).push(table_colors_spec(*item, timing_mode)));
        assert(rows_view(rows@) =~= pre.push(
            table_cells_spec(*item, timing_mode, wrapped_lines(row_message(*item), MESSAGE_WIDTH)),
        ));
        assert(table_rows_spec(report.results@.take(i + 1), timing_mode) =~= table_rows_spec(
            report.results@.take(i as int),
            timing_mode,
        ).push(table_cells_spec(*item, timing_mode, wrapped_lines(row_message(*item), MESSAGE_WIDTH))));
        i = i + 1;
    }
    assert(report.results@.take(report.results@.len() as int) =~= report.results@);
    assert forall|k: int| 0 <= k < rows@.len() implies #[trigger] colors@[k]@.len() == rows@[k]@.len() by {
        assert(colors@.map_values(|c: Vec<CellColor>| c@)[k] == colors@[k]@);
        assert(rows_view(rows@)[k] == views(rows@[k]@));
        assert(views(rows@[k]@).len() == rows@[k]@.len());
    }
    let drawn = draw_table(TableFrame::Rounded, &header, &rows, &colors, styled);
    let r = timed_table(drawn.as_str(), report, timing_mode);
    assert(r@ == timed_table_spec(drawn@, *report, timing_mode));
    r
}

} // verus!
