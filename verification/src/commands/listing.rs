//! `--list-rules` and `--show-rule`: the rule catalogue and one rule's
//! details as terminal tables.
use vstd::prelude::*;
use crate::commands::support::OutputFormat;
use crate::profiles::{detail_of, opt_detail, rule_detail, rule_inventory, RuleDetailItem, RuleInventoryItem};
use crate::rules::base::{category_label, category_name, severity_label, severity_name};
use crate::tables::{draw_plain_table, rows_view, table_text, TableFrame};
use crate::text::{concat, join, owned, push_str, seq_join, views};

verus! {

pub open spec fn inventory_header() -> Seq<Seq<char>> {
    seq!["Rule ID"@, "Name"@, "Category"@, "Severity"@, "Default ScanProfiles"@]
}

pub open spec fn inventory_row_spec(i: RuleInventoryItem) -> Seq<Seq<char>> {
    seq![
        i.rule_id@,
        i.name@,
        category_name(i.category),
        severity_name(i.severity),
        seq_join(views(i.default_profiles@), ", "@),
    ]
}

/// The catalogue as a table.
pub fn render_rule_inventory_table(items: &Vec<RuleInventoryItem>) -> (r: String)
    ensures
        r@ == table_text(
            TableFrame::Ascii,
            inventory_header(),
            items@.map_values(|i: RuleInventoryItem| inventory_row_spec(i)),
        ),
{
    let mut header: Vec<String> = Vec::new();
    header.push(owned("Rule ID"));
    header.push(owned("Name"));
    header.push(owned("Category"));
    header.push(owned("Severity"));
    header.push(owned("Default ScanProfiles"));
    assert(views(header@) =~= inventory_header());
    let mut rows: Vec<Vec<String>> = Vec::new();
    let mut k: usize = 0;
    while k < items.len()
        invariant
            0 <= k <= items@.len(),
            rows_view(rows@) == items@.take(k as int).map_values(|i: RuleInventoryItem| inventory_row_spec(i)),
        decreases items@.len() - k,
    {
        let item = &items[k];
        let mut row: Vec<String> = Vec::new();
        row.push(owned(item.rule_id.as_str()));
        row.push(owned(item.name.as_str()));
        row.push(owned(category_label(item.category)));
        row.push(owned(severity_label(item.severity)));
        row.push(join(&item.default_profiles, ", "));
        assert(views(row@) =~= inventory_row_spec(*item));
        let ghost pre = rows_view(rows@);
        rows.push(row);
        assert(rows_view(rows@) =~= pre.push(inventory_row_spec(*item)));
        assert(items@.take(k + 1).map_values(|i: RuleInventoryItem| inventory_row_spec(i)) =~= items@.take(
            k as int,
        ).map_values(|i: RuleInventoryItem| inventory_row_spec(i)).push(inventory_row_spec(*item)));
        k = k + 1;
    }
    assert(items@.take(items@.len() as int) =~= items@);
    draw_plain_table(TableFrame::Ascii, &header, &rows)
}

pub open spec fn detail_rows_spec(d: RuleDetailItem) -> Seq<Seq<Seq<char>>> {
    seq![
        seq!["Rule ID"@, d.rule_id@],
        seq!["Name"@, d.name@],
        seq!["Category"@, category_name(d.category)],
        seq!["Severity"@, severity_name(d.severity)],
        seq!["Default ScanProfiles"@, seq_join(views(d.default_profiles@), ", "@)],
        seq!["Recommendation"@, d.recommendation@],
    ]
}

fn pair(a: &str, b: String) -> (r: Vec<String>)
    ensures
        views(r@) == seq![a@, b@],
{
    let mut v: Vec<String> = Vec::new();
    v.push(owned(a));
    v.push(b);
    assert(views(v@) =~= seq![a@, b@]);
    v
}

/// One rule's details as a table.
pub fn render_rule_detail_table(item: &RuleDetailItem) -> (r: String)
    ensures
        r@ == table_text(TableFrame::Ascii, seq!["Field"@, "Value"@], detail_rows_spec(*item)),
{
    let header = pair("Field", owned("Value"));
    let mut rows: Vec<Vec<String>> = Vec::new();
    rows.push(pair("Rule ID", owned(item.rule_id.as_str())));
    rows.push(pair("Name", owned(item.name.as_str())));
    rows.push(pair("Category", owned(category_label(item.category))));
    rows.push(pair("Severity", owned(severity_label(item.severity))));
    rows.push(pair("Default ScanProfiles", join(&item.default_profiles, ", ")));
    rows.push(pair("Recommendation", owned(item.recommendation.as_str())));
    assert(rows_view(rows@) =~= detail_rows_spec(*item));
    draw_plain_table(TableFrame::Ascii, &header, &rows)
}

/// How a listing is written out.
pub enum ListingOutput<T> {
    /// Text for the terminal.
    Text(String),
    /// The value itself, to be written as JSON.
    Json(T),
}

/// The rule catalogue in a format; SARIF is refused.
pub fn render_rule_inventory(format: OutputFormat) -> (r: Result<ListingOutput<Vec<RuleInventoryItem>>, String>)
    ensures
        match format {
            OutputFormat::Sarif => r matches Err(e) && e@ == "`--list-rules` supports only table or json output"@,
            _ => r is Ok,
        },
{
    let inventory = rule_inventory();
    match format {
        OutputFormat::Table => Ok(ListingOutput::Text(render_rule_inventory_table(&inventory))),
        OutputFormat::Json => Ok(ListingOutput::Json(inventory)),
        OutputFormat::Sarif => Err(owned("`--list-rules` supports only table or json output")),
    }
}

/// One rule's details in a format: unknown identifiers and SARIF are refused.
pub fn render_rule_detail(rule_id: &str, format: OutputFormat) -> (r: Result<ListingOutput<RuleDetailItem>, String>)
    ensures
        detail_of(rule_id@) is None ==> (r matches Err(e) && e@ == "Unknown rule ID `"@ + rule_id@ + "`"@),
        detail_of(rule_id@) is Some ==> (match format {
            OutputFormat::Sarif => r matches Err(e) && e@ == "`--show-rule` supports only table or json output"@,
            OutputFormat::Table => r matches Ok(ListingOutput::Text(t)) && exists|d: RuleDetailItem|
                opt_detail(Some(d)) == detail_of(rule_id@) && t@ == table_text(
                    TableFrame::Ascii,
                    seq!["Field"@, "Value"@],
                    detail_rows_spec(d),
                ),
            OutputFormat::Json => r matches Ok(ListingOutput::Json(d)) && opt_detail(Some(d)) == detail_of(
                rule_id@,
            ),
        }),
{
    let detail = match rule_detail(rule_id) {
        Some(d) => d,
        None => {
            let mut e = concat("Unknown rule ID `", rule_id);
            push_str(&mut e, "`");
            return Err(e);
        },
    };
    match format {
        OutputFormat::Table => {
            let t = render_rule_detail_table(&detail);
            Ok(ListingOutput::Text(t))
        },
        OutputFormat::Json => Ok(ListingOutput::Json(detail)),
        OutputFormat::Sarif => Err(owned("`--show-rule` supports only table or json output")),
    }
}

} // verus!
