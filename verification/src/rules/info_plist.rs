//! Info.plist keys: usage descriptions, capability lists and URL schemes.
use vstd::prelude::*;
use crate::rules::base::{
    bare, outcome, report_of, with_evidence, with_message, AppStoreRule, ArtifactContext,
    ReportView, RuleCategory, RuleError, RuleReport, RuleStatus, Severity,
};
use crate::parsers::macho_scanner::{
    scan_capabilities_from_app_bundle, scan_usage_from_app_bundle, str_views, usage_scan_of,
    UsageScan, UsageScanView,
};
use crate::parsers::plist_reader::{array_of, bool_of, dict_of, InfoPlist, PlistEntry, PlistValue};
use crate::text::{
    chars_of, concat, decimal, join, lower_seq, owned, push_decimal, push_str, seq_join,
    str_eq, to_ascii_lowercase, trim, trim_spec, views,
};
use crate::parsers::macho_scanner::capabilities_upto;
use crate::parsers::macho_scanner::CAPABILITY_SIGNATURE_COUNT;
use crate::rules::entitlements::{listed, push_listed, strings_contain};
use crate::text_order::{sort_strings, sorted_text};

verus! {

pub const LSQUERY_SCHEME_LIMIT: usize = 50;

/// The location usage keys, any one of which satisfies location use.
pub open spec fn location_key(i: int) -> Seq<char> {
    if i == 0 {
        "NSLocationWhenInUseUsageDescription"@
    } else if i == 1 {
        "NSLocationAlwaysAndWhenInUseUsageDescription"@
    } else {
        "NSLocationAlwaysUsageDescription"@
    }
}

pub fn location_key_at(i: usize) -> (r: &'static str)
    ensures
        r@ == location_key(i as int),
{
    if i == 0 {
        "NSLocationWhenInUseUsageDescription"
    } else if i == 1 {
        "NSLocationAlwaysAndWhenInUseUsageDescription"
    } else {
        "NSLocationAlwaysUsageDescription"
    }
}

/// The value under `key` is a string that is blank once trimmed.
pub open spec fn empty_string_at(p: InfoPlist, key: Seq<char>) -> bool {
    match p.string_at(key) {
        Some(v) => trim_spec(v).len() == 0,
        None => false,
    }
}

pub fn is_empty_string(plist: &InfoPlist, key: &str) -> (r: bool)
    ensures
        r == empty_string_at(*plist, key@),
{
    match plist.get_string(key) {
        Some(v) => {
            let t = trim(v);
            t.as_str().is_empty()
        },
        None => false,
    }
}

/// The value under `key` is an empty array.
pub open spec fn empty_array_at(p: InfoPlist, key: Seq<char>) -> bool {
    match array_of(p.value(key)) {
        Some(a) => a.len() == 0,
        None => false,
    }
}

pub fn is_empty_array(plist: &InfoPlist, key: &str) -> (r: bool)
    ensures
        r == empty_array_at(*plist, key@),
{
    match plist.get_value(key) {
        Some(v) => match v.as_array() {
            Some(a) => a.len() == 0,
            None => false,
        },
        None => false,
    }
}

pub open spec fn any_location_key(p: InfoPlist) -> bool {
    p.has(location_key(0)) || p.has(location_key(1)) || p.has(location_key(2))
}

pub fn has_any_location_key(plist: &InfoPlist) -> (r: bool)
    ensures
        r == any_location_key(*plist),
{
    plist.has_key(location_key_at(0)) || plist.has_key(location_key_at(1)) || plist.has_key(
        location_key_at(2),
    )
}

/// The first location key that is present with a blank value.
pub open spec fn empty_location_key(p: InfoPlist) -> Option<Seq<char>> {
    if p.has(location_key(0)) && empty_string_at(p, location_key(0)) {
        Some(location_key(0))
    } else if p.has(location_key(1)) && empty_string_at(p, location_key(1)) {
        Some(location_key(1))
    } else if p.has(location_key(2)) && empty_string_at(p, location_key(2)) {
        Some(location_key(2))
    } else {
        None
    }
}

pub fn find_empty_location_key(plist: &InfoPlist) -> (r: Option<&'static str>)
    ensures
        match r {
            Some(k) => empty_location_key(*plist) == Some(k@),
            None => empty_location_key(*plist) is None,
        },
{
    let mut i: usize = 0;
    while i < 3
        invariant
            0 <= i <= 3,
            forall|j: int|
                0 <= j < i ==> !(#[trigger] plist.has(location_key(j)) && empty_string_at(
                    *plist,
                    location_key(j),
                )),
        decreases 3 - i,
    {
        let key = location_key_at(i);
        if plist.has_key(key) && is_empty_string(plist, key) {
            return Some(key);
        }
        i = i + 1;
    }
    assert(!(plist.has(location_key(0)) && empty_string_at(*plist, location_key(0))));
    assert(!(plist.has(location_key(1)) && empty_string_at(*plist, location_key(1))));
    None
}

/// The keys of `keys` that the plist lacks, in order.
pub open spec fn keys_missing(p: InfoPlist, keys: Seq<Seq<char>>) -> Seq<Seq<char>>
    decreases keys.len(),
{
    if keys.len() == 0 {
        Seq::empty()
    } else if p.has(keys.last()) {
        keys_missing(p, keys.drop_last())
    } else {
        keys_missing(p, keys.drop_last()).push(keys.last())
    }
}

/// The keys of `keys` whose values are blank strings, in order.
pub open spec fn keys_blank(p: InfoPlist, keys: Seq<Seq<char>>) -> Seq<Seq<char>>
    decreases keys.len(),
{
    if keys.len() == 0 {
        Seq::empty()
    } else if empty_string_at(p, keys.last()) {
        keys_blank(p, keys.drop_last()).push(keys.last())
    } else {
        keys_blank(p, keys.drop_last())
    }
}

/// Filters `keys` by presence (`blank` false) or by blank value (`blank` true).
fn filter_keys(plist: &InfoPlist, keys: &Vec<&'static str>, blank: bool) -> (r: Vec<String>)
    ensures
        views(r@) == if blank {
            keys_blank(*plist, str_views(keys@))
        } else {
            keys_missing(*plist, str_views(keys@))
        },
{
    let mut out: Vec<String> = Vec::new();
    let mut i: usize = 0;
    assert(views(out@) =~= Seq::<Seq<char>>::empty());
    while i < keys.len()
        invariant
            0 <= i <= keys@.len(),
            views(out@) == if blank {
                keys_blank(*plist, str_views(keys@).take(i as int))
            } else {
                keys_missing(*plist, str_views(keys@).take(i as int))
            },
        decreases keys@.len() - i,
    {
        assert(str_views(keys@).take(i + 1).drop_last() =~= str_views(keys@).take(i as int));
        assert(str_views(keys@).take(i + 1).last() == keys@[i as int]@);
        let key = keys[i];
        let keep = if blank {
            is_empty_string(plist, key)
        } else {
            !plist.has_key(key)
        };
        if keep {
            let ghost pre = views(out@);
            out.push(owned(key));
            assert(views(out@) =~= pre.push(key@));
        }
        i = i + 1;
    }
    assert(str_views(keys@).take(keys@.len() as int) =~= str_views(keys@));
    out
}

/// The evidence of a usage scan, sorted and joined.
pub open spec fn evidence_text(s: UsageScanView) -> Seq<char> {
    seq_join(sorted_text(s.evidence), ", "@)
}

pub fn format_evidence(scan: &UsageScan) -> (r: String)
    ensures
        r@ == evidence_text(scan.view()),
{
    let mut list: Vec<String> = Vec::new();
    let mut i: usize = 0;
    assert(views(list@) =~= Seq::<Seq<char>>::empty());
    while i < scan.evidence.len()
        invariant
            0 <= i <= scan.evidence@.len(),
            views(list@) == str_views(scan.evidence@).take(i as int),
        decreases scan.evidence@.len() - i,
    {
        let ghost pre = views(list@);
        list.push(owned(scan.evidence[i]));
        assert(str_views(scan.evidence@).take(i + 1) =~= pre.push(scan.evidence@[i as int]@));
        assert(views(list@) =~= pre.push(scan.evidence@[i as int]@));
        i = i + 1;
    }
    assert(str_views(scan.evidence@).take(scan.evidence@.len() as int) =~= str_views(scan.evidence@));
    let sorted = sort_strings(list);
    join(&sorted, ", ")
}

/// `"{label}: {keys}. Evidence: {evidence}"`.
pub open spec fn keys_evidence(label: Seq<char>, keys: Seq<Seq<char>>, s: UsageScanView) -> Seq<char> {
    label + ": "@ + seq_join(keys, ", "@) + ". Evidence: "@ + evidence_text(s)
}

fn keys_evidence_text(label: &str, keys: &Vec<String>, scan: &UsageScan) -> (r: String)
    ensures
        r@ == keys_evidence(label@, views(keys@), scan.view()),
{
    let joined = join(keys, ", ");
    let ev = format_evidence(scan);
    let mut out = concat(label, ": ");
    push_str(&mut out, joined.as_str());
    push_str(&mut out, ". Evidence: ");
    push_str(&mut out, ev.as_str());
    out
}

pub open spec fn any_location_text() -> Seq<char> {
    "NSLocationWhenInUseUsageDescription | NSLocationAlwaysAndWhenInUseUsageDescription | NSLocationAlwaysUsageDescription"@
}

pub struct UsageDescriptionsRule;

/// The usage keys the plist lacks for what the scan found.
pub open spec fn missing_usage_keys(p: InfoPlist, s: UsageScanView) -> Seq<Seq<char>> {
    let m = keys_missing(p, s.required_keys);
    if s.requires_location_key && !any_location_key(p) {
        m.push(any_location_text())
    } else {
        m
    }
}

/// What the usage description check reports.
pub open spec fn usage_descriptions_outcome(a: ArtifactContext) -> Result<ReportView, RuleError> {
    match a.info_plist {
        None => Ok(report_of(RuleStatus::Skip, Some("Info.plist not found"@), None)),
        Some(p) => match a.scanned_executable {
            Err(e) => Ok(
                report_of(RuleStatus::Skip, Some("Usage scan skipped: "@ + e.message_spec()), None),
            ),
            Ok(b) => {
                let s = usage_scan_of(b@);
                if s.required_keys.len() == 0 && !s.requires_location_key {
                    Ok(report_of(RuleStatus::Pass, Some("No usage APIs detected"@), None))
                } else {
                    let m = missing_usage_keys(p, s);
                    if m.len() == 0 {
                        Ok(report_of(RuleStatus::Pass, None, None))
                    } else {
                        Ok(
                            report_of(
                                RuleStatus::Fail,
                                Some("Missing required usage description keys"@),
                                Some(keys_evidence("Missing keys"@, m, s)),
                            ),
                        )
                    }
                }
            },
        },
    }
}

impl AppStoreRule for UsageDescriptionsRule {
    fn id(&self) -> (r: &'static str)
        ensures
            r@ == "RULE_USAGE_DESCRIPTIONS"@,
    {
        "RULE_USAGE_DESCRIPTIONS"
    }

    fn name(&self) -> (r: &'static str)
        ensures
            r@ == "Missing Usage Description Keys"@,
    {
        "Missing Usage Description Keys"
    }

    fn category(&self) -> (r: RuleCategory)
        ensures
            r == RuleCategory::Privacy,
    {
        RuleCategory::Privacy
    }

    fn severity(&self) -> (r: Severity)
        ensures
            r == Severity::Warning,
    {
        Severity::Warning
    }

    fn recommendation(&self) -> (r: &'static str)
        ensures
            r@ == "Add NS*UsageDescription keys required by your app's feature usage."@,
    {
        "Add NS*UsageDescription keys required by your app's feature usage."
    }

    fn evaluate(&self, artifact: &ArtifactContext) -> (r: Result<RuleReport, RuleError>)
        ensures
            outcome(r) == usage_descriptions_outcome(*artifact),
    {
        let plist = match &artifact.info_plist {
            None => {
                return Ok(with_message(RuleStatus::Skip, "Info.plist not found"));
            },
            Some(p) => p,
        };
        let scan = match scan_usage_from_app_bundle(&artifact.scanned_executable) {
            Ok(s) => s,
            Err(err) => {
                let m = err.message();
                let msg = concat("Usage scan skipped: ", m.as_str());
                return Ok(RuleReport { status: RuleStatus::Skip, message: Some(msg), evidence: None });
            },
        };
        if scan.required_keys.len() == 0 && !scan.requires_location_key {
            return Ok(with_message(RuleStatus::Pass, "No usage APIs detected"));
        }
        let mut missing = filter_keys(plist, &scan.required_keys, false);
        if scan.requires_location_key && !has_any_location_key(plist) {
            let ghost pre = views(missing@);
            missing.push(owned("NSLocationWhenInUseUsageDescription | NSLocationAlwaysAndWhenInUseUsageDescription | NSLocationAlwaysUsageDescription"));
            assert(views(missing@) =~= pre.push(any_location_text()));
        }
        if missing.len() == 0 {
            return Ok(bare(RuleStatus::Pass));
        }
        let evidence = keys_evidence_text("Missing keys", &missing, &scan);
        Ok(with_evidence(RuleStatus::Fail, "Missing required usage description keys", evidence))
    }
}

pub struct UsageDescriptionsValueRule;

/// The usage keys whose values are blank, for what the scan found.
pub open spec fn blank_usage_keys(p: InfoPlist, s: UsageScanView) -> Seq<Seq<char>> {
    let e = keys_blank(p, s.required_keys);
    if s.requires_location_key {
        match empty_location_key(p) {
            Some(k) => e.push(k),
            None => e,
        }
    } else {
        e
    }
}

/// What the blank usage description check reports.
pub open spec fn usage_values_outcome(a: ArtifactContext) -> Result<ReportView, RuleError> {
    match a.info_plist {
        None => Ok(report_of(RuleStatus::Skip, Some("Info.plist not found"@), None)),
        Some(p) => match a.scanned_executable {
            Err(e) => Ok(
                report_of(RuleStatus::Skip, Some("Usage scan skipped: "@ + e.message_spec()), None),
            ),
            Ok(b) => {
                let s = usage_scan_of(b@);
                if s.required_keys.len() == 0 && !s.requires_location_key {
                    Ok(report_of(RuleStatus::Pass, Some("No usage APIs detected"@), None))
                } else {
                    let m = blank_usage_keys(p, s);
                    if m.len() == 0 {
                        Ok(report_of(RuleStatus::Pass, None, None))
                    } else {
                        Ok(
                            report_of(
                                RuleStatus::Fail,
                                Some("Usage description values are empty"@),
                                Some(keys_evidence("Empty keys"@, m, s)),
                            ),
                        )
                    }
                }
            },
        },
    }
}

impl AppStoreRule for UsageDescriptionsValueRule {
    fn id(&self) -> (r: &'static str)
        ensures
            r@ == "RULE_USAGE_DESCRIPTIONS_EMPTY"@,
    {
        "RULE_USAGE_DESCRIPTIONS_EMPTY"
    }

    fn name(&self) -> (r: &'static str)
        ensures
            r@ == "Empty Usage Description Values"@,
    {
        "Empty Usage Description Values"
    }

    fn category(&self) -> (r: RuleCategory)
        ensures
            r == RuleCategory::Privacy,
    {
        RuleCategory::Privacy
    }

    fn severity(&self) -> (r: Severity)
        ensures
            r == Severity::Warning,
    {
        Severity::Warning
    }

    fn recommendation(&self) -> (r: &'static str)
        ensures
            r@ == "Ensure NS*UsageDescription values are non-empty and user-facing."@,
    {
        "Ensure NS*UsageDescription values are non-empty and user-facing."
    }

    fn evaluate(&self, artifact: &ArtifactContext) -> (r: Result<RuleReport, RuleError>)
        ensures
            outcome(r) == usage_values_outcome(*artifact),
    {
        let plist = match &artifact.info_plist {
            None => {
                return Ok(with_message(RuleStatus::Skip, "Info.plist not found"));
            },
            Some(p) => p,
        };
        let scan = match scan_usage_from_app_bundle(&artifact.scanned_executable) {
            Ok(s) => s,
            Err(err) => {
                let m = err.message();
                let msg = concat("Usage scan skipped: ", m.as_str());
                return Ok(RuleReport { status: RuleStatus::Skip, message: Some(msg), evidence: None });
            },
        };
        if scan.required_keys.len() == 0 && !scan.requires_location_key {
            return Ok(with_message(RuleStatus::Pass, "No usage APIs detected"));
        }
        let mut empty = filter_keys(plist, &scan.required_keys, true);
        if scan.requires_location_key {
            if let Some(key) = find_empty_location_key(plist) {
                let ghost pre = views(empty@);
                empty.push(owned(key));
                assert(views(empty@) =~= pre.push(key@));
            }
        }
        if empty.len() == 0 {
            return Ok(bare(RuleStatus::Pass));
        }
        let evidence = keys_evidence_text("Empty keys", &empty, &scan);
        Ok(with_evidence(RuleStatus::Fail, "Usage description values are empty", evidence))
    }
}

pub struct InfoPlistRequiredKeysRule;

/// The two capability keys, in the order the checks list them.
pub open spec fn capability_keys() -> Seq<Seq<char>> {
    seq!["LSApplicationQueriesSchemes"@, "UIRequiredDeviceCapabilities"@]
}

/// What the required keys check reports.
pub open spec fn required_keys_outcome(a: ArtifactContext) -> Result<ReportView, RuleError> {
    match a.info_plist {
        None => Ok(report_of(RuleStatus::Skip, Some("Info.plist not found"@), None)),
        Some(p) => {
            let m = keys_missing(p, capability_keys());
            if m.len() == 0 {
                Ok(report_of(RuleStatus::Pass, None, None))
            } else {
                Ok(
                    report_of(
                        RuleStatus::Fail,
                        Some("Missing required Info.plist keys"@),
                        Some("Missing keys: "@ + seq_join(m, ", "@)),
                    ),
                )
            }
        },
    }
}

/// The keys under which the plist holds an empty array, in order.
pub open spec fn keys_empty_array(p: InfoPlist, keys: Seq<Seq<char>>) -> Seq<Seq<char>>
    decreases keys.len(),
{
    if keys.len() == 0 {
        Seq::empty()
    } else if empty_array_at(p, keys.last()) {
        keys_empty_array(p, keys.drop_last()).push(keys.last())
    } else {
        keys_empty_array(p, keys.drop_last())
    }
}

/// The capability keys, as static strings.
fn capability_key_list() -> (r: Vec<&'static str>)
    ensures
        str_views(r@) == capability_keys(),
{
    let mut v: Vec<&'static str> = Vec::new();
    v.push("LSApplicationQueriesSchemes");
    v.push("UIRequiredDeviceCapabilities");
    assert(str_views(v@) =~= capability_keys());
    v
}

impl AppStoreRule for InfoPlistRequiredKeysRule {
    fn id(&self) -> (r: &'static str)
        ensures
            r@ == "RULE_INFO_PLIST_REQUIRED_KEYS"@,
    {
        "RULE_INFO_PLIST_REQUIRED_KEYS"
    }

    fn name(&self) -> (r: &'static str)
        ensures
            r@ == "Missing Required Info.plist Keys"@,
    {
        "Missing Required Info.plist Keys"
    }

    fn category(&self) -> (r: RuleCategory)
        ensures
            r == RuleCategory::Metadata,
    {
        RuleCategory::Metadata
    }

    fn severity(&self) -> (r: Severity)
        ensures
            r == Severity::Warning,
    {
        Severity::Warning
    }

    fn recommendation(&self) -> (r: &'static str)
        ensures
            r@ == "Add required Info.plist keys for your app's functionality."@,
    {
        "Add required Info.plist keys for your app's functionality."
    }

    fn evaluate(&self, artifact: &ArtifactContext) -> (r: Result<RuleReport, RuleError>)
        ensures
            outcome(r) == required_keys_outcome(*artifact),
    {
        let plist = match &artifact.info_plist {
            None => {
                return Ok(with_message(RuleStatus::Skip, "Info.plist not found"));
            },
            Some(p) => p,
        };
        let keys = capability_key_list();
        let missing = filter_keys(plist, &keys, false);
        if missing.len() == 0 {
            return Ok(bare(RuleStatus::Pass));
        }
        let joined = join(&missing, ", ");
        let evidence = concat("Missing keys: ", joined.as_str());
        Ok(with_evidence(RuleStatus::Fail, "Missing required Info.plist keys", evidence))
    }
}

pub struct InfoPlistCapabilitiesRule;

/// What the empty capability list check reports.
pub open spec fn capabilities_outcome(a: ArtifactContext) -> Result<ReportView, RuleError> {
    match a.info_plist {
        None => Ok(report_of(RuleStatus::Skip, Some("Info.plist not found"@), None)),
        Some(p) => {
            let e = keys_empty_array(p, capability_keys());
            if e.len() == 0 {
                Ok(report_of(RuleStatus::Pass, None, None))
            } else {
                Ok(
                    report_of(
                        RuleStatus::Fail,
                        Some("Capability keys are present but empty"@),
                        Some("Empty keys: "@ + seq_join(e, ", "@)),
                    ),
                )
            }
        },
    }
}

impl AppStoreRule for InfoPlistCapabilitiesRule {
    fn id(&self) -> (r: &'static str)
        ensures
            r@ == "RULE_INFO_PLIST_CAPABILITIES_EMPTY"@,
    {
        "RULE_INFO_PLIST_CAPABILITIES_EMPTY"
    }

    fn name(&self) -> (r: &'static str)
        ensures
            r@ == "Empty Info.plist Capability Lists"@,
    {
        "Empty Info.plist Capability Lists"
    }

    fn category(&self) -> (r: RuleCategory)
        ensures
            r == RuleCategory::Metadata,
    {
        RuleCategory::Metadata
    }

    fn severity(&self) -> (r: Severity)
        ensures
            r == Severity::Warning,
    {
        Severity::Warning
    }

    fn recommendation(&self) -> (r: &'static str)
        ensures
            r@ == "Remove empty arrays or populate capability keys with valid values."@,
    {
        "Remove empty arrays or populate capability keys with valid values."
    }

    fn evaluate(&self, artifact: &ArtifactContext) -> (r: Result<RuleReport, RuleError>)
        ensures
            outcome(r) == capabilities_outcome(*artifact),
    {
        let plist = match &artifact.info_plist {
            None => {
                return Ok(with_message(RuleStatus::Skip, "Info.plist not found"));
            },
            Some(p) => p,
        };
        let mut empty: Vec<String> = Vec::new();
        if is_empty_array(plist, "LSApplicationQueriesSchemes") {
            empty.push(owned("LSApplicationQueriesSchemes"));
        }
        if is_empty_array(plist, "UIRequiredDeviceCapabilities") {
            empty.push(owned("UIRequiredDeviceCapabilities"));
        }
        proof {
            let k = capability_keys();
            assert(k.drop_last() =~= seq!["LSApplicationQueriesSchemes"@]);
            assert(k.drop_last().drop_last() =~= Seq::<Seq<char>>::empty());
            reveal_with_fuel(keys_empty_array, 3);
            assert(views(empty@) =~= keys_empty_array(*plist, k));
        }
        if empty.len() == 0 {
            return Ok(bare(RuleStatus::Pass));
        }
        let joined = join(&empty, ", ");
        let evidence = concat("Empty keys: ", joined.as_str());
        Ok(with_evidence(RuleStatus::Fail, "Capability keys are present but empty", evidence))
    }
}

pub struct UIRequiredDeviceCapabilitiesAuditRule;

/// The trimmed, non-empty strings of an array, in order.
pub open spec fn trimmed_strings(items: Seq<PlistValue>) -> Seq<Seq<char>>
    decreases items.len(),
{
    if items.len() == 0 {
        Seq::empty()
    } else {
        let prev = trimmed_strings(items.drop_last());
        match items.last() {
            PlistValue::String(s) => if trim_spec(s@).len() > 0 {
                prev.push(trim_spec(s@))
            } else {
                prev
            },
            _ => prev,
        }
    }
}

/// The keys of a dictionary whose values are `true`, in order.
pub open spec fn true_keys(entries: Seq<PlistEntry>) -> Seq<Seq<char>>
    decreases entries.len(),
{
    if entries.len() == 0 {
        Seq::empty()
    } else {
        let prev = true_keys(entries.drop_last());
        if bool_of(Some(entries.last().value)) == Some(true) {
            prev.push(entries.last().key@)
        } else {
            prev
        }
    }
}

/// The capabilities `UIRequiredDeviceCapabilities` declares, as an array of
/// names or a dictionary of flags.
pub open spec fn declared_capabilities(p: InfoPlist) -> Option<Seq<Seq<char>>> {
    match p.value("UIRequiredDeviceCapabilities"@) {
        None => None,
        Some(v) => match array_of(Some(v)) {
            Some(a) => Some(trimmed_strings(a)),
            None => match dict_of(Some(v)) {
                Some(d) => Some(true_keys(d)),
                None => None,
            },
        },
    }
}

pub fn parse_required_capabilities(plist: &InfoPlist) -> (r: Option<Vec<String>>)
    ensures
        match r {
            Some(v) => declared_capabilities(*plist) == Some(views(v@)),
            None => declared_capabilities(*plist) is None,
        },
{
    let value = match plist.get_value("UIRequiredDeviceCapabilities") {
        None => {
            return None;
        },
        Some(v) => v,
    };
    let mut out: Vec<String> = Vec::new();
    assert(views(out@) =~= Seq::<Seq<char>>::empty());
    if let Some(array) = value.as_array() {
        let mut i: usize = 0;
        while i < array.len()
            invariant
                0 <= i <= array@.len(),
                views(out@) == trimmed_strings(array@.take(i as int)),
            decreases array@.len() - i,
        {
            assert(array@.take(i + 1).drop_last() =~= array@.take(i as int));
            if let PlistValue::String(s) = &array[i] {
                let t = trim(s.as_str());
                if !t.as_str().is_empty() {
                    let ghost pre = views(out@);
                    out.push(t);
                    assert(views(out@) =~= pre.push(trim_spec(s@)));
                }
            }
            i = i + 1;
        }
        assert(array@.take(array@.len() as int) =~= array@);
        return Some(out);
    }
    if let Some(dict) = value.as_dictionary() {
        let mut i: usize = 0;
        while i < dict.len()
            invariant
                0 <= i <= dict@.len(),
                views(out@) == true_keys(dict@.take(i as int)),
            decreases dict@.len() - i,
        {
            assert(dict@.take(i + 1).drop_last() =~= dict@.take(i as int));
            if dict[i].value.as_boolean() == Some(true) {
                let ghost pre = views(out@);
                out.push(dict[i].key.clone());
                assert(views(out@) =~= pre.push(dict@[i as int].key@));
            }
            i = i + 1;
        }
        assert(dict@.take(dict@.len() as int) =~= dict@);
        return Some(out);
    }
    None
}

/// The hardware group a declared capability belongs to.
pub open spec fn capability_group_of(value: Seq<char>) -> Option<Seq<char>> {
    let v = lower_seq(trim_spec(value));
    if v == "camera"@ || v == "front-facing-camera"@ || v == "rear-facing-camera"@ {
        Some("camera"@)
    } else if v == "gps"@ || v == "location-services"@ {
        Some("location"@)
    } else {
        None
    }
}

pub fn capability_group(value: &str) -> (r: Option<&'static str>)
    ensures
        match r {
            Some(g) => capability_group_of(value@) == Some(g@),
            None => capability_group_of(value@) is None,
        },
{
    let t = trim(value);
    let v = to_ascii_lowercase(t.as_str());
    let s = v.as_str();
    if str_eq(s, "camera") || str_eq(s, "front-facing-camera") || str_eq(s, "rear-facing-camera") {
        Some("camera")
    } else if str_eq(s, "gps") || str_eq(s, "location-services") {
        Some("location")
    } else {
        None
    }
}

/// One line per declared capability whose hardware the binary does not use.
pub open spec fn capability_mismatches(declared: Seq<Seq<char>>, detected: Seq<Seq<char>>) -> Seq<
    Seq<char>,
>
    decreases declared.len(),
{
    if declared.len() == 0 {
        Seq::empty()
    } else {
        let prev = capability_mismatches(declared.drop_last(), detected);
        let cap = declared.last();
        match capability_group_of(cap) {
            Some(g) => if !detected.contains(g) {
                prev.push("Declared capability '"@ + cap + "' without matching binary usage"@)
            } else {
                prev
            },
            None => prev,
        }
    }
}

/// What the device capability audit reports.
pub open spec fn device_capabilities_outcome(a: ArtifactContext) -> Result<ReportView, RuleError> {
    match a.info_plist {
        None => Ok(report_of(RuleStatus::Skip, Some("Info.plist not found"@), None)),
        Some(p) => match declared_capabilities(p) {
            None => Ok(
                report_of(RuleStatus::Skip, Some("UIRequiredDeviceCapabilities not declared"@), None),
            ),
            Some(declared) => if declared.len() == 0 {
                Ok(report_of(RuleStatus::Skip, Some("UIRequiredDeviceCapabilities is empty"@), None))
            } else {
                match a.scanned_executable {
                    Err(e) => Ok(
                        report_of(
                            RuleStatus::Skip,
                            Some("Capability scan skipped: "@ + e.message_spec()),
                            None,
                        ),
                    ),
                    Ok(b) => {
                        let detected = capabilities_upto(b@, CAPABILITY_SIGNATURE_COUNT as nat).0;
                        let m = capability_mismatches(declared, detected);
                        if m.len() == 0 {
                            Ok(
                                report_of(
                                    RuleStatus::Pass,
                                    Some("UIRequiredDeviceCapabilities matches binary usage"@),
                                    None,
                                ),
                            )
                        } else {
                            Ok(
                                report_of(
                                    RuleStatus::Fail,
                                    Some("Capability list may be overly restrictive"@),
                                    Some(seq_join(m, " | "@)),
                                ),
                            )
                        }
                    },
                }
            },
        },
    }
}

fn holds_str(v: &Vec<&'static str>, x: &str) -> (r: bool)
    ensures
        r == str_views(v@).contains(x@),
{
    let mut i: usize = 0;
    while i < v.len()
        invariant
            0 <= i <= v@.len(),
            forall|k: int| 0 <= k < i ==> v@[k]@ != x@,
        decreases v@.len() - i,
    {
        if str_eq(v[i], x) {
            assert(str_views(v@)[i as int] == x@);
            return true;
        }
        i = i + 1;
    }
    assert forall|k: int| 0 <= k < str_views(v@).len() implies str_views(v@)[k] != x@ by {}
    false
}

impl AppStoreRule for UIRequiredDeviceCapabilitiesAuditRule {
    fn id(&self) -> (r: &'static str)
        ensures
            r@ == "RULE_DEVICE_CAPABILITIES_AUDIT"@,
    {
        "RULE_DEVICE_CAPABILITIES_AUDIT"
    }

    fn name(&self) -> (r: &'static str)
        ensures
            r@ == "UIRequiredDeviceCapabilities Audit"@,
    {
        "UIRequiredDeviceCapabilities Audit"
    }

    fn category(&self) -> (r: RuleCategory)
        ensures
            r == RuleCategory::Metadata,
    {
        RuleCategory::Metadata
    }

    fn severity(&self) -> (r: Severity)
        ensures
            r == Severity::Warning,
    {
        Severity::Warning
    }

    fn recommendation(&self) -> (r: &'static str)
        ensures
            r@ == "Only declare capabilities that match actual hardware usage in the binary."@,
    {
        "Only declare capabilities that match actual hardware usage in the binary."
    }

    fn evaluate(&self, artifact: &ArtifactContext) -> (r: Result<RuleReport, RuleError>)
        ensures
            outcome(r) == device_capabilities_outcome(*artifact),
    {
        let plist = match &artifact.info_plist {
            None => {
                return Ok(with_message(RuleStatus::Skip, "Info.plist not found"));
            },
            Some(p) => p,
        };
        let declared = match parse_required_capabilities(plist) {
            None => {
                return Ok(with_message(RuleStatus::Skip, "UIRequiredDeviceCapabilities not declared"));
            },
            Some(d) => d,
        };
        if declared.len() == 0 {
            return Ok(with_message(RuleStatus::Skip, "UIRequiredDeviceCapabilities is empty"));
        }
        let scan = match scan_capabilities_from_app_bundle(&artifact.scanned_executable) {
            Ok(s) => s,
            Err(err) => {
                let m = err.message();
                let msg = concat("Capability scan skipped: ", m.as_str());
                return Ok(RuleReport { status: RuleStatus::Skip, message: Some(msg), evidence: None });
            },
        };
        let mut mismatches: Vec<String> = Vec::new();
        let mut i: usize = 0;
        assert(views(mismatches@) =~= Seq::<Seq<char>>::empty());
        while i < declared.len()
            invariant
                0 <= i <= declared@.len(),
                views(mismatches@) == capability_mismatches(
                    views(declared@).take(i as int),
                    str_views(scan.detected@),
                ),
            decreases declared@.len() - i,
        {
            assert(views(declared@).take(i + 1).drop_last() =~= views(declared@).take(i as int));
            assert(views(declared@).take(i + 1).last() == declared@[i as int]@);
            let cap = declared[i].as_str();
            if let Some(group) = capability_group(cap) {
                if !holds_str(&scan.detected, group) {
                    let ghost pre = views(mismatches@);
                    let mut line = concat("Declared capability '", cap);
                    push_str(&mut line, "' without matching binary usage");
                    mismatches.push(line);
                    assert(views(mismatches@) =~= pre.push(
                        "Declared capability '"@ + cap@ + "' without matching binary usage"@,
                    ));
                }
            }
            i = i + 1;
        }
        assert(views(declared@).take(declared@.len() as int) =~= views(declared@));
        if mismatches.len() == 0 {
            return Ok(
                with_message(RuleStatus::Pass, "UIRequiredDeviceCapabilities matches binary usage"),
            );
        }
        let evidence = join(&mismatches, " | ");
        Ok(with_evidence(RuleStatus::Fail, "Capability list may be overly restrictive", evidence))
    }
}

pub struct LSApplicationQueriesSchemesAuditRule;

pub open spec fn is_ascii_alpha(c: char) -> bool {
    ('a' <= c && c <= 'z') || ('A' <= c && c <= 'Z')
}

pub open spec fn scheme_char(c: char) -> bool {
    is_ascii_alpha(c) || ('0' <= c && c <= '9') || c == '+' || c == '-' || c == '.'
}

/// A URL scheme: a letter, then letters, digits, `+`, `-` or `.`.
pub open spec fn valid_scheme(s: Seq<char>) -> bool {
    s.len() > 0 && is_ascii_alpha(s[0]) && forall|i: int| 1 <= i < s.len() ==> scheme_char(#[trigger] s[i])
}

pub fn is_valid_scheme(value: &str) -> (r: bool)
    ensures
        r == valid_scheme(value@),
{
    let v = chars_of(value);
    if v.len() == 0 {
        return false;
    }
    let first = v[0];
    if !(('a' <= first && first <= 'z') || ('A' <= first && first <= 'Z')) {
        return false;
    }
    let mut i: usize = 1;
    while i < v.len()
        invariant
            1 <= i <= v@.len(),
            v@ == value@,
            forall|j: int| 1 <= j < i ==> scheme_char(#[trigger] v@[j]),
        decreases v@.len() - i,
    {
        let ch = v[i];
        if !(('a' <= ch && ch <= 'z') || ('A' <= ch && ch <= 'Z') || ('0' <= ch && ch <= '9')
            || ch == '+' || ch == '-' || ch == '.') {
            return false;
        }
        i = i + 1;
    }
    true
}

/// Schemes that reach private system settings.
pub open spec fn suspicious_scheme(k: Seq<char>) -> bool {
    k == "app-prefs"@ || k == "prefs"@ || k == "settings"@ || k == "sb"@ || k == "sbsettings"@
        || k == "sbprefs"@
}

fn is_suspicious(k: &str) -> (r: bool)
    ensures
        r == suspicious_scheme(k@),
{
    str_eq(k, "app-prefs") || str_eq(k, "prefs") || str_eq(k, "settings") || str_eq(k, "sb")
        || str_eq(k, "sbsettings") || str_eq(k, "sbprefs")
}

/// The scheme entries sorted into invalid ones, normalized valid ones, and
/// suspicious ones (as trimmed).
pub struct SchemeTally {
    pub invalid: Seq<Seq<char>>,
    pub normalized: Seq<Seq<char>>,
    pub suspicious: Seq<Seq<char>>,
}

pub open spec fn tally(entries: Seq<PlistValue>) -> SchemeTally
    decreases entries.len(),
{
    if entries.len() == 0 {
        SchemeTally { invalid: Seq::empty(), normalized: Seq::empty(), suspicious: Seq::empty() }
    } else {
        let t = tally(entries.drop_last());
        match entries.last() {
            PlistValue::String(raw) => {
                let tr = trim_spec(raw@);
                if tr.len() == 0 || !valid_scheme(tr) {
                    SchemeTally { invalid: t.invalid.push(raw@), ..t }
                } else {
                    let k = lower_seq(tr);
                    SchemeTally {
                        normalized: t.normalized.push(k),
                        suspicious: if suspicious_scheme(k) {
                            t.suspicious.push(tr)
                        } else {
                            t.suspicious
                        },
                        ..t
                    }
                }
            },
            _ => SchemeTally { invalid: t.invalid.push("<non-string>"@), ..t },
        }
    }
}

/// How often `k` occurs in `s`.
pub open spec fn count_in(s: Seq<Seq<char>>, k: Seq<char>) -> nat
    decreases s.len(),
{
    if s.len() == 0 {
        0
    } else {
        count_in(s.drop_last(), k) + if s.last() == k {
            1nat
        } else {
            0nat
        }
    }
}

/// The elements among the first `n` of `s` that occur more than once in `s`.
pub open spec fn repeated_upto(s: Seq<Seq<char>>, n: int) -> Seq<Seq<char>>
    decreases n,
{
    if n <= 0 {
        Seq::empty()
    } else {
        let p = repeated_upto(s, n - 1);
        if count_in(s, s[n - 1]) > 1 {
            p.push(s[n - 1])
        } else {
            p
        }
    }
}

/// `s` with each element kept at its first occurrence only.
pub open spec fn dedup(s: Seq<Seq<char>>) -> Seq<Seq<char>>
    decreases s.len(),
{
    if s.len() == 0 {
        Seq::empty()
    } else {
        let p = dedup(s.drop_last());
        if p.contains(s.last()) {
            p
        } else {
            p.push(s.last())
        }
    }
}

/// The distinct elements of `s` in code-point order (sort, then dedup).
pub open spec fn unique_sorted_spec(s: Seq<Seq<char>>) -> Seq<Seq<char>> {
    sorted_text(dedup(s))
}

pub fn count_occurrences(v: &Vec<String>, k: &str) -> (r: usize)
    ensures
        r == count_in(views(v@), k@),
{
    let mut n: usize = 0;
    let mut i: usize = 0;
    while i < v.len()
        invariant
            0 <= i <= v@.len(),
            n == count_in(views(v@).take(i as int), k@),
            n <= i,
        decreases v@.len() - i,
    {
        assert(views(v@).take(i + 1).drop_last() =~= views(v@).take(i as int));
        assert(views(v@).take(i + 1).last() == v@[i as int]@);
        if str_eq(v[i].as_str(), k) {
            n = n + 1;
        }
        i = i + 1;
    }
    assert(views(v@).take(v@.len() as int) =~= views(v@));
    n
}

pub fn dedup_strings(v: &Vec<String>) -> (r: Vec<String>)
    ensures
        views(r@) == dedup(views(v@)),
{
    let mut out: Vec<String> = Vec::new();
    let mut i: usize = 0;
    assert(views(out@) =~= Seq::<Seq<char>>::empty());
    while i < v.len()
        invariant
            0 <= i <= v@.len(),
            views(out@) == dedup(views(v@).take(i as int)),
        decreases v@.len() - i,
    {
        assert(views(v@).take(i + 1).drop_last() =~= views(v@).take(i as int));
        assert(views(v@).take(i + 1).last() == v@[i as int]@);
        if !strings_contain(&out, v[i].as_str()) {
            let ghost pre = views(out@);
            out.push(v[i].clone());
            assert(views(out@) =~= pre.push(v@[i as int]@));
        }
        i = i + 1;
    }
    assert(views(v@).take(v@.len() as int) =~= views(v@));
    out
}

/// Sorts and drops repeats.
pub fn unique_sorted(values: Vec<String>) -> (r: Vec<String>)
    ensures
        views(r@) == unique_sorted_spec(views(values@)),
{
    let d = dedup_strings(&values);
    sort_strings(d)
}

/// The normalized schemes that occur more than once, distinct and sorted.
pub open spec fn duplicate_schemes(normalized: Seq<Seq<char>>) -> Seq<Seq<char>> {
    unique_sorted_spec(repeated_upto(normalized, normalized.len() as int))
}

fn find_duplicates(normalized: &Vec<String>) -> (r: Vec<String>)
    ensures
        views(r@) == duplicate_schemes(views(normalized@)),
{
    let mut rep: Vec<String> = Vec::new();
    let mut i: usize = 0;
    assert(views(rep@) =~= Seq::<Seq<char>>::empty());
    while i < normalized.len()
        invariant
            0 <= i <= normalized@.len(),
            views(rep@) == repeated_upto(views(normalized@), i as int),
        decreases normalized@.len() - i,
    {
        assert(views(normalized@)[i as int] == normalized@[i as int]@);
        if count_occurrences(normalized, normalized[i].as_str()) > 1 {
            let ghost pre = views(rep@);
            rep.push(normalized[i].clone());
            assert(views(rep@) =~= pre.push(normalized@[i as int]@));
        }
        i = i + 1;
    }
    unique_sorted(rep)
}

/// The findings of the scheme audit, in report order.
pub open spec fn scheme_issues(count: nat, t: SchemeTally) -> Seq<Seq<char>> {
    (if count > LSQUERY_SCHEME_LIMIT {
        seq!["Contains "@ + decimal(count) + " schemes (limit 50)"@]
    } else {
        Seq::empty()
    }) + listed("Duplicate schemes: "@, duplicate_schemes(t.normalized)) + listed(
        "Invalid scheme entries: "@,
        t.invalid,
    ) + listed("Potentially private schemes: "@, unique_sorted_spec(t.suspicious))
}

/// What the URL scheme audit reports.
pub open spec fn schemes_outcome(a: ArtifactContext) -> Result<ReportView, RuleError> {
    match a.info_plist {
        None => Ok(report_of(RuleStatus::Skip, Some("Info.plist not found"@), None)),
        Some(p) => match p.value("LSApplicationQueriesSchemes"@) {
            None => Ok(
                report_of(RuleStatus::Skip, Some("LSApplicationQueriesSchemes not declared"@), None),
            ),
            Some(v) => match array_of(Some(v)) {
                None => Ok(
                    report_of(
                        RuleStatus::Fail,
                        Some("LSApplicationQueriesSchemes is not an array"@),
                        None,
                    ),
                ),
                Some(entries) => if entries.len() == 0 {
                    Ok(
                        report_of(RuleStatus::Skip, Some("LSApplicationQueriesSchemes is empty"@), None),
                    )
                } else {
                    let issues = scheme_issues(entries.len(), tally(entries));
                    if issues.len() == 0 {
                        Ok(
                            report_of(
                                RuleStatus::Pass,
                                Some("LSApplicationQueriesSchemes looks sane"@),
                                None,
                            ),
                        )
                    } else {
                        Ok(
                            report_of(
                                RuleStatus::Fail,
                                Some("LSApplicationQueriesSchemes audit failed"@),
                                Some(seq_join(issues, " | "@)),
                            ),
                        )
                    }
                },
            },
        },
    }
}

/// The findings of the scheme audit over an array of entries.
pub fn audit_schemes(entries: &Vec<PlistValue>) -> (r: Vec<String>)
    ensures
        views(r@) == scheme_issues(entries@.len(), tally(entries@)),
{
    let mut invalid: Vec<String> = Vec::new();
    let mut normalized: Vec<String> = Vec::new();
    let mut suspicious: Vec<String> = Vec::new();
    let mut i: usize = 0;
    assert(views(invalid@) =~= Seq::<Seq<char>>::empty());
    assert(views(normalized@) =~= Seq::<Seq<char>>::empty());
    assert(views(suspicious@) =~= Seq::<Seq<char>>::empty());
    while i < entries.len()
        invariant
            0 <= i <= entries@.len(),
            tally(entries@.take(i as int)) == (SchemeTally {
                invalid: views(invalid@),
                normalized: views(normalized@),
                suspicious: views(suspicious@),
            }),
        decreases entries@.len() - i,
    {
        assert(entries@.take(i + 1).drop_last() =~= entries@.take(i as int));
        let ghost inv0 = views(invalid@);
        let ghost norm0 = views(normalized@);
        let ghost sus0 = views(suspicious@);
        match &entries[i] {
            PlistValue::String(raw) => {
                let trimmed = trim(raw.as_str());
                if trimmed.as_str().is_empty() || !is_valid_scheme(trimmed.as_str()) {
                    invalid.push(raw.clone());
                    assert(views(invalid@) =~= inv0.push(raw@));
                } else {
                    let key = to_ascii_lowercase(trimmed.as_str());
                    let sus = is_suspicious(key.as_str());
                    normalized.push(key);
                    assert(views(normalized@) =~= norm0.push(lower_seq(trim_spec(raw@))));
                    if sus {
                        suspicious.push(trimmed);
                        assert(views(suspicious@) =~= sus0.push(trim_spec(raw@)));
                    }
                }
            },
            _ => {
                invalid.push(owned("<non-string>"));
                assert(views(invalid@) =~= inv0.push("<non-string>"@));
            },
        }
        i = i + 1;
    }
    assert(entries@.take(entries@.len() as int) =~= entries@);
    let mut issues: Vec<String> = Vec::new();
    if entries.len() > LSQUERY_SCHEME_LIMIT {
        let mut line = owned("Contains ");
        push_decimal(&mut line, entries.len() as u128);
        push_str(&mut line, " schemes (limit 50)");
        issues.push(line);
    }
    assert(views(issues@) =~= (if entries@.len() > LSQUERY_SCHEME_LIMIT {
        seq!["Contains "@ + decimal(entries@.len()) + " schemes (limit 50)"@]
    } else {
        Seq::<Seq<char>>::empty()
    }));
    let duplicates = find_duplicates(&normalized);
    push_listed(&mut issues, "Duplicate schemes: ", &duplicates);
    push_listed(&mut issues, "Invalid scheme entries: ", &invalid);
    let unique = unique_sorted(suspicious);
    push_listed(&mut issues, "Potentially private schemes: ", &unique);
    issues
}

impl AppStoreRule for LSApplicationQueriesSchemesAuditRule {
    fn id(&self) -> (r: &'static str)
        ensures
            r@ == "RULE_LSAPPLICATIONQUERIES_SCHEMES_AUDIT"@,
    {
        "RULE_LSAPPLICATIONQUERIES_SCHEMES_AUDIT"
    }

    fn name(&self) -> (r: &'static str)
        ensures
            r@ == "LSApplicationQueriesSchemes Audit"@,
    {
        "LSApplicationQueriesSchemes Audit"
    }

    fn category(&self) -> (r: RuleCategory)
        ensures
            r == RuleCategory::Metadata,
    {
        RuleCategory::Metadata
    }

    fn severity(&self) -> (r: Severity)
        ensures
            r == Severity::Warning,
    {
        Severity::Warning
    }

    fn recommendation(&self) -> (r: &'static str)
        ensures
            r@ == "Keep LSApplicationQueriesSchemes minimal, valid, and aligned with actual app usage."@,
    {
        "Keep LSApplicationQueriesSchemes minimal, valid, and aligned with actual app usage."
    }

    fn evaluate(&self, artifact: &ArtifactContext) -> (r: Result<RuleReport, RuleError>)
        ensures
            outcome(r) == schemes_outcome(*artifact),
    {
        let plist = match &artifact.info_plist {
            None => {
                return Ok(with_message(RuleStatus::Skip, "Info.plist not found"));
            },
            Some(p) => p,
        };
        let value = match plist.get_value("LSApplicationQueriesSchemes") {
            None => {
                return Ok(with_message(RuleStatus::Skip, "LSApplicationQueriesSchemes not declared"));
            },
            Some(v) => v,
        };
        let entries = match value.as_array() {
            None => {
                return Ok(
                    with_message(RuleStatus::Fail, "LSApplicationQueriesSchemes is not an array"),
                );
            },
            Some(a) => a,
        };
        if entries.len() == 0 {
            return Ok(with_message(RuleStatus::Skip, "LSApplicationQueriesSchemes is empty"));
        }
        let issues = audit_schemes(entries);
        if issues.len() == 0 {
            return Ok(with_message(RuleStatus::Pass, "LSApplicationQueriesSchemes looks sane"));
        }
        let evidence = join(&issues, " | ");
        Ok(with_evidence(RuleStatus::Fail, "LSApplicationQueriesSchemes audit failed", evidence))
    }
}

} // verus!
