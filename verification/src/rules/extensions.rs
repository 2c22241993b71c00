//! Entitlements of app extensions against their host app.
use vstd::prelude::*;
use crate::rules::base::{
    bare, outcome, report_of, with_evidence, with_message, AppStoreRule, ArtifactContext,
    ReportView, RuleCategory, RuleError, RuleReport, RuleStatus, Severity,
};
use crate::parsers::bundle_scanner::{extension_of, path_extension};
use crate::parsers::macho_scanner::str_views;
use crate::parsers::plist_reader::{dict_get, dict_of, lookup, string_of, InfoPlist};
use crate::rules::base::BundleFacts;
use crate::rules::entitlements::{
    extension_subset_entitlement_key, missing_strings, missing_values, subset_key, values_at,
    EntitlementsError, APS_ENVIRONMENT_KEY, EXTENSION_SUBSET_KEY_COUNT,
};
use crate::text::{concat, extend_strings, join, push_str, seq_join, str_eq, views};

verus! {

pub struct ExtensionEntitlementsCompatibilityRule;

pub open spec fn app_groups_key() -> Seq<char> {
    "com.apple.security.application-groups"@
}

/// What one shared entitlement key says about the extension against its host.
pub open spec fn key_issue(app: InfoPlist, ext: InfoPlist, key: Seq<char>) -> Seq<Seq<char>> {
    if !ext.has(key) {
        Seq::empty()
    } else if !app.has(key) {
        seq!["entitlement "@ + key + " not present in host app"@]
    } else {
        match ext.array_strings_at(key) {
            Some(values) => {
                let missing = missing_values(values, values_at(app, key));
                if missing.len() > 0 {
                    seq!["entitlement "@ + key + " values not in host app: "@ + seq_join(missing, ", "@)]
                } else {
                    Seq::empty()
                }
            },
            None => match ext.string_at(key) {
                Some(v) => if app.string_at(key) != Some(v) {
                    seq!["entitlement "@ + key + " mismatch"@]
                } else {
                    Seq::empty()
                },
                None => match ext.bool_at(key) {
                    Some(v) => if app.bool_at(key) != Some(v) {
                        seq!["entitlement "@ + key + " mismatch"@]
                    } else {
                        Seq::empty()
                    },
                    None => Seq::empty(),
                },
            },
        }
    }
}

/// The issues of the first `n` shared keys.
pub open spec fn subset_issues(app: InfoPlist, ext: InfoPlist, n: nat) -> Seq<Seq<char>>
    decreases n,
{
    if n == 0 {
        Seq::empty()
    } else {
        subset_issues(app, ext, (n - 1) as nat) + key_issue(app, ext, subset_key(n - 1))
    }
}

/// How an extension's entitlements exceed or contradict its host's.
pub open spec fn entitlement_subset_issues(app: InfoPlist, ext: InfoPlist) -> Seq<Seq<char>> {
    subset_issues(app, ext, EXTENSION_SUBSET_KEY_COUNT as nat)
}

/// `"entitlement {key}{rest}"`.
fn entitlement_line(key: &str, rest: &str) -> (r: String)
    ensures
        r@ == "entitlement "@ + key@ + rest@,
{
    let mut line = concat("entitlement ", key);
    push_str(&mut line, rest);
    line
}

/// The issue of one shared key.
fn key_issue_for(app: &InfoPlist, ext: &InfoPlist, key: &str) -> (r: Vec<String>)
    ensures
        views(r@) == key_issue(*app, *ext, key@),
{
    let mut out: Vec<String> = Vec::new();
    if !ext.has_key(key) {
    } else if !app.has_key(key) {
        out.push(entitlement_line(key, " not present in host app"));
    } else {
        match ext.get_array_strings(key) {
            Some(values) => {
                let app_values = match app.get_array_strings(key) {
                    Some(v) => v,
                    None => Vec::new(),
                };
                proof {
                    assert(views(Seq::<String>::empty()) =~= Seq::<Seq<char>>::empty());
                }
                let missing = missing_strings(&values, &app_values);
                if missing.len() > 0 {
                    let joined = join(&missing, ", ");
                    let mut line = entitlement_line(key, " values not in host app: ");
                    push_str(&mut line, joined.as_str());
                    out.push(line);
                }
            },
            None => match ext.get_string(key) {
                Some(v) => {
                    let same = match app.get_string(key) {
                        Some(w) => str_eq(w, v),
                        None => false,
                    };
                    if !same {
                        out.push(entitlement_line(key, " mismatch"));
                    }
                },
                None => match ext.get_bool(key) {
                    Some(v) => {
                        if app.get_bool(key) != Some(v) {
                            out.push(entitlement_line(key, " mismatch"));
                        }
                    },
                    None => {},
                },
            },
        }
    }
    assert(views(out@) =~= key_issue(*app, *ext, key@));
    out
}

/// How an extension's entitlements exceed or contradict its host's, one line
/// per shared entitlement key.
pub fn compare_entitlements(app: &InfoPlist, ext: &InfoPlist) -> (r: Vec<String>)
    ensures
        views(r@) == entitlement_subset_issues(*app, *ext),
{
    let mut issues: Vec<String> = Vec::new();
    let mut i: usize = 0;
    assert(views(issues@) =~= Seq::<Seq<char>>::empty());
    while i < EXTENSION_SUBSET_KEY_COUNT
        invariant
            0 <= i <= EXTENSION_SUBSET_KEY_COUNT,
            views(issues@) == subset_issues(*app, *ext, i as nat),
        decreases EXTENSION_SUBSET_KEY_COUNT - i,
    {
        let key = extension_subset_entitlement_key(i);
        let lines = key_issue_for(app, ext, key);
        extend_strings(&mut issues, &lines);
        i = i + 1;
    }
    issues
}

/// The entitlements an extension point requires.
pub open spec fn required_for(point: Seq<char>) -> Seq<Seq<char>> {
    if point == "com.apple.widgetkit-extension"@ {
        seq![app_groups_key()]
    } else if point == "com.apple.usernotifications.service"@ {
        seq![APS_ENVIRONMENT_KEY@]
    } else {
        Seq::empty()
    }
}

/// The entitlements an extension point requires.
pub fn required_entitlements_for_extension(extension_point: &str) -> (r: Vec<&'static str>)
    ensures
        str_views(r@) == required_for(extension_point@),
{
    let mut out: Vec<&'static str> = Vec::new();
    if str_eq(extension_point, "com.apple.widgetkit-extension") {
        out.push("com.apple.security.application-groups");
    } else if str_eq(extension_point, "com.apple.usernotifications.service") {
        out.push(APS_ENVIRONMENT_KEY);
    }
    assert(str_views(out@) =~= required_for(extension_point@));
    out
}

/// The extension point an extension's plist declares, `unknown` when none.
pub open spec fn extension_point_of(p: InfoPlist) -> Seq<char> {
    match dict_of(p.value("NSExtension"@)) {
        Some(d) => match string_of(lookup(d, "NSExtensionPointIdentifier"@)) {
            Some(s) => s,
            None => "unknown"@,
        },
        None => "unknown"@,
    }
}

/// Lines about the required entitlements missing from an extension.
pub open spec fn requirement_issues(x: InfoPlist, name: Seq<char>, point: Seq<char>, reqs: Seq<
    Seq<char>,
>) -> Seq<Seq<char>>
    decreases reqs.len(),
{
    if reqs.len() == 0 {
        Seq::empty()
    } else {
        let prev = requirement_issues(x, name, point, reqs.drop_last());
        let req = reqs.last();
        if !x.has(req) {
            prev.push(name + ": missing entitlement "@ + req + " for "@ + point)
        } else if req == app_groups_key() && values_at(x, req).len() == 0 {
            prev.push(name + ": empty entitlement "@ + req + " for "@ + point)
        } else {
            prev
        }
    }
}

/// Each line prefixed with a bundle name.
pub open spec fn prefixed(name: Seq<char>, lines: Seq<Seq<char>>) -> Seq<Seq<char>> {
    lines.map_values(|l: Seq<char>| name + ": "@ + l)
}

/// An app extension bundle.
pub open spec fn is_appex(b: BundleFacts) -> bool {
    extension_of(b.display_name@) == Some("appex"@)
}

/// The issues of one nested bundle, when it is an extension.
pub open spec fn extension_step(app: InfoPlist, b: BundleFacts) -> Result<Seq<Seq<char>>, RuleError> {
    if !is_appex(b) {
        Ok(Seq::empty())
    } else {
        match b.info_plist {
            Ok(Some(p)) => {
                let point = extension_point_of(p);
                match b.entitlements {
                    Err(e) => Err(e),
                    Ok(None) => Ok(Seq::empty()),
                    Ok(Some(x)) => Ok(
                        prefixed(b.display_name@, entitlement_subset_issues(app, x))
                            + requirement_issues(x, b.display_name@, point, required_for(point)),
                    ),
                }
            },
            _ => Ok(Seq::empty()),
        }
    }
}

/// The issues of all extensions, stopping at the first error.
pub open spec fn extension_issues(app: InfoPlist, bundles: Seq<BundleFacts>) -> Result<
    Seq<Seq<char>>,
    RuleError,
>
    decreases bundles.len(),
{
    if bundles.len() == 0 {
        Ok(Seq::empty())
    } else {
        match extension_issues(app, bundles.drop_last()) {
            Err(e) => Err(e),
            Ok(prev) => match extension_step(app, bundles.last()) {
                Err(e) => Err(e),
                Ok(l) => Ok(prev + l),
            },
        }
    }
}

/// What the extension entitlements check reports.
pub open spec fn extensions_outcome(a: ArtifactContext) -> Result<ReportView, RuleError> {
    match a.nested_bundles {
        Err(_) => Err(RuleError::Entitlements(EntitlementsError::ParseFailure)),
        Ok(b) => if !(exists|i: int| 0 <= i < b@.len() && is_appex(#[trigger] b@[i])) {
            Ok(report_of(RuleStatus::Pass, Some("No extensions found"@), None))
        } else {
            match a.main_bundle.entitlements {
                Err(e) => Err(e),
                Ok(None) => Ok(
                    report_of(RuleStatus::Skip, Some("Host app entitlements not found"@), None),
                ),
                Ok(Some(app)) => match extension_issues(app, b@) {
                    Err(e) => Err(e),
                    Ok(issues) => if issues.len() == 0 {
                        Ok(
                            report_of(
                                RuleStatus::Pass,
                                Some("Extension entitlements are compatible"@),
                                None,
                            ),
                        )
                    } else {
                        Ok(
                            report_of(
                                RuleStatus::Fail,
                                Some("Extension entitlements mismatch"@),
                                Some(seq_join(issues, " | "@)),
                            ),
                        )
                    },
                },
            }
        },
    }
}

fn appex(b: &BundleFacts) -> (r: bool)
    ensures
        r == is_appex(*b),
{
    match path_extension(b.display_name.as_str()) {
        Some(e) => str_eq(e.as_str(), "appex"),
        None => false,
    }
}

fn extension_point(p: &InfoPlist) -> (r: &str)
    ensures
        r@ == extension_point_of(*p),
{
    match p.get_dictionary("NSExtension") {
        Some(d) => match dict_get(d, "NSExtensionPointIdentifier") {
            Some(v) => match v.as_string() {
                Some(s) => s,
                None => "unknown",
            },
            None => "unknown",
        },
        None => "unknown",
    }
}

/// `"{name}{middle}{req} for {point}"`.
fn requirement_line(name: &str, middle: &str, req: &str, point: &str) -> (r: String)
    ensures
        r@ == name@ + middle@ + req@ + " for "@ + point@,
{
    let mut line = concat(name, middle);
    push_str(&mut line, req);
    push_str(&mut line, " for ");
    push_str(&mut line, point);
    line
}

/// The issues of one nested bundle.
fn extension_step_for(app: &InfoPlist, b: &BundleFacts) -> (r: Result<Vec<String>, RuleError>)
    ensures
        match (r, extension_step(*app, *b)) {
            (Ok(v), Ok(l)) => views(v@) == l,
            (Err(e), Err(f)) => e == f,
            _ => false,
        },
{
    let mut out: Vec<String> = Vec::new();
    assert(views(out@) =~= Seq::<Seq<char>>::empty());
    if !appex(b) {
        return Ok(out);
    }
    let p = match &b.info_plist {
        Ok(Some(p)) => p,
        _ => {
            return Ok(out);
        },
    };
    let point = extension_point(p);
    let x = match &b.entitlements {
        Err(e) => {
            return Err(e.duplicate());
        },
        Ok(None) => {
            return Ok(out);
        },
        Ok(Some(x)) => x,
    };
    let name = b.display_name.as_str();
    let subset = compare_entitlements(app, x);
    let mut k: usize = 0;
    while k < subset.len()
        invariant
            0 <= k <= subset@.len(),
            views(out@) == prefixed(name@, views(subset@).take(k as int)),
        decreases subset@.len() - k,
    {
        let ghost pre = views(out@);
        let line = concat(name, ": ");
        let mut line = line;
        push_str(&mut line, subset[k].as_str());
        out.push(line);
        let ghost t = views(subset@).take(k as int);
        assert(views(subset@).take(k + 1) =~= t.push(subset@[k as int]@));
        assert(prefixed(name@, t.push(subset@[k as int]@)) =~= prefixed(name@, t).push(
            name@ + ": "@ + subset@[k as int]@,
        ));
        assert(views(out@) =~= pre.push(name@ + ": "@ + subset@[k as int]@));
        k = k + 1;
    }
    assert(views(subset@).take(subset@.len() as int) =~= views(subset@));
    let ghost head = views(out@);
    let reqs = required_entitlements_for_extension(point);
    let mut j: usize = 0;
    while j < reqs.len()
        invariant
            0 <= j <= reqs@.len(),
            views(out@) == head + requirement_issues(*x, name@, point@, str_views(reqs@).take(j as int)),
        decreases reqs@.len() - j,
    {
        assert(str_views(reqs@).take(j + 1).drop_last() =~= str_views(reqs@).take(j as int));
        let req = reqs[j];
        let ghost before = views(out@);
        if !x.has_key(req) {
            out.push(requirement_line(name, ": missing entitlement ", req, point));
            assert(views(out@) =~= before.push(name@ + ": missing entitlement "@ + req@ + " for "@ + point@));
        } else if str_eq(req, "com.apple.security.application-groups") {
            let groups = match x.get_array_strings(req) {
                Some(g) => g,
                None => Vec::new(),
            };
            proof {
                assert(views(Seq::<String>::empty()) =~= Seq::<Seq<char>>::empty());
            }
            if groups.len() == 0 {
                out.push(requirement_line(name, ": empty entitlement ", req, point));
                assert(views(out@) =~= before.push(name@ + ": empty entitlement "@ + req@ + " for "@ + point@));
            }
        }
        j = j + 1;
    }
    assert(str_views(reqs@).take(reqs@.len() as int) =~= str_views(reqs@));
    Ok(out)
}

proof fn lemma_extension_error_stays(app: InfoPlist, bundles: Seq<BundleFacts>, i: int)
    requires
        0 < i <= bundles.len(),
        extension_issues(app, bundles.take(i)) is Err,
    ensures
        extension_issues(app, bundles) == extension_issues(app, bundles.take(i)),
    decreases bundles.len() - i,
{
    if i < bundles.len() {
        assert(bundles.take(i + 1).drop_last() =~= bundles.take(i));
        lemma_extension_error_stays(app, bundles, i + 1);
    } else {
        assert(bundles.take(i) =~= bundles);
    }
}

impl AppStoreRule for ExtensionEntitlementsCompatibilityRule {
    fn id(&self) -> (r: &'static str)
        ensures
            r@ == "RULE_EXTENSION_ENTITLEMENTS_COMPAT"@,
    {
        "RULE_EXTENSION_ENTITLEMENTS_COMPAT"
    }

    fn name(&self) -> (r: &'static str)
        ensures
            r@ == "Extension Entitlements Compatibility"@,
    {
        "Extension Entitlements Compatibility"
    }

    fn category(&self) -> (r: RuleCategory)
        ensures
            r == RuleCategory::Entitlements,
    {
        RuleCategory::Entitlements
    }

    fn severity(&self) -> (r: Severity)
        ensures
            r == Severity::Warning,
    {
        Severity::Warning
    }

    fn recommendation(&self) -> (r: &'static str)
        ensures
            r@ == "Ensure extension entitlements are a subset of the host app and required keys exist for the extension type."@,
    {
        "Ensure extension entitlements are a subset of the host app and required keys exist for the extension type."
    }

    fn evaluate(&self, artifact: &ArtifactContext) -> (r: Result<RuleReport, RuleError>)
        ensures
            outcome(r) == extensions_outcome(*artifact),
    {
        let bundles = match &artifact.nested_bundles {
            Err(_) => {
                return Err(RuleError::Entitlements(EntitlementsError::ParseFailure));
            },
            Ok(b) => b,
        };
        let mut any = false;
        let mut i: usize = 0;
        while i < bundles.len()
            invariant
                0 <= i <= bundles@.len(),
                any == exists|k: int| 0 <= k < i && is_appex(#[trigger] bundles@[k]),
            decreases bundles@.len() - i,
        {
            if appex(&bundles[i]) {
                any = true;
            }
            i = i + 1;
        }
        if !any {
            return Ok(with_message(RuleStatus::Pass, "No extensions found"));
        }
        let app = match &artifact.main_bundle.entitlements {
            Err(e) => {
                return Err(e.duplicate());
            },
            Ok(None) => {
                return Ok(with_message(RuleStatus::Skip, "Host app entitlements not found"));
            },
            Ok(Some(p)) => p,
        };
        let mut issues: Vec<String> = Vec::new();
        let mut i: usize = 0;
        assert(bundles@.take(0) =~= Seq::<BundleFacts>::empty());
        assert(views(issues@) =~= Seq::<Seq<char>>::empty());
        while i < bundles.len()
            invariant
                0 <= i <= bundles@.len(),
                match artifact.nested_bundles {
                    Ok(b) => b@ == bundles@,
                    Err(_) => false,
                },
                exists|k: int| 0 <= k < bundles@.len() && is_appex(#[trigger] bundles@[k]),
                artifact.main_bundle.entitlements == Ok::<Option<InfoPlist>, RuleError>(Some(*app)),
                extension_issues(*app, bundles@.take(i as int)) == Ok::<Seq<Seq<char>>, RuleError>(
                    views(issues@),
                ),
            decreases bundles@.len() - i,
        {
            assert(bundles@.take(i + 1).drop_last() =~= bundles@.take(i as int));
            let lines = match extension_step_for(app, &bundles[i]) {
                Err(e) => {
                    proof {
                        lemma_extension_error_stays(*app, bundles@, i as int + 1);
                    }
                    return Err(e);
                },
                Ok(l) => l,
            };
            extend_strings(&mut issues, &lines);
            i = i + 1;
        }
        assert(bundles@.take(bundles@.len() as int) =~= bundles@);
        if issues.len() == 0 {
            return Ok(with_message(RuleStatus::Pass, "Extension entitlements are compatible"));
        }
        let evidence = join(&issues, " | ");
        Ok(with_evidence(RuleStatus::Fail, "Extension entitlements mismatch", evidence))
    }
}

} // verus!
