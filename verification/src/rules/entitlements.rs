//! Entitlements of the app executable: debug builds and agreement with the
//! embedded provisioning profile.
use vstd::prelude::*;
use crate::parsers::macho_parser::MachOError;
use crate::parsers::plist_reader::InfoPlist;
use crate::rules::base::{
    bare, outcome, report_of, with_evidence, with_message, AppStoreRule, ArtifactContext,
    ReportView, RuleCategory, RuleError, RuleReport, RuleStatus, Severity,
};
use crate::text::{concat, join, owned, path_join, path_join_spec, push_str, seq_join, str_eq, views};

verus! {

pub const APS_ENVIRONMENT_KEY: &'static str = "aps-environment";

pub const KEYCHAIN_ACCESS_GROUPS_KEY: &'static str = "keychain-access-groups";

pub const ICLOUD_CONTAINER_IDENTIFIERS_KEY: &'static str = "com.apple.developer.icloud-container-identifiers";

/// Entitlements that an extension may only hold when its host app holds them.
pub open spec fn subset_key(i: int) -> Seq<char> {
    if i == 0 {
        APS_ENVIRONMENT_KEY@
    } else if i == 1 {
        KEYCHAIN_ACCESS_GROUPS_KEY@
    } else if i == 2 {
        "com.apple.security.application-groups"@
    } else if i == 3 {
        ICLOUD_CONTAINER_IDENTIFIERS_KEY@
    } else if i == 4 {
        "com.apple.developer.icloud-services"@
    } else if i == 5 {
        "com.apple.developer.associated-domains"@
    } else if i == 6 {
        "com.apple.developer.in-app-payments"@
    } else if i == 7 {
        "com.apple.developer.ubiquity-kvstore-identifier"@
    } else if i == 8 {
        "com.apple.developer.ubiquity-container-identifiers"@
    } else {
        "com.apple.developer.networking.wifi-info"@
    }
}

pub const EXTENSION_SUBSET_KEY_COUNT: usize = 10;

/// The `i`-th entitlement that extensions share with their host.
pub fn extension_subset_entitlement_key(i: usize) -> (r: &'static str)
    ensures
        r@ == subset_key(i as int),
{
    if i == 0 {
        APS_ENVIRONMENT_KEY
    } else if i == 1 {
        KEYCHAIN_ACCESS_GROUPS_KEY
    } else if i == 2 {
        "com.apple.security.application-groups"
    } else if i == 3 {
        ICLOUD_CONTAINER_IDENTIFIERS_KEY
    } else if i == 4 {
        "com.apple.developer.icloud-services"
    } else if i == 5 {
        "com.apple.developer.associated-domains"
    } else if i == 6 {
        "com.apple.developer.in-app-payments"
    } else if i == 7 {
        "com.apple.developer.ubiquity-kvstore-identifier"
    } else if i == 8 {
        "com.apple.developer.ubiquity-container-identifiers"
    } else {
        "com.apple.developer.networking.wifi-info"
    }
}

pub enum EntitlementsError {
    ParseFailure,
    DebugEntitlement,
    MachO(MachOError),
}

impl EntitlementsError {
    pub open spec fn message_spec(&self) -> Seq<char> {
        match self {
            EntitlementsError::ParseFailure => "Failed to parse Mach-O executable for entitlements"@,
            EntitlementsError::DebugEntitlement => "App contains `get-task-allow` entitlement"@,
            EntitlementsError::MachO(e) => "Mach-O Parsing Error: "@ + e.message_spec(),
        }
    }

    /// The error's display text.
    pub fn message(&self) -> (r: String)
        ensures
            r@ == self.message_spec(),
    {
        match self {
            EntitlementsError::ParseFailure => owned(
                "Failed to parse Mach-O executable for entitlements",
            ),
            EntitlementsError::DebugEntitlement => owned(
                "App contains `get-task-allow` entitlement",
            ),
            EntitlementsError::MachO(e) => {
                let inner = e.message();
                concat("Mach-O Parsing Error: ", inner.as_str())
            },
        }
    }

    /// An equal copy.
    pub fn duplicate(&self) -> (r: Self)
        ensures
            r == *self,
    {
        match self {
            EntitlementsError::ParseFailure => EntitlementsError::ParseFailure,
            EntitlementsError::DebugEntitlement => EntitlementsError::DebugEntitlement,
            EntitlementsError::MachO(e) => EntitlementsError::MachO(e.duplicate()),
        }
    }
}

/// The strings of the array under `key`, or none.
pub open spec fn values_at(p: InfoPlist, key: Seq<char>) -> Seq<Seq<char>> {
    match p.array_strings_at(key) {
        Some(v) => v,
        None => Seq::empty(),
    }
}

/// The values of `a`, in order, that `b` does not hold.
pub open spec fn missing_values(a: Seq<Seq<char>>, b: Seq<Seq<char>>) -> Seq<Seq<char>>
    decreases a.len(),
{
    if a.len() == 0 {
        Seq::empty()
    } else if b.contains(a.last()) {
        missing_values(a.drop_last(), b)
    } else {
        missing_values(a.drop_last(), b).push(a.last())
    }
}

/// Whether a list of strings holds `s`.
pub fn strings_contain(list: &Vec<String>, s: &str) -> (r: bool)
    ensures
        r == views(list@).contains(s@),
{
    let mut i: usize = 0;
    while i < list.len()
        invariant
            0 <= i <= list@.len(),
            forall|j: int| 0 <= j < i ==> list@[j]@ != s@,
        decreases list@.len() - i,
    {
        if str_eq(list[i].as_str(), s) {
            assert(views(list@)[i as int] == s@);
            return true;
        }
        i = i + 1;
    }
    proof {
        if views(list@).contains(s@) {
            let j = choose|j: int| 0 <= j < views(list@).len() && views(list@)[j] == s@;
            assert(list@[j]@ == s@);
        }
    }
    false
}

/// The values of `a`, in order, that `b` does not hold.
pub fn missing_strings(a: &Vec<String>, b: &Vec<String>) -> (r: Vec<String>)
    ensures
        views(r@) == missing_values(views(a@), views(b@)),
{
    let mut out: Vec<String> = Vec::new();
    let mut i: usize = 0;
    while i < a.len()
        invariant
            0 <= i <= a@.len(),
            views(out@) == missing_values(views(a@).take(i as int), views(b@)),
        decreases a@.len() - i,
    {
        let ghost pre = out@;
        assert(views(a@).take(i + 1).drop_last() =~= views(a@).take(i as int));
        assert(views(a@).take(i + 1).last() == a@[i as int]@);
        if !strings_contain(b, a[i].as_str()) {
            out.push(a[i].clone());
            assert(views(out@) =~= views(pre).push(a@[i as int]@));
        }
        i = i + 1;
    }
    assert(views(a@).take(a@.len() as int) =~= views(a@));
    out
}

/// Values of the array under `key` in the app's entitlements that the profile
/// does not grant.
pub fn diff_string_array(entitlements: &InfoPlist, profile: &InfoPlist, key: &str) -> (r: Vec<
    String,
>)
    ensures
        views(r@) == missing_values(values_at(*entitlements, key@), values_at(*profile, key@)),
{
    let app_values = match entitlements.get_array_strings(key) {
        Some(v) => v,
        None => Vec::new(),
    };
    let profile_values = match profile.get_array_strings(key) {
        Some(v) => v,
        None => Vec::new(),
    };
    proof {
        assert(views(Seq::<String>::empty()) =~= Seq::<Seq<char>>::empty());
    }
    missing_strings(&app_values, &profile_values)
}

/// One line about a list of values, when the list is not empty.
pub open spec fn listed(prefix: Seq<char>, values: Seq<Seq<char>>) -> Seq<Seq<char>> {
    if values.len() > 0 {
        seq![prefix + seq_join(values, ", "@)]
    } else {
        Seq::empty()
    }
}

/// The `aps-environment` disagreement, if any; `sep` follows the key.
pub open spec fn aps_mismatch(ent: InfoPlist, prof: InfoPlist, sep: Seq<char>) -> Seq<Seq<char>> {
    match ent.string_at(APS_ENVIRONMENT_KEY@) {
        Some(app_aps) => match prof.string_at(APS_ENVIRONMENT_KEY@) {
            Some(prov_aps) => if prov_aps != app_aps {
                seq![APS_ENVIRONMENT_KEY@ + sep + "app="@ + app_aps + " profile="@ + prov_aps]
            } else {
                Seq::empty()
            },
            None => seq!["aps-environment missing in profile"@],
        },
        None => Seq::empty(),
    }
}

/// How the entitlements disagree with those of a provisioning profile.
pub open spec fn profile_mismatches(ent: InfoPlist, prof: InfoPlist, sep: Seq<char>) -> Seq<
    Seq<char>,
> {
    aps_mismatch(ent, prof, sep) + listed(
        "keychain-access-groups missing in profile: "@,
        missing_values(
            values_at(ent, KEYCHAIN_ACCESS_GROUPS_KEY@),
            values_at(prof, KEYCHAIN_ACCESS_GROUPS_KEY@),
        ),
    ) + listed(
        "iCloud containers missing in profile: "@,
        missing_values(
            values_at(ent, ICLOUD_CONTAINER_IDENTIFIERS_KEY@),
            values_at(prof, ICLOUD_CONTAINER_IDENTIFIERS_KEY@),
        ),
    )
}

/// Adds `prefix` and the joined values to `out` when there are values.
pub fn push_listed(out: &mut Vec<String>, prefix: &str, values: &Vec<String>)
    ensures
        views(final(out)@) == views(old(out)@) + listed(prefix@, views(values@)),
{
    if values.len() > 0 {
        let joined = join(values, ", ");
        let line = concat(prefix, joined.as_str());
        out.push(line);
        assert(views(final(out)@) =~= views(old(out)@) + listed(prefix@, views(values@)));
    } else {
        assert(views(final(out)@) =~= views(old(out)@) + listed(prefix@, views(values@)));
    }
}

/// How the entitlements disagree with those of a provisioning profile; `sep`
/// follows the `aps-environment` key in the first line.
pub fn compare_with_profile(entitlements: &InfoPlist, profile: &InfoPlist, sep: &str) -> (r: Vec<
    String,
>)
    ensures
        views(r@) == profile_mismatches(*entitlements, *profile, sep@),
{
    let mut out: Vec<String> = Vec::new();
    if let Some(app_aps) = entitlements.get_string(APS_ENVIRONMENT_KEY) {
        match profile.get_string(APS_ENVIRONMENT_KEY) {
            Some(prov_aps) => {
                if !str_eq(prov_aps, app_aps) {
                    let mut line = concat(APS_ENVIRONMENT_KEY, sep);
                    push_str(&mut line, "app=");
                    push_str(&mut line, app_aps);
                    push_str(&mut line, " profile=");
                    push_str(&mut line, prov_aps);
                    out.push(line);
                }
            },
            None => {
                out.push(owned("aps-environment missing in profile"));
            },
        }
    }
    assert(views(out@) =~= aps_mismatch(*entitlements, *profile, sep@));
    let keychain = diff_string_array(entitlements, profile, KEYCHAIN_ACCESS_GROUPS_KEY);
    push_listed(&mut out, "keychain-access-groups missing in profile: ", &keychain);
    let icloud = diff_string_array(entitlements, profile, ICLOUD_CONTAINER_IDENTIFIERS_KEY);
    push_listed(&mut out, "iCloud containers missing in profile: ", &icloud);
    out
}

pub struct EntitlementsMismatchRule;

/// What the debug-entitlement check reports for the app.
pub open spec fn debug_entitlement_outcome(a: ArtifactContext) -> Result<ReportView, RuleError> {
    match a.main_bundle.entitlements {
        Err(e) => Err(e),
        Ok(Some(p)) => if p.bool_at("get-task-allow"@) == Some(true) {
            Ok(
                report_of(
                    RuleStatus::Fail,
                    Some("get-task-allow entitlement is true"@),
                    Some("Entitlements plist has get-task-allow=true"@),
                ),
            )
        } else {
            Ok(report_of(RuleStatus::Pass, None, None))
        },
        Ok(None) => Ok(report_of(RuleStatus::Pass, None, None)),
    }
}

impl AppStoreRule for EntitlementsMismatchRule {
    fn id(&self) -> (r: &'static str)
        ensures
            r@ == "RULE_ENTITLEMENTS_MISMATCH"@,
    {
        "RULE_ENTITLEMENTS_MISMATCH"
    }

    fn name(&self) -> (r: &'static str)
        ensures
            r@ == "Debug Entitlements Present"@,
    {
        "Debug Entitlements Present"
    }

    fn category(&self) -> (r: RuleCategory)
        ensures
            r == RuleCategory::Entitlements,
    {
        RuleCategory::Entitlements
    }

    fn severity(&self) -> (r: Severity)
        ensures
            r == Severity::Error,
    {
        Severity::Error
    }

    fn recommendation(&self) -> (r: &'static str)
        ensures
            r@ == "Remove the get-task-allow entitlement for App Store builds."@,
    {
        "Remove the get-task-allow entitlement for App Store builds."
    }

    fn evaluate(&self, artifact: &ArtifactContext) -> (r: Result<RuleReport, RuleError>)
        ensures
            outcome(r) == debug_entitlement_outcome(*artifact),
    {
        match &artifact.main_bundle.entitlements {
            Err(e) => Err(e.duplicate()),
            Ok(Some(p)) => {
                if p.get_bool("get-task-allow") == Some(true) {
                    Ok(
                        with_evidence(
                            RuleStatus::Fail,
                            "get-task-allow entitlement is true",
                            owned("Entitlements plist has get-task-allow=true"),
                        ),
                    )
                } else {
                    Ok(bare(RuleStatus::Pass))
                }
            },
            Ok(None) => Ok(bare(RuleStatus::Pass)),
        }
    }
}

pub struct EntitlementsProvisioningMismatchRule;

/// What the entitlements/provisioning comparison reports for the app.
pub open spec fn provisioning_mismatch_outcome(a: ArtifactContext) -> Result<ReportView, RuleError> {
    match a.main_bundle.entitlements {
        Err(e) => Err(e),
        Ok(None) => Ok(report_of(RuleStatus::Skip, Some("No entitlements found"@), None)),
        Ok(Some(ent)) => match a.main_bundle.provisioning {
            Err(e) => Err(RuleError::Provisioning(e)),
            Ok(None) => Ok(
                report_of(
                    RuleStatus::Skip,
                    Some("embedded.mobileprovision not found"@),
                    Some(path_join_spec(a.app_bundle_path@, "embedded.mobileprovision"@)),
                ),
            ),
            Ok(Some(profile)) => {
                let m = profile_mismatches(ent, profile.entitlements, ": "@);
                if m.len() == 0 {
                    Ok(report_of(RuleStatus::Pass, None, None))
                } else {
                    Ok(
                        report_of(
                            RuleStatus::Fail,
                            Some("Provisioning profile mismatch"@),
                            Some(seq_join(m, "; "@)),
                        ),
                    )
                }
            },
        },
    }
}

impl AppStoreRule for EntitlementsProvisioningMismatchRule {
    fn id(&self) -> (r: &'static str)
        ensures
            r@ == "RULE_ENTITLEMENTS_PROVISIONING_MISMATCH"@,
    {
        "RULE_ENTITLEMENTS_PROVISIONING_MISMATCH"
    }

    fn name(&self) -> (r: &'static str)
        ensures
            r@ == "Entitlements vs Provisioning Mismatch"@,
    {
        "Entitlements vs Provisioning Mismatch"
    }

    fn category(&self) -> (r: RuleCategory)
        ensures
            r == RuleCategory::Entitlements,
    {
        RuleCategory::Entitlements
    }

    fn severity(&self) -> (r: Severity)
        ensures
            r == Severity::Error,
    {
        Severity::Error
    }

    fn recommendation(&self) -> (r: &'static str)
        ensures
            r@ == "Ensure entitlements in the app match the embedded provisioning profile."@,
    {
        "Ensure entitlements in the app match the embedded provisioning profile."
    }

    fn evaluate(&self, artifact: &ArtifactContext) -> (r: Result<RuleReport, RuleError>)
        ensures
            outcome(r) == provisioning_mismatch_outcome(*artifact),
    {
        let ent = match &artifact.main_bundle.entitlements {
            Err(e) => {
                return Err(e.duplicate());
            },
            Ok(None) => {
                return Ok(with_message(RuleStatus::Skip, "No entitlements found"));
            },
            Ok(Some(p)) => p,
        };
        let profile = match &artifact.main_bundle.provisioning {
            Err(e) => {
                return Err(RuleError::Provisioning(e.duplicate()));
            },
            Ok(None) => {
                let path = path_join(artifact.app_bundle_path.as_str(), "embedded.mobileprovision");
                return Ok(
                    with_evidence(RuleStatus::Skip, "embedded.mobileprovision not found", path),
                );
            },
            Ok(Some(p)) => p,
        };
        let mismatches = compare_with_profile(ent, &profile.entitlements, ": ");
        if mismatches.len() == 0 {
            return Ok(bare(RuleStatus::Pass));
        }
        let evidence = join(&mismatches, "; ");
        Ok(with_evidence(RuleStatus::Fail, "Provisioning profile mismatch", evidence))
    }
}

/// An app whose entitlements name an `aps-environment` the profile's
/// entitlements lack disagrees with its profile: the first mismatch says so.
/// One whose profile names a different `aps-environment` gets a line naming
/// both, and one whose profile names the same gets none about it.
pub proof fn lemma_aps_environment_mismatch(ent: InfoPlist, prof: InfoPlist, sep: Seq<char>)
    ensures
        ent.string_at("aps-environment"@) is Some && prof.string_at("aps-environment"@) is None ==> {
            let m = profile_mismatches(ent, prof, sep);
            m.len() > 0 && m[0] == "aps-environment missing in profile"@
        },
        ent.string_at("aps-environment"@) is Some && prof.string_at("aps-environment"@) is Some
            && ent.string_at("aps-environment"@) != prof.string_at("aps-environment"@) ==> {
            let m = profile_mismatches(ent, prof, sep);
            m.len() > 0 && m[0] == "aps-environment"@ + sep + "app="@ + ent.string_at("aps-environment"@)->0
                + " profile="@ + prof.string_at("aps-environment"@)->0
        },
        (ent.string_at("aps-environment"@) is None || ent.string_at("aps-environment"@) == prof.string_at(
            "aps-environment"@,
        )) ==> aps_mismatch(ent, prof, sep).len() == 0,
{
    reveal_strlit("aps-environment");
}

/// When the app's entitlements name an `aps-environment` the embedded
/// profile's entitlements lack, the provisioning check fails with
/// "Provisioning profile mismatch" and its evidence starts with that finding.
pub proof fn lemma_missing_aps_fails(a: ArtifactContext)
    requires
        match (a.main_bundle.entitlements, a.main_bundle.provisioning) {
            (Ok(Some(ent)), Ok(Some(p))) => ent.string_at("aps-environment"@) is Some
                && p.entitlements.string_at("aps-environment"@) is None,
            _ => false,
        },
    ensures
        match provisioning_mismatch_outcome(a) {
            Ok(r) => r.status == RuleStatus::Fail && r.message == Some("Provisioning profile mismatch"@)
                && match r.evidence {
                Some(ev) => crate::text::is_prefix("aps-environment missing in profile"@, ev),
                None => false,
            },
            Err(_) => false,
        },
{
    let ent = a.main_bundle.entitlements->Ok_0->Some_0;
    let p = a.main_bundle.provisioning->Ok_0->Some_0;
    lemma_aps_environment_mismatch(ent, p.entitlements, ": "@);
    let m = profile_mismatches(ent, p.entitlements, ": "@);
    crate::text::lemma_seq_join_first(m, "; "@);
}

} // verus!
