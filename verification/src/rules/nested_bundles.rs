//! Entitlements of the bundles nested in the app.
use vstd::prelude::*;
use crate::rules::base::{
    bare, outcome, report_of, with_evidence, with_message, AppStoreRule, ArtifactContext,
    ReportView, RuleCategory, RuleError, RuleReport, RuleStatus, Severity,
};
use crate::rules::base::BundleFacts;
use crate::rules::entitlements::{compare_with_profile, profile_mismatches, EntitlementsError};
use crate::text::{concat, extend_strings, join, push_str, seq_join, views};

verus! {

pub struct NestedBundleEntitlementsRule;

/// The mismatch line of one nested bundle, if its entitlements and profile disagree.
pub open spec fn nested_profile_line(b: BundleFacts) -> Result<Seq<Seq<char>>, RuleError> {
    match b.entitlements {
        Err(e) => Err(e),
        Ok(None) => Ok(Seq::empty()),
        Ok(Some(ent)) => match b.provisioning {
            Err(e) => Err(RuleError::Provisioning(e)),
            Ok(None) => Ok(Seq::empty()),
            Ok(Some(profile)) => {
                let local = profile_mismatches(ent, profile.entitlements, " "@);
                if local.len() == 0 {
                    Ok(Seq::empty())
                } else {
                    Ok(seq![b.display_name@ + ": "@ + seq_join(local, "; "@)])
                }
            },
        },
    }
}

/// The mismatch lines of all nested bundles, stopping at the first error.
pub open spec fn nested_profile_lines(bundles: Seq<BundleFacts>) -> Result<Seq<Seq<char>>, RuleError>
    decreases bundles.len(),
{
    if bundles.len() == 0 {
        Ok(Seq::empty())
    } else {
        match nested_profile_lines(bundles.drop_last()) {
            Err(e) => Err(e),
            Ok(prev) => match nested_profile_line(bundles.last()) {
                Err(e) => Err(e),
                Ok(l) => Ok(prev + l),
            },
        }
    }
}

/// What the nested entitlements check reports.
pub open spec fn nested_entitlements_outcome(a: ArtifactContext) -> Result<ReportView, RuleError> {
    match a.nested_bundles {
        Err(_) => Err(RuleError::Entitlements(EntitlementsError::ParseFailure)),
        Ok(b) => if b@.len() == 0 {
            Ok(report_of(RuleStatus::Pass, Some("No nested bundles found"@), None))
        } else {
            match nested_profile_lines(b@) {
                Err(e) => Err(e),
                Ok(m) => if m.len() == 0 {
                    Ok(
                        report_of(
                            RuleStatus::Pass,
                            Some("Nested bundle entitlements match profiles"@),
                            None,
                        ),
                    )
                } else {
                    Ok(
                        report_of(
                            RuleStatus::Fail,
                            Some("Nested bundle entitlements mismatch"@),
                            Some(seq_join(m, " | "@)),
                        ),
                    )
                },
            }
        },
    }
}

/// The line of `nested_profile_line`.
fn nested_profile_line_for(b: &BundleFacts) -> (r: Result<Vec<String>, RuleError>)
    ensures
        match (r, nested_profile_line(*b)) {
            (Ok(v), Ok(l)) => views(v@) == l,
            (Err(e), Err(f)) => e == f,
            _ => false,
        },
{
    let mut out: Vec<String> = Vec::new();
    proof {
        assert(views(out@) =~= Seq::<Seq<char>>::empty());
    }
    let ent = match &b.entitlements {
        Err(e) => {
            return Err(e.duplicate());
        },
        Ok(None) => {
            return Ok(out);
        },
        Ok(Some(p)) => p,
    };
    let profile = match &b.provisioning {
        Err(e) => {
            return Err(RuleError::Provisioning(e.duplicate()));
        },
        Ok(None) => {
            return Ok(out);
        },
        Ok(Some(p)) => p,
    };
    let local = compare_with_profile(ent, &profile.entitlements, " ");
    if local.len() > 0 {
        let joined = join(&local, "; ");
        let mut line = concat(b.display_name.as_str(), ": ");
        push_str(&mut line, joined.as_str());
        out.push(line);
        assert(views(out@) =~= seq![b.display_name@ + ": "@ + seq_join(views(local@), "; "@)]);
    }
    Ok(out)
}

/// Once a prefix of the bundles fails, every longer prefix fails the same way.
proof fn lemma_first_error_stays(bundles: Seq<BundleFacts>, i: int)
    requires
        0 < i <= bundles.len(),
        nested_profile_lines(bundles.take(i)) is Err,
    ensures
        nested_profile_lines(bundles) == nested_profile_lines(bundles.take(i)),
    decreases bundles.len() - i,
{
    if i < bundles.len() {
        assert(bundles.take(i + 1).drop_last() =~= bundles.take(i));
        lemma_first_error_stays(bundles, i + 1);
    } else {
        assert(bundles.take(i) =~= bundles);
    }
}

impl AppStoreRule for NestedBundleEntitlementsRule {
    fn id(&self) -> (r: &'static str)
        ensures
            r@ == "RULE_NESTED_ENTITLEMENTS_MISMATCH"@,
    {
        "RULE_NESTED_ENTITLEMENTS_MISMATCH"
    }

    fn name(&self) -> (r: &'static str)
        ensures
            r@ == "Nested Bundle Entitlements Mismatch"@,
    {
        "Nested Bundle Entitlements Mismatch"
    }

    fn category(&self) -> (r: RuleCategory)
        ensures
            r == RuleCategory::Entitlements,
    {
        RuleCategory::Entitlements
    }

    fn severity(&self) -> (r: Severity)
        ensures
            r == Severity::Error,
    {
        Severity::Error
    }

    fn recommendation(&self) -> (r: &'static str)
        ensures
            r@ == "Ensure embedded bundles have entitlements matching their embedded provisioning profiles."@,
    {
        "Ensure embedded bundles have entitlements matching their embedded provisioning profiles."
    }

    fn evaluate(&self, artifact: &ArtifactContext) -> (r: Result<RuleReport, RuleError>)
        ensures
            outcome(r) == nested_entitlements_outcome(*artifact),
    {
        let bundles = match &artifact.nested_bundles {
            Err(_) => {
                return Err(RuleError::Entitlements(EntitlementsError::ParseFailure));
            },
            Ok(b) => b,
        };
        if bundles.len() == 0 {
            return Ok(with_message(RuleStatus::Pass, "No nested bundles found"));
        }
        let mut mismatches: Vec<String> = Vec::new();
        let mut i: usize = 0;
        assert(bundles@.take(0) =~= Seq::<BundleFacts>::empty());
        assert(views(mismatches@) =~= Seq::<Seq<char>>::empty());
        while i < bundles.len()
            invariant
                0 <= i <= bundles@.len(),
                bundles@.len() > 0,
                match artifact.nested_bundles {
                    Ok(b) => b@ == bundles@,
                    Err(_) => false,
                },
                nested_profile_lines(bundles@.take(i as int)) == Ok::<Seq<Seq<char>>, RuleError>(
                    views(mismatches@),
                ),
            decreases bundles@.len() - i,
        {
            assert(bundles@.take(i + 1).drop_last() =~= bundles@.take(i as int));
            let lines = match nested_profile_line_for(&bundles[i]) {
                Err(e) => {
                    proof {
                        lemma_first_error_stays(bundles@, i as int + 1);
                    }
                    return Err(e);
                },
                Ok(l) => l,
            };
            extend_strings(&mut mismatches, &lines);
            i = i + 1;
        }
        assert(bundles@.take(bundles@.len() as int) =~= bundles@);
        if mismatches.len() == 0 {
            return Ok(with_message(RuleStatus::Pass, "Nested bundle entitlements match profiles"));
        }
        let evidence = join(&mismatches, " | ");
        Ok(with_evidence(RuleStatus::Fail, "Nested bundle entitlements mismatch", evidence))
    }
}

pub struct NestedBundleDebugEntitlementRule;

/// The names of nested bundles with `get-task-allow`, stopping at the first error.
pub open spec fn debug_offenders(bundles: Seq<BundleFacts>) -> Result<Seq<Seq<char>>, RuleError>
    decreases bundles.len(),
{
    if bundles.len() == 0 {
        Ok(Seq::empty())
    } else {
        match debug_offenders(bundles.drop_last()) {
            Err(e) => Err(e),
            Ok(prev) => {
                let b = bundles.last();
                match b.entitlements {
                    Err(e) => Err(e),
                    Ok(Some(p)) => if p.bool_at("get-task-allow"@) == Some(true) {
                        Ok(prev.push(b.display_name@))
                    } else {
                        Ok(prev)
                    },
                    Ok(None) => Ok(prev),
                }
            },
        }
    }
}

/// What the nested debug entitlement check reports.
pub open spec fn nested_debug_outcome(a: ArtifactContext) -> Result<ReportView, RuleError> {
    match a.nested_bundles {
        Err(_) => Err(RuleError::Entitlements(EntitlementsError::ParseFailure)),
        Ok(b) => if b@.len() == 0 {
            Ok(report_of(RuleStatus::Pass, Some("No nested bundles found"@), None))
        } else {
            match debug_offenders(b@) {
                Err(e) => Err(e),
                Ok(o) => if o.len() == 0 {
                    Ok(
                        report_of(
                            RuleStatus::Pass,
                            Some("No debug entitlements in nested bundles"@),
                            None,
                        ),
                    )
                } else {
                    Ok(
                        report_of(
                            RuleStatus::Fail,
                            Some("Debug entitlements found in nested bundles"@),
                            Some(seq_join(o, ", "@)),
                        ),
                    )
                },
            }
        },
    }
}

proof fn lemma_debug_error_stays(bundles: Seq<BundleFacts>, i: int)
    requires
        0 < i <= bundles.len(),
        debug_offenders(bundles.take(i)) is Err,
    ensures
        debug_offenders(bundles) == debug_offenders(bundles.take(i)),
    decreases bundles.len() - i,
{
    if i < bundles.len() {
        assert(bundles.take(i + 1).drop_last() =~= bundles.take(i));
        lemma_debug_error_stays(bundles, i + 1);
    } else {
        assert(bundles.take(i) =~= bundles);
    }
}

impl AppStoreRule for NestedBundleDebugEntitlementRule {
    fn id(&self) -> (r: &'static str)
        ensures
            r@ == "RULE_NESTED_DEBUG_ENTITLEMENT"@,
    {
        "RULE_NESTED_DEBUG_ENTITLEMENT"
    }

    fn name(&self) -> (r: &'static str)
        ensures
            r@ == "Nested Bundle Debug Entitlement"@,
    {
        "Nested Bundle Debug Entitlement"
    }

    fn category(&self) -> (r: RuleCategory)
        ensures
            r == RuleCategory::Entitlements,
    {
        RuleCategory::Entitlements
    }

    fn severity(&self) -> (r: Severity)
        ensures
            r == Severity::Error,
    {
        Severity::Error
    }

    fn recommendation(&self) -> (r: &'static str)
        ensures
            r@ == "Remove get-task-allow from embedded frameworks/extensions."@,
    {
        "Remove get-task-allow from embedded frameworks/extensions."
    }

    fn evaluate(&self, artifact: &ArtifactContext) -> (r: Result<RuleReport, RuleError>)
        ensures
            outcome(r) == nested_debug_outcome(*artifact),
    {
        let bundles = match &artifact.nested_bundles {
            Err(_) => {
                return Err(RuleError::Entitlements(EntitlementsError::ParseFailure));
            },
            Ok(b) => b,
        };
        if bundles.len() == 0 {
            return Ok(with_message(RuleStatus::Pass, "No nested bundles found"));
        }
        let mut offenders: Vec<String> = Vec::new();
        let mut i: usize = 0;
        assert(bundles@.take(0) =~= Seq::<BundleFacts>::empty());
        assert(views(offenders@) =~= Seq::<Seq<char>>::empty());
        while i < bundles.len()
            invariant
                0 <= i <= bundles@.len(),
                bundles@.len() > 0,
                match artifact.nested_bundles {
                    Ok(b) => b@ == bundles@,
                    Err(_) => false,
                },
                debug_offenders(bundles@.take(i as int)) == Ok::<Seq<Seq<char>>, RuleError>(
                    views(offenders@),
                ),
            decreases bundles@.len() - i,
        {
            assert(bundles@.take(i + 1).drop_last() =~= bundles@.take(i as int));
            let b = &bundles[i];
            match &b.entitlements {
                Err(e) => {
                    proof {
                        lemma_debug_error_stays(bundles@, i as int + 1);
                    }
                    return Err(e.duplicate());
                },
                Ok(Some(p)) => {
                    if p.get_bool("get-task-allow") == Some(true) {
                        let ghost pre = views(offenders@);
                        offenders.push(b.display_name.clone());
                        assert(views(offenders@) =~= pre.push(b.display_name@));
                    }
                },
                Ok(None) => {},
            }
            i = i + 1;
        }
        assert(bundles@.take(bundles@.len() as int) =~= bundles@);
        if offenders.len() == 0 {
            return Ok(with_message(RuleStatus::Pass, "No debug entitlements in nested bundles"));
        }
        let evidence = join(&offenders, ", ");
        Ok(with_evidence(RuleStatus::Fail, "Debug entitlements found in nested bundles", evidence))
    }
}

} // verus!
