//! The build tool versions App Store Connect requires.
use vstd::prelude::*;
use crate::rules::base::{
    bare, outcome, report_of, with_evidence, with_message, AppStoreRule, ArtifactContext,
    ReportView, RuleCategory, RuleError, RuleReport, RuleStatus, Severity,
};
use crate::numbers::{parse_u32, parse_u32_spec};
use crate::parsers::plist_reader::InfoPlist;
use crate::text::{
    char_pos, chars_of, concat, is_prefix, join, lemma_split_first, owned, push_str, seq_join,
    slice_string, split_char, split_spec, starts_with, trim, trim_spec, views,
};

verus! {

pub struct XcodeVersionRule;

pub const APP_STORE_CONNECT_REQUIREMENT_UNIX: u64 = 1_777_334_400;

pub const MIN_XCODE_BUILD_NUMBER: u32 = 2600;

pub const MIN_IOS_SDK_MAJOR: u32 = 26;

/// The text before the first `.` of the trimmed value.
pub open spec fn major_part(value: Seq<char>) -> Seq<char> {
    let t = trim_spec(value);
    t.take(char_pos(t, '.') as int)
}

/// `value.trim().split('.').next()?.parse::<u32>().ok()`.
pub open spec fn major_version(value: Seq<char>) -> Option<u32> {
    parse_u32_spec(major_part(value))
}

/// The major version of an `iphoneos` SDK name.
pub open spec fn sdk_major_version(value: Seq<char>) -> Option<u32> {
    let t = trim_spec(value);
    if is_prefix("iphoneos"@, t) {
        major_version(t.skip("iphoneos"@.len() as int))
    } else {
        None
    }
}

/// The leading number of a dotted version.
pub fn parse_major_version(value: &str) -> (r: Option<u32>)
    ensures
        r == major_version(value@),
{
    let t = trim(value);
    let parts = split_char(t.as_str(), '.');
    proof {
        lemma_split_first(t@, '.');
        assert(views(parts@)[0] == parts@[0]@);
    }
    parse_u32(parts[0].as_str())
}

/// The major version of an `iphoneos` SDK name such as `iphoneos26.0`.
pub fn parse_sdk_major_version(value: &str) -> (r: Option<u32>)
    ensures
        r == sdk_major_version(value@),
{
    let t = trim(value);
    if !starts_with(t.as_str(), "iphoneos") {
        return None;
    }
    let prefix = chars_of("iphoneos");
    let v = chars_of(t.as_str());
    let suffix = slice_string(&v, prefix.len(), v.len());
    assert(suffix@ =~= t@.skip("iphoneos"@.len() as int));
    parse_major_version(suffix.as_str())
}

/// The requirement is in force at this clock reading (a clock before the epoch
/// counts as in force).
pub open spec fn requirement_live(clock: Option<u64>) -> bool {
    match clock {
        Some(secs) => secs >= APP_STORE_CONNECT_REQUIREMENT_UNIX,
        None => true,
    }
}

pub fn requirement_is_live(clock: Option<u64>) -> (r: bool)
    ensures
        r == requirement_live(clock),
{
    match clock {
        Some(secs) => secs >= APP_STORE_CONNECT_REQUIREMENT_UNIX,
        None => true,
    }
}

pub open spec fn success_text(live: bool) -> Seq<char> {
    if live {
        "App meets the current App Store Connect Xcode 26 / iOS 26 SDK requirement"@
    } else {
        "App already meets the upcoming App Store Connect Xcode 26 / iOS 26 SDK requirement"@
    }
}

pub open spec fn failure_text(live: bool) -> Seq<char> {
    if live {
        "App does not meet the current App Store Connect Xcode 26 / iOS 26 SDK requirement"@
    } else {
        "App does not meet the upcoming App Store Connect requirement that takes effect on April 28, 2026"@
    }
}

pub fn success_message(clock: Option<u64>) -> (r: &'static str)
    ensures
        r@ == success_text(requirement_live(clock)),
{
    if requirement_is_live(clock) {
        "App meets the current App Store Connect Xcode 26 / iOS 26 SDK requirement"
    } else {
        "App already meets the upcoming App Store Connect Xcode 26 / iOS 26 SDK requirement"
    }
}

pub fn failure_message(clock: Option<u64>) -> (r: &'static str)
    ensures
        r@ == failure_text(requirement_live(clock)),
{
    if requirement_is_live(clock) {
        "App does not meet the current App Store Connect Xcode 26 / iOS 26 SDK requirement"
    } else {
        "App does not meet the upcoming App Store Connect requirement that takes effect on April 28, 2026"
    }
}

/// What is wrong with the build tool versions the plist records.
pub open spec fn xcode_failures(p: InfoPlist) -> Seq<Seq<char>> {
    (match p.string_at("DTXcode"@) {
        Some(v) => match parse_u32_spec(v) {
            Some(n) => if n >= MIN_XCODE_BUILD_NUMBER {
                Seq::empty()
            } else {
                seq!["DTXcode="@ + v + " is below the minimum build number 2600"@]
            },
            None => seq!["DTXcode="@ + v + " is not a valid build number"@],
        },
        None => seq!["DTXcode key missing"@],
    }) + (match p.string_at("DTPlatformVersion"@) {
        Some(v) => match major_version(v) {
            Some(n) => if n >= MIN_IOS_SDK_MAJOR {
                Seq::empty()
            } else {
                seq!["DTPlatformVersion="@ + v + " is below 26.0"@]
            },
            None => seq!["DTPlatformVersion="@ + v + " is not a valid platform version"@],
        },
        None => seq!["DTPlatformVersion key missing"@],
    }) + (match p.string_at("DTSDKName"@) {
        Some(v) => match sdk_major_version(v) {
            Some(n) => if n >= MIN_IOS_SDK_MAJOR {
                Seq::empty()
            } else {
                seq!["DTSDKName="@ + v + " is below iphoneos26"@]
            },
            None => seq!["DTSDKName="@ + v + " does not look like an iPhone OS SDK identifier"@],
        },
        None => seq!["DTSDKName key missing"@],
    })
}

/// What the Xcode/SDK requirement check reports.
pub open spec fn xcode_outcome(a: ArtifactContext) -> Result<ReportView, RuleError> {
    match a.info_plist {
        None => Ok(report_of(RuleStatus::Skip, Some("Info.plist not found"@), None)),
        Some(p) => {
            let f = xcode_failures(p);
            let live = requirement_live(a.clock);
            if f.len() == 0 {
                Ok(report_of(RuleStatus::Pass, Some(success_text(live)), None))
            } else {
                Ok(report_of(RuleStatus::Fail, Some(failure_text(live)), Some(seq_join(f, "; "@))))
            }
        },
    }
}

/// The lines of `xcode_failures`.
pub fn collect_xcode_failures(p: &InfoPlist) -> (r: Vec<String>)
    ensures
        views(r@) == xcode_failures(*p),
{
    let mut failures: Vec<String> = Vec::new();
    match p.get_string("DTXcode") {
        Some(v) => match parse_u32(v) {
            Some(n) => {
                if n < MIN_XCODE_BUILD_NUMBER {
                    let mut line = concat("DTXcode=", v);
                    push_str(&mut line, " is below the minimum build number 2600");
                    failures.push(line);
                }
            },
            None => {
                let mut line = concat("DTXcode=", v);
                push_str(&mut line, " is not a valid build number");
                failures.push(line);
            },
        },
        None => {
            failures.push(owned("DTXcode key missing"));
        },
    }
    let ghost f1 = views(failures@);
    match p.get_string("DTPlatformVersion") {
        Some(v) => match parse_major_version(v) {
            Some(n) => {
                if n < MIN_IOS_SDK_MAJOR {
                    let mut line = concat("DTPlatformVersion=", v);
                    push_str(&mut line, " is below 26.0");
                    failures.push(line);
                }
            },
            None => {
                let mut line = concat("DTPlatformVersion=", v);
                push_str(&mut line, " is not a valid platform version");
                failures.push(line);
            },
        },
        None => {
            failures.push(owned("DTPlatformVersion key missing"));
        },
    }
    let ghost f2 = views(failures@);
    match p.get_string("DTSDKName") {
        Some(v) => match parse_sdk_major_version(v) {
            Some(n) => {
                if n < MIN_IOS_SDK_MAJOR {
                    let mut line = concat("DTSDKName=", v);
                    push_str(&mut line, " is below iphoneos26");
                    failures.push(line);
                }
            },
            None => {
                let mut line = concat("DTSDKName=", v);
                push_str(&mut line, " does not look like an iPhone OS SDK identifier");
                failures.push(line);
            },
        },
        None => {
            failures.push(owned("DTSDKName key missing"));
        },
    }
    assert(views(failures@) =~= xcode_failures(*p));
    failures
}

impl AppStoreRule for XcodeVersionRule {
    fn id(&self) -> (r: &'static str)
        ensures
            r@ == "RULE_XCODE_26_MANDATE"@,
    {
        "RULE_XCODE_26_MANDATE"
    }

    fn name(&self) -> (r: &'static str)
        ensures
            r@ == "Xcode 26 / iOS 26 SDK Mandate"@,
    {
        "Xcode 26 / iOS 26 SDK Mandate"
    }

    fn category(&self) -> (r: RuleCategory)
        ensures
            r == RuleCategory::Metadata,
    {
        RuleCategory::Metadata
    }

    fn severity(&self) -> (r: Severity)
        ensures
            r == Severity::Warning,
    {
        Severity::Warning
    }

    fn recommendation(&self) -> (r: &'static str)
        ensures
            r@ == "Starting April 28, 2026, iOS and iPadOS apps uploaded to App Store Connect must be built with Xcode 26 and the iOS 26 SDK or later."@,
    {
        "Starting April 28, 2026, iOS and iPadOS apps uploaded to App Store Connect must be built with Xcode 26 and the iOS 26 SDK or later."
    }

    fn evaluate(&self, artifact: &ArtifactContext) -> (r: Result<RuleReport, RuleError>)
        ensures
            outcome(r) == xcode_outcome(*artifact),
    {
        let plist = match &artifact.info_plist {
            None => {
                return Ok(with_message(RuleStatus::Skip, "Info.plist not found"));
            },
            Some(p) => p,
        };
        let failures = collect_xcode_failures(plist);
        if failures.len() == 0 {
            return Ok(with_message(RuleStatus::Pass, success_message(artifact.clock)));
        }
        let evidence = join(&failures, "; ");
        Ok(with_evidence(RuleStatus::Fail, failure_message(artifact.clock), evidence))
    }
}

} // verus!
