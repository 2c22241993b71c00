//! What every rule shares: severities, outcomes, errors, the facts gathered
//! about an app bundle, and the rule interface itself.
use vstd::prelude::*;
use crate::parsers::bundle_scanner::BundleScanError;
use crate::parsers::macho_parser::{MachOError, MachOSignatureSummary};
use crate::parsers::macho_scanner::UsageScanError;
use crate::parsers::plist_reader::{InfoPlist, PlistError};
use crate::parsers::provisioning_profile::{ProvisioningError, ProvisioningProfile};
use crate::rules::entitlements::EntitlementsError;
use crate::text::owned;

verus! {

pub const RULESET_VERSION: &'static str = "0.1.0";

#[derive(Clone, Copy, PartialEq, Eq, Structural, Debug)]
pub enum Severity {
    Error,
    Warning,
    Info,
}

#[derive(Clone, Copy, PartialEq, Eq, Structural, Debug)]
pub enum RuleStatus {
    Pass,
    Fail,
    Error,
    Skip,
}

#[derive(Clone, Copy, PartialEq, Eq, Structural, Debug)]
pub enum RuleCategory {
    Privacy,
    Signing,
    Bundling,
    Entitlements,
    Ats,
    ThirdParty,
    Permissions,
    Metadata,
    Other,
}

/// The outcome a rule reports.
pub struct RuleReport {
    pub status: RuleStatus,
    pub message: Option<String>,
    pub evidence: Option<String>,
}

/// A report with its texts as character sequences.
pub struct ReportView {
    pub status: RuleStatus,
    pub message: Option<Seq<char>>,
    pub evidence: Option<Seq<char>>,
}

pub open spec fn opt_view(o: Option<String>) -> Option<Seq<char>> {
    match o {
        Some(s) => Some(s@),
        None => None,
    }
}

impl View for RuleReport {
    type V = ReportView;

    open spec fn view(&self) -> ReportView {
        ReportView {
            status: self.status,
            message: opt_view(self.message),
            evidence: opt_view(self.evidence),
        }
    }
}

pub open spec fn report_of(
    status: RuleStatus,
    message: Option<Seq<char>>,
    evidence: Option<Seq<char>>,
) -> ReportView {
    ReportView { status, message, evidence }
}

/// The view of a rule's outcome.
pub open spec fn outcome(r: Result<RuleReport, RuleError>) -> Result<ReportView, RuleError> {
    match r {
        Ok(x) => Ok(x@),
        Err(e) => Err(e),
    }
}

/// A report with a status and nothing else.
pub fn bare(status: RuleStatus) -> (r: RuleReport)
    ensures
        r@ == report_of(status, None, None),
{
    RuleReport { status, message: None, evidence: None }
}

/// A report with a status and a message.
pub fn with_message(status: RuleStatus, message: &str) -> (r: RuleReport)
    ensures
        r@ == report_of(status, Some(message@), None),
{
    RuleReport { status, message: Some(owned(message)), evidence: None }
}

/// A report with a status, a message and evidence.
pub fn with_evidence(status: RuleStatus, message: &str, evidence: String) -> (r: RuleReport)
    ensures
        r@ == report_of(status, Some(message@), Some(evidence@)),
{
    RuleReport { status, message: Some(owned(message)), evidence: Some(evidence) }
}

/// Why a rule could not be evaluated.
pub enum RuleError {
    Entitlements(EntitlementsError),
    Provisioning(ProvisioningError),
    MachO(MachOError),
    /// The app's Info.plist has no `NSCameraUsageDescription`.
    MissingCameraUsageDescription,
}

impl RuleError {
    pub open spec fn message_spec(&self) -> Seq<char> {
        match self {
            RuleError::Entitlements(e) => e.message_spec(),
            RuleError::Provisioning(e) => e.message_spec(),
            RuleError::MachO(e) => e.message_spec(),
            RuleError::MissingCameraUsageDescription => "Missing NSCameraUsageDescription in Info.plist"@,
        }
    }

    /// The error's display text: that of the error it wraps.
    pub fn message(&self) -> (r: String)
        ensures
            r@ == self.message_spec(),
    {
        match self {
            RuleError::Entitlements(e) => e.message(),
            RuleError::Provisioning(e) => e.message(),
            RuleError::MachO(e) => e.message(),
            RuleError::MissingCameraUsageDescription => owned("Missing NSCameraUsageDescription in Info.plist"),
        }
    }

    /// An equal copy.
    pub fn duplicate(&self) -> (r: Self)
        ensures
            r == *self,
    {
        match self {
            RuleError::Entitlements(e) => RuleError::Entitlements(e.duplicate()),
            RuleError::Provisioning(e) => RuleError::Provisioning(e.duplicate()),
            RuleError::MachO(e) => RuleError::MachO(e.duplicate()),
            RuleError::MissingCameraUsageDescription => RuleError::MissingCameraUsageDescription,
        }
    }
}

/// An executable file of a bundle.
pub struct ExecutableFacts {
    pub path: String,
    /// Its signature summary; `None` when the file does not exist.
    pub signature: Option<Result<MachOSignatureSummary, MachOError>>,
}

/// What was read from one bundle (the app itself or a nested one).
pub struct BundleFacts {
    pub bundle_path: String,
    pub display_name: String,
    /// `Info.plist` of the bundle, when the file exists.
    pub info_plist: Result<Option<InfoPlist>, PlistError>,
    /// The bundle's executable: the one `CFBundleExecutable` names, else the
    /// one named after the bundle, whichever exists.
    pub executable: Option<ExecutableFacts>,
    /// The entitlements embedded in that executable's signature.
    pub entitlements: Result<Option<InfoPlist>, RuleError>,
    /// `embedded.mobileprovision` of the bundle, when the file exists.
    pub provisioning: Result<Option<ProvisioningProfile>, ProvisioningError>,
}

/// The main executable: its path and its bytes, or the text of the I/O error
/// reading it gave.
pub struct ExecutableFile {
    pub path: String,
    pub contents: Result<Vec<u8>, String>,
}

/// A file inside the app bundle.
pub struct BundleFile {
    pub path: String,
    /// The path below the bundle root.
    pub relative_path: String,
    pub file_name: String,
    /// The contents, for the files whose contents a rule reads.
    pub contents: Option<Result<Vec<u8>, String>>,
}

/// Everything the rules read about one app bundle.
pub struct ArtifactContext {
    pub app_bundle_path: String,
    /// The app's `Info.plist`, when the file exists.
    pub info_plist: Option<InfoPlist>,
    /// The app bundle itself.
    pub main_bundle: BundleFacts,
    /// The file `CFBundleExecutable` of the app's `Info.plist` names, when it names one.
    pub app_executable: Option<ExecutableFacts>,
    /// The main executable the bundle resolves to, when there is one.
    pub main_executable: Option<ExecutableFile>,
    /// The bytes of the executable the usage scanners read.
    pub scanned_executable: Result<Vec<u8>, UsageScanError>,
    /// The bundles nested in the app, ordered by path.
    pub nested_bundles: Result<Vec<BundleFacts>, BundleScanError>,
    /// Every regular file of the app bundle.
    pub bundle_files: Vec<BundleFile>,
    /// Seconds since the Unix epoch when the scan ran; `None` when the clock
    /// reads earlier than the epoch.
    pub clock: Option<u64>,
}

/// A check of the App Store review guidelines.
pub trait AppStoreRule {
    fn id(&self) -> &'static str;

    fn name(&self) -> &'static str;

    fn category(&self) -> RuleCategory;

    fn severity(&self) -> Severity;

    fn recommendation(&self) -> &'static str;

    fn evaluate(&self, artifact: &ArtifactContext) -> Result<RuleReport, RuleError>;
}

/// The variant name of a severity, as `{:?}` prints it.
pub open spec fn severity_name(s: Severity) -> Seq<char> {
    match s {
        Severity::Error => "Error"@,
        Severity::Warning => "Warning"@,
        Severity::Info => "Info"@,
    }
}

pub fn severity_label(s: Severity) -> (r: &'static str)
    ensures
        r@ == severity_name(s),
{
    match s {
        Severity::Error => "Error",
        Severity::Warning => "Warning",
        Severity::Info => "Info",
    }
}

/// The variant name of a status, as `{:?}` prints it.
pub open spec fn status_name(s: RuleStatus) -> Seq<char> {
    match s {
        RuleStatus::Pass => "Pass"@,
        RuleStatus::Fail => "Fail"@,
        RuleStatus::Error => "Error"@,
        RuleStatus::Skip => "Skip"@,
    }
}

pub fn status_label(s: RuleStatus) -> (r: &'static str)
    ensures
        r@ == status_name(s),
{
    match s {
        RuleStatus::Pass => "Pass",
        RuleStatus::Fail => "Fail",
        RuleStatus::Error => "Error",
        RuleStatus::Skip => "Skip",
    }
}

/// The variant name of a category, as `{:?}` prints it.
pub open spec fn category_name(c: RuleCategory) -> Seq<char> {
    match c {
        RuleCategory::Privacy => "Privacy"@,
        RuleCategory::Signing => "Signing"@,
        RuleCategory::Bundling => "Bundling"@,
        RuleCategory::Entitlements => "Entitlements"@,
        RuleCategory::Ats => "Ats"@,
        RuleCategory::ThirdParty => "ThirdParty"@,
        RuleCategory::Permissions => "Permissions"@,
        RuleCategory::Metadata => "Metadata"@,
        RuleCategory::Other => "Other"@,
    }
}

pub fn category_label(c: RuleCategory) -> (r: &'static str)
    ensures
        r@ == category_name(c),
{
    match c {
        RuleCategory::Privacy => "Privacy",
        RuleCategory::Signing => "Signing",
        RuleCategory::Bundling => "Bundling",
        RuleCategory::Entitlements => "Entitlements",
        RuleCategory::Ats => "Ats",
        RuleCategory::ThirdParty => "ThirdParty",
        RuleCategory::Permissions => "Permissions",
        RuleCategory::Metadata => "Metadata",
        RuleCategory::Other => "Other",
    }
}


/// A bundle's name without its `.app`, `.appex` and `.framework` suffixes,
/// trimmed in that order.
pub open spec fn bundle_stem(bundle: Seq<char>) -> Seq<char> {
    crate::paths::trim_suffix_all(
        crate::paths::trim_suffix_all(
            crate::paths::trim_suffix_all(crate::paths::base_name(bundle), ".app"@),
            ".appex"@,
        ),
        ".framework"@,
    )
}

pub fn bundle_stem_of(bundle_path: &str) -> (r: String)
    ensures
        r@ == bundle_stem(bundle_path@),
{
    let name = crate::paths::file_name(bundle_path);
    let a = crate::paths::trim_end_matches(name.as_str(), ".app");
    let b = crate::paths::trim_end_matches(a.as_str(), ".appex");
    crate::paths::trim_end_matches(b.as_str(), ".framework")
}

/// The executable named after a bundle, when it is among the paths that
/// exist.
pub fn resolve_bundle_executable_path(bundle_path: &str, present: &Vec<String>) -> (r: Option<String>)
    ensures
        crate::paths::opt_string(r) == crate::paths::executable_spec(
            bundle_path@,
            None,
            bundle_stem(bundle_path@),
            crate::text::views(present@),
        ),
{
    let stem = bundle_stem_of(bundle_path);
    crate::paths::choose_executable(bundle_path, None, stem.as_str(), present)
}

} // verus!
