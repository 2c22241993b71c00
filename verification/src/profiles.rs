//! Scan profiles: which rules run, and what the rule catalogue says about each.
use vstd::prelude::*;
use crate::parsers::macho_scanner::add_unique;
use crate::rules::base::{outcome, AppStoreRule, ArtifactContext, ReportView, RuleCategory, RuleError, RuleReport, Severity};
use crate::rules::app_icon::{AppIconAlphaRule, app_icon_outcome};
use crate::rules::ats::{AtsAuditRule, ats_outcome};
use crate::rules::binary_stripping::{BinaryStrippingRule, stripping_outcome};
use crate::rules::bitcode::{BitcodeRule, bitcode_outcome};
use crate::rules::bundle_metadata::{BundleMetadataConsistencyRule, bundle_metadata_outcome};
use crate::rules::deprecated_api::{DeprecatedApiRule, deprecated_api_outcome};
use crate::rules::entitlements::{EntitlementsMismatchRule, EntitlementsProvisioningMismatchRule, debug_entitlement_outcome, provisioning_mismatch_outcome};
use crate::rules::export_compliance::{ExportComplianceRule, export_compliance_outcome};
use crate::rules::extensions::{ExtensionEntitlementsCompatibilityRule, extensions_outcome};
use crate::rules::info_plist::{InfoPlistCapabilitiesRule, InfoPlistRequiredKeysRule, LSApplicationQueriesSchemesAuditRule, UIRequiredDeviceCapabilitiesAuditRule, UsageDescriptionsRule, UsageDescriptionsValueRule, capabilities_outcome, device_capabilities_outcome, required_keys_outcome, schemes_outcome, usage_descriptions_outcome, usage_values_outcome};
use crate::rules::launch_screen::{LaunchScreenStoryboardRule, launch_screen_outcome};
use crate::rules::nested_bundles::{NestedBundleDebugEntitlementRule, NestedBundleEntitlementsRule, nested_debug_outcome, nested_entitlements_outcome};
use crate::rules::os_version::{OSVersionConsistencyRule, os_version_outcome};
use crate::rules::privacy_manifest::{PrivacyManifestCompletenessRule, privacy_manifest_outcome};
use crate::rules::privacy_sdk::{PrivacyManifestSdkCrossCheckRule, privacy_sdk_outcome};
use crate::rules::private_api::{PrivateApiRule, private_api_outcome};
use crate::rules::signing::{EmbeddedCodeSignatureTeamRule, signing_outcome};
use crate::rules::xcode_requirements::{XcodeVersionRule, xcode_outcome};
use crate::rules::privacy::{MissingPrivacyManifestRule, missing_manifest_outcome};
use crate::rules::permissions::{CameraUsageDescriptionRule, camera_usage_outcome};
use crate::sorting::{sort_by_key, sorted_by_key, SortKey};
use crate::parsers::macho_scanner::text_key;
use crate::rules::info_plist::{dedup, unique_sorted, unique_sorted_spec};
use crate::text_order::sorted_text;
use crate::rules::entitlements::strings_contain;
use crate::text::{owned, str_eq, to_ascii_uppercase, trim, trim_spec, upper_seq, views};

verus! {

/// Every rule of the catalogue.
#[derive(Clone, Copy, PartialEq, Eq, Structural, Debug)]
pub enum RuleKind {
    AppIconAlpha,
    AtsAudit,
    BinaryStripping,
    Bitcode,
    BundleMetadataConsistency,
    DeprecatedApi,
    EntitlementsMismatch,
    EntitlementsProvisioningMismatch,
    ExportCompliance,
    ExtensionEntitlementsCompatibility,
    UsageDescriptions,
    UsageDescriptionsValue,
    InfoPlistRequiredKeys,
    InfoPlistCapabilities,
    UIRequiredDeviceCapabilitiesAudit,
    LSApplicationQueriesSchemesAudit,
    LaunchScreenStoryboard,
    NestedBundleEntitlements,
    NestedBundleDebugEntitlement,
    OSVersionConsistency,
    PrivacyManifestCompleteness,
    PrivacyManifestSdkCrossCheck,
    PrivateApi,
    EmbeddedCodeSignatureTeam,
    XcodeVersion,
    MissingPrivacyManifest,
    CameraUsageDescription,
}

impl RuleKind {
    pub open spec fn id_spec(self) -> Seq<char> {
        match self {
            RuleKind::AppIconAlpha => "RULE_APP_ICON_ALPHA"@,
            RuleKind::AtsAudit => "RULE_ATS_AUDIT"@,
            RuleKind::BinaryStripping => "RULE_BINARY_STRIPPING"@,
            RuleKind::Bitcode => "RULE_BITCODE_ENABLED"@,
            RuleKind::BundleMetadataConsistency => "RULE_BUNDLE_METADATA_CONSISTENCY"@,
            RuleKind::DeprecatedApi => "RULE_DEPRECATED_API"@,
            RuleKind::EntitlementsMismatch => "RULE_ENTITLEMENTS_MISMATCH"@,
            RuleKind::EntitlementsProvisioningMismatch => "RULE_ENTITLEMENTS_PROVISIONING_MISMATCH"@,
            RuleKind::ExportCompliance => "RULE_EXPORT_COMPLIANCE"@,
            RuleKind::ExtensionEntitlementsCompatibility => "RULE_EXTENSION_ENTITLEMENTS_COMPAT"@,
            RuleKind::UsageDescriptions => "RULE_USAGE_DESCRIPTIONS"@,
            RuleKind::UsageDescriptionsValue => "RULE_USAGE_DESCRIPTIONS_EMPTY"@,
            RuleKind::InfoPlistRequiredKeys => "RULE_INFO_PLIST_REQUIRED_KEYS"@,
            RuleKind::InfoPlistCapabilities => "RULE_INFO_PLIST_CAPABILITIES_EMPTY"@,
            RuleKind::UIRequiredDeviceCapabilitiesAudit => "RULE_DEVICE_CAPABILITIES_AUDIT"@,
            RuleKind::LSApplicationQueriesSchemesAudit => "RULE_LSAPPLICATIONQUERIES_SCHEMES_AUDIT"@,
            RuleKind::LaunchScreenStoryboard => "RULE_LAUNCH_SCREEN_STORYBOARD"@,
            RuleKind::NestedBundleEntitlements => "RULE_NESTED_ENTITLEMENTS_MISMATCH"@,
            RuleKind::NestedBundleDebugEntitlement => "RULE_NESTED_DEBUG_ENTITLEMENT"@,
            RuleKind::OSVersionConsistency => "RULE_OS_VERSION_CONSISTENCY"@,
            RuleKind::PrivacyManifestCompleteness => "RULE_PRIVACY_MANIFEST_COMPLETENESS"@,
            RuleKind::PrivacyManifestSdkCrossCheck => "RULE_PRIVACY_SDK_CROSSCHECK"@,
            RuleKind::PrivateApi => "RULE_PRIVATE_API"@,
            RuleKind::EmbeddedCodeSignatureTeam => "RULE_EMBEDDED_TEAM_ID_MISMATCH"@,
            RuleKind::XcodeVersion => "RULE_XCODE_26_MANDATE"@,
            RuleKind::MissingPrivacyManifest => "RULE_PRIVACY_MANIFEST"@,
            RuleKind::CameraUsageDescription => "RULE_CAMERA_USAGE"@,
        }
    }

    pub open spec fn name_spec(self) -> Seq<char> {
        match self {
            RuleKind::AppIconAlpha => "App Icon Alpha Channel Check"@,
            RuleKind::AtsAudit => "ATS Exceptions Detected"@,
            RuleKind::BinaryStripping => "Binary Stripping & Instrumentation Check"@,
            RuleKind::Bitcode => "Bitcode Disabled Requirement"@,
            RuleKind::BundleMetadataConsistency => "Bundle Metadata Consistency"@,
            RuleKind::DeprecatedApi => "Deprecated API Usage"@,
            RuleKind::EntitlementsMismatch => "Debug Entitlements Present"@,
            RuleKind::EntitlementsProvisioningMismatch => "Entitlements vs Provisioning Mismatch"@,
            RuleKind::ExportCompliance => "Export Compliance Declaration"@,
            RuleKind::ExtensionEntitlementsCompatibility => "Extension Entitlements Compatibility"@,
            RuleKind::UsageDescriptions => "Missing Usage Description Keys"@,
            RuleKind::UsageDescriptionsValue => "Empty Usage Description Values"@,
            RuleKind::InfoPlistRequiredKeys => "Missing Required Info.plist Keys"@,
            RuleKind::InfoPlistCapabilities => "Empty Info.plist Capability Lists"@,
            RuleKind::UIRequiredDeviceCapabilitiesAudit => "UIRequiredDeviceCapabilities Audit"@,
            RuleKind::LSApplicationQueriesSchemesAudit => "LSApplicationQueriesSchemes Audit"@,
            RuleKind::LaunchScreenStoryboard => "Launch Screen Storyboard Requirement"@,
            RuleKind::NestedBundleEntitlements => "Nested Bundle Entitlements Mismatch"@,
            RuleKind::NestedBundleDebugEntitlement => "Nested Bundle Debug Entitlement"@,
            RuleKind::OSVersionConsistency => "Minimum OS Version Consistency Check"@,
            RuleKind::PrivacyManifestCompleteness => "Privacy Manifest Completeness"@,
            RuleKind::PrivacyManifestSdkCrossCheck => "Privacy Manifest vs SDK Usage"@,
            RuleKind::PrivateApi => "Private API Usage Detected"@,
            RuleKind::EmbeddedCodeSignatureTeam => "Embedded Team ID Mismatch"@,
            RuleKind::XcodeVersion => "Xcode 26 / iOS 26 SDK Mandate"@,
            RuleKind::MissingPrivacyManifest => "Missing Privacy Manifest"@,
            RuleKind::CameraUsageDescription => "Missing Camera Usage Description"@,
        }
    }

    pub open spec fn category_spec(self) -> RuleCategory {
        match self {
            RuleKind::AppIconAlpha => RuleCategory::Metadata,
            RuleKind::AtsAudit => RuleCategory::Ats,
            RuleKind::BinaryStripping => RuleCategory::Bundling,
            RuleKind::Bitcode => RuleCategory::Signing,
            RuleKind::BundleMetadataConsistency => RuleCategory::Metadata,
            RuleKind::DeprecatedApi => RuleCategory::Other,
            RuleKind::EntitlementsMismatch => RuleCategory::Entitlements,
            RuleKind::EntitlementsProvisioningMismatch => RuleCategory::Entitlements,
            RuleKind::ExportCompliance => RuleCategory::Metadata,
            RuleKind::ExtensionEntitlementsCompatibility => RuleCategory::Entitlements,
            RuleKind::UsageDescriptions => RuleCategory::Privacy,
            RuleKind::UsageDescriptionsValue => RuleCategory::Privacy,
            RuleKind::InfoPlistRequiredKeys => RuleCategory::Metadata,
            RuleKind::InfoPlistCapabilities => RuleCategory::Metadata,
            RuleKind::UIRequiredDeviceCapabilitiesAudit => RuleCategory::Metadata,
            RuleKind::LSApplicationQueriesSchemesAudit => RuleCategory::Metadata,
            RuleKind::LaunchScreenStoryboard => RuleCategory::Metadata,
            RuleKind::NestedBundleEntitlements => RuleCategory::Entitlements,
            RuleKind::NestedBundleDebugEntitlement => RuleCategory::Entitlements,
            RuleKind::OSVersionConsistency => RuleCategory::Bundling,
            RuleKind::PrivacyManifestCompleteness => RuleCategory::Privacy,
            RuleKind::PrivacyManifestSdkCrossCheck => RuleCategory::Privacy,
            RuleKind::PrivateApi => RuleCategory::ThirdParty,
            RuleKind::EmbeddedCodeSignatureTeam => RuleCategory::Signing,
            RuleKind::XcodeVersion => RuleCategory::Metadata,
            RuleKind::MissingPrivacyManifest => RuleCategory::Privacy,
            RuleKind::CameraUsageDescription => RuleCategory::Permissions,
        }
    }

    pub open spec fn severity_spec(self) -> Severity {
        match self {
            RuleKind::AppIconAlpha => Severity::Error,
            RuleKind::AtsAudit => Severity::Warning,
            RuleKind::BinaryStripping => Severity::Error,
            RuleKind::Bitcode => Severity::Error,
            RuleKind::BundleMetadataConsistency => Severity::Warning,
            RuleKind::DeprecatedApi => Severity::Error,
            RuleKind::EntitlementsMismatch => Severity::Error,
            RuleKind::EntitlementsProvisioningMismatch => Severity::Error,
            RuleKind::ExportCompliance => Severity::Warning,
            RuleKind::ExtensionEntitlementsCompatibility => Severity::Warning,
            RuleKind::UsageDescriptions => Severity::Warning,
            RuleKind::UsageDescriptionsValue => Severity::Warning,
            RuleKind::InfoPlistRequiredKeys => Severity::Warning,
            RuleKind::InfoPlistCapabilities => Severity::Warning,
            RuleKind::UIRequiredDeviceCapabilitiesAudit => Severity::Warning,
            RuleKind::LSApplicationQueriesSchemesAudit => Severity::Warning,
            RuleKind::LaunchScreenStoryboard => Severity::Error,
            RuleKind::NestedBundleEntitlements => Severity::Error,
            RuleKind::NestedBundleDebugEntitlement => Severity::Error,
            RuleKind::OSVersionConsistency => Severity::Warning,
            RuleKind::PrivacyManifestCompleteness => Severity::Warning,
            RuleKind::PrivacyManifestSdkCrossCheck => Severity::Warning,
            RuleKind::PrivateApi => Severity::Warning,
            RuleKind::EmbeddedCodeSignatureTeam => Severity::Error,
            RuleKind::XcodeVersion => Severity::Warning,
            RuleKind::MissingPrivacyManifest => Severity::Error,
            RuleKind::CameraUsageDescription => Severity::Error,
        }
    }

    pub open spec fn recommendation_spec(self) -> Seq<char> {
        match self {
            RuleKind::AppIconAlpha => "Remove the alpha channel from your app icon. App Store icons must be opaque."@,
            RuleKind::AtsAudit => "Remove ATS exceptions or scope them to specific domains with justification."@,
            RuleKind::BinaryStripping => "Ensure your binary is stripped of debug symbols and LLVM profiling instrumentation in production builds."@,
            RuleKind::Bitcode => "Apple no longer accepts apps with Bitcode. Disable Bitcode in Build Settings."@,
            RuleKind::BundleMetadataConsistency => "Align CFBundleIdentifier and versioning across app and extensions."@,
            RuleKind::DeprecatedApi => "Remove usages of deprecated APIs (e.g., UIWebView). Use WKWebView instead."@,
            RuleKind::EntitlementsMismatch => "Remove the get-task-allow entitlement for App Store builds."@,
            RuleKind::EntitlementsProvisioningMismatch => "Ensure entitlements in the app match the embedded provisioning profile."@,
            RuleKind::ExportCompliance => "Set ITSAppUsesNonExemptEncryption to avoid App Store Connect prompts."@,
            RuleKind::ExtensionEntitlementsCompatibility => "Ensure extension entitlements are a subset of the host app and required keys exist for the extension type."@,
            RuleKind::UsageDescriptions => "Add NS*UsageDescription keys required by your app's feature usage."@,
            RuleKind::UsageDescriptionsValue => "Ensure NS*UsageDescription values are non-empty and user-facing."@,
            RuleKind::InfoPlistRequiredKeys => "Add required Info.plist keys for your app's functionality."@,
            RuleKind::InfoPlistCapabilities => "Remove empty arrays or populate capability keys with valid values."@,
            RuleKind::UIRequiredDeviceCapabilitiesAudit => "Only declare capabilities that match actual hardware usage in the binary."@,
            RuleKind::LSApplicationQueriesSchemesAudit => "Keep LSApplicationQueriesSchemes minimal, valid, and aligned with actual app usage."@,
            RuleKind::LaunchScreenStoryboard => "Remove UILaunchImages from Info.plist and use UILaunchStoryboardName instead."@,
            RuleKind::NestedBundleEntitlements => "Ensure embedded bundles have entitlements matching their embedded provisioning profiles."@,
            RuleKind::NestedBundleDebugEntitlement => "Remove get-task-allow from embedded frameworks/extensions."@,
            RuleKind::OSVersionConsistency => "Ensure MinimumOSVersion is consistent across the main app and all extensions. Extensions should generally not have a higher MinimumOSVersion than the main app."@,
            RuleKind::PrivacyManifestCompleteness => "Declare accessed API categories in PrivacyInfo.xcprivacy."@,
            RuleKind::PrivacyManifestSdkCrossCheck => "Ensure PrivacyInfo.xcprivacy declares data collection and accessed APIs for included SDKs."@,
            RuleKind::PrivateApi => "Remove private API usage or replace with public alternatives."@,
            RuleKind::EmbeddedCodeSignatureTeam => "Ensure all embedded frameworks/extensions are signed with the same Team ID as the app binary."@,
            RuleKind::XcodeVersion => "Starting April 28, 2026, iOS and iPadOS apps uploaded to App Store Connect must be built with Xcode 26 and the iOS 26 SDK or later."@,
            RuleKind::MissingPrivacyManifest => "Add a PrivacyInfo.xcprivacy manifest to the app bundle."@,
            RuleKind::CameraUsageDescription => "Add NSCameraUsageDescription to Info.plist with a user-facing reason."@,
        }
    }

    /// What the rule reports for the app.
    pub open spec fn outcome_spec(self, a: ArtifactContext) -> Result<ReportView, RuleError> {
        match self {
            RuleKind::AppIconAlpha => app_icon_outcome(a),
            RuleKind::AtsAudit => ats_outcome(a),
            RuleKind::BinaryStripping => stripping_outcome(a),
            RuleKind::Bitcode => bitcode_outcome(a),
            RuleKind::BundleMetadataConsistency => bundle_metadata_outcome(a),
            RuleKind::DeprecatedApi => deprecated_api_outcome(a),
            RuleKind::EntitlementsMismatch => debug_entitlement_outcome(a),
            RuleKind::EntitlementsProvisioningMismatch => provisioning_mismatch_outcome(a),
            RuleKind::ExportCompliance => export_compliance_outcome(a),
            RuleKind::ExtensionEntitlementsCompatibility => extensions_outcome(a),
            RuleKind::UsageDescriptions => usage_descriptions_outcome(a),
            RuleKind::UsageDescriptionsValue => usage_values_outcome(a),
            RuleKind::InfoPlistRequiredKeys => required_keys_outcome(a),
            RuleKind::InfoPlistCapabilities => capabilities_outcome(a),
            RuleKind::UIRequiredDeviceCapabilitiesAudit => device_capabilities_outcome(a),
            RuleKind::LSApplicationQueriesSchemesAudit => schemes_outcome(a),
            RuleKind::LaunchScreenStoryboard => launch_screen_outcome(a),
            RuleKind::NestedBundleEntitlements => nested_entitlements_outcome(a),
            RuleKind::NestedBundleDebugEntitlement => nested_debug_outcome(a),
            RuleKind::OSVersionConsistency => os_version_outcome(a),
            RuleKind::PrivacyManifestCompleteness => privacy_manifest_outcome(a),
            RuleKind::PrivacyManifestSdkCrossCheck => privacy_sdk_outcome(a),
            RuleKind::PrivateApi => private_api_outcome(a),
            RuleKind::EmbeddedCodeSignatureTeam => signing_outcome(a),
            RuleKind::XcodeVersion => xcode_outcome(a),
            RuleKind::MissingPrivacyManifest => missing_manifest_outcome(a),
            RuleKind::CameraUsageDescription => camera_usage_outcome(a),
        }
    }

    pub fn id(&self) -> (r: &'static str)
        ensures
            r@ == self.id_spec(),
    {
        match self {
            RuleKind::AppIconAlpha => AppIconAlphaRule.id(),
            RuleKind::AtsAudit => AtsAuditRule.id(),
            RuleKind::BinaryStripping => BinaryStrippingRule.id(),
            RuleKind::Bitcode => BitcodeRule.id(),
            RuleKind::BundleMetadataConsistency => BundleMetadataConsistencyRule.id(),
            RuleKind::DeprecatedApi => DeprecatedApiRule.id(),
            RuleKind::EntitlementsMismatch => EntitlementsMismatchRule.id(),
            RuleKind::EntitlementsProvisioningMismatch => EntitlementsProvisioningMismatchRule.id(),
            RuleKind::ExportCompliance => ExportComplianceRule.id(),
            RuleKind::ExtensionEntitlementsCompatibility => ExtensionEntitlementsCompatibilityRule.id(),
            RuleKind::UsageDescriptions => UsageDescriptionsRule.id(),
            RuleKind::UsageDescriptionsValue => UsageDescriptionsValueRule.id(),
            RuleKind::InfoPlistRequiredKeys => InfoPlistRequiredKeysRule.id(),
            RuleKind::InfoPlistCapabilities => InfoPlistCapabilitiesRule.id(),
            RuleKind::UIRequiredDeviceCapabilitiesAudit => UIRequiredDeviceCapabilitiesAuditRule.id(),
            RuleKind::LSApplicationQueriesSchemesAudit => LSApplicationQueriesSchemesAuditRule.id(),
            RuleKind::LaunchScreenStoryboard => LaunchScreenStoryboardRule.id(),
            RuleKind::NestedBundleEntitlements => NestedBundleEntitlementsRule.id(),
            RuleKind::NestedBundleDebugEntitlement => NestedBundleDebugEntitlementRule.id(),
            RuleKind::OSVersionConsistency => OSVersionConsistencyRule.id(),
            RuleKind::PrivacyManifestCompleteness => PrivacyManifestCompletenessRule.id(),
            RuleKind::PrivacyManifestSdkCrossCheck => PrivacyManifestSdkCrossCheckRule.id(),
            RuleKind::PrivateApi => PrivateApiRule.id(),
            RuleKind::EmbeddedCodeSignatureTeam => EmbeddedCodeSignatureTeamRule.id(),
            RuleKind::XcodeVersion => XcodeVersionRule.id(),
            RuleKind::MissingPrivacyManifest => MissingPrivacyManifestRule.id(),
            RuleKind::CameraUsageDescription => CameraUsageDescriptionRule.id(),
        }
    }

    pub fn name(&self) -> (r: &'static str)
        ensures
            r@ == self.name_spec(),
    {
        match self {
            RuleKind::AppIconAlpha => AppIconAlphaRule.name(),
            RuleKind::AtsAudit => AtsAuditRule.name(),
            RuleKind::BinaryStripping => BinaryStrippingRule.name(),
            RuleKind::Bitcode => BitcodeRule.name(),
            RuleKind::BundleMetadataConsistency => BundleMetadataConsistencyRule.name(),
            RuleKind::DeprecatedApi => DeprecatedApiRule.name(),
            RuleKind::EntitlementsMismatch => EntitlementsMismatchRule.name(),
            RuleKind::EntitlementsProvisioningMismatch => EntitlementsProvisioningMismatchRule.name(),
            RuleKind::ExportCompliance => ExportComplianceRule.name(),
            RuleKind::ExtensionEntitlementsCompatibility => ExtensionEntitlementsCompatibilityRule.name(),
            RuleKind::UsageDescriptions => UsageDescriptionsRule.name(),
            RuleKind::UsageDescriptionsValue => UsageDescriptionsValueRule.name(),
            RuleKind::InfoPlistRequiredKeys => InfoPlistRequiredKeysRule.name(),
            RuleKind::InfoPlistCapabilities => InfoPlistCapabilitiesRule.name(),
            RuleKind::UIRequiredDeviceCapabilitiesAudit => UIRequiredDeviceCapabilitiesAuditRule.name(),
            RuleKind::LSApplicationQueriesSchemesAudit => LSApplicationQueriesSchemesAuditRule.name(),
            RuleKind::LaunchScreenStoryboard => LaunchScreenStoryboardRule.name(),
            RuleKind::NestedBundleEntitlements => NestedBundleEntitlementsRule.name(),
            RuleKind::NestedBundleDebugEntitlement => NestedBundleDebugEntitlementRule.name(),
            RuleKind::OSVersionConsistency => OSVersionConsistencyRule.name(),
            RuleKind::PrivacyManifestCompleteness => PrivacyManifestCompletenessRule.name(),
            RuleKind::PrivacyManifestSdkCrossCheck => PrivacyManifestSdkCrossCheckRule.name(),
            RuleKind::PrivateApi => PrivateApiRule.name(),
            RuleKind::EmbeddedCodeSignatureTeam => EmbeddedCodeSignatureTeamRule.name(),
            RuleKind::XcodeVersion => XcodeVersionRule.name(),
            RuleKind::MissingPrivacyManifest => MissingPrivacyManifestRule.name(),
            RuleKind::CameraUsageDescription => CameraUsageDescriptionRule.name(),
        }
    }

    pub fn category(&self) -> (r: RuleCategory)
        ensures
            r == self.category_spec(),
    {
        match self {
            RuleKind::AppIconAlpha => AppIconAlphaRule.category(),
            RuleKind::AtsAudit => AtsAuditRule.category(),
            RuleKind::BinaryStripping => BinaryStrippingRule.category(),
            RuleKind::Bitcode => BitcodeRule.category(),
            RuleKind::BundleMetadataConsistency => BundleMetadataConsistencyRule.category(),
            RuleKind::DeprecatedApi => DeprecatedApiRule.category(),
            RuleKind::EntitlementsMismatch => EntitlementsMismatchRule.category(),
            RuleKind::EntitlementsProvisioningMismatch => EntitlementsProvisioningMismatchRule.category(),
            RuleKind::ExportCompliance => ExportComplianceRule.category(),
            RuleKind::ExtensionEntitlementsCompatibility => ExtensionEntitlementsCompatibilityRule.category(),
            RuleKind::UsageDescriptions => UsageDescriptionsRule.category(),
            RuleKind::UsageDescriptionsValue => UsageDescriptionsValueRule.category(),
            RuleKind::InfoPlistRequiredKeys => InfoPlistRequiredKeysRule.category(),
            RuleKind::InfoPlistCapabilities => InfoPlistCapabilitiesRule.category(),
            RuleKind::UIRequiredDeviceCapabilitiesAudit => UIRequiredDeviceCapabilitiesAuditRule.category(),
            RuleKind::LSApplicationQueriesSchemesAudit => LSApplicationQueriesSchemesAuditRule.category(),
            RuleKind::LaunchScreenStoryboard => LaunchScreenStoryboardRule.category(),
            RuleKind::NestedBundleEntitlements => NestedBundleEntitlementsRule.category(),
            RuleKind::NestedBundleDebugEntitlement => NestedBundleDebugEntitlementRule.category(),
            RuleKind::OSVersionConsistency => OSVersionConsistencyRule.category(),
            RuleKind::PrivacyManifestCompleteness => PrivacyManifestCompletenessRule.category(),
            RuleKind::PrivacyManifestSdkCrossCheck => PrivacyManifestSdkCrossCheckRule.category(),
            RuleKind::PrivateApi => PrivateApiRule.category(),
            RuleKind::EmbeddedCodeSignatureTeam => EmbeddedCodeSignatureTeamRule.category(),
            RuleKind::XcodeVersion => XcodeVersionRule.category(),
            RuleKind::MissingPrivacyManifest => MissingPrivacyManifestRule.category(),
            RuleKind::CameraUsageDescription => CameraUsageDescriptionRule.category(),
        }
    }

    pub fn severity(&self) -> (r: Severity)
        ensures
            r == self.severity_spec(),
    {
        match self {
            RuleKind::AppIconAlpha => AppIconAlphaRule.severity(),
            RuleKind::AtsAudit => AtsAuditRule.severity(),
            RuleKind::BinaryStripping => BinaryStrippingRule.severity(),
            RuleKind::Bitcode => BitcodeRule.severity(),
            RuleKind::BundleMetadataConsistency => BundleMetadataConsistencyRule.severity(),
            RuleKind::DeprecatedApi => DeprecatedApiRule.severity(),
            RuleKind::EntitlementsMismatch => EntitlementsMismatchRule.severity(),
            RuleKind::EntitlementsProvisioningMismatch => EntitlementsProvisioningMismatchRule.severity(),
            RuleKind::ExportCompliance => ExportComplianceRule.severity(),
            RuleKind::ExtensionEntitlementsCompatibility => ExtensionEntitlementsCompatibilityRule.severity(),
            RuleKind::UsageDescriptions => UsageDescriptionsRule.severity(),
            RuleKind::UsageDescriptionsValue => UsageDescriptionsValueRule.severity(),
            RuleKind::InfoPlistRequiredKeys => InfoPlistRequiredKeysRule.severity(),
            RuleKind::InfoPlistCapabilities => InfoPlistCapabilitiesRule.severity(),
            RuleKind::UIRequiredDeviceCapabilitiesAudit => UIRequiredDeviceCapabilitiesAuditRule.severity(),
            RuleKind::LSApplicationQueriesSchemesAudit => LSApplicationQueriesSchemesAuditRule.severity(),
            RuleKind::LaunchScreenStoryboard => LaunchScreenStoryboardRule.severity(),
            RuleKind::NestedBundleEntitlements => NestedBundleEntitlementsRule.severity(),
            RuleKind::NestedBundleDebugEntitlement => NestedBundleDebugEntitlementRule.severity(),
            RuleKind::OSVersionConsistency => OSVersionConsistencyRule.severity(),
            RuleKind::PrivacyManifestCompleteness => PrivacyManifestCompletenessRule.severity(),
            RuleKind::PrivacyManifestSdkCrossCheck => PrivacyManifestSdkCrossCheckRule.severity(),
            RuleKind::PrivateApi => PrivateApiRule.severity(),
            RuleKind::EmbeddedCodeSignatureTeam => EmbeddedCodeSignatureTeamRule.severity(),
            RuleKind::XcodeVersion => XcodeVersionRule.severity(),
            RuleKind::MissingPrivacyManifest => MissingPrivacyManifestRule.severity(),
            RuleKind::CameraUsageDescription => CameraUsageDescriptionRule.severity(),
        }
    }

    pub fn recommendation(&self) -> (r: &'static str)
        ensures
            r@ == self.recommendation_spec(),
    {
        match self {
            RuleKind::AppIconAlpha => AppIconAlphaRule.recommendation(),
            RuleKind::AtsAudit => AtsAuditRule.recommendation(),
            RuleKind::BinaryStripping => BinaryStrippingRule.recommendation(),
            RuleKind::Bitcode => BitcodeRule.recommendation(),
            RuleKind::BundleMetadataConsistency => BundleMetadataConsistencyRule.recommendation(),
            RuleKind::DeprecatedApi => DeprecatedApiRule.recommendation(),
            RuleKind::EntitlementsMismatch => EntitlementsMismatchRule.recommendation(),
            RuleKind::EntitlementsProvisioningMismatch => EntitlementsProvisioningMismatchRule.recommendation(),
            RuleKind::ExportCompliance => ExportComplianceRule.recommendation(),
            RuleKind::ExtensionEntitlementsCompatibility => ExtensionEntitlementsCompatibilityRule.recommendation(),
            RuleKind::UsageDescriptions => UsageDescriptionsRule.recommendation(),
            RuleKind::UsageDescriptionsValue => UsageDescriptionsValueRule.recommendation(),
            RuleKind::InfoPlistRequiredKeys => InfoPlistRequiredKeysRule.recommendation(),
            RuleKind::InfoPlistCapabilities => InfoPlistCapabilitiesRule.recommendation(),
            RuleKind::UIRequiredDeviceCapabilitiesAudit => UIRequiredDeviceCapabilitiesAuditRule.recommendation(),
            RuleKind::LSApplicationQueriesSchemesAudit => LSApplicationQueriesSchemesAuditRule.recommendation(),
            RuleKind::LaunchScreenStoryboard => LaunchScreenStoryboardRule.recommendation(),
            RuleKind::NestedBundleEntitlements => NestedBundleEntitlementsRule.recommendation(),
            RuleKind::NestedBundleDebugEntitlement => NestedBundleDebugEntitlementRule.recommendation(),
            RuleKind::OSVersionConsistency => OSVersionConsistencyRule.recommendation(),
            RuleKind::PrivacyManifestCompleteness => PrivacyManifestCompletenessRule.recommendation(),
            RuleKind::PrivacyManifestSdkCrossCheck => PrivacyManifestSdkCrossCheckRule.recommendation(),
            RuleKind::PrivateApi => PrivateApiRule.recommendation(),
            RuleKind::EmbeddedCodeSignatureTeam => EmbeddedCodeSignatureTeamRule.recommendation(),
            RuleKind::XcodeVersion => XcodeVersionRule.recommendation(),
            RuleKind::MissingPrivacyManifest => MissingPrivacyManifestRule.recommendation(),
            RuleKind::CameraUsageDescription => CameraUsageDescriptionRule.recommendation(),
        }
    }

    pub fn evaluate(&self, artifact: &ArtifactContext) -> (r: Result<RuleReport, RuleError>)
        ensures
            outcome(r) == self.outcome_spec(*artifact),
    {
        match self {
            RuleKind::AppIconAlpha => AppIconAlphaRule.evaluate(artifact),
            RuleKind::AtsAudit => AtsAuditRule.evaluate(artifact),
            RuleKind::BinaryStripping => BinaryStrippingRule.evaluate(artifact),
            RuleKind::Bitcode => BitcodeRule.evaluate(artifact),
            RuleKind::BundleMetadataConsistency => BundleMetadataConsistencyRule.evaluate(artifact),
            RuleKind::DeprecatedApi => DeprecatedApiRule.evaluate(artifact),
            RuleKind::EntitlementsMismatch => EntitlementsMismatchRule.evaluate(artifact),
            RuleKind::EntitlementsProvisioningMismatch => EntitlementsProvisioningMismatchRule.evaluate(artifact),
            RuleKind::ExportCompliance => ExportComplianceRule.evaluate(artifact),
            RuleKind::ExtensionEntitlementsCompatibility => ExtensionEntitlementsCompatibilityRule.evaluate(artifact),
            RuleKind::UsageDescriptions => UsageDescriptionsRule.evaluate(artifact),
            RuleKind::UsageDescriptionsValue => UsageDescriptionsValueRule.evaluate(artifact),
            RuleKind::InfoPlistRequiredKeys => InfoPlistRequiredKeysRule.evaluate(artifact),
            RuleKind::InfoPlistCapabilities => InfoPlistCapabilitiesRule.evaluate(artifact),
            RuleKind::UIRequiredDeviceCapabilitiesAudit => UIRequiredDeviceCapabilitiesAuditRule.evaluate(artifact),
            RuleKind::LSApplicationQueriesSchemesAudit => LSApplicationQueriesSchemesAuditRule.evaluate(artifact),
            RuleKind::LaunchScreenStoryboard => LaunchScreenStoryboardRule.evaluate(artifact),
            RuleKind::NestedBundleEntitlements => NestedBundleEntitlementsRule.evaluate(artifact),
            RuleKind::NestedBundleDebugEntitlement => NestedBundleDebugEntitlementRule.evaluate(artifact),
            RuleKind::OSVersionConsistency => OSVersionConsistencyRule.evaluate(artifact),
            RuleKind::PrivacyManifestCompleteness => PrivacyManifestCompletenessRule.evaluate(artifact),
            RuleKind::PrivacyManifestSdkCrossCheck => PrivacyManifestSdkCrossCheckRule.evaluate(artifact),
            RuleKind::PrivateApi => PrivateApiRule.evaluate(artifact),
            RuleKind::EmbeddedCodeSignatureTeam => EmbeddedCodeSignatureTeamRule.evaluate(artifact),
            RuleKind::XcodeVersion => XcodeVersionRule.evaluate(artifact),
            RuleKind::MissingPrivacyManifest => MissingPrivacyManifestRule.evaluate(artifact),
            RuleKind::CameraUsageDescription => CameraUsageDescriptionRule.evaluate(artifact),
        }
    }
}

#[derive(Clone, Copy, PartialEq, Eq, Structural, Debug)]
pub enum ScanProfile {
    Basic,
    Full,
}

/// The rules a profile runs, in order.
pub open spec fn profile_kinds(p: ScanProfile) -> Seq<RuleKind> {
    match p {
        ScanProfile::Basic => seq![RuleKind::MissingPrivacyManifest, RuleKind::UsageDescriptions, RuleKind::UsageDescriptionsValue, RuleKind::CameraUsageDescription, RuleKind::AtsAudit, RuleKind::EntitlementsMismatch, RuleKind::EntitlementsProvisioningMismatch, RuleKind::EmbeddedCodeSignatureTeam],
        ScanProfile::Full => seq![RuleKind::MissingPrivacyManifest, RuleKind::PrivacyManifestCompleteness, RuleKind::PrivacyManifestSdkCrossCheck, RuleKind::CameraUsageDescription, RuleKind::UsageDescriptions, RuleKind::UsageDescriptionsValue, RuleKind::InfoPlistRequiredKeys, RuleKind::InfoPlistCapabilities, RuleKind::LSApplicationQueriesSchemesAudit, RuleKind::UIRequiredDeviceCapabilitiesAudit, RuleKind::ExportCompliance, RuleKind::AtsAudit, RuleKind::EntitlementsMismatch, RuleKind::EntitlementsProvisioningMismatch, RuleKind::BundleMetadataConsistency, RuleKind::ExtensionEntitlementsCompatibility, RuleKind::PrivateApi, RuleKind::EmbeddedCodeSignatureTeam],
    }
}

/// The rules a profile runs, in order.
pub fn profile_rules(profile: ScanProfile) -> (r: Vec<RuleKind>)
    ensures
        r@ == profile_kinds(profile),
{
    match profile {
        ScanProfile::Basic => basic_rules(),
        ScanProfile::Full => full_rules(),
    }
}

pub fn basic_rules() -> (r: Vec<RuleKind>)
    ensures
        r@ == profile_kinds(ScanProfile::Basic),
{
    let r = vec![RuleKind::MissingPrivacyManifest, RuleKind::UsageDescriptions, RuleKind::UsageDescriptionsValue, RuleKind::CameraUsageDescription, RuleKind::AtsAudit, RuleKind::EntitlementsMismatch, RuleKind::EntitlementsProvisioningMismatch, RuleKind::EmbeddedCodeSignatureTeam];
    assert(r@ =~= profile_kinds(ScanProfile::Basic));
    r
}

pub fn full_rules() -> (r: Vec<RuleKind>)
    ensures
        r@ == profile_kinds(ScanProfile::Full),
{
    let r = vec![RuleKind::MissingPrivacyManifest, RuleKind::PrivacyManifestCompleteness, RuleKind::PrivacyManifestSdkCrossCheck, RuleKind::CameraUsageDescription, RuleKind::UsageDescriptions, RuleKind::UsageDescriptionsValue, RuleKind::InfoPlistRequiredKeys, RuleKind::InfoPlistCapabilities, RuleKind::LSApplicationQueriesSchemesAudit, RuleKind::UIRequiredDeviceCapabilitiesAudit, RuleKind::ExportCompliance, RuleKind::AtsAudit, RuleKind::EntitlementsMismatch, RuleKind::EntitlementsProvisioningMismatch, RuleKind::BundleMetadataConsistency, RuleKind::ExtensionEntitlementsCompatibility, RuleKind::PrivateApi, RuleKind::EmbeddedCodeSignatureTeam];
    assert(r@ =~= profile_kinds(ScanProfile::Full));
    r
}

/// `rule_id.trim().to_ascii_uppercase()`.
pub open spec fn normalized_id(rule_id: Seq<char>) -> Seq<char> {
    upper_seq(trim_spec(rule_id))
}

/// Trims a rule identifier and upper-cases it.
pub fn normalize_rule_id(rule_id: &str) -> (r: String)
    ensures
        r@ == normalized_id(rule_id@),
{
    let t = trim(rule_id);
    to_ascii_uppercase(t.as_str())
}

/// Which rules a scan runs: those included (all when the list is empty) and
/// not excluded. The lists hold normalized identifiers.
pub struct RuleSelection {
    pub included: Vec<String>,
    pub excluded: Vec<String>,
}

impl RuleSelection {
    pub open spec fn allows_spec(&self, rule_id: Seq<char>) -> bool {
        let n = normalized_id(rule_id);
        (self.included@.len() == 0 || views(self.included@).contains(n)) && !views(
            self.excluded@,
        ).contains(n)
    }

    /// Whether the selection lets the rule run.
    pub fn allows(&self, rule_id: &str) -> (r: bool)
        ensures
            r == self.allows_spec(rule_id@),
    {
        let normalized = normalize_rule_id(rule_id);
        let included = self.included.len() == 0 || strings_contain(
            &self.included,
            normalized.as_str(),
        );
        let excluded = strings_contain(&self.excluded, normalized.as_str());
        included && !excluded
    }
}

/// The rules of a profile that a selection lets run, in profile order.
pub open spec fn selected_kinds(kinds: Seq<RuleKind>, selection: RuleSelection) -> Seq<RuleKind>
    decreases kinds.len(),
{
    if kinds.len() == 0 {
        Seq::empty()
    } else if selection.allows_spec(kinds.last().id_spec()) {
        selected_kinds(kinds.drop_last(), selection).push(kinds.last())
    } else {
        selected_kinds(kinds.drop_last(), selection)
    }
}

/// The rules of a profile that the selection lets run, in profile order.
pub fn register_rules(profile: ScanProfile, selection: &RuleSelection) -> (r: Vec<RuleKind>)
    ensures
        r@ == selected_kinds(profile_kinds(profile), *selection),
{
    let rules = profile_rules(profile);
    let mut out: Vec<RuleKind> = Vec::new();
    let mut i: usize = 0;
    while i < rules.len()
        invariant
            0 <= i <= rules@.len(),
            out@ == selected_kinds(rules@.take(i as int), *selection),
        decreases rules@.len() - i,
    {
        assert(rules@.take(i + 1).drop_last() =~= rules@.take(i as int));
        let rule = rules[i];
        if selection.allows(rule.id()) {
            out.push(rule);
        }
        i = i + 1;
    }
    assert(rules@.take(rules@.len() as int) =~= rules@);
    out
}

/// The normalized identifiers of a list of rules.
pub open spec fn kind_ids(kinds: Seq<RuleKind>) -> Seq<Seq<char>> {
    kinds.map_values(|k: RuleKind| normalized_id(k.id_spec()))
}

/// `dedup` keeps each string once and drops none.
proof fn lemma_dedup(s: Seq<Seq<char>>)
    ensures
        dedup(s).no_duplicates(),
        forall|x: Seq<char>| #[trigger] dedup(s).contains(x) == s.contains(x),
    decreases s.len(),
{
    if s.len() > 0 {
        let d = s.drop_last();
        lemma_dedup(d);
        assert(s =~= d.push(s.last()));
        let p = dedup(d);
        if !p.contains(s.last()) {
            assert(p.push(s.last())[p.len() as int] == s.last());
            assert forall|i: int, j: int| 0 <= i < p.push(s.last()).len() && 0 <= j < p.push(s.last()).len()
                && i != j implies p.push(s.last())[i] != p.push(s.last())[j] by {
                if i == p.len() {
                    assert(p[j] != s.last());
                } else if j == p.len() {
                    assert(p[i] != s.last());
                }
            }
        }
        assert forall|x: Seq<char>| #[trigger] dedup(s).contains(x) == s.contains(x) by {
            if s.contains(x) {
                let i = choose|i: int| 0 <= i < s.len() && s[i] == x;
                if i < d.len() {
                    assert(d[i] == x);
                    assert(d.contains(x));
                    assert(dedup(d).contains(x));
                    let k = choose|k: int| 0 <= k < p.len() && p[k] == x;
                    assert(p.push(s.last())[k] == x);
                } else if !p.contains(s.last()) {
                    assert(p.push(s.last())[p.len() as int] == x);
                }
            }
            if dedup(s).contains(x) {
                let i = choose|i: int| 0 <= i < dedup(s).len() && dedup(s)[i] == x;
                if i < p.len() {
                    assert(p[i] == x);
                    assert(p.contains(x));
                    assert(dedup(d).contains(x));
                    let k = choose|k: int| 0 <= k < d.len() && d[k] == x;
                    assert(s[k] == x);
                } else {
                    assert(s[s.len() - 1] == x);
                }
            }
        }
    }
}

/// The strings `unique_sorted_spec` gives strictly ascend in code-point order
/// and are exactly the strings of `s`.
pub proof fn lemma_unique_sorted(s: Seq<Seq<char>>)
    ensures
        forall|i: int, j: int| 0 <= i < j < unique_sorted_spec(s).len() ==> crate::sorting::key_lt(
            text_key(#[trigger] unique_sorted_spec(s)[i]),
            text_key(#[trigger] unique_sorted_spec(s)[j]),
        ),
        forall|x: Seq<char>| #[trigger] unique_sorted_spec(s).contains(x) == s.contains(x),
{
    broadcast use vstd::seq_lib::group_to_multiset_ensures;

    let d = dedup(s);
    lemma_dedup(s);
    crate::text_order::lemma_sorted_text_sorted(d);
    let h = sorted_text(d);
    d.lemma_multiset_has_no_duplicates();
    h.lemma_multiset_has_no_duplicates_conv();
    assert forall|x: Seq<char>| #[trigger] h.contains(x) == s.contains(x) by {
        assert(h.to_multiset().count(x) == d.to_multiset().count(x));
    }
    assert forall|i: int, j: int| 0 <= i < j < h.len() implies crate::sorting::key_lt(
        text_key(#[trigger] h[i]),
        text_key(#[trigger] h[j]),
    ) by {
        assert(!crate::sorting::key_lt(text_key(h[j]), text_key(h[i])));
        crate::sorting::lemma_key_lt_total(text_key(h[i]), text_key(h[j]));
        if text_key(h[i]) == text_key(h[j]) {
            crate::text_order::lemma_text_key_injective(h[i], h[j]);
        }
    }
}

/// The distinct normalized rule identifiers of a profile, sorted.
pub fn available_rule_ids(profile: ScanProfile) -> (r: Vec<String>)
    ensures
        views(r@) == unique_sorted_spec(kind_ids(profile_kinds(profile))),
        forall|i: int, j: int| 0 <= i < j < r@.len() ==> crate::sorting::key_lt(
            text_key(#[trigger] r@[i]@),
            text_key(#[trigger] r@[j]@),
        ),
        forall|i: int| 0 <= i < r@.len() ==> normalized_id(#[trigger] r@[i]@) == r@[i]@,
        forall|x: Seq<char>| #[trigger] views(r@).contains(x) == kind_ids(profile_kinds(profile)).contains(x),
{
    let rules = profile_rules(profile);
    let mut ids: Vec<String> = Vec::new();
    let mut i: usize = 0;
    assert(views(ids@) =~= Seq::<Seq<char>>::empty());
    while i < rules.len()
        invariant
            0 <= i <= rules@.len(),
            views(ids@) == kind_ids(rules@.take(i as int)),
        decreases rules@.len() - i,
    {
        let ghost pre = views(ids@);
        let id = normalize_rule_id(rules[i].id());
        ids.push(id);
        assert(kind_ids(rules@.take(i + 1)) =~= pre.push(normalized_id(rules@[i as int].id_spec())));
        assert(views(ids@) =~= pre.push(normalized_id(rules@[i as int].id_spec())));
        i = i + 1;
    }
    assert(rules@.take(rules@.len() as int) =~= rules@);
    let r = unique_sorted(ids);
    proof {
        let ks = kind_ids(profile_kinds(profile));
        lemma_unique_sorted(ks);
        assert forall|i: int, j: int| 0 <= i < j < r@.len() implies crate::sorting::key_lt(
            text_key(#[trigger] r@[i]@),
            text_key(#[trigger] r@[j]@),
        ) by {
            assert(views(r@)[i] == r@[i]@ && views(r@)[j] == r@[j]@);
        }
        assert forall|i: int| 0 <= i < r@.len() implies normalized_id(#[trigger] r@[i]@) == r@[i]@ by {
            assert(views(r@)[i] == r@[i]@);
            assert(views(r@).contains(r@[i]@));
            let k = choose|k: int| 0 <= k < ks.len() && ks[k] == r@[i]@;
            assert(ks[k] == normalized_id(profile_kinds(profile)[k].id_spec()));
            crate::laws::lemma_normalize_idempotent(profile_kinds(profile)[k].id_spec());
        }
    }
    r
}

/// Every rule of the basic profile is a rule of the full profile.
pub proof fn lemma_basic_ids_in_full(id: Seq<char>)
    ensures
        kind_ids(profile_kinds(ScanProfile::Basic)).contains(id) ==> kind_ids(
            profile_kinds(ScanProfile::Full),
        ).contains(id),
{
    let b = profile_kinds(ScanProfile::Basic);
    let f = profile_kinds(ScanProfile::Full);
    if kind_ids(b).contains(id) {
        let i = choose|i: int| 0 <= i < kind_ids(b).len() && kind_ids(b)[i] == id;
        let j: int = if i == 0 {
            0
        } else if i == 1 {
            4
        } else if i == 2 {
            5
        } else if i == 3 {
            3
        } else if i == 4 {
            11
        } else if i == 5 {
            12
        } else if i == 6 {
            13
        } else {
            17
        };
        assert(b[i] == f[j]);
        assert(kind_ids(f)[j] == id);
    }
}

/// A catalogue entry: a rule and the profiles that run it by default.
pub struct RuleInventoryItem {
    pub rule_id: String,
    pub name: String,
    pub severity: Severity,
    pub category: RuleCategory,
    pub default_profiles: Vec<String>,
}

/// A catalogue entry with its texts as character sequences.
pub struct InventoryView {
    pub rule_id: Seq<char>,
    pub name: Seq<char>,
    pub severity: Severity,
    pub category: RuleCategory,
    pub profiles: Seq<Seq<char>>,
}

pub open spec fn item_view(it: RuleInventoryItem) -> InventoryView {
    InventoryView {
        rule_id: it.rule_id@,
        name: it.name@,
        severity: it.severity,
        category: it.category,
        profiles: views(it.default_profiles@),
    }
}

/// Index of the first entry with this identifier.
pub open spec fn find_entry(entries: Seq<InventoryView>, id: Seq<char>) -> Option<int>
    decreases entries.len(),
{
    if entries.len() == 0 {
        None
    } else {
        match find_entry(entries.drop_last(), id) {
            Some(j) => Some(j),
            None => if entries.last().rule_id == id {
                Some(entries.len() - 1)
            } else {
                None
            },
        }
    }
}

/// The catalogue after meeting one more rule of a profile.
pub open spec fn add_rule(entries: Seq<InventoryView>, k: RuleKind, profile: Seq<char>) -> Seq<
    InventoryView,
> {
    let id = normalized_id(k.id_spec());
    match find_entry(entries, id) {
        Some(j) => entries.update(
            j,
            InventoryView { profiles: add_unique(entries[j].profiles, profile), ..entries[j] },
        ),
        None => entries.push(
            InventoryView {
                rule_id: id,
                name: k.name_spec(),
                severity: k.severity_spec(),
                category: k.category_spec(),
                profiles: seq![profile],
            },
        ),
    }
}

/// The catalogue after meeting the rules of a profile, in order.
pub open spec fn add_rules(entries: Seq<InventoryView>, kinds: Seq<RuleKind>, profile: Seq<char>) -> Seq<
    InventoryView,
>
    decreases kinds.len(),
{
    if kinds.len() == 0 {
        entries
    } else {
        add_rule(add_rules(entries, kinds.drop_last(), profile), kinds.last(), profile)
    }
}

/// The catalogue in the order rules are first met: basic rules, then full ones.
pub open spec fn inventory_entries() -> Seq<InventoryView> {
    add_rules(
        add_rules(Seq::empty(), profile_kinds(ScanProfile::Basic), "basic"@),
        profile_kinds(ScanProfile::Full),
        "full"@,
    )
}

proof fn lemma_find_entry_prefix(entries: Seq<InventoryView>, id: Seq<char>, i: int)
    requires
        0 <= i < entries.len(),
        find_entry(entries.take(i), id) is None,
        entries[i].rule_id == id,
    ensures
        find_entry(entries, id) == Some(i),
    decreases entries.len() - i,
{
    if i < entries.len() - 1 {
        assert(entries.drop_last().take(i) =~= entries.take(i));
        assert(entries.drop_last()[i] == entries[i]);
        lemma_find_entry_prefix(entries.drop_last(), id, i);
    } else {
        assert(entries.drop_last() =~= entries.take(i));
    }
}

/// The catalogue entry for an identifier, if there is one.
pub open spec fn entry_of(entries: Seq<InventoryView>, id: Seq<char>) -> Option<InventoryView> {
    match find_entry(entries, id) {
        Some(j) => Some(entries[j]),
        None => None,
    }
}

/// No two entries share an identifier.
pub open spec fn distinct_ids(e: Seq<InventoryView>) -> bool {
    forall|i: int, j: int| 0 <= i < j < e.len() ==> #[trigger] e[i].rule_id != #[trigger] e[j].rule_id
}

/// The profiles an entry lists; none for a missing entry.
pub open spec fn profiles_of(o: Option<InventoryView>) -> Seq<Seq<char>> {
    match o {
        Some(v) => v.profiles,
        None => Seq::empty(),
    }
}

/// The entry `add_rule` creates for a rule met for the first time.
pub open spec fn new_entry(k: RuleKind, profile: Seq<char>) -> InventoryView {
    InventoryView {
        rule_id: normalized_id(k.id_spec()),
        name: k.name_spec(),
        severity: k.severity_spec(),
        category: k.category_spec(),
        profiles: seq![profile],
    }
}

/// `find_entry` gives the first index with the identifier.
proof fn lemma_find_entry(e: Seq<InventoryView>, id: Seq<char>)
    ensures
        match find_entry(e, id) {
            Some(j) => 0 <= j < e.len() && e[j].rule_id == id && forall|i: int|
                0 <= i < j ==> #[trigger] e[i].rule_id != id,
            None => forall|i: int| 0 <= i < e.len() ==> #[trigger] e[i].rule_id != id,
        },
    decreases e.len(),
{
    if e.len() > 0 {
        let d = e.drop_last();
        lemma_find_entry(d, id);
        assert(e.last() == e[e.len() - 1]);
        match find_entry(d, id) {
            Some(j) => {
                assert(e[j] == d[j]);
                assert forall|i: int| 0 <= i < j implies #[trigger] e[i].rule_id != id by {
                    assert(e[i] == d[i]);
                }
            },
            None => {
                assert forall|i: int| 0 <= i < e.len() - 1 implies #[trigger] e[i].rule_id != id by {
                    assert(e[i] == d[i]);
                }
            },
        }
    }
}

/// Replacing an entry by one with the same identifier leaves every lookup
/// where it was.
proof fn lemma_find_entry_update(e: Seq<InventoryView>, j: int, v: InventoryView, id: Seq<char>)
    requires
        0 <= j < e.len(),
        v.rule_id == e[j].rule_id,
    ensures
        find_entry(e.update(j, v), id) == find_entry(e, id),
{
    let u = e.update(j, v);
    lemma_find_entry(e, id);
    lemma_find_entry(u, id);
    assert forall|i: int| 0 <= i < e.len() implies #[trigger] u[i].rule_id == e[i].rule_id by {}
    match (find_entry(e, id), find_entry(u, id)) {
        (Some(a), Some(b)) => {
            if a < b {
                assert(u[a].rule_id == id);
            } else if b < a {
                assert(e[b].rule_id == id);
            }
        },
        (Some(a), None) => {
            assert(u[a].rule_id == id);
        },
        (None, Some(b)) => {
            assert(e[b].rule_id == id);
        },
        (None, None) => {},
    }
}

/// What `add_rule` does to the entry of an identifier.
proof fn lemma_add_rule_entry(e: Seq<InventoryView>, k: RuleKind, p: Seq<char>, id: Seq<char>)
    requires
        distinct_ids(e),
    ensures
        distinct_ids(add_rule(e, k, p)),
        entry_of(add_rule(e, k, p), id) == (if normalized_id(k.id_spec()) == id {
            match entry_of(e, id) {
                Some(v) => Some(InventoryView { profiles: add_unique(v.profiles, p), ..v }),
                None => Some(new_entry(k, p)),
            }
        } else {
            entry_of(e, id)
        }),
{
    let kid = normalized_id(k.id_spec());
    lemma_find_entry(e, kid);
    lemma_find_entry(e, id);
    match find_entry(e, kid) {
        Some(j) => {
            let v = InventoryView { profiles: add_unique(e[j].profiles, p), ..e[j] };
            assert(add_rule(e, k, p) == e.update(j, v));
            lemma_find_entry_update(e, j, v, id);
            let u = e.update(j, v);
            assert forall|a: int, b: int| 0 <= a < b < u.len() implies #[trigger] u[a].rule_id
                != #[trigger] u[b].rule_id by {
                assert(u[a].rule_id == e[a].rule_id && u[b].rule_id == e[b].rule_id);
            }
            if id == kid {
                assert(find_entry(e, id) == Some(j));
            } else {
                match find_entry(e, id) {
                    Some(m) => {
                        assert(m != j);
                    },
                    None => {},
                }
            }
        },
        None => {
            let x = new_entry(k, p);
            let u = e.push(x);
            assert(add_rule(e, k, p) == u);
            assert(u.drop_last() =~= e);
            assert(u.last() == x);
            assert forall|a: int, b: int| 0 <= a < b < u.len() implies #[trigger] u[a].rule_id
                != #[trigger] u[b].rule_id by {
                if b == e.len() {
                    assert(u[a] == e[a]);
                } else {
                    assert(u[a] == e[a] && u[b] == e[b]);
                }
            }
            match find_entry(e, id) {
                Some(m) => {
                    assert(u[m] == e[m]);
                },
                None => {},
            }
        },
    }
}

proof fn lemma_add_unique_twice(s: Seq<Seq<char>>, p: Seq<char>)
    ensures
        add_unique(add_unique(s, p), p) == add_unique(s, p),
        add_unique(s, p).contains(p),
{
    if !s.contains(p) {
        assert(s.push(p)[s.len() as int] == p);
    }
}

/// What `add_rules` does to an identifier: it has an entry when it had one or
/// a rule met has it, and its profiles gain `p` exactly when a rule met has it.
pub proof fn lemma_add_rules_entry(e: Seq<InventoryView>, ks: Seq<RuleKind>, p: Seq<char>, id: Seq<char>)
    requires
        distinct_ids(e),
    ensures
        distinct_ids(add_rules(e, ks, p)),
        (entry_of(add_rules(e, ks, p), id) is Some) == (entry_of(e, id) is Some || kind_ids(ks).contains(id)),
        profiles_of(entry_of(add_rules(e, ks, p), id)) == (if kind_ids(ks).contains(id) {
            add_unique(profiles_of(entry_of(e, id)), p)
        } else {
            profiles_of(entry_of(e, id))
        }),
        entry_of(e, id) is Some ==> entry_of(add_rules(e, ks, p), id)->0.rule_id == entry_of(e, id)->0.rule_id,
        entry_of(add_rules(e, ks, p), id) is Some ==> entry_of(add_rules(e, ks, p), id)->0.rule_id == id,
    decreases ks.len(),
{
    lemma_find_entry(e, id);
    if ks.len() == 0 {
        assert(kind_ids(ks) =~= Seq::<Seq<char>>::empty());
    } else {
        let ks0 = ks.drop_last();
        let k = ks.last();
        lemma_add_rules_entry(e, ks0, p, id);
        let mid = add_rules(e, ks0, p);
        lemma_add_rule_entry(mid, k, p, id);
        assert(kind_ids(ks) =~= kind_ids(ks0).push(normalized_id(k.id_spec())));
        assert(kind_ids(ks).contains(id) == (kind_ids(ks0).contains(id) || normalized_id(k.id_spec()) == id)) by {
            if kind_ids(ks0).contains(id) {
                let i = choose|i: int| 0 <= i < kind_ids(ks0).len() && kind_ids(ks0)[i] == id;
                assert(kind_ids(ks)[i] == id);
            }
            if normalized_id(k.id_spec()) == id {
                assert(kind_ids(ks)[ks0.len() as int] == id);
            }
            if kind_ids(ks).contains(id) {
                let i = choose|i: int| 0 <= i < kind_ids(ks).len() && kind_ids(ks)[i] == id;
                if i < ks0.len() {
                    assert(kind_ids(ks0)[i] == id);
                }
            }
        }
        lemma_find_entry(mid, id);
        lemma_find_entry(add_rules(e, ks, p), id);
        lemma_add_unique_twice(profiles_of(entry_of(e, id)), p);
        if normalized_id(k.id_spec()) == id {
            match entry_of(mid, id) {
                Some(v) => {
                    if !v.profiles.contains(p) {
                        assert(v.profiles.push(p)[v.profiles.len() as int] == p);
                    }
                    assert(add_unique(v.profiles, p).contains(p));
                },
                None => {
                    assert(add_unique(Seq::<Seq<char>>::empty(), p) =~= seq![p]);
                },
            }
        }
    }
}

/// The detail of an identifier without its recommendation.
pub open spec fn detail_entry(d: Option<DetailView>) -> Option<InventoryView> {
    match d {
        Some(v) => Some(
            InventoryView {
                rule_id: v.rule_id,
                name: v.name,
                severity: v.severity,
                category: v.category,
                profiles: v.profiles,
            },
        ),
        None => None,
    }
}

/// Building one rule's detail follows building the catalogue, entry for entry.
proof fn lemma_detail_follows_entries(
    d: Option<DetailView>,
    e: Seq<InventoryView>,
    ks: Seq<RuleKind>,
    p: Seq<char>,
    id: Seq<char>,
)
    requires
        distinct_ids(e),
        detail_entry(d) == entry_of(e, id),
    ensures
        detail_entry(detail_after(d, ks, p, id)) == entry_of(add_rules(e, ks, p), id),
    decreases ks.len(),
{
    if ks.len() > 0 {
        let ks0 = ks.drop_last();
        lemma_detail_follows_entries(d, e, ks0, p, id);
        lemma_add_rules_entry(e, ks0, p, id);
        lemma_add_rule_entry(add_rules(e, ks0, p), ks.last(), p, id);
    }
}

/// The entry of the catalogue for an identifier.
pub open spec fn inventory_entry(id: Seq<char>) -> Option<InventoryView> {
    entry_of(inventory_entries(), id)
}

/// The profiles that run a rule with identifier `id`, basic first.
pub open spec fn profiles_running(id: Seq<char>) -> Seq<Seq<char>> {
    (if kind_ids(profile_kinds(ScanProfile::Basic)).contains(id) {
        seq!["basic"@]
    } else {
        Seq::empty()
    }) + (if kind_ids(profile_kinds(ScanProfile::Full)).contains(id) {
        seq!["full"@]
    } else {
        Seq::empty()
    })
}

/// The catalogue: identifiers distinct; an entry for exactly the identifiers
/// of the two profiles, each listing the profiles that run it.
pub proof fn lemma_inventory_entries(id: Seq<char>)
    ensures
        distinct_ids(inventory_entries()),
        (inventory_entry(id) is Some) == (kind_ids(profile_kinds(ScanProfile::Basic)).contains(id)
            || kind_ids(profile_kinds(ScanProfile::Full)).contains(id)),
        inventory_entry(id) is Some ==> inventory_entry(id)->0.rule_id == id
            && inventory_entry(id)->0.profiles == profiles_running(id),
{
    let e0 = Seq::<InventoryView>::empty();
    let bk = profile_kinds(ScanProfile::Basic);
    let fk = profile_kinds(ScanProfile::Full);
    lemma_find_entry(e0, id);
    lemma_add_rules_entry(e0, bk, "basic"@, id);
    let e1 = add_rules(e0, bk, "basic"@);
    lemma_add_rules_entry(e1, fk, "full"@, id);
    reveal_strlit("basic");
    reveal_strlit("full");
    assert("basic"@ != "full"@) by {
        assert("basic"@.len() != "full"@.len());
    }
    if kind_ids(bk).contains(id) {
        assert(add_unique(Seq::<Seq<char>>::empty(), "basic"@) =~= seq!["basic"@]);
        if kind_ids(fk).contains(id) {
            assert(!seq!["basic"@].contains("full"@)) by {
                if seq!["basic"@].contains("full"@) {
                    assert(seq!["basic"@][0] == "basic"@);
                }
            }
            assert(add_unique(seq!["basic"@], "full"@) =~= seq!["basic"@, "full"@]);
            assert(profiles_running(id) =~= seq!["basic"@, "full"@]);
        } else {
            assert(profiles_running(id) =~= seq!["basic"@]);
        }
    } else {
        assert(profiles_of(entry_of(e1, id)) =~= Seq::<Seq<char>>::empty());
        if kind_ids(fk).contains(id) {
            assert(add_unique(Seq::<Seq<char>>::empty(), "full"@) =~= seq!["full"@]);
            assert(profiles_running(id) =~= seq!["full"@]);
        }
    }
}

fn find_item(items: &Vec<RuleInventoryItem>, id: &str) -> (r: Option<usize>)
    ensures
        match r {
            Some(j) => j < items@.len() && find_entry(items@.map_values(|it: RuleInventoryItem| item_view(it)), id@) == Some(j as int),
            None => find_entry(items@.map_values(|it: RuleInventoryItem| item_view(it)), id@) is None,
        },
{
    let ghost vs = items@.map_values(|it: RuleInventoryItem| item_view(it));
    let mut i: usize = 0;
    while i < items.len()
        invariant
            0 <= i <= items@.len(),
            vs == items@.map_values(|it: RuleInventoryItem| item_view(it)),
            find_entry(vs.take(i as int), id@) is None,
        decreases items@.len() - i,
    {
        assert(vs.take(i + 1).drop_last() =~= vs.take(i as int));
        assert(vs[i as int].rule_id == items@[i as int].rule_id@);
        if str_eq(items[i].rule_id.as_str(), id) {
            proof {
                lemma_find_entry_prefix(vs, id@, i as int);
            }
            return Some(i);
        }
        i = i + 1;
    }
    assert(vs.take(vs.len() as int) =~= vs);
    None
}

/// Meets one more rule of a profile.
fn add_rule_item(items: &mut Vec<RuleInventoryItem>, k: RuleKind, profile: &str)
    ensures
        final(items)@.map_values(|it: RuleInventoryItem| item_view(it)) == add_rule(
            old(items)@.map_values(|it: RuleInventoryItem| item_view(it)),
            k,
            profile@,
        ),
{
    let ghost vs = old(items)@.map_values(|it: RuleInventoryItem| item_view(it));
    let id = normalize_rule_id(k.id());
    match find_item(items, id.as_str()) {
        Some(j) => {
            let mut profiles: Vec<String> = Vec::new();
            let mut t: usize = 0;
            while t < items[j].default_profiles.len()
                invariant
                    0 <= t <= items@[j as int].default_profiles@.len(),
                    j < items@.len(),
                    views(profiles@) == views(items@[j as int].default_profiles@).take(t as int),
                decreases items@[j as int].default_profiles@.len() - t,
            {
                let ghost pre = views(profiles@);
                let p = items[j].default_profiles[t].clone();
                profiles.push(p);
                assert(views(items@[j as int].default_profiles@).take(t + 1) =~= pre.push(
                    items@[j as int].default_profiles@[t as int]@,
                ));
                assert(views(profiles@) =~= pre.push(items@[j as int].default_profiles@[t as int]@));
                t = t + 1;
            }
            assert(views(items@[j as int].default_profiles@).take(
                items@[j as int].default_profiles@.len() as int,
            ) =~= views(items@[j as int].default_profiles@));
            if !strings_contain(&profiles, profile) {
                let ghost pre = views(profiles@);
                profiles.push(owned(profile));
                assert(views(profiles@) =~= pre.push(profile@));
            }
            let item = RuleInventoryItem {
                rule_id: items[j].rule_id.clone(),
                name: items[j].name.clone(),
                severity: items[j].severity,
                category: items[j].category,
                default_profiles: profiles,
            };
            let ghost before = items@;
            items.set(j, item);
            assert(items@.map_values(|it: RuleInventoryItem| item_view(it)) =~= vs.update(
                j as int,
                InventoryView { profiles: add_unique(vs[j as int].profiles, profile@), ..vs[j as int] },
            ));
        },
        None => {
            let mut profiles: Vec<String> = Vec::new();
            profiles.push(owned(profile));
            assert(views(profiles@) =~= seq![profile@]);
            let item = RuleInventoryItem {
                rule_id: id,
                name: owned(k.name()),
                severity: k.severity(),
                category: k.category(),
                default_profiles: profiles,
            };
            items.push(item);
            assert(items@.map_values(|it: RuleInventoryItem| item_view(it)) =~= vs.push(
                item_view(item),
            ));
        },
    }
}

/// Meets the rules of a profile, in order.
fn add_rule_items(items: &mut Vec<RuleInventoryItem>, kinds: &Vec<RuleKind>, profile: &str)
    ensures
        final(items)@.map_values(|it: RuleInventoryItem| item_view(it)) == add_rules(
            old(items)@.map_values(|it: RuleInventoryItem| item_view(it)),
            kinds@,
            profile@,
        ),
{
    let ghost start = old(items)@.map_values(|it: RuleInventoryItem| item_view(it));
    let mut i: usize = 0;
    while i < kinds.len()
        invariant
            0 <= i <= kinds@.len(),
            items@.map_values(|it: RuleInventoryItem| item_view(it)) == add_rules(
                start,
                kinds@.take(i as int),
                profile@,
            ),
        decreases kinds@.len() - i,
    {
        assert(kinds@.take(i + 1).drop_last() =~= kinds@.take(i as int));
        add_rule_item(items, kinds[i], profile);
        i = i + 1;
    }
    assert(kinds@.take(kinds@.len() as int) =~= kinds@);
}

impl SortKey for RuleInventoryItem {
    open spec fn key(&self) -> Seq<u128> {
        text_key(self.rule_id@)
    }

    fn key_vec(&self) -> (r: Vec<u128>) {
        crate::text::text_key_vec(self.rule_id.as_str())
    }
}

/// Some item of `r` has the view `e`.
pub open spec fn listed_in(r: Seq<RuleInventoryItem>, e: InventoryView) -> bool {
    exists|i: int| 0 <= i < r.len() && #[trigger] item_view(r[i]) == e
}

/// An arrangement, sorted by identifier, of items whose views are the
/// catalogue's entries: identifiers strictly ascend, each is an identifier of
/// the basic or full profile and each of those is there, and an item lists
/// the profiles that run its rule.
proof fn lemma_inventory_arranged(r: Seq<RuleInventoryItem>, before: Seq<RuleInventoryItem>)
    requires
        before.map_values(|it: RuleInventoryItem| item_view(it)) == inventory_entries(),
        r.to_multiset() == before.to_multiset(),
        sorted_by_key(r),
        forall|i: int| 0 <= i < r.len() ==> inventory_entries().contains(#[trigger] item_view(r[i])),
        forall|j: int| 0 <= j < inventory_entries().len() ==> #[trigger] listed_in(r, inventory_entries()[j]),
    ensures
        forall|i: int, j: int| 0 <= i < j < r.len() ==> crate::sorting::key_lt(#[trigger] r[i].key(), #[trigger] r[j].key()),
        forall|i: int| 0 <= i < r.len() ==> (kind_ids(profile_kinds(ScanProfile::Basic)).contains(#[trigger] r[i].rule_id@)
            || kind_ids(profile_kinds(ScanProfile::Full)).contains(r[i].rule_id@))
            && views(r[i].default_profiles@) == profiles_running(r[i].rule_id@),
        forall|id: Seq<char>| (kind_ids(profile_kinds(ScanProfile::Basic)).contains(id) || kind_ids(
            profile_kinds(ScanProfile::Full),
        ).contains(id)) ==> exists|i: int| 0 <= i < r.len() && #[trigger] r[i].rule_id@ == id,
{
    broadcast use vstd::seq_lib::group_to_multiset_ensures;

    let e = inventory_entries();
    lemma_inventory_entries(Seq::empty());
    assert forall|i: int| 0 <= i < r.len() implies (kind_ids(profile_kinds(ScanProfile::Basic)).contains(
        #[trigger] r[i].rule_id@,
    ) || kind_ids(profile_kinds(ScanProfile::Full)).contains(r[i].rule_id@)) && views(r[i].default_profiles@)
        == profiles_running(r[i].rule_id@) by {
        let id = r[i].rule_id@;
        let a = choose|a: int| 0 <= a < e.len() && e[a] == item_view(r[i]);
        lemma_find_entry(e, id);
        lemma_inventory_entries(id);
        match find_entry(e, id) {
            Some(m) => {
                if m != a {
                    if m < a {
                        assert(e[m].rule_id != e[a].rule_id);
                    } else {
                        assert(e[a].rule_id != e[m].rule_id);
                    }
                }
            },
            None => {
                assert(e[a].rule_id == id);
            },
        }
    }
    assert forall|id: Seq<char>| (kind_ids(profile_kinds(ScanProfile::Basic)).contains(id) || kind_ids(
        profile_kinds(ScanProfile::Full),
    ).contains(id)) implies exists|i: int| 0 <= i < r.len() && #[trigger] r[i].rule_id@ == id by {
        lemma_inventory_entries(id);
        lemma_find_entry(e, id);
        let m = find_entry(e, id)->0;
        assert(listed_in(r, e[m]));
        let i = choose|i: int| 0 <= i < r.len() && #[trigger] item_view(r[i]) == e[m];
        assert(r[i].rule_id@ == id);
    }
    // No two items of `before` are equal: their identifiers differ.
    assert(before.no_duplicates()) by {
        assert forall|a: int, b: int| 0 <= a < before.len() && 0 <= b < before.len() && a != b implies before[a]
            != before[b] by {
            assert(e[a] == item_view(before[a]) && e[b] == item_view(before[b]));
            if a < b {
                assert(e[a].rule_id != e[b].rule_id);
            } else {
                assert(e[b].rule_id != e[a].rule_id);
            }
        }
    }
    before.lemma_multiset_has_no_duplicates();
    r.lemma_multiset_has_no_duplicates_conv();
    assert forall|i: int, j: int| 0 <= i < j < r.len() implies crate::sorting::key_lt(
        #[trigger] r[i].key(),
        #[trigger] r[j].key(),
    ) by {
        assert(r.to_multiset().count(r[i]) > 0 && r.to_multiset().count(r[j]) > 0);
        let a = choose|a: int| 0 <= a < before.len() && before[a] == r[i];
        let b = choose|b: int| 0 <= b < before.len() && before[b] == r[j];
        assert(r[i] != r[j]);
        assert(a != b);
        assert(e[a] == item_view(before[a]) && e[b] == item_view(before[b]));
        if a < b {
            assert(e[a].rule_id != e[b].rule_id);
        } else {
            assert(e[b].rule_id != e[a].rule_id);
        }
        assert(r[i].rule_id@ != r[j].rule_id@);
        assert(!crate::sorting::key_lt(r[j].key(), r[i].key()));
        crate::sorting::lemma_key_lt_total(r[i].key(), r[j].key());
        if r[i].key() == r[j].key() {
            crate::text_order::lemma_text_key_injective(r[i].rule_id@, r[j].rule_id@);
        }
    }
}

/// The rule catalogue: one entry per rule identifier of the basic and full
/// profiles, ordered by identifier, each listing the profiles that run it.
pub fn rule_inventory() -> (r: Vec<RuleInventoryItem>)
    ensures
        sorted_by_key(r@),
        forall|i: int, j: int| 0 <= i < j < r@.len() ==> crate::sorting::key_lt(#[trigger] r@[i].key(), #[trigger] r@[j].key()),
        forall|i: int| 0 <= i < r@.len() ==> (kind_ids(profile_kinds(ScanProfile::Basic)).contains(#[trigger] r@[i].rule_id@)
            || kind_ids(profile_kinds(ScanProfile::Full)).contains(r@[i].rule_id@))
            && views(r@[i].default_profiles@) == profiles_running(r@[i].rule_id@),
        forall|id: Seq<char>| (kind_ids(profile_kinds(ScanProfile::Basic)).contains(id) || kind_ids(
            profile_kinds(ScanProfile::Full),
        ).contains(id)) ==> exists|i: int| 0 <= i < r@.len() && #[trigger] r@[i].rule_id@ == id,
        r@.len() == inventory_entries().len(),
        forall|i: int| 0 <= i < r@.len() ==> inventory_entries().contains(#[trigger] item_view(r@[i])),
        forall|j: int|
            0 <= j < inventory_entries().len() ==> #[trigger] listed_in(r@, inventory_entries()[j]),
{
    let mut items: Vec<RuleInventoryItem> = Vec::new();
    assert(items@.map_values(|it: RuleInventoryItem| item_view(it)) =~= Seq::<InventoryView>::empty());
    let basic = basic_rules();
    add_rule_items(&mut items, &basic, "basic");
    let full = full_rules();
    add_rule_items(&mut items, &full, "full");
    let ghost vs = items@.map_values(|it: RuleInventoryItem| item_view(it));
    let ghost before = items@;
    assert(vs == inventory_entries());
    let r = sort_by_key(items);
    proof {
        broadcast use vstd::seq_lib::group_to_multiset_ensures;

        assert forall|i: int| 0 <= i < r@.len() implies inventory_entries().contains(
            #[trigger] item_view(r@[i]),
        ) by {
            assert(r@.contains(r@[i]));
            assert(r@.to_multiset().count(r@[i]) > 0);
            assert(before.contains(r@[i]));
            let j = choose|j: int| 0 <= j < before.len() && before[j] == r@[i];
            assert(vs[j] == item_view(before[j]));
        }
        assert forall|j: int| 0 <= j < inventory_entries().len() implies #[trigger] listed_in(
            r@,
            inventory_entries()[j],
        ) by {
            assert(vs[j] == item_view(before[j]));
            assert(before.contains(before[j]));
            assert(before.to_multiset().count(before[j]) > 0);
            assert(r@.contains(before[j]));
            let i = choose|i: int| 0 <= i < r@.len() && r@[i] == before[j];
            assert(item_view(r@[i]) == inventory_entries()[j]);
        }
        lemma_inventory_arranged(r@, before);
    }
    r
}

/// A rule's full catalogue entry.
pub struct RuleDetailItem {
    pub rule_id: String,
    pub name: String,
    pub severity: Severity,
    pub category: RuleCategory,
    pub recommendation: String,
    pub default_profiles: Vec<String>,
}

pub struct DetailView {
    pub rule_id: Seq<char>,
    pub name: Seq<char>,
    pub severity: Severity,
    pub category: RuleCategory,
    pub recommendation: Seq<char>,
    pub profiles: Seq<Seq<char>>,
}

pub open spec fn detail_view(d: RuleDetailItem) -> DetailView {
    DetailView {
        rule_id: d.rule_id@,
        name: d.name@,
        severity: d.severity,
        category: d.category,
        recommendation: d.recommendation@,
        profiles: views(d.default_profiles@),
    }
}

/// The entry for `id` after meeting the rules of a profile.
pub open spec fn detail_after(
    d: Option<DetailView>,
    kinds: Seq<RuleKind>,
    profile: Seq<char>,
    id: Seq<char>,
) -> Option<DetailView>
    decreases kinds.len(),
{
    if kinds.len() == 0 {
        d
    } else {
        let prev = detail_after(d, kinds.drop_last(), profile, id);
        let k = kinds.last();
        if normalized_id(k.id_spec()) != id {
            prev
        } else {
            match prev {
                None => Some(
                    DetailView {
                        rule_id: normalized_id(k.id_spec()),
                        name: k.name_spec(),
                        severity: k.severity_spec(),
                        category: k.category_spec(),
                        recommendation: k.recommendation_spec(),
                        profiles: seq![profile],
                    },
                ),
                Some(v) => Some(DetailView { profiles: add_unique(v.profiles, profile), ..v }),
            }
        }
    }
}

/// The catalogue entry of a rule identifier (normalized first), if a profile
/// runs such a rule.
pub open spec fn detail_of(rule_id: Seq<char>) -> Option<DetailView> {
    let id = normalized_id(rule_id);
    detail_after(
        detail_after(None, profile_kinds(ScanProfile::Basic), "basic"@, id),
        profile_kinds(ScanProfile::Full),
        "full"@,
        id,
    )
}

pub open spec fn opt_detail(d: Option<RuleDetailItem>) -> Option<DetailView> {
    match d {
        Some(x) => Some(detail_view(x)),
        None => None,
    }
}

fn detail_step(d: Option<RuleDetailItem>, kinds: &Vec<RuleKind>, profile: &str, id: &str) -> (r: Option<
    RuleDetailItem,
>)
    ensures
        opt_detail(r) == detail_after(opt_detail(d), kinds@, profile@, id@),
{
    let mut detail = d;
    let ghost start = opt_detail(detail);
    let mut i: usize = 0;
    while i < kinds.len()
        invariant
            0 <= i <= kinds@.len(),
            opt_detail(detail) == detail_after(start, kinds@.take(i as int), profile@, id@),
        decreases kinds@.len() - i,
    {
        assert(kinds@.take(i + 1).drop_last() =~= kinds@.take(i as int));
        let k = kinds[i];
        let rid = normalize_rule_id(k.id());
        if str_eq(rid.as_str(), id) {
            detail = match detail {
                None => {
                    let mut profiles: Vec<String> = Vec::new();
                    profiles.push(owned(profile));
                    assert(views(profiles@) =~= seq![profile@]);
                    Some(
                        RuleDetailItem {
                            rule_id: rid,
                            name: owned(k.name()),
                            severity: k.severity(),
                            category: k.category(),
                            recommendation: owned(k.recommendation()),
                            default_profiles: profiles,
                        },
                    )
                },
                Some(mut v) => {
                    if !strings_contain(&v.default_profiles, profile) {
                        let ghost pre = views(v.default_profiles@);
                        v.default_profiles.push(owned(profile));
                        assert(views(v.default_profiles@) =~= pre.push(profile@));
                    }
                    Some(v)
                },
            };
        }
        i = i + 1;
    }
    assert(kinds@.take(kinds@.len() as int) =~= kinds@);
    detail
}

/// The catalogue entry of a rule identifier, if a profile runs such a rule.
pub fn rule_detail(rule_id: &str) -> (r: Option<RuleDetailItem>)
    ensures
        opt_detail(r) == detail_of(rule_id@),
        detail_entry(opt_detail(r)) == inventory_entry(normalized_id(rule_id@)),
        (r is Some) == (kind_ids(profile_kinds(ScanProfile::Basic)).contains(normalized_id(rule_id@))
            || kind_ids(profile_kinds(ScanProfile::Full)).contains(normalized_id(rule_id@))),
        r matches Some(d) ==> d.rule_id@ == normalized_id(rule_id@) && views(d.default_profiles@)
            == profiles_running(normalized_id(rule_id@)),
{
    proof {
        let id = normalized_id(rule_id@);
        let e0 = Seq::<InventoryView>::empty();
        lemma_find_entry(e0, id);
        lemma_detail_follows_entries(None, e0, profile_kinds(ScanProfile::Basic), "basic"@, id);
        lemma_add_rules_entry(e0, profile_kinds(ScanProfile::Basic), "basic"@, id);
        lemma_detail_follows_entries(
            detail_after(None, profile_kinds(ScanProfile::Basic), "basic"@, id),
            add_rules(e0, profile_kinds(ScanProfile::Basic), "basic"@),
            profile_kinds(ScanProfile::Full),
            "full"@,
            id,
        );
        lemma_inventory_entries(id);
    }
    let normalized = normalize_rule_id(rule_id);
    let basic = basic_rules();
    let d = detail_step(None, &basic, "basic", normalized.as_str());
    let full = full_rules();
    detail_step(d, &full, "full", normalized.as_str())
}

} // verus!
