pub mod app_icon;
pub mod ats;
pub mod base;
pub mod binary_stripping;
pub mod bitcode;
pub mod bundle_metadata;
pub mod deprecated_api;
pub mod entitlements;
pub mod export_compliance;
pub mod extensions;
pub mod files;
pub mod info_plist;
pub mod launch_screen;
pub mod permissions;
pub mod privacy;
pub mod nested_bundles;
pub mod os_version;
pub mod privacy_manifest;
pub mod privacy_sdk;
pub mod private_api;
pub mod signing;
pub mod xcode_requirements;
