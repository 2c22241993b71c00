use verifyos_cli::parsers::bundle_scanner::{find_nested_bundles, WalkedEntry};
use verifyos_cli::parsers::macho_scanner::{resolve_executable_path, scan_usage_from_app_bundle};
use verifyos_cli::parsers::plist_reader::InfoPlist;

const CUSTOM_PLIST: &[u8] = br#"<?xml version="1.0" encoding="UTF-8"?>
<!DOCTYPE plist PUBLIC "-//Apple//DTD PLIST 1.0//EN" "http://www.apple.com/DTDs/PropertyList-1.0.dtd">
<plist version="1.0"><dict><key>CFBundleExecutable</key><string>RunnerBinary</string></dict></plist>"#;

fn entry(path: &str) -> WalkedEntry {
    WalkedEntry { path: path.to_string(), file_name: path.rsplit('/').next().unwrap().to_string() }
}

#[test]
fn finds_nested_bundles_in_additional_container_directories() {
    let walked = vec![
        entry("Demo.app/Frameworks/Foo.framework"),
        entry("Demo.app/PlugIns/Share.appex"),
        entry("Demo.app/Watch/WatchApp.app"),
        entry("Demo.app/AppClips/Clip.app"),
        entry("Demo.app/XPCServices/Service.xpc"),
    ];
    let bundles = find_nested_bundles(walked);
    let paths: Vec<String> = bundles
        .into_iter()
        .map(|bundle| bundle.bundle_path.strip_prefix("Demo.app/").unwrap().to_string())
        .collect();
    assert!(paths.contains(&"Frameworks/Foo.framework".to_string()));
    assert!(paths.contains(&"PlugIns/Share.appex".to_string()));
    assert!(paths.contains(&"Watch/WatchApp.app".to_string()));
    assert!(paths.contains(&"AppClips/Clip.app".to_string()));
    assert!(paths.contains(&"XPCServices/Service.xpc".to_string()));
}

#[test]
fn resolves_executable_from_cf_bundle_executable_before_bundle_name() {
    let plist = match InfoPlist::from_bytes(CUSTOM_PLIST) {
        Ok(p) => p,
        Err(e) => panic!("plist: {}", e.message()),
    };
    let present = vec!["tmp/CustomName.app/RunnerBinary".to_string()];
    let resolved = resolve_executable_path("tmp/CustomName.app", plist.get_string("CFBundleExecutable"), &present);
    assert_eq!(resolved, Some("tmp/CustomName.app/RunnerBinary".to_string()));
}

#[test]
fn usage_scan_reads_custom_executable_name_from_info_plist() {
    let plist = match InfoPlist::from_bytes(CUSTOM_PLIST) {
        Ok(p) => p,
        Err(e) => panic!("plist: {}", e.message()),
    };
    let present = vec!["tmp/CustomName.app/RunnerBinary".to_string()];
    let resolved = resolve_executable_path("tmp/CustomName.app", plist.get_string("CFBundleExecutable"), &present);
    assert_eq!(resolved.as_deref(), Some("tmp/CustomName.app/RunnerBinary"));
    let executable = Ok(b"AVCaptureDevice".to_vec());
    let scan = match scan_usage_from_app_bundle(&executable) {
        Ok(s) => s,
        Err(e) => panic!("usage scan: {}", e.message()),
    };
    assert!(scan.required_keys.contains(&"NSCameraUsageDescription"));
    assert!(scan.evidence.contains(&"AVCaptureDevice"));
}
