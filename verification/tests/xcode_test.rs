use verifyos_cli::rules::xcode_requirements::{parse_major_version, parse_sdk_major_version};

#[test]
fn parses_major_platform_version() {
    assert_eq!(parse_major_version("26.1"), Some(26));
    assert_eq!(parse_major_version("26"), Some(26));
    assert_eq!(parse_major_version(""), None);
    assert_eq!(parse_major_version("abc"), None);
}

#[test]
fn parses_sdk_major_version() {
    assert_eq!(parse_sdk_major_version("iphoneos26.0"), Some(26));
    assert_eq!(parse_sdk_major_version("iphoneos26"), Some(26));
    assert_eq!(parse_sdk_major_version("iphonesimulator26.0"), None);
    assert_eq!(parse_sdk_major_version("iphoneos"), None);
}
