use vkldap::version::{module_version, parse_decimal};

#[test]
fn test_version() {
    assert_eq!(module_version("1.0.0-rc1"), Some(0x01000002));
}

#[test]
fn version_dev_marker() {
    assert_eq!(module_version("1.0.0-dev"), Some(0x01000001));
}

#[test]
fn version_final_release() {
    assert_eq!(module_version("1.0.3"), Some(0x010003FF));
}

#[test]
fn version_two_digit_parts() {
    assert_eq!(module_version("2.15.9-rc3"), Some(0x020F0904));
}

#[test]
fn version_malformed() {
    assert_eq!(module_version(""), None);
    assert_eq!(module_version("1.0"), None);
    assert_eq!(module_version("1.0.0.0"), None);
    assert_eq!(module_version("1.0.x"), None);
    assert_eq!(module_version("1.0.0-beta"), None);
    assert_eq!(module_version("1.0.0-rc"), None);
    assert_eq!(module_version("300.0.0"), None);
}

#[test]
fn decimal_parsing() {
    assert_eq!(parse_decimal("0"), Some(0));
    assert_eq!(parse_decimal("4294967295"), Some(u32::MAX));
    assert_eq!(parse_decimal("4294967296"), None);
    assert_eq!(parse_decimal(""), None);
    assert_eq!(parse_decimal("12a"), None);
    assert_eq!(parse_decimal("-3"), None);
}
