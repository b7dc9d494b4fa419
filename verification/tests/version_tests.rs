use rustc_tools_util::assemble;
use rustc_tools_util::channel_from_override;
use rustc_tools_util::parse_u16;
use rustc_tools_util::parse_u8;
use rustc_tools_util::trim_str;
use rustc_tools_util::VersionInfo;

#[test]
fn new_keeps_fields() {
    let v = VersionInfo::new(
        1,
        2,
        3,
        Some(String::from("stable")),
        Some(String::from("abc123")),
        Some(String::from("2024-01-01")),
    );
    assert_eq!(v.major, 1);
    assert_eq!(v.minor, 2);
    assert_eq!(v.patch, 3);
    assert_eq!(v.host_compiler, Some(String::from("stable")));
    assert_eq!(v.commit_hash, Some(String::from("abc123")));
    assert_eq!(v.commit_date, Some(String::from("2024-01-01")));
}

#[test]
fn new_keeps_extreme_values() {
    let v = VersionInfo::new(255, 255, 65535, None, None, None);
    assert_eq!(v.major, 255);
    assert_eq!(v.minor, 255);
    assert_eq!(v.patch, 65535);
    assert_eq!(v.host_compiler, None);
    assert_eq!(v.commit_hash, None);
    assert_eq!(v.commit_date, None);
}

#[test]
fn display_with_hash_and_date() {
    let v = VersionInfo::new(
        1,
        2,
        3,
        None,
        Some(String::from("abc123")),
        Some(String::from("2024-01-01")),
    );
    assert_eq!(v.display_string(), "clippy 1.2.3 (abc123 2024-01-01)");
}

#[test]
fn display_without_hash_ignores_date() {
    let v = VersionInfo::new(1, 2, 3, None, None, Some(String::from("2024-01-01")));
    assert_eq!(v.display_string(), "clippy 1.2.3");
}

#[test]
fn display_without_hash_or_date() {
    let v = VersionInfo::new(1, 2, 3, None, None, None);
    assert_eq!(v.display_string(), "clippy 1.2.3");
}

#[test]
fn display_trims_stored_values() {
    let v = VersionInfo::new(
        1,
        2,
        3,
        None,
        Some(String::from("abc123\n")),
        Some(String::from(" 2024-01-01 ")),
    );
    assert_eq!(v.display_string(), "clippy 1.2.3 (abc123 2024-01-01)");
}

#[test]
fn display_hash_without_date_leaves_empty_slot() {
    let v = VersionInfo::new(1, 2, 3, None, Some(String::from("abc123")), None);
    assert_eq!(v.display_string(), "clippy 1.2.3 (abc123 )");
}

#[test]
fn display_whitespace_only_hash_renders_empty() {
    let v = VersionInfo::new(1, 2, 3, None, Some(String::from(" \n\t ")), None);
    assert_eq!(v.display_string(), "clippy 1.2.3 ( )");
}

#[test]
fn display_zero_version() {
    let v = VersionInfo::new(0, 0, 0, None, None, None);
    assert_eq!(v.display_string(), "clippy 0.0.0");
}

#[test]
fn display_multi_digit_components() {
    let v = VersionInfo::new(12, 34, 56789, None, None, None);
    assert_eq!(v.display_string(), "clippy 12.34.56789");
}

#[test]
fn display_is_idempotent() {
    let v = VersionInfo::new(
        7,
        0,
        42,
        Some(String::from("beta")),
        Some(String::from("deadbee\n")),
        Some(String::from("2023-12-31")),
    );
    let first = v.display_string();
    let second = v.display_string();
    assert_eq!(first, second);
}

#[test]
fn channel_override_is_returned_verbatim() {
    let r = channel_from_override(Some(String::from("beta")));
    assert_eq!(r, Some(String::from("beta")));
}

#[test]
fn channel_fallback_is_nightly() {
    let r = channel_from_override(None);
    assert_eq!(r, Some(String::from("nightly")));
}

#[test]
fn parse_u8_accepts_range() {
    assert_eq!(parse_u8("0"), Some(0));
    assert_eq!(parse_u8("7"), Some(7));
    assert_eq!(parse_u8("255"), Some(255));
    assert_eq!(parse_u8("007"), Some(7));
}

#[test]
fn parse_u8_rejects_bad_input() {
    assert_eq!(parse_u8(""), None);
    assert_eq!(parse_u8("256"), None);
    assert_eq!(parse_u8("1a"), None);
    assert_eq!(parse_u8("-1"), None);
    assert_eq!(parse_u8(" 1"), None);
}

#[test]
fn parse_u16_accepts_range() {
    assert_eq!(parse_u16("0"), Some(0));
    assert_eq!(parse_u16("65535"), Some(65535));
    assert_eq!(parse_u16("12345"), Some(12345));
}

#[test]
fn parse_u16_rejects_bad_input() {
    assert_eq!(parse_u16(""), None);
    assert_eq!(parse_u16("65536"), None);
    assert_eq!(parse_u16("99999999999999999999"), None);
    assert_eq!(parse_u16("1.2"), None);
}

#[test]
fn assemble_builds_record() {
    let v = assemble("1", "2", "3", None, Some(String::from("abc123")), None).unwrap();
    assert_eq!(v.major, 1);
    assert_eq!(v.minor, 2);
    assert_eq!(v.patch, 3);
    assert_eq!(v.host_compiler, Some(String::from("nightly")));
    assert_eq!(v.commit_hash, Some(String::from("abc123")));
    assert_eq!(v.commit_date, None);
}

#[test]
fn assemble_takes_channel_override() {
    let v = assemble("0", "0", "1", Some(String::from("stable")), None, None).unwrap();
    assert_eq!(v.host_compiler, Some(String::from("stable")));
}

#[test]
fn assemble_rejects_malformed_components() {
    assert!(assemble("", "2", "3", None, None, None).is_none());
    assert!(assemble("1", "x", "3", None, None, None).is_none());
    assert!(assemble("1", "2", "65536", None, None, None).is_none());
    assert!(assemble("256", "2", "3", None, None, None).is_none());
}

#[test]
fn trim_removes_surrounding_whitespace() {
    assert_eq!(trim_str("abc123\n"), "abc123");
    assert_eq!(trim_str("  a b \t"), "a b");
    assert_eq!(trim_str("\u{00A0}x\u{3000}"), "x");
    assert_eq!(trim_str(""), "");
    assert_eq!(trim_str(" \t\r\n "), "");
    assert_eq!(trim_str("plain"), "plain");
}
