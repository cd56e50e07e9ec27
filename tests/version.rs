use acgs_launcher::{java_check_from_stderr, java_major_version, parse_decimal_u32, parse_java_version};

#[test]
fn modern_version_is_installed() {
    assert_eq!(java_major_version("17.0.1"), Some(17));
    let r = parse_java_version("openjdk version \"17.0.1\" 2021-10-19\nOpenJDK Runtime Environment");
    assert!(r.installed);
    assert_eq!(r.version, Some("17.0.1".to_string()));
}

#[test]
fn legacy_version_is_not_installed() {
    assert_eq!(java_major_version("1.8.0_202"), Some(8));
    let r = parse_java_version("java version \"1.8.0_202\"\r\nJava(TM) SE Runtime Environment");
    assert!(!r.installed);
    assert_eq!(r.version, Some("1.8.0_202".to_string()));
}

#[test]
fn bare_major_version_is_installed() {
    assert_eq!(java_major_version("21"), Some(21));
    let r = parse_java_version("openjdk version \"21\" 2023-09-19");
    assert!(r.installed);
    assert_eq!(r.version, Some("21".to_string()));
}

#[test]
fn legacy_version_without_minor_defaults_to_eight() {
    assert_eq!(java_major_version("1"), Some(8));
    assert_eq!(java_major_version("1.x"), Some(8));
    assert_eq!(java_major_version("1.21"), Some(21));
}

#[test]
fn unreadable_version_reports_first_line() {
    let r = parse_java_version("openjdk version \"abc\"\nsecond");
    assert!(!r.installed);
    assert_eq!(r.version, Some("openjdk version \"abc\"".to_string()));
    let r = parse_java_version("no quotes here\r\nmore");
    assert!(!r.installed);
    assert_eq!(r.version, Some("no quotes here".to_string()));
}

#[test]
fn empty_diagnostics_mean_not_installed() {
    let r = parse_java_version("");
    assert!(!r.installed);
    assert_eq!(r.version, None);
    let r = java_check_from_stderr(&Vec::new());
    assert!(!r.installed);
    assert_eq!(r.version, None);
}

#[test]
fn stderr_bytes_are_decoded_lossily() {
    let mut bytes = b"openjdk version \"22.0.2\" ".to_vec();
    bytes.push(0xFF);
    let r = java_check_from_stderr(&bytes);
    assert!(r.installed);
    assert_eq!(r.version, Some("22.0.2".to_string()));
}

#[test]
fn decimal_parsing_follows_u32_from_str() {
    assert_eq!(parse_decimal_u32("0"), Some(0));
    assert_eq!(parse_decimal_u32("+42"), Some(42));
    assert_eq!(parse_decimal_u32("4294967295"), Some(4294967295));
    assert_eq!(parse_decimal_u32("4294967296"), None);
    assert_eq!(parse_decimal_u32(""), None);
    assert_eq!(parse_decimal_u32("+"), None);
    assert_eq!(parse_decimal_u32("-1"), None);
    assert_eq!(parse_decimal_u32("8_202"), None);
}
