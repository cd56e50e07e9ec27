use acgs_launcher::{command_result, decode_output, reduce_output, terminal_result, Platform};

#[test]
fn stdout_is_preferred() {
    let r = reduce_output("out".to_string(), "err".to_string(), true);
    assert!(r.success);
    assert_eq!(r.output, "out");
    assert_eq!(r.error, None);
}

#[test]
fn stderr_used_when_stdout_empty() {
    let r = reduce_output(String::new(), "boom".to_string(), false);
    assert!(!r.success);
    assert_eq!(r.output, "boom");
    assert_eq!(r.error, Some("boom".to_string()));
}

#[test]
fn empty_streams_report_completion() {
    for success in [true, false] {
        for platform in [Platform::Windows, Platform::Unix] {
            let r = command_result(&Vec::new(), &Vec::new(), success, platform);
            assert_eq!(r.output, "命令执行完成");
            assert_eq!(r.error.is_some(), !success);
        }
    }
}

#[test]
fn error_present_exactly_on_failure() {
    let ok = command_result(&b"x".to_vec(), &b"y".to_vec(), true, Platform::Unix);
    assert_eq!(ok.error, None);
    let failed = command_result(&b"x".to_vec(), &Vec::new(), false, Platform::Unix);
    assert_eq!(failed.output, "x");
    assert_eq!(failed.error, Some(String::new()));
}

#[test]
fn valid_utf8_is_decoded_strictly() {
    let bytes = "héllo 世界".as_bytes().to_vec();
    assert_eq!(decode_output(&bytes, Platform::Windows), "héllo 世界");
    assert_eq!(decode_output(&bytes, Platform::Unix), "héllo 世界");
}

#[test]
fn invalid_utf8_falls_back_to_gbk_on_windows() {
    let gbk_hello = vec![0xC4, 0xE3, 0xBA, 0xC3];
    assert_eq!(decode_output(&gbk_hello, Platform::Windows), "你好");
}

#[test]
fn invalid_utf8_is_decoded_lossily_elsewhere() {
    let bytes = vec![b'a', 0xFF, b'b'];
    assert_eq!(decode_output(&bytes, Platform::Unix), "a\u{FFFD}b");
    assert_eq!(decode_output(&Vec::new(), Platform::Unix), "");
}

#[test]
fn terminal_success_reports_done() {
    let r = terminal_result(true, Some(0));
    assert!(r.success);
    assert_eq!(r.output, "登录过程已完成。");
    assert_eq!(r.error, None);
}

#[test]
fn terminal_failure_is_a_failed_result() {
    let r = terminal_result(false, Some(2));
    assert!(!r.success);
    assert_eq!(r.error, Some("登录过程失败，退出码: Some(2)".to_string()));
    assert_eq!(r.output, "登录过程失败，退出码: Some(2)");
}

#[test]
fn terminal_failure_code_text() {
    let r = terminal_result(false, Some(-1073741510));
    assert_eq!(r.error, Some("登录过程失败，退出码: Some(-1073741510)".to_string()));
    let r = terminal_result(false, Some(i32::MIN));
    assert_eq!(r.error, Some(format!("登录过程失败，退出码: Some({})", i32::MIN)));
    let r = terminal_result(false, Some(10));
    assert_eq!(r.error, Some("登录过程失败，退出码: Some(10)".to_string()));
    let r = terminal_result(false, None);
    assert!(!r.success);
    assert_eq!(r.error, Some("登录过程失败，退出码: None".to_string()));
}
