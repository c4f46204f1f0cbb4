use fmrl::utils::{is_timestamp, replace_trailing_cr_with_crlf, replace_trailing_cr_with_crlf_bytes};

#[test]
fn test_replace_trailing_cr_with_crlf() {
    let mut buf = String::from("foo\rbar\r\nbaz\nbevis\n");
    replace_trailing_cr_with_crlf(&mut buf);
    assert_eq!(buf, "foo\r\nbar\r\nbaz\nbevis\n");
}

#[test]
fn test_is_timestamp() {
    assert!(is_timestamp("2021-01-01 00:00:00.000Z"));
    assert!(is_timestamp("2021-01-01T00:00:00.000Z"));
    assert!(!is_timestamp("foo"));
}

#[test]
fn crlf_rewrite_edge_cases() {
    let cases = [
        ("", ""),
        ("\r", "\r"),
        ("\r\r", "\r\n\r"),
        ("A\rB\r\nC\r", "A\r\nB\r\nC\r"),
        ("Imported file\ranother line\r a third line\r", "Imported file\r\nanother line\r\n a third line\r"),
        ("ač\u{10d}x", "ač\u{10d}x"),
        ("“\r”", "“\r\n”"),
    ];
    for (input, expected) in cases {
        let mut buf = input.to_string();
        replace_trailing_cr_with_crlf(&mut buf);
        assert_eq!(buf, expected);
        let mut bytes = input.as_bytes().to_vec();
        replace_trailing_cr_with_crlf_bytes(&mut bytes);
        assert_eq!(bytes, expected.as_bytes());
    }
}

#[test]
fn timestamps_need_date_and_time() {
    assert!(is_timestamp("2020-05-01 12:00:00.000"));
    assert!(!is_timestamp("2020-05-01"));
    assert!(!is_timestamp(""));
    assert!(!is_timestamp("Timestamp"));
}
