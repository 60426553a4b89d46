use yabw::tool::{diagnostics, Output};

#[test]
fn diagnostics_reads_utf8() {
    assert_eq!(diagnostics(b"video unavailable"), "video unavailable");
    let text = "ошибка: нет сети\n";
    assert_eq!(diagnostics(text.as_bytes()), text);
    assert_eq!(diagnostics(b""), "");
}

#[test]
fn diagnostics_marks_what_is_no_utf8() {
    assert_eq!(diagnostics(&[0xff, 0xfe, 0x41]), "(not valid UTF-8)");
    assert_eq!(diagnostics(&[0xc0, 0x80]), "(not valid UTF-8)");
    assert_eq!(diagnostics(&[0xed, 0xa0, 0x80]), "(not valid UTF-8)");
    assert_eq!(diagnostics(&[b'a', 0xe2, 0x82]), "(not valid UTF-8)");
}

#[test]
fn output_succeeds_with_status_zero_only() {
    let output = |status| Output { status, stdout: vec![], stderr: vec![] };
    assert!(output(Some(0)).success());
    assert!(!output(Some(1)).success());
    assert!(!output(Some(-1)).success());
    assert!(!output(None).success());
}
