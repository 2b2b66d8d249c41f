use lf_normalize::convert::{contains_crlf, convert_crlf, rewrite_if_needed};

#[test]
fn crlf_pairs_become_lf() {
    let content: Vec<u8> = b"hello\r\nworld\r\n".to_vec();
    let converted = convert_crlf(&content);
    assert_eq!(converted, b"hello\nworld\n".to_vec());
}

#[test]
fn length_drops_by_number_of_crlf_pairs() {
    let content: Vec<u8> = b"a\r\nb\r\nc\r\n".to_vec();
    let converted = convert_crlf(&content);
    assert_eq!(converted.len(), content.len() - 3);
    assert!(!contains_crlf(&converted));
}

#[test]
fn lone_cr_and_lone_lf_untouched() {
    let content: Vec<u8> = b"a\rb\nc\r\nd".to_vec();
    let converted = convert_crlf(&content);
    assert_eq!(converted, b"a\rb\nc\nd".to_vec());
}

#[test]
fn crlf_free_content_unchanged() {
    let content: Vec<u8> = b"no crlf here\n".to_vec();
    assert!(!contains_crlf(&content));
    assert!(rewrite_if_needed(&content).is_none());
    assert_eq!(convert_crlf(&content), content);
}

#[test]
fn empty_content() {
    let content: Vec<u8> = Vec::new();
    assert!(!contains_crlf(&content));
    assert!(rewrite_if_needed(&content).is_none());
    assert_eq!(convert_crlf(&content), Vec::<u8>::new());
}

#[test]
fn detection_matches_presence() {
    assert!(contains_crlf(&b"x\r\ny".to_vec()));
    assert!(contains_crlf(&b"\r\n".to_vec()));
    assert!(!contains_crlf(&b"\r".to_vec()));
    assert!(!contains_crlf(&b"\n\r".to_vec()));
}

#[test]
fn rewrite_reports_change() {
    let content: Vec<u8> = b"one\r\ntwo".to_vec();
    let rewritten = rewrite_if_needed(&content).unwrap();
    assert_eq!(rewritten, b"one\ntwo".to_vec());
}

#[test]
fn cr_before_crlf_leaves_a_fresh_crlf() {
    // The one shape on which a single pass does not settle: the CR kept
    // before a consumed CRLF ends up adjacent to the produced LF.
    let content: Vec<u8> = b"\r\r\n".to_vec();
    let converted = convert_crlf(&content);
    assert_eq!(converted, b"\r\n".to_vec());
    assert!(contains_crlf(&converted));
}
