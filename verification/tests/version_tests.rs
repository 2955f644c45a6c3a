use tiny_http::HTTPVersion;

#[test]
fn version_order_is_lexicographic() {
    assert!(HTTPVersion(1, 0) < HTTPVersion(1, 1));
    assert!(HTTPVersion(1, 1) < HTTPVersion(2, 0));
    assert!(HTTPVersion(1, 5) > HTTPVersion(1, 0));
    assert!(HTTPVersion(1, 5) < HTTPVersion(2, 0));
    assert_eq!(HTTPVersion(1, 1), HTTPVersion(1, 1));
    assert!(HTTPVersion(1, 1) <= HTTPVersion(1, 1));
    assert_ne!(HTTPVersion(1, 0), HTTPVersion(0, 1));
}

#[test]
fn version_to_text_is_major_dot_minor() {
    assert_eq!(HTTPVersion(1, 1).to_text(), "1.1");
    assert_eq!(HTTPVersion(1, 0).to_text(), "1.0");
    assert_eq!(HTTPVersion(2, 0).to_text(), "2.0");
    assert_eq!(HTTPVersion(0, 9).to_text(), "0.9");
    assert_eq!(HTTPVersion(10, 234).to_text(), "10.234");
}
