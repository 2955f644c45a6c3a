use tiny_http::Method;

#[test]
fn method_case_variants_equal() {
    assert_eq!(Method::parse("GET"), Method::parse("get"));
    assert_eq!(Method::parse("PoSt"), Method::parse("pOsT"));
    assert_ne!(Method::parse("GET"), Method::parse("POST"));
}

#[test]
fn method_equiv_ignores_case() {
    let method = Method::parse("GET");
    assert!(method.equiv("get"));
    assert!(method.equiv("GET"));
    assert!(!method.equiv("POST"));
}

#[test]
fn method_keeps_token_verbatim() {
    // no trimming and no case normalization at construction time
    assert_eq!(Method::parse("GeT").as_str().as_str(), "GeT");
    assert_eq!(Method::parse(" GET").as_str().as_str(), " GET");
    assert_ne!(Method::parse(" GET"), Method::parse("GET"));
}
