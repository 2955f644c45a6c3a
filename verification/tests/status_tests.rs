use tiny_http::StatusCode;

#[test]
fn status_code_numeric_round_trip() {
    let samples: [u16; 7] = [0, 1, 99, 100, 404, 999, 65535];
    for n in samples {
        assert_eq!(StatusCode::from_u16(n).as_u16(), n);
    }
}

#[test]
fn status_reason_phrases_match_table() {
    let table: [(u16, &str); 44] = [
        (100, "Continue"),
        (101, "Switching Protocols"),
        (102, "Processing"),
        (118, "Connection timed out"),
        (200, "OK"),
        (201, "Created"),
        (202, "Accepted"),
        (203, "Non-Authoritative Information"),
        (204, "No Content"),
        (205, "Reset Content"),
        (206, "Partial Content"),
        (207, "Multi-Status"),
        (210, "Content Different"),
        (300, "Multiple Choices"),
        (301, "Moved Permanently"),
        (302, "Found"),
        (303, "See Other"),
        (304, "Not Modified"),
        (305, "Use Proxy"),
        (307, "Temporary Redirect"),
        (400, "Bad Request"),
        (401, "Unauthorized"),
        (402, "Payment Required"),
        (403, "Forbidden"),
        (404, "Not Found"),
        (405, "Method Not Allowed"),
        (406, "Not Acceptable"),
        (407, "Proxy Authentication Required"),
        (408, "Request Time-out"),
        (409, "Conflict"),
        (410, "Gone"),
        (411, "Length Required"),
        (412, "Precondition Failed"),
        (413, "Request Entity Too Large"),
        (414, "Reques-URI Too Large"),
        (415, "Unsupported Media Type"),
        (416, "Request range not satisfiable"),
        (417, "Expectation Failed"),
        (500, "Internal Server Error"),
        (501, "Not Implemented"),
        (502, "Bad Gateway"),
        (503, "Service Unavailable"),
        (504, "Gateway Time-out"),
        (505, "HTTP Version not supported"),
    ];
    for (code, phrase) in table {
        assert_eq!(StatusCode::from_u16(code).get_default_reason_phrase(), phrase);
    }
}

#[test]
fn status_codes_outside_table_are_unknown() {
    for code in [0u16, 1, 99, 103, 150, 299, 306, 399, 418, 499, 506, 999, 65535] {
        assert_eq!(StatusCode::from_u16(code).get_default_reason_phrase(), "Unknown");
    }
}

#[test]
fn status_equiv_is_numeric_equality() {
    assert!(StatusCode::from_u16(404).equiv(&404));
    assert!(!StatusCode::from_u16(404).equiv(&200));
}

#[test]
fn status_codes_order_numerically() {
    assert!(StatusCode(200) < StatusCode(404));
    assert!(StatusCode(500) > StatusCode(404));
    assert_eq!(StatusCode(301), StatusCode(301));
    assert!(StatusCode(200) <= StatusCode(200));
}

#[test]
fn status_from_integer_widths() {
    assert_eq!(StatusCode::from(200u8).as_u16(), 200);
    assert_eq!(StatusCode::from(100i8).as_u16(), 100);
    assert_eq!(StatusCode::from(404i16).as_u16(), 404);
    assert_eq!(StatusCode::from(404u16).as_u16(), 404);
    assert_eq!(StatusCode::from(404i32).as_u16(), 404);
    assert_eq!(StatusCode::from(404u32).as_u16(), 404);
    // narrowing conversions truncate to 16 bits, as the `as` cast does
    assert_eq!(StatusCode::from(-1i16).as_u16(), 65535);
    assert_eq!(StatusCode::from(70000u32).as_u16(), 4464);
}
