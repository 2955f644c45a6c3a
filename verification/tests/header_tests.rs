use tiny_http::{Header, HeaderField, ParseError};

#[test]
fn test_parse_header() {
    let header: Header = Header::parse("Content-Type: text/html").unwrap();

    assert!(header.field.equiv(&"content-type"));
    assert!(header.value == "text/html");

    assert!(Header::parse("hello world").is_err());
}

#[test]
fn test_parse_header_with_doublecolon() {
    let header: Header = Header::parse("Time: 20: 34").unwrap();

    assert!(header.field.equiv(&"time"));
    assert!(header.value == "20: 34");
}

#[test]
fn header_parse_without_colon_is_malformed() {
    assert!(matches!(
        Header::parse("no colon here"),
        Err(ParseError::MalformedHeaderLine)
    ));
    assert!(matches!(Header::parse(""), Err(ParseError::MalformedHeaderLine)));
}

#[test]
fn header_parse_bare_colon() {
    let header = Header::parse(":").unwrap();
    assert_eq!(header.field.as_str().as_str(), "");
    assert_eq!(header.value, "");
}

#[test]
fn header_field_parse_trims_surrounding_whitespace() {
    let field = HeaderField::parse("\t  Content-Type  \t");
    assert_eq!(field.as_str().as_str(), "Content-Type");
    assert!(field.equiv("content-type"));
    assert!(field.equiv("CONTENT-TYPE"));
    assert!(!field.equiv("content-length"));
}

#[test]
fn header_field_case_variants_equal() {
    assert_eq!(HeaderField::parse("Content-Type"), HeaderField::parse("cONTENT-tYPE"));
    assert_eq!(HeaderField::parse("accept"), HeaderField::parse("ACCEPT"));
    assert_ne!(HeaderField::parse("Content-Type"), HeaderField::parse("Content-Length"));
}

#[test]
fn header_to_text_round_trip() {
    let header = Header {
        field: HeaderField::parse("Content-Type"),
        value: String::from("text/html"),
    };
    let line = header.to_text();
    assert_eq!(line, "Content-Type: text/html");

    let back = Header::parse(&line).unwrap();
    assert_eq!(back.field, header.field);
    assert_eq!(back.value, header.value);
}

#[test]
fn header_round_trip_normalizes_whitespace() {
    // Three spaces after the colon in the raw line: the value loses them
    // all, and the canonical text always carries exactly one space.
    let header = Header::parse("X-Label:   spaced").unwrap();
    assert_eq!(header.value, "spaced");
    assert_eq!(header.to_text(), "X-Label: spaced");
}

#[test]
fn header_value_keeps_trailing_whitespace() {
    // Only the leading white space after the colon is removed; white
    // space at the value's end belongs to the value.
    let header = Header::parse("X-Label: padded  ").unwrap();
    assert_eq!(header.value, "padded  ");
    assert_eq!(header.to_text(), "X-Label: padded  ");
}
