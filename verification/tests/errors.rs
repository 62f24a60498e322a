use request_scanner::intern::same_bytes;
use request_scanner::ParseError;

const ALL: [ParseError; 8] = [
    ParseError::HeaderName,
    ParseError::HeaderValue,
    ParseError::NewLine,
    ParseError::Token,
    ParseError::TooManyHeaders,
    ParseError::Version,
    ParseError::Status,
    ParseError::InvalidChunkSize,
];

#[test]
fn every_outside_error_has_its_own_kind() {
    assert_eq!(ParseError::from_httparse(httparse::Error::HeaderName), ParseError::HeaderName);
    assert_eq!(ParseError::from_httparse(httparse::Error::HeaderValue), ParseError::HeaderValue);
    assert_eq!(ParseError::from_httparse(httparse::Error::NewLine), ParseError::NewLine);
    assert_eq!(ParseError::from_httparse(httparse::Error::Token), ParseError::Token);
    assert_eq!(ParseError::from_httparse(httparse::Error::TooManyHeaders), ParseError::TooManyHeaders);
    assert_eq!(ParseError::from_httparse(httparse::Error::Version), ParseError::Version);
    assert_eq!(ParseError::from_httparse(httparse::Error::Status), ParseError::Status);
}

#[test]
fn chunk_size_stands_apart_from_the_parsing_errors() {
    for kind in ALL {
        assert_eq!(kind.is_parsing_error(), kind != ParseError::InvalidChunkSize);
    }
}

#[test]
fn names_of_the_kinds() {
    assert_eq!(ParseError::HeaderName.name(), "InvalidHeaderName");
    assert_eq!(ParseError::HeaderValue.name(), "InvalidHeaderValue");
    assert_eq!(ParseError::NewLine.name(), "InvalidByteInNewLine");
    assert_eq!(ParseError::Token.name(), "InvalidToken");
    assert_eq!(ParseError::TooManyHeaders.name(), "TooManyHeaders");
    assert_eq!(ParseError::Version.name(), "InvalidHTTPVersion");
    assert_eq!(ParseError::Status.name(), "InvalidStatus");
    assert_eq!(ParseError::InvalidChunkSize.name(), "InvalidChunkSize");
}

#[test]
fn names_are_distinct() {
    for (i, a) in ALL.iter().enumerate() {
        for (j, b) in ALL.iter().enumerate() {
            assert_eq!(a.name() == b.name(), i == j);
        }
    }
}

#[test]
fn common_methods_are_known() {
    for name in ["GET", "POST", "PUT", "PATCH", "DELETE", "HEAD", "OPTIONS", "TRACE", "CONNECT"] {
        assert_eq!(request_scanner::common_method(name.as_bytes()), Some(name));
    }
}

#[test]
fn other_methods_are_not_common() {
    for name in ["", "G", "GE", "GETS", "get", "Get", "PROPFIND", "Host", "POST "] {
        assert_eq!(request_scanner::common_method(name.as_bytes()), None);
    }
    assert_eq!(request_scanner::common_method(&[0xff, 0xfe]), None);
}

#[test]
fn common_header_names_are_known() {
    let names = [
        "Host",
        "Connection",
        "Cache-Control",
        "Accept",
        "User-Agent",
        "Accept-Encoding",
        "Accept-Language",
        "Accept-Charset",
        "Cookie",
    ];
    for name in names {
        assert_eq!(request_scanner::common_header_name(name.as_bytes()), Some(name));
    }
}

#[test]
fn other_header_names_are_not_common() {
    for name in ["", "host", "HOST", "Accept-", "Accept-Encodin", "Content-Length", "GET", "Cookie2"] {
        assert_eq!(request_scanner::common_header_name(name.as_bytes()), None);
    }
}

#[test]
fn same_bytes_compares_content() {
    assert!(same_bytes(b"", b""));
    assert!(same_bytes(b"abc", b"abc"));
    assert!(!same_bytes(b"abc", b"abd"));
    assert!(!same_bytes(b"abc", b"ab"));
    assert!(!same_bytes(b"", b"a"));
}
