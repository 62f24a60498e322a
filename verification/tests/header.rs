use request_scanner::{parse, Header, ParseOutcome};

#[test]
fn repr_of_a_header() {
    let header = Header { name: b"Host", value: b"example.com" };
    assert_eq!(
        header.repr(),
        Some(String::from("Header(name=\"Host\", value=b\"example.com\")"))
    );
}

#[test]
fn repr_of_an_empty_header() {
    let header = Header { name: b"", value: b"" };
    assert_eq!(header.repr(), Some(String::from("Header(name=\"\", value=b\"\")")));
}

#[test]
fn repr_keeps_text_beyond_ascii() {
    let header = Header { name: b"X-City", value: "Z\u{fc}rich".as_bytes() };
    assert_eq!(
        header.repr(),
        Some(String::from("Header(name=\"X-City\", value=b\"Z\u{fc}rich\")"))
    );
}

#[test]
fn repr_needs_text() {
    assert_eq!(Header { name: b"X-Raw", value: &[0xff, 0xfe] }.repr(), None);
    assert_eq!(Header { name: &[0xc3], value: b"ok" }.repr(), None);
    assert_eq!(Header { name: b"X", value: &[0xe2, 0x82] }.repr(), None);
}

#[test]
fn repr_of_a_scanned_header() {
    match parse(b"GET / HTTP/1.1\r\nAccept: text/html\r\n\r\n", 4) {
        ParseOutcome::Complete(request) => assert_eq!(
            request.headers[0].repr(),
            Some(String::from("Header(name=\"Accept\", value=b\"text/html\")"))
        ),
        other => panic!("expected a complete request, got {:?}", other),
    }
}

#[test]
fn outcomes_of_equal_buffers_are_equal() {
    let one = b"GET /a HTTP/1.1\r\nHost: h\r\n\r\nbody".to_vec();
    let two = one.clone();
    assert_eq!(parse(&one, 8), parse(&two, 8));
    assert_eq!(parse(&one[..9], 8), parse(&two[..9], 8));
    assert_ne!(parse(&one, 8), parse(&one, 0));
}
