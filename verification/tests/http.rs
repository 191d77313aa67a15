use castled::server::http::{
    interpret_head, receive_response_step, request_head_bytes, HeadError, HeadVerdict,
    HttpVersion, ParsedHead, ResponseHeaderScanner, ResponseStep, MAX_HEADER_SIZE,
};

fn head_and_body(chunks: &[&[u8]]) -> (u16, HttpVersion, Vec<(String, String)>, Vec<u8>) {
    let mut scanner = ResponseHeaderScanner::new(MAX_HEADER_SIZE);
    for chunk in chunks {
        match receive_response_step(&mut scanner, chunk.to_vec()) {
            ResponseStep::Head(head, body) => {
                let headers = head
                    .headers
                    .iter()
                    .map(|(k, v)| (k.to_ascii_lowercase(), String::from_utf8(v.clone()).unwrap()))
                    .collect();
                return (head.status, head.version, headers, body);
            }
            ResponseStep::Wait => continue,
            other => panic!("unexpected step {:?}", other),
        }
    }
    panic!("no head")
}

#[test]
fn test_receive_response() {
    let expected = (
        200,
        HttpVersion::Http11,
        vec![("content-length".to_string(), "5".to_string())],
        b"hello".to_vec(),
    );
    // response header and body in one data frame
    assert_eq!(head_and_body(&[b"HTTP/1.1 200 OK\r\ncontent-length: 5\r\n\r\nhello"]), expected);
    // response header and body in two data frames
    assert_eq!(
        head_and_body(&[b"HTTP/1.1 200 OK\r\nContent-Len", b"gth: 5\r\n\r\nhello"]),
        expected
    );
    // response header and body in two data frames, and splitted by LF
    assert_eq!(
        head_and_body(&[b"HTTP/1.1 200 OK\r\ncontent-length: 5\r\n", b"\r\nhello"]),
        expected
    );
    // response 100 then response 200
    assert_eq!(
        head_and_body(&[
            b"HTTP/1.1 100 Continue\r\n\r\n",
            b"HTTP/1.1 200 OK\r\ncontent-length: 5\r\n\r\nhello"
        ]),
        expected
    );
}

#[test]
fn a_head_in_many_pieces_is_found_once_complete() {
    let expected = (
        200,
        HttpVersion::Http11,
        vec![("content-length".to_string(), "5".to_string())],
        b"hello".to_vec(),
    );
    assert_eq!(
        head_and_body(&[b"HTTP/1.1 200 OK\r", b"\ncontent-length: 5\r\n\r", b"\nhello"]),
        expected
    );
    assert_eq!(
        head_and_body(&[b"HTT", b"P/1.1 20", b"0 OK\r\ncontent-length: 5", b"\r\n", b"\r\nhello"]),
        expected
    );
}

#[test]
fn body_after_head_is_passed_on_and_empty_data_finishes() {
    let mut scanner = ResponseHeaderScanner::new(16);
    assert!(matches!(
        receive_response_step(&mut scanner, b"HTTP/1.0 404 Not Found\r\n\r\n".to_vec()),
        ResponseStep::Head(h, b) if h.status == 404 && h.version == HttpVersion::Http10 && b.is_empty()
    ));
    assert!(matches!(
        receive_response_step(&mut scanner, b"more".to_vec()),
        ResponseStep::Body(b) if b == b"more".to_vec()
    ));
    assert!(matches!(receive_response_step(&mut scanner, vec![]), ResponseStep::Finish));
}

#[test]
fn malformed_heads_fail() {
    let mut scanner = ResponseHeaderScanner::new(16);
    assert!(matches!(
        receive_response_step(&mut scanner, b"garbage here\r\n\r\n".to_vec()),
        ResponseStep::Failed(HeadError::Malformed)
    ));
}

#[test]
fn scanner_finds_the_first_blank_line() {
    let mut scanner = ResponseHeaderScanner::new(16);
    assert!(!scanner.scan(b"abc\r\n".to_vec()));
    assert!(!scanner.is_ended());
    assert!(scanner.scan(b"\r\nxy\r\n\r\n".to_vec()));
    let (head, body) = scanner.split_parts();
    assert_eq!(head, b"abc\r\n\r\n");
    assert_eq!(body, b"xy\r\n\r\n");
    scanner.move_back(100);
    let (head, _) = scanner.split_parts();
    assert!(head.is_empty());
    scanner.reset(b"new".to_vec());
    assert!(!scanner.is_ended());
}

#[test]
fn verdicts_of_parsed_heads() {
    assert!(matches!(interpret_head(None), HeadVerdict::Invalid(HeadError::Malformed)));
    let no_status = ParsedHead { code: None, version: Some(1), headers: vec![] };
    assert!(matches!(interpret_head(Some(no_status)), HeadVerdict::Invalid(HeadError::NoStatus)));
    let cont = ParsedHead { code: Some(100), version: Some(1), headers: vec![] };
    assert!(matches!(interpret_head(Some(cont)), HeadVerdict::Continue));
    let ok = ParsedHead { code: Some(201), version: None, headers: vec![("a".to_string(), b"b".to_vec())] };
    match interpret_head(Some(ok)) {
        HeadVerdict::Final(h) => {
            assert_eq!(h.status, 201);
            assert_eq!(h.version, HttpVersion::Http11);
            assert_eq!(h.headers, vec![("a".to_string(), b"b".to_vec())]);
        }
        other => panic!("unexpected {:?}", other),
    }
}

#[test]
fn request_heads_are_written_out() {
    let headers = vec![
        ("host".to_string(), "foo.example.com".to_string()),
        ("accept".to_string(), "*/*".to_string()),
    ];
    let head = request_head_bytes("GET", "/hello", "HTTP/1.1", &headers);
    assert_eq!(
        head,
        b"GET /hello HTTP/1.1\r\nhost: foo.example.com\r\naccept: */*\r\n\r\n".to_vec()
    );
    assert_eq!(request_head_bytes("POST", "/", "HTTP/1.0", &vec![]), b"POST / HTTP/1.0\r\n\r\n".to_vec());
}

#[test]
fn too_few_bytes_wait_for_more() {
    let mut scanner = ResponseHeaderScanner::new(16);
    assert!(!scanner.scan(b"ab".to_vec()));
    assert!(!scanner.is_ended());
    let (head, rest) = scanner.split_parts();
    assert_eq!((head, rest), (&b""[..], &b"ab"[..]));
    let mut scanner = ResponseHeaderScanner::new(16);
    assert!(matches!(receive_response_step(&mut scanner, b"H".to_vec()), ResponseStep::Wait));
    assert!(matches!(receive_response_step(&mut scanner, b"TTP/1.1 204 No Content\r\n\r\n".to_vec()), ResponseStep::Head(h, _) if h.status == 204));
}
