use socks_portal::request::{
    connect_authority, is_connect, process_http_connect, RequestHead, MAX_HEADERS,
};
use socks_portal::termination::Termination;

fn head(method: Option<&str>, path: Option<&str>, version: Option<u8>) -> RequestHead {
    RequestHead {
        method: method.map(String::from),
        path: path.map(String::from),
        version,
    }
}

#[test]
fn connect_request_names_its_authority() {
    let buf = b"CONNECT example.com:443 HTTP/1.1\r\nHost: example.com:443\r\n\r\n";
    assert_eq!(process_http_connect(buf), Ok("example.com:443".to_string()));
}

#[test]
fn connect_request_of_version_1_0_is_accepted() {
    let buf = b"CONNECT 10.0.0.1:8080 HTTP/1.0\r\n\r\n";
    assert_eq!(process_http_connect(buf), Ok("10.0.0.1:8080".to_string()));
}

#[test]
fn connect_method_may_be_lower_case() {
    let buf = b"connect example.com:443 HTTP/1.1\r\n\r\n";
    assert_eq!(process_http_connect(buf), Ok("example.com:443".to_string()));
    let mixed = b"CoNnEcT example.com:443 HTTP/1.1\r\n\r\n";
    assert_eq!(process_http_connect(mixed), Ok("example.com:443".to_string()));
}

#[test]
fn request_line_alone_is_enough() {
    let buf = b"CONNECT example.com:443 HTTP/1.1\r\n";
    assert_eq!(process_http_connect(buf), Ok("example.com:443".to_string()));
    let with_half_a_header = b"CONNECT example.com:443 HTTP/1.1\r\nHost: exam";
    assert_eq!(process_http_connect(with_half_a_header), Ok("example.com:443".to_string()));
}

#[test]
fn other_methods_are_protocol_violations() {
    for method in ["GET", "POST", "PUT", "HEAD", "OPTIONS", "CONNECTS", "CONNEC"] {
        let buf = format!("{} example.com:443 HTTP/1.1\r\nHost: example.com\r\n\r\n", method);
        assert_eq!(process_http_connect(buf.as_bytes()), Err(Termination::ProtocolViolation));
    }
}

#[test]
fn other_versions_are_protocol_violations() {
    for version in ["HTTP/2.0", "HTTP/2", "HTTP/3.0", "HTTP/0.9", "HTTP/1.2", "HTTX/1.1"] {
        let buf = format!("CONNECT example.com:443 {}\r\n\r\n", version);
        assert_eq!(process_http_connect(buf.as_bytes()), Err(Termination::ProtocolViolation));
    }
}

#[test]
fn bytes_that_are_no_request_are_protocol_violations() {
    assert_eq!(process_http_connect(b"\x16\x03\x01\x02\x00\x01"), Err(Termination::ProtocolViolation));
    assert_eq!(process_http_connect(b"CONNECT  HTTP/1.1\r\n\r\n"), Err(Termination::ProtocolViolation));
    assert_eq!(process_http_connect(&[0u8; 64]), Err(Termination::ProtocolViolation));
}

#[test]
fn unfinished_request_line_is_a_protocol_violation() {
    assert_eq!(process_http_connect(b""), Err(Termination::ProtocolViolation));
    assert_eq!(process_http_connect(b"CONN"), Err(Termination::ProtocolViolation));
    assert_eq!(process_http_connect(b"CONNECT example.com:443"), Err(Termination::ProtocolViolation));
    assert_eq!(process_http_connect(b"CONNECT example.com:443 HTTP/1."), Err(Termination::ProtocolViolation));
}

#[test]
fn request_padded_with_zero_bytes_is_read_up_to_its_end() {
    let mut buf = [0u8; 1024];
    let request = b"CONNECT example.com:443 HTTP/1.1\r\nHost: example.com:443\r\n\r\n";
    buf[..request.len()].copy_from_slice(request);
    assert_eq!(process_http_connect(&buf), Ok("example.com:443".to_string()));
}

#[test]
fn as_many_headers_as_allowed_are_accepted_and_one_more_is_not() {
    assert_eq!(MAX_HEADERS, 16);
    let mut request = String::from("CONNECT example.com:443 HTTP/1.1\r\n");
    for i in 0..MAX_HEADERS {
        request.push_str(&format!("X-Header-{}: v\r\n", i));
    }
    let full = format!("{}\r\n", request);
    assert_eq!(process_http_connect(full.as_bytes()), Ok("example.com:443".to_string()));
    let over = format!("{}X-One-More: v\r\n\r\n", request);
    assert_eq!(process_http_connect(over.as_bytes()), Err(Termination::ProtocolViolation));
}

#[test]
fn authority_is_returned_as_written() {
    let buf = "CONNECT b\u{fc}cher.example:8443 HTTP/1.1\r\n\r\n";
    assert_eq!(process_http_connect(buf.as_bytes()), Ok("b\u{fc}cher.example:8443".to_string()));
    let odd = b"CONNECT no-port-here HTTP/1.1\r\n\r\n";
    assert_eq!(process_http_connect(odd), Ok("no-port-here".to_string()));
}

#[test]
fn is_connect_ignores_the_case_of_ascii_letters_only() {
    assert!(is_connect("CONNECT"));
    assert!(is_connect("connect"));
    assert!(is_connect("Connect"));
    assert!(is_connect("cOnNeCt"));
    assert!(!is_connect(""));
    assert!(!is_connect("CONNEC"));
    assert!(!is_connect("CONNECTS"));
    assert!(!is_connect("GET"));
    assert!(!is_connect("C0NNECT"));
    assert!(!is_connect("CONNEC\u{164}"));
    assert!(!is_connect("\u{421}ONNECT"));
    assert!(!is_connect("CONNECT "));
}

#[test]
fn is_connect_agrees_with_upper_casing() {
    for method in ["CONNECT", "connect", "conNECT", "GET", "get", "Connec", "connectx", "", "c\u{f6}nnect"] {
        assert_eq!(is_connect(method), method.to_uppercase() == "CONNECT", "{:?}", method);
    }
}

#[test]
fn connect_authority_takes_the_path_of_a_connect_head() {
    assert_eq!(
        connect_authority(head(Some("CONNECT"), Some("example.com:443"), Some(1))),
        Ok("example.com:443".to_string())
    );
    assert_eq!(
        connect_authority(head(Some("connect"), Some("h:1"), Some(0))),
        Ok("h:1".to_string())
    );
}

#[test]
fn connect_authority_refuses_every_other_head() {
    let refused = [
        head(Some("GET"), Some("example.com:443"), Some(1)),
        head(Some("CONNECT"), Some("example.com:443"), Some(2)),
        head(Some("CONNECT"), Some("example.com:443"), Some(255)),
        head(Some("CONNECT"), Some("example.com:443"), None),
        head(Some("CONNECT"), None, Some(1)),
        head(None, Some("example.com:443"), Some(1)),
        head(None, None, None),
    ];
    for h in refused {
        assert_eq!(connect_authority(h), Err(Termination::ProtocolViolation));
    }
}
