use ha_localizer::http::{is_location_request, respond};

/// Splits a reply at its first blank line and returns the declared
/// Content-Length and the bytes after the blank line.
fn declared_and_actual(reply: &[u8]) -> (usize, usize) {
    let pos = reply.windows(4).position(|w| w == b"\r\n\r\n").expect("blank line");
    let head = std::str::from_utf8(&reply[..pos]).unwrap();
    let line = head.lines().find(|l| l.starts_with("Content-Length: ")).unwrap();
    let declared: usize = line["Content-Length: ".len()..].parse().unwrap();
    (declared, reply.len() - pos - 4)
}

#[test]
fn ok_reply_with_a_body() {
    let reply = respond("200 OK", Some("{\"accuracy\":5.0}"));
    assert_eq!(
        reply,
        b"HTTP/1.1 200 OK\r\nContent-Type: application/json\r\nContent-Length: 18\r\n\r\n\r\n{\"accuracy\":5.0}".to_vec()
    );
}

#[test]
fn not_found_reply_without_a_body() {
    let reply = respond("404 Not Found", None);
    assert_eq!(
        reply,
        b"HTTP/1.1 404 Not Found\r\nContent-Type: application/json\r\nContent-Length: 4\r\n\r\n\r\n{}".to_vec()
    );
}

#[test]
fn content_length_counts_the_payload() {
    for body in [None, Some(""), Some("{}"), Some("{\"location\":{\"lat\":1.5,\"lng\":-2.25}}")] {
        let reply = respond("200 OK", body);
        let (declared, actual) = declared_and_actual(&reply);
        assert_eq!(declared, actual);
    }
}

#[test]
fn content_length_counts_bytes_not_characters() {
    let reply = respond("200 OK", Some("\u{e9}"));
    let (declared, actual) = declared_and_actual(&reply);
    assert_eq!(declared, 4);
    assert_eq!(actual, 4);
}

#[test]
fn only_the_exact_request_line_asks_for_the_location() {
    assert!(is_location_request("POST / HTTP/1.1"));
    assert!(!is_location_request("GET / HTTP/1.1"));
    assert!(!is_location_request("POST / HTTP/1.0"));
    assert!(!is_location_request("POST / HTTP/1.1 "));
    assert!(!is_location_request("post / http/1.1"));
    assert!(!is_location_request(""));
}
