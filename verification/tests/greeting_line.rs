use rustls_client::{build_greeting, localhost_name};

#[test]
fn greeting_for_localhost_is_the_fixed_request_line() {
    let host = localhost_name();
    let greeting = build_greeting(&host);
    assert_eq!(greeting, b"GET / HTTP/1.0\r\nHost: localhost\r\n\r\n".to_vec());
}

#[test]
fn greeting_embeds_the_host_verbatim() {
    let greeting = build_greeting(b"example.test");
    assert_eq!(greeting, b"GET / HTTP/1.0\r\nHost: example.test\r\n\r\n".to_vec());
}

#[test]
fn greeting_for_empty_host_keeps_frame() {
    let greeting = build_greeting(b"");
    assert_eq!(greeting, b"GET / HTTP/1.0\r\nHost: \r\n\r\n".to_vec());
}

#[test]
fn localhost_name_is_localhost() {
    assert_eq!(localhost_name(), b"localhost".to_vec());
}
