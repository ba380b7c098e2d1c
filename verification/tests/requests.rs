use backend::request::respond;
use backend::route::{Method, Response};

fn ok(body: &str) -> Option<Response> {
    Some(Response {
        status: 200,
        content_type: "text/plain; charset=utf-8".to_string(),
        body: body.to_string(),
    })
}

#[test]
fn get_root() {
    assert_eq!(respond(Method::Get, "/"), ok("Hello, world!"));
}

#[test]
fn get_root_with_a_query() {
    assert_eq!(respond(Method::Get, "/?lang=en"), ok("Hello, world!"));
}

#[test]
fn get_hello_world() {
    assert_eq!(respond(Method::Get, "/hello/World"), ok("Hello, World!"));
}

#[test]
fn get_hello_encoded_space() {
    assert_eq!(respond(Method::Get, "/hello/%20"), ok("Hello,  !"));
}

#[test]
fn get_unknown() {
    let response = respond(Method::Get, "/unknown");
    assert_eq!(response, None);
    assert!(!matches!(response, Some(Response { status: 200, .. })));
}

#[test]
fn get_hello_without_a_name() {
    assert_eq!(respond(Method::Get, "/hello/"), None);
    assert_eq!(respond(Method::Get, "/hello"), None);
    assert_eq!(respond(Method::Get, "/hello//"), None);
    assert_ne!(respond(Method::Get, "/hello/"), ok("Hello, !"));
}

#[test]
fn get_hello_decodes_the_name() {
    assert_eq!(respond(Method::Get, "/hello/John%20Doe"), ok("Hello, John Doe!"));
    assert_eq!(respond(Method::Get, "/hello/a%2Fb"), ok("Hello, a/b!"));
    assert_eq!(respond(Method::Get, "/hello/100%25"), ok("Hello, 100%!"));
    assert_eq!(respond(Method::Get, "/hello/W%C3%B6rld"), ok("Hello, W\u{f6}rld!"));
    assert_eq!(respond(Method::Get, "/hello/%F0%9F%98%80"), ok("Hello, \u{1f600}!"));
    assert_eq!(respond(Method::Get, "/hello/%E4%B8%96%E7%95%8C"), ok("Hello, \u{4e16}\u{754c}!"));
}

#[test]
fn get_hello_keeps_digits_and_plain_marks() {
    assert_eq!(respond(Method::Get, "/hello/12345"), ok("Hello, 12345!"));
    assert_eq!(respond(Method::Get, "/hello/a+b"), ok("Hello, a+b!"));
    assert_eq!(respond(Method::Get, "/hello/a-b_c.d~e"), ok("Hello, a-b_c.d~e!"));
}

#[test]
fn get_hello_replaces_bytes_that_are_no_text() {
    assert_eq!(respond(Method::Get, "/hello/%FF"), ok("Hello, \u{fffd}!"));
}

#[test]
fn get_hello_with_a_query() {
    assert_eq!(respond(Method::Get, "/hello/World?shout=yes"), ok("Hello, World!"));
}

#[test]
fn empty_segments_are_dropped() {
    assert_eq!(respond(Method::Get, "//"), ok("Hello, world!"));
    assert_eq!(respond(Method::Get, "//hello//World"), ok("Hello, World!"));
    assert_eq!(respond(Method::Get, "/hello/World/"), ok("Hello, World!"));
}

#[test]
fn encoded_first_segment_is_decoded_before_it_is_compared() {
    assert_eq!(respond(Method::Get, "/%68ello/World"), ok("Hello, World!"));
}

#[test]
fn longer_and_other_paths_are_not_answered() {
    assert_eq!(respond(Method::Get, "/hello/World/again"), None);
    assert_eq!(respond(Method::Get, "/Hello/World"), None);
    assert_eq!(respond(Method::Get, "/hi/World"), None);
    assert_eq!(respond(Method::Get, "/index"), None);
}

#[test]
fn targets_that_cannot_be_read_are_not_answered() {
    assert_eq!(respond(Method::Get, ""), None);
    assert_eq!(respond(Method::Get, "hello/World"), None);
    assert_eq!(respond(Method::Get, "/hello/Wor ld"), None);
    assert_eq!(respond(Method::Get, "*"), None);
}

#[test]
fn other_methods_are_not_answered_on_known_paths() {
    for method in [Method::Post, Method::Put, Method::Delete, Method::Patch, Method::Head] {
        assert_eq!(respond(method, "/"), None);
        assert_eq!(respond(method, "/hello/World"), None);
    }
}

#[test]
fn same_request_same_response() {
    for target in ["/", "/hello/World", "/hello/%20", "/unknown", "/hello/", "no"] {
        assert_eq!(respond(Method::Get, target), respond(Method::Get, target));
    }
}
