use oauth_capture::decimal::dec_digit_bytes;
use oauth_capture::listener::handle_request;
use oauth_capture::listener::listen_addr;
use oauth_capture::listener::loopback_response;
use oauth_capture::page::render_callback_page;
use oauth_capture::response::build_http_response;
use oauth_capture::OAUTH_REDIRECT_PORT;

#[test]
fn decimal_digits_of_zero() {
    assert_eq!(dec_digit_bytes(0), b"0".to_vec());
}

#[test]
fn decimal_digits_of_port() {
    assert_eq!(dec_digit_bytes(39171), b"39171".to_vec());
}

#[test]
fn decimal_digits_of_largest() {
    assert_eq!(dec_digit_bytes(u64::MAX), b"18446744073709551615".to_vec());
}

#[test]
fn listen_addr_has_loopback_host_and_port() {
    assert_eq!(listen_addr(OAUTH_REDIRECT_PORT), "127.0.0.1:39171");
    assert_eq!(listen_addr(0), "127.0.0.1:0");
    assert_eq!(listen_addr(65535), "127.0.0.1:65535");
}

#[test]
fn end_to_end_callback_url() {
    let req = b"GET /callback?code=abc123 HTTP/1.1\r\n\r\n";
    let url = handle_request(req, 39171);
    assert_eq!(url, "http://127.0.0.1:39171/callback?code=abc123");
}

#[test]
fn path_is_second_token_of_first_line() {
    let req = b"POST /a/b?x=1&y=2 HTTP/1.0\r\nHost: h\r\n\r\n";
    assert_eq!(handle_request(req, 8000), "http://127.0.0.1:8000/a/b?x=1&y=2");
}

#[test]
fn repeated_separators_are_one_separator() {
    let req = b"GET   /p  HTTP/1.1\r\n\r\n";
    assert_eq!(handle_request(req, 1), "http://127.0.0.1:1/p");
}

#[test]
fn truncated_request_still_yields_its_path() {
    assert_eq!(handle_request(b"GET /par", 5), "http://127.0.0.1:5/par");
}

#[test]
fn empty_request_defaults_path() {
    assert_eq!(handle_request(b"", 39171), "http://127.0.0.1:39171/");
}

#[test]
fn method_only_defaults_path() {
    assert_eq!(handle_request(b"GET\r\n\r\n", 39171), "http://127.0.0.1:39171/");
    assert_eq!(handle_request(b"GET \r\n\r\n", 39171), "http://127.0.0.1:39171/");
}

#[test]
fn token_after_line_feed_is_not_a_path() {
    assert_eq!(handle_request(b"GET\n/elsewhere HTTP/1.1\r\n\r\n", 7), "http://127.0.0.1:7/");
}

#[test]
fn non_ascii_path_defaults() {
    let req = [71u8, 69, 84, 32, 47, 200, 200, 32, 72, 84, 84, 80];
    assert_eq!(handle_request(&req, 39171), "http://127.0.0.1:39171/");
}

#[test]
fn page_is_the_fixed_confirmation_page() {
    let page = render_callback_page();
    let text = String::from_utf8(page).unwrap();
    assert!(text.starts_with("<!DOCTYPE html>"));
    assert!(text.contains("<h2>Authentication successful</h2>"));
    assert!(text.contains("return to the app"));
    assert!(text.ends_with("</body></html>"));
}

fn content_length_of(response: &[u8]) -> usize {
    let text = String::from_utf8(response.to_vec()).unwrap();
    let marker = "Content-Length: ";
    let at = text.find(marker).unwrap() + marker.len();
    let digits: String = text[at..].chars().take_while(|c| c.is_ascii_digit()).collect();
    digits.parse().unwrap()
}

fn body_of(response: &[u8]) -> Vec<u8> {
    let sep = b"\r\n\r\n";
    let at = response.windows(sep.len()).position(|w| w == sep).unwrap();
    response[at + sep.len()..].to_vec()
}

#[test]
fn response_content_length_matches_page_bytes() {
    let response = loopback_response();
    assert!(response.starts_with(b"HTTP/1.1 200 OK\r\nContent-Type: text/html\r\nContent-Length: "));
    let body = body_of(&response);
    assert_eq!(content_length_of(&response), body.len());
    assert_eq!(body, render_callback_page());
}

#[test]
fn response_content_length_matches_any_body() {
    let empty = build_http_response(Vec::new());
    assert_eq!(content_length_of(&empty), 0);
    assert!(empty.ends_with(b"Content-Length: 0\r\nConnection: close\r\n\r\n"));

    let body = vec![65u8; 1234];
    let response = build_http_response(body.clone());
    assert_eq!(content_length_of(&response), 1234);
    assert_eq!(body_of(&response), body);
}
