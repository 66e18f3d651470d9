use go_true::{RedirectCapture, User};
use go_true::redirect::{first_line, http_ok_response, provider_session, redirect_page};

fn make_user(email: &str) -> User {
    User {
        id: "some-user-id".to_string(),
        email: email.to_string(),
        aud: "".to_string(),
        role: "authenticated".to_string(),
        email_confirmed_at: None,
        phone: "".to_string(),
        last_sign_in_at: None,
        created_at: "2021-01-01T00:00:00Z".to_string(),
        updated_at: "2021-01-01T00:00:00Z".to_string(),
    }
}

#[test]
fn non_token_request_lines_are_ignored() {
    let mut capture = RedirectCapture::new();

    assert!(!capture.offer_request_line("GET / HTTP/1.1"));
    assert!(!capture.offer_request_line("GET /favicon.ico HTTP/1.1"));
    assert!(capture.captured_tokens().is_none());
}

#[test]
fn token_callback_yields_both_tokens() {
    let mut capture = RedirectCapture::new();

    let done = capture.offer_request_line("GET /token?access_token=abc&refresh_token=def");

    assert!(done);
    let (access, refresh) = capture.captured_tokens().unwrap();
    assert_eq!(access, "abc");
    assert_eq!(refresh, "def");
}

#[test]
fn capture_without_refresh_token_is_incomplete() {
    let mut capture = RedirectCapture::new();

    let done = capture.offer_request_line("GET /token?access_token=abc");

    assert!(done);
    assert!(capture.captured_tokens().is_none());
}

#[test]
fn parameters_accumulate_across_request_lines() {
    let mut capture = RedirectCapture::new();

    assert!(!capture.offer_request_line("GET /token?refresh_token=def"));
    assert!(capture.offer_request_line("GET /token?access_token=abc"));

    let (access, refresh) = capture.captured_tokens().unwrap();
    assert_eq!(access, "abc");
    assert_eq!(refresh, "def");
}

#[test]
fn later_bindings_override_earlier_ones() {
    let mut capture = RedirectCapture::new();

    capture.offer_request_line("GET /token?access_token=first&access_token=second&refresh_token=def");

    let (access, _) = capture.captured_tokens().unwrap();
    assert_eq!(access, "second");
}

#[test]
fn segments_without_an_equals_sign_carry_no_parameter() {
    let mut capture = RedirectCapture::new();

    let done = capture.offer_request_line("GET /token?garbage&access_token=abc&refresh_token=def");

    assert!(done);
    let (access, refresh) = capture.captured_tokens().unwrap();
    assert_eq!(access, "abc");
    assert_eq!(refresh, "def");
}

#[test]
fn naive_split_keeps_only_text_before_the_second_equals() {
    let mut capture = RedirectCapture::new();

    capture.offer_request_line("GET /token?access_token=ab=cd&refresh_token=def");

    let (access, _) = capture.captured_tokens().unwrap();
    assert_eq!(access, "ab");
}

#[test]
fn trailing_request_line_text_sticks_to_the_last_value() {
    let mut capture = RedirectCapture::new();

    capture.offer_request_line("GET /token?access_token=abc&refresh_token=def HTTP/1.1");

    let (access, refresh) = capture.captured_tokens().unwrap();
    assert_eq!(access, "abc");
    assert_eq!(refresh, "def HTTP/1.1");
}

#[test]
fn first_line_strips_the_carriage_return() {
    let raw = "GET /token?access_token=abc HTTP/1.1\r\nHost: localhost:6969\r\n\r\n";

    assert_eq!(first_line(raw), "GET /token?access_token=abc HTTP/1.1");
}

#[test]
fn first_line_of_a_single_line_is_the_line_itself() {
    assert_eq!(first_line("GET / HTTP/1.1"), "GET / HTTP/1.1");
    assert_eq!(first_line(""), "");
}

#[test]
fn ok_response_frames_the_body_with_its_byte_length() {
    let response = http_ok_response("hello");

    assert_eq!(response, "HTTP/1.1 200 OK\r\ncontent-length: 5\r\n\r\nhello");
}

#[test]
fn ok_response_counts_bytes_not_characters() {
    let response = http_ok_response("héllo");

    assert_eq!(response, "HTTP/1.1 200 OK\r\ncontent-length: 6\r\n\r\nhéllo");
}

#[test]
fn ok_response_for_the_redirect_page_quotes_its_length() {
    let page = redirect_page();
    let response = http_ok_response(page);
    let expected_prefix = format!("HTTP/1.1 200 OK\r\ncontent-length: {}\r\n\r\n", page.len());

    assert!(response.starts_with(&expected_prefix));
    assert!(response.ends_with(page));
    assert!(page.contains("<h1>GoTrue-Rs</h1>"));
}

#[test]
fn provider_session_is_assembled_from_captured_tokens() {
    let session = provider_session(
        "abc".to_string(),
        "def".to_string(),
        make_user("user@example.com"),
    );

    assert_eq!(session.access_token, "abc");
    assert_eq!(session.refresh_token, "def");
    assert_eq!(session.token_type, "JWT");
    assert_eq!(session.expires_in, 3600);
    assert_eq!(session.user.email, "user@example.com");
}

#[test]
fn user_list_finds_an_email_only_when_present() {
    let list = go_true::UserList {
        users: vec![make_user("a@example.com"), make_user("b@example.com")],
    };

    assert!(list.contains_email("b@example.com"));
    assert!(!list.contains_email("c@example.com"));
}
