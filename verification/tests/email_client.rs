use newsletter::domain::SubscriberEmail;
use newsletter::email_client::{EmailClient, MailServer, TransportError};
use std::time::Duration;

fn email() -> SubscriberEmail {
    SubscriberEmail::parse("ursula@example.com".to_string()).unwrap()
}

fn email_client(base_url: &str) -> EmailClient {
    EmailClient::try_new(base_url, email(), "secret".to_string(), Duration::from_millis(200))
        .unwrap()
}

#[test]
fn send_email_sends_the_expected_request() {
    let client = email_client("https://api.postmarkapp.com");
    let recipient = SubscriberEmail::parse("vic_ji_i@gmail.com".to_string()).unwrap();

    let request = client.send_email(&recipient, "subject", "<p>html</p>", "text");

    assert_eq!(request.url, "https://api.postmarkapp.com/email");
    assert_eq!(request.header_name, "X-Postmark-Server-Token");
    assert_eq!(request.header_value, "secret");
    assert_eq!(request.timeout, Duration::from_millis(200));
    assert_eq!(request.body.from, "ursula@example.com");
    assert_eq!(request.body.to, "vic_ji_i@gmail.com");
    assert_eq!(request.body.subject, "subject");
    assert_eq!(request.body.html_body, "<p>html</p>");
    assert_eq!(request.body.text_body, "text");
}

#[test]
fn send_email_succeeds_if_the_server_returns_200() {
    let client = email_client("http://127.0.0.1:9000");
    let mut server = MailServer::new(200);
    let request = client.send_email(&email(), "subject", "html", "text");

    let outcome = EmailClient::check_status(server.post(request));

    assert!(outcome.is_ok());
    assert_eq!(server.received().len(), 1);
}

#[test]
fn send_email_fails_if_the_server_returns_500() {
    let client = email_client("http://127.0.0.1:9000");
    let mut server = MailServer::new(500);
    let request = client.send_email(&email(), "subject", "html", "text");

    let outcome = EmailClient::check_status(server.post(request));

    assert_eq!(outcome, Err(TransportError::Status(500)));
    assert_eq!(server.received().len(), 1);
}

#[test]
fn client_and_server_errors_are_failures_and_nothing_else_is() {
    for status in [100u16, 200, 204, 301, 399, 600] {
        assert_eq!(EmailClient::check_status(status), Ok(()));
    }
    for status in [400u16, 401, 404, 499, 500, 503, 599] {
        assert_eq!(EmailClient::check_status(status), Err(TransportError::Status(status)));
    }
}

#[test]
fn the_endpoint_is_resolved_against_the_base_url() {
    let request_url = |base: &str| email_client(base).send_email(&email(), "s", "h", "t").url;
    assert_eq!(request_url("http://localhost:8080"), "http://localhost:8080/email");
    assert_eq!(request_url("http://localhost:8080/"), "http://localhost:8080/email");
    assert_eq!(request_url("http://localhost:8080/api/v1"), "http://localhost:8080/email");
    assert_eq!(request_url("HTTP://EXAMPLE.com"), "http://example.com/email");
}

#[test]
fn a_base_url_that_is_none_gives_no_client() {
    for base in ["", "not a url", "/relative/path", "mailto:someone@example.com"] {
        let client =
            EmailClient::try_new(base, email(), "secret".to_string(), Duration::from_millis(200));
        assert!(client.is_none(), "{} gave a client", base);
    }
}

#[test]
fn a_request_without_a_response_is_a_timeout_or_a_failed_connection() {
    assert_eq!(TransportError::of_send_failure(true), TransportError::Timeout);
    assert_eq!(TransportError::of_send_failure(false), TransportError::Connection);
}
