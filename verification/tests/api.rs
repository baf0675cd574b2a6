use newsletter::domain::SubscriberEmail;
use newsletter::email_client::{EmailClient, MailServer, TransportError};
use newsletter::health_check::health_check;
use newsletter::newsletters::{dispatch, publish_newsletter, BodyData, Content, DispatchReport};
use newsletter::router::{into_response, severity, AppState, ResponseError, Severity};
use newsletter::store::{Store, StoreError, Subscriber, SubscriptionStatus, SubscriptionToken};
use newsletter::subscriptions::{
    subscribe, subscribe_with, Failure, FormData, Stage, SubscribeError,
};
use newsletter::subscriptions_confirm::{
    confirm, get_subscriptions_confirm, ConfirmationError, Parameters,
};
use std::time::Duration;

const BASE_URL: &str = "http://localhost:8000";

fn spawn_app(email_server_status: u16) -> AppState {
    let sender = SubscriberEmail::parse("newsletter@example.com".to_string()).unwrap();
    let email_client = EmailClient::try_new(
        "http://127.0.0.1:9000",
        sender,
        "secret-token".to_string(),
        Duration::from_millis(200),
    )
    .unwrap();
    AppState {
        db: Store::new(),
        email_client,
        base_url: BASE_URL.to_string(),
        mail_server: MailServer::new(email_server_status),
    }
}

fn form(name: &str, email: &str) -> FormData {
    FormData { email: email.to_string(), name: name.to_string() }
}

fn issue() -> BodyData {
    BodyData {
        title: "Newsletter title".to_string(),
        content: Content {
            text: "Newsletter body as plain text".to_string(),
            html: "<p>Newsletter body as HTML</p>".to_string(),
        },
    }
}

/// The links found in `text`: each runs from `http` to the next blank or quote.
fn links(text: &str) -> Vec<String> {
    let mut found = Vec::new();
    let mut rest = text;
    while let Some(start) = rest.find("http") {
        let tail = &rest[start..];
        let end = tail.find(|c: char| c.is_whitespace() || c == '"').unwrap_or(tail.len());
        found.push(tail[..end].to_string());
        rest = &tail[end..];
    }
    found
}

fn confirmation_links(app: &AppState, index: usize) -> (String, String) {
    let request = &app.mail_server.received()[index];
    let html = links(&request.body.html_body);
    let text = links(&request.body.text_body);
    assert_eq!(html.len(), 1);
    assert_eq!(text.len(), 1);
    (html[0].clone(), text[0].clone())
}

fn token_of(link: &str) -> String {
    let prefix = format!("{}/subscriptions/confirm?subscription_token=", BASE_URL);
    assert!(link.starts_with(&prefix));
    link[prefix.len()..].to_string()
}

fn create_unconfirmed_subscriber(app: &mut AppState, name: &str, email: &str) -> String {
    let before = app.mail_server.received().len();
    assert_eq!(subscribe(app, form(name, email)).unwrap(), 200);
    let (html, _) = confirmation_links(app, before);
    token_of(&html)
}

fn create_confirmed_subscriber(app: &mut AppState, name: &str, email: &str) {
    let token = create_unconfirmed_subscriber(app, name, email);
    assert_eq!(confirm(app, Parameters { subscription_token: token }).unwrap(), 200);
}

#[test]
fn health_check_works() {
    assert_eq!(health_check(), 200);
}

#[test]
fn subscriptions_subscribe_returns_200_valid_form_data() {
    let mut app = spawn_app(200);
    let response = subscribe(&mut app, form("vic ji", "vic_ji_i@gmail.com"));
    assert_eq!(response.unwrap(), 200);
}

#[test]
fn subscribe_persists_the_new_subscriber() {
    let mut app = spawn_app(200);
    subscribe(&mut app, form("vic ji", "vic_ji_i@gmail.com")).unwrap();

    let saved = app.db.subscribers();
    assert_eq!(saved.len(), 1);
    assert_eq!(saved[0].email, "vic_ji_i@gmail.com");
    assert_eq!(saved[0].name, "vic ji");
    assert_eq!(saved[0].status.as_str(), "pending_confirmation");
}

#[test]
fn subscribe_stores_one_token_for_the_new_subscriber() {
    let mut app = spawn_app(200);
    subscribe(&mut app, form("vic ji", "vic_ji_i@gmail.com")).unwrap();

    let tokens = app.db.tokens();
    assert_eq!(tokens.len(), 1);
    assert_eq!(tokens[0].subscriber_id, app.db.subscribers()[0].id);
    assert_eq!(tokens[0].token.chars().count(), 25);
    assert_eq!(
        app.db.find_subscriber_id_by_token(&tokens[0].token),
        Some(app.db.subscribers()[0].id)
    );
}

#[test]
fn subscribe_draws_a_version_4_uuid() {
    let mut app = spawn_app(200);
    subscribe(&mut app, form("vic ji", "vic_ji_i@gmail.com")).unwrap();
    let id = app.db.subscribers()[0].id;
    assert_eq!((id >> 76) & 0xf, 4);
    assert_eq!((id >> 62) & 0x3, 2);
    assert_eq!(uuid::Uuid::from_u128(id).get_version_num(), 4);
}

#[test]
fn subscribe_returns_400_when_fields_are_present_but_invalid() {
    let test_cases = vec![
        ("", "vic_ji@gmail.com", "name is empty"),
        ("vic ji", "", "email is empty"),
        ("vic ji", "a-invalid-email", "invalid email"),
        ("vic/ji", "vic_ji@gmail.com", "name contains a slash"),
    ];
    for (name, email, description) in test_cases {
        let mut app = spawn_app(200);
        let error = subscribe(&mut app, form(name, email)).unwrap_err();
        assert_eq!(
            error.status_code(),
            400,
            "The API did not return 400 Bad Request when the payload was {}.",
            description
        );
        assert!(matches!(error, SubscribeError::ValidationError(_)));
        assert!(app.db.subscribers().is_empty());
        assert!(app.db.tokens().is_empty());
        assert!(app.mail_server.received().is_empty());
    }
}

#[test]
fn subscribe_reports_the_name_before_the_email() {
    let mut app = spawn_app(200);
    let error = subscribe(&mut app, form("", "")).unwrap_err();
    assert_eq!(error.message(), "Subscriber name cannot be empty");
    let error = subscribe(&mut app, form("vic ji", "")).unwrap_err();
    assert_eq!(error.message(), "Email address cannot be empty");
    let error = subscribe(&mut app, form("vic ji", "nope")).unwrap_err();
    assert_eq!(error.message(), "'nope' is not a valid email address");
    assert_eq!(severity(&error), Severity::Warn);
    let (code, body) = into_response(&error);
    assert_eq!(code, 400);
    assert_eq!(body.code(), 400);
    assert_eq!(body.message(), "'nope' is not a valid email address");
}

#[test]
fn subscribe_sends_a_confirmation_email_for_valid_data() {
    let mut app = spawn_app(200);
    subscribe(&mut app, form("vic ji", "vic_ji_i@gmail.com")).unwrap();

    let received = app.mail_server.received();
    assert_eq!(received.len(), 1);
    assert_eq!(received[0].url, "http://127.0.0.1:9000/email");
    assert_eq!(received[0].header_name, "X-Postmark-Server-Token");
    assert_eq!(received[0].header_value, "secret-token");
    assert_eq!(received[0].timeout, Duration::from_millis(200));
    assert_eq!(received[0].body.from, "newsletter@example.com");
    assert_eq!(received[0].body.to, "vic_ji_i@gmail.com");
    assert_eq!(received[0].body.subject, "Welcome!");
}

#[test]
fn subscribe_sends_a_confirmation_email_with_a_link() {
    let mut app = spawn_app(200);
    subscribe(&mut app, form("vic ji", "vic_ji_i@gmail.com")).unwrap();

    let (html, text) = confirmation_links(&app, 0);
    assert_eq!(html, text);
    assert_eq!(token_of(&html), app.db.tokens()[0].token);
}

#[test]
fn subscribe_with_builds_the_documented_bodies() {
    let mut app = spawn_app(200);
    let token = "abcdefghijklmnopqrstuvwxy".to_string();
    let response =
        subscribe_with(&mut app, form("vic ji", "vic_ji_i@gmail.com"), 7, 1_000_444, token);
    assert_eq!(response.unwrap(), 200);

    let saved = &app.db.subscribers()[0];
    assert_eq!(saved.id, 7);
    assert_eq!(saved.subscribed_at, 1_000_444);
    assert_eq!(saved.status, SubscriptionStatus::PendingConfirmation);
    assert_eq!(app.db.tokens()[0].token, "abcdefghijklmnopqrstuvwxy");
    assert_eq!(app.db.tokens()[0].subscriber_id, 7);

    let body = &app.mail_server.received()[0].body;
    let link =
        "http://localhost:8000/subscriptions/confirm?subscription_token=abcdefghijklmnopqrstuvwxy";
    assert_eq!(
        body.html_body,
        format!(
            "Welcome to our newsletter! We're glad to have you.<br />Click <a href=\"{}\">here</a> to confirm your subscription.",
            link
        )
    );
    assert_eq!(
        body.text_body,
        format!(
            "Welcome to our newsletter! We're glad to have you.\nVisit {} to confirm your subscription.",
            link
        )
    );
}

#[test]
fn subscribe_fails_when_the_email_is_not_taken_but_keeps_the_subscriber() {
    let mut app = spawn_app(500);
    let error = subscribe(&mut app, form("vic ji", "vic_ji_i@gmail.com")).unwrap_err();

    assert_eq!(error.status_code(), 500);
    assert_eq!(severity(&error), Severity::Error);
    assert_eq!(error.message(), "Failed to send a confirmation email.");
    assert!(matches!(
        error,
        SubscribeError::UnexpectedError(
            Stage::SendConfirmationEmail,
            Failure::Transport(TransportError::Status(500))
        )
    ));
    assert_eq!(app.db.subscribers().len(), 1);
    assert_eq!(app.db.subscribers()[0].status, SubscriptionStatus::PendingConfirmation);
    assert_eq!(app.db.tokens().len(), 1);
    assert_eq!(app.mail_server.received().len(), 1);
}

#[test]
fn subscribe_with_a_taken_id_is_a_conflict_and_stores_nothing() {
    let mut app = spawn_app(200);
    let first = "abcdefghijklmnopqrstuvwxy".to_string();
    let second = "ABCDEFGHIJKLMNOPQRSTUVWXY".to_string();
    subscribe_with(&mut app, form("vic ji", "vic_ji_i@gmail.com"), 7, 1, first).unwrap();

    let error =
        subscribe_with(&mut app, form("dhs doe", "dhs@example.com"), 7, 2, second).unwrap_err();
    assert!(matches!(
        error,
        SubscribeError::UnexpectedError(
            Stage::InsertSubscriber,
            Failure::Store(StoreError::Conflict)
        )
    ));
    assert_eq!(error.status_code(), 500);
    assert_eq!(error.message(), "Failed to insert new subscriber in the database.");
    assert_eq!(app.db.subscribers().len(), 1);
    assert_eq!(app.db.tokens().len(), 1);
    assert_eq!(app.mail_server.received().len(), 1);
}

#[test]
fn subscribe_with_a_taken_token_is_a_conflict_and_stores_nothing() {
    let mut app = spawn_app(200);
    let token = "abcdefghijklmnopqrstuvwxy".to_string();
    subscribe_with(&mut app, form("vic ji", "vic_ji_i@gmail.com"), 7, 1, token.clone()).unwrap();

    let error =
        subscribe_with(&mut app, form("dhs doe", "dhs@example.com"), 8, 2, token).unwrap_err();
    assert!(matches!(
        error,
        SubscribeError::UnexpectedError(Stage::StoreToken, Failure::Store(StoreError::Conflict))
    ));
    assert_eq!(
        error.message(),
        "Failed to store the confirmation token for a new subscriber."
    );
    assert_eq!(app.db.subscribers().len(), 1);
    assert_eq!(app.db.subscribers()[0].id, 7);
    assert_eq!(app.db.tokens().len(), 1);
    assert_eq!(app.mail_server.received().len(), 1);
}

#[test]
fn two_subscriptions_get_different_ids_and_tokens() {
    let mut app = spawn_app(200);
    subscribe(&mut app, form("vic ji", "vic_ji_i@gmail.com")).unwrap();
    subscribe(&mut app, form("dhs doe", "dhs_ni_hao@example.com")).unwrap();
    let saved = app.db.subscribers();
    let tokens = app.db.tokens();
    assert_eq!(saved.len(), 2);
    assert_eq!(tokens.len(), 2);
    assert_ne!(saved[0].id, saved[1].id);
    assert_ne!(tokens[0].token, tokens[1].token);
}

#[test]
fn confirmation_with_an_unknown_token_is_rejected_with_a_401() {
    let mut app = spawn_app(200);
    create_unconfirmed_subscriber(&mut app, "dhs doe", "dhs_ni_hao@example.com");

    let error = confirm(
        &mut app,
        Parameters { subscription_token: "never-issued".to_string() },
    )
    .unwrap_err();

    assert_eq!(error, ConfirmationError::UnknownToken);
    assert_eq!(error.status_code(), 401);
    assert_eq!(
        error.message(),
        "There is no subscriber associated with the provided token."
    );
    let (code, body) = into_response(&error);
    assert_eq!(code, 401);
    assert_eq!(body.code(), 401);
    assert_eq!(app.db.subscribers().len(), 1);
    assert_eq!(app.db.subscribers()[0].status, SubscriptionStatus::PendingConfirmation);
}

#[test]
fn confirmations_without_token_are_rejected_with_a_400() {
    let mut app = spawn_app(200);
    create_unconfirmed_subscriber(&mut app, "dhs doe", "dhs_ni_hao@example.com");

    let status = get_subscriptions_confirm(&mut app, None);

    assert_eq!(status, 400);
    assert_eq!(app.db.subscribers()[0].status, SubscriptionStatus::PendingConfirmation);
}

#[test]
fn the_confirmation_route_answers_401_then_200() {
    let mut app = spawn_app(200);
    let token = create_unconfirmed_subscriber(&mut app, "dhs doe", "dhs_ni_hao@example.com");

    assert_eq!(get_subscriptions_confirm(&mut app, Some("never-issued".to_string())), 401);
    assert_eq!(app.db.subscribers()[0].status, SubscriptionStatus::PendingConfirmation);
    assert_eq!(get_subscriptions_confirm(&mut app, Some(token.clone())), 200);
    assert_eq!(app.db.subscribers()[0].status, SubscriptionStatus::Confirmed);
    assert_eq!(get_subscriptions_confirm(&mut app, Some(token)), 200);
    assert_eq!(app.db.subscribers()[0].status, SubscriptionStatus::Confirmed);
}

#[test]
fn the_same_email_may_subscribe_twice() {
    let mut app = spawn_app(200);
    assert_eq!(subscribe(&mut app, form("vic ji", "vic_ji_i@gmail.com")).unwrap(), 200);
    assert_eq!(subscribe(&mut app, form("vic ji", "vic_ji_i@gmail.com")).unwrap(), 200);
    assert_eq!(app.db.subscribers().len(), 2);
    assert_eq!(app.db.tokens().len(), 2);
}

#[test]
fn the_link_returned_by_subscribe_returns_a_200_if_called() {
    let mut app = spawn_app(200);
    subscribe(&mut app, form("dhs doe", "dhs_ni_hao@example.com")).unwrap();
    let (html, _) = confirmation_links(&app, 0);

    let response = confirm(&mut app, Parameters { subscription_token: token_of(&html) });

    assert_eq!(response.unwrap(), 200);
}

#[test]
fn clicking_on_the_confirmation_link_confirms_a_subscriber() {
    let mut app = spawn_app(200);
    subscribe(&mut app, form("dhs doe", "dhs_ni_hao@example.com")).unwrap();
    let (html, _) = confirmation_links(&app, 0);

    confirm(&mut app, Parameters { subscription_token: token_of(&html) }).unwrap();

    let saved = app.db.subscribers();
    assert_eq!(saved.len(), 1);
    assert_eq!(saved[0].email, "dhs_ni_hao@example.com");
    assert_eq!(saved[0].name, "dhs doe");
    assert_eq!(saved[0].status.as_str(), "confirmed");
}

#[test]
fn confirming_twice_succeeds_twice_and_changes_nothing_more() {
    let mut app = spawn_app(200);
    let token = create_unconfirmed_subscriber(&mut app, "dhs doe", "dhs_ni_hao@example.com");
    create_unconfirmed_subscriber(&mut app, "vic ji", "vic_ji_i@gmail.com");

    let first = confirm(&mut app, Parameters { subscription_token: token.clone() });
    let second = confirm(&mut app, Parameters { subscription_token: token });

    assert_eq!(first.unwrap(), 200);
    assert_eq!(second.unwrap(), 200);
    let saved = app.db.subscribers();
    assert_eq!(saved[0].status, SubscriptionStatus::Confirmed);
    assert_eq!(saved[1].status, SubscriptionStatus::PendingConfirmation);
    assert_eq!(app.mail_server.received().len(), 2);
}

#[test]
fn newsletter_are_not_delivered_to_unconfirmed_subscribers() {
    let mut app = spawn_app(200);
    create_unconfirmed_subscriber(&mut app, "vic ji", "vic_ji_i@gmail.com");
    let before = app.mail_server.received().len();

    let response = publish_newsletter(&mut app, issue());

    assert_eq!(response.unwrap(), 200);
    assert_eq!(app.mail_server.received().len(), before);
}

#[test]
fn newsletters_are_delivered_to_confirmed_subscribers() {
    let mut app = spawn_app(200);
    create_confirmed_subscriber(&mut app, "vic ji", "vic_ji_i@gmail.com");
    let before = app.mail_server.received().len();

    let response = publish_newsletter(&mut app, issue());

    assert_eq!(response.unwrap(), 200);
    let received = app.mail_server.received();
    assert_eq!(received.len(), before + 1);
    let request = &received[before];
    assert_eq!(request.url, "http://127.0.0.1:9000/email");
    assert_eq!(request.body.from, "newsletter@example.com");
    assert_eq!(request.body.to, "vic_ji_i@gmail.com");
    assert_eq!(request.body.subject, "Newsletter title");
    assert_eq!(request.body.html_body, "<p>Newsletter body as HTML</p>");
    assert_eq!(request.body.text_body, "Newsletter body as plain text");
}

#[test]
fn newsletters_reach_the_confirmed_subscriber_only() {
    let mut app = spawn_app(200);
    create_confirmed_subscriber(&mut app, "vic ji", "vic_ji_i@gmail.com");
    create_unconfirmed_subscriber(&mut app, "dhs doe", "dhs_ni_hao@example.com");
    let before = app.mail_server.received().len();

    let response = publish_newsletter(&mut app, issue());

    assert_eq!(response.unwrap(), 200);
    let received = app.mail_server.received();
    assert_eq!(received.len(), before + 1);
    assert_eq!(received[before].body.to, "vic_ji_i@gmail.com");
}

#[test]
fn a_failed_delivery_does_not_stop_the_dispatch() {
    let mut app = spawn_app(200);
    create_confirmed_subscriber(&mut app, "vic ji", "vic_ji_i@gmail.com");
    create_confirmed_subscriber(&mut app, "dhs doe", "dhs_ni_hao@example.com");
    app.mail_server = MailServer::new(500);

    let report = dispatch(&mut app, issue()).unwrap();

    assert_eq!(report, DispatchReport { delivered: 0, failed: 2, skipped: 0 });
    let received = app.mail_server.received();
    assert_eq!(received.len(), 2);
    assert_eq!(received[0].body.to, "vic_ji_i@gmail.com");
    assert_eq!(received[1].body.to, "dhs_ni_hao@example.com");
    assert_eq!(publish_newsletter(&mut app, issue()).unwrap(), 200);
}

#[test]
fn a_stored_email_that_is_not_valid_is_skipped() {
    let mut app = spawn_app(200);
    let tx_rows = vec![
        (1u128, "vic_ji_i@gmail.com", SubscriptionStatus::Confirmed),
        (2u128, "not-an-email", SubscriptionStatus::Confirmed),
        (3u128, "dhs_ni_hao@example.com", SubscriptionStatus::Confirmed),
        (4u128, "pending@example.com", SubscriptionStatus::PendingConfirmation),
    ];
    let mut tx = app.db.begin();
    for (id, email, status) in tx_rows {
        let row = Subscriber {
            id,
            email: email.to_string(),
            name: "someone".to_string(),
            subscribed_at: 0,
            status,
        };
        app.db.insert_subscriber(&mut tx, row).unwrap();
    }
    app.db.commit(tx).unwrap();

    let report = dispatch(&mut app, issue()).unwrap();

    assert_eq!(report, DispatchReport { delivered: 2, failed: 0, skipped: 1 });
    let received = app.mail_server.received();
    assert_eq!(received.len(), 2);
    assert_eq!(received[0].body.to, "vic_ji_i@gmail.com");
    assert_eq!(received[1].body.to, "dhs_ni_hao@example.com");
}

#[test]
fn a_newsletter_without_subscribers_sends_nothing() {
    let mut app = spawn_app(200);
    let report = dispatch(&mut app, issue()).unwrap();
    assert_eq!(report, DispatchReport { delivered: 0, failed: 0, skipped: 0 });
    assert!(app.mail_server.received().is_empty());
}

#[test]
fn a_token_row_for_nobody_is_refused() {
    let app = spawn_app(200);
    let mut tx = app.db.begin();
    let row = SubscriptionToken { token: "t".to_string(), subscriber_id: 9 };
    assert_eq!(app.db.insert_token(&mut tx, row), Err(StoreError::Conflict));
}
