use newsletter::domain::{NewSubscriber, SubscriberEmail, SubscriberName};
use newsletter::email_client::TransportError;
use newsletter::newsletters::{
    get_confirmed_subscribers, BodyData, Content, Dispatch, DispatchProgress, DispatchReport,
    PublishError,
};
use newsletter::router::{into_response, severity, ResponseError, Severity};
use newsletter::store::{StoreError, SubscriptionStatus};
use newsletter::subscriptions::{
    send_confirmation_email, Failure, FormData, Stage, SubscribeAction, SubscribeError,
    SubscribeProgress, Subscription,
};
use newsletter::subscriptions_confirm::{
    ConfirmAction, ConfirmProgress, ConfirmStage, Confirmation, ConfirmationError, Parameters,
};

fn new_subscriber() -> NewSubscriber {
    NewSubscriber {
        email: SubscriberEmail::parse("vic_ji_i@gmail.com".to_string()).unwrap(),
        name: SubscriberName::parse("vic ji".to_string()).unwrap(),
    }
}

fn subscription() -> Subscription {
    Subscription::begin(
        new_subscriber(),
        "https://example.com",
        42,
        1_000_444,
        "abcdefghijklmnopqrstuvwxy".to_string(),
    )
}

fn next(progress: SubscribeProgress) -> Subscription {
    match progress {
        SubscribeProgress::Continue(subscription) => subscription,
        SubscribeProgress::Finished(result) => panic!("finished early: {:?}", result),
    }
}

fn issue() -> BodyData {
    BodyData {
        title: "Newsletter title".to_string(),
        content: Content {
            text: "Newsletter body as plain text".to_string(),
            html: "<p>Newsletter body as HTML</p>".to_string(),
        },
    }
}

#[test]
fn a_subscription_takes_its_five_steps_in_order() {
    let s = subscription();
    assert_eq!(s.stage, Stage::AcquireConnection);
    assert!(matches!(s.action(), SubscribeAction::BeginTransaction));

    let s = next(s.advance(Ok(())));
    assert_eq!(s.stage, Stage::InsertSubscriber);
    match s.action() {
        SubscribeAction::InsertSubscriber(row) => {
            assert_eq!(row.id, 42);
            assert_eq!(row.email, "vic_ji_i@gmail.com");
            assert_eq!(row.name, "vic ji");
            assert_eq!(row.subscribed_at, 1_000_444);
            assert_eq!(row.status, SubscriptionStatus::PendingConfirmation);
        }
        other => panic!("unexpected action: {:?}", other),
    }

    let s = next(s.advance(Ok(())));
    assert_eq!(s.stage, Stage::StoreToken);
    match s.action() {
        SubscribeAction::InsertToken(row) => {
            assert_eq!(row.token, "abcdefghijklmnopqrstuvwxy");
            assert_eq!(row.subscriber_id, 42);
        }
        other => panic!("unexpected action: {:?}", other),
    }

    let s = next(s.advance(Ok(())));
    assert_eq!(s.stage, Stage::Commit);
    assert!(matches!(s.action(), SubscribeAction::Commit));

    let s = next(s.advance(Ok(())));
    assert_eq!(s.stage, Stage::SendConfirmationEmail);
    match s.action() {
        SubscribeAction::SendEmail(email) => {
            assert_eq!(email.recipient.as_str(), "vic_ji_i@gmail.com");
            assert_eq!(email.subject, "Welcome!");
            assert!(email.html_content.contains(
                "https://example.com/subscriptions/confirm?subscription_token=abcdefghijklmnopqrstuvwxy"
            ));
            assert!(email.text_content.contains(
                "https://example.com/subscriptions/confirm?subscription_token=abcdefghijklmnopqrstuvwxy"
            ));
        }
        other => panic!("unexpected action: {:?}", other),
    }

    assert!(matches!(s.advance(Ok(())), SubscribeProgress::Finished(Ok(()))));
}

#[test]
fn a_failure_ends_the_subscription_at_its_step() {
    let cases = vec![
        (0, Stage::AcquireConnection, "Failed to acquire a Postgres connection from the pool."),
        (1, Stage::InsertSubscriber, "Failed to insert new subscriber in the database."),
        (2, Stage::StoreToken, "Failed to store the confirmation token for a new subscriber."),
        (3, Stage::Commit, "Failed to commit SQL transaction to store a new subscriber."),
        (4, Stage::SendConfirmationEmail, "Failed to send a confirmation email."),
    ];
    for (steps, stage, message) in cases {
        let mut s = subscription();
        for _ in 0..steps {
            s = next(s.advance(Ok(())));
        }
        let failure = if stage == Stage::SendConfirmationEmail {
            Failure::Transport(TransportError::Timeout)
        } else {
            Failure::Store(StoreError::Unavailable)
        };
        match s.advance(Err(failure)) {
            SubscribeProgress::Finished(Err(SubscribeError::UnexpectedError(at, cause))) => {
                assert_eq!(at, stage);
                assert_eq!(cause, failure);
                let error = SubscribeError::UnexpectedError(at, cause);
                assert_eq!(error.status_code(), 500);
                assert_eq!(error.message(), message);
                assert_eq!(at.failure_message(), message);
            }
            other => panic!("unexpected progress: {:?}", other),
        }
    }
}

#[test]
fn the_stages_follow_each_other() {
    assert_eq!(Stage::AcquireConnection.next(), Some(Stage::InsertSubscriber));
    assert_eq!(Stage::InsertSubscriber.next(), Some(Stage::StoreToken));
    assert_eq!(Stage::StoreToken.next(), Some(Stage::Commit));
    assert_eq!(Stage::Commit.next(), Some(Stage::SendConfirmationEmail));
    assert_eq!(Stage::SendConfirmationEmail.next(), None);
}

#[test]
fn starting_with_an_invalid_form_ends_at_once() {
    let form = FormData { email: "a-invalid-email".to_string(), name: "vic ji".to_string() };
    match Subscription::start(form, "https://example.com") {
        SubscribeProgress::Finished(Err(SubscribeError::ValidationError(message))) => {
            assert_eq!(message, "'a-invalid-email' is not a valid email address");
        }
        other => panic!("unexpected progress: {:?}", other),
    }
}

#[test]
fn starting_with_a_valid_form_draws_id_and_token() {
    let form = FormData { email: "vic_ji_i@gmail.com".to_string(), name: "vic ji".to_string() };
    let s = next(Subscription::start(form, "https://example.com"));
    assert_eq!(s.stage, Stage::AcquireConnection);
    assert_eq!(s.base_url, "https://example.com");
    assert_eq!(s.subscriber.name.as_str(), "vic ji");
    assert_eq!(s.subscriber.email.as_str(), "vic_ji_i@gmail.com");
    assert_eq!(s.token.chars().count(), 25);
    assert!(s.token.chars().all(|c| c.is_ascii_alphanumeric()));
    assert_eq!(uuid::Uuid::from_u128(s.subscriber_id).get_version_num(), 4);
    // After 2020 and before 2100, in microseconds.
    assert!(s.subscribed_at > 1_577_836_800_000_000);
    assert!(s.subscribed_at < 4_102_444_800_000_000);
}

#[test]
fn the_confirmation_email_carries_the_link_twice() {
    let email = send_confirmation_email(&new_subscriber(), "http://127.0.0.1", "TOKEN");
    assert_eq!(email.recipient.as_str(), "vic_ji_i@gmail.com");
    assert_eq!(email.subject, "Welcome!");
    assert_eq!(
        email.html_content,
        "Welcome to our newsletter! We're glad to have you.<br />Click <a href=\"http://127.0.0.1/subscriptions/confirm?subscription_token=TOKEN\">here</a> to confirm your subscription."
    );
    assert_eq!(
        email.text_content,
        "Welcome to our newsletter! We're glad to have you.\nVisit http://127.0.0.1/subscriptions/confirm?subscription_token=TOKEN to confirm your subscription."
    );
}

#[test]
fn a_confirmation_looks_up_then_updates() {
    let c = Confirmation::start(Parameters { subscription_token: "TOKEN".to_string() });
    match c.action() {
        ConfirmAction::FindSubscriberId(token) => assert_eq!(token, "TOKEN"),
        other => panic!("unexpected action: {:?}", other),
    }
    let c = match c.advance(Ok(Some(42))) {
        ConfirmProgress::Continue(c) => c,
        other => panic!("unexpected progress: {:?}", other),
    };
    assert!(matches!(c.action(), ConfirmAction::MarkConfirmed(42)));
    assert!(matches!(c.advance(Ok(None)), ConfirmProgress::Finished(Ok(()))));
}

#[test]
fn a_confirmation_with_an_unknown_token_is_not_authorized() {
    let c = Confirmation::start(Parameters { subscription_token: "TOKEN".to_string() });
    match c.advance(Ok(None)) {
        ConfirmProgress::Finished(Err(error)) => {
            assert_eq!(error, ConfirmationError::UnknownToken);
            assert_eq!(error.status_code(), 401);
            assert_eq!(severity(&error), Severity::Warn);
        }
        other => panic!("unexpected progress: {:?}", other),
    }
}

#[test]
fn a_store_failure_ends_the_confirmation_at_its_step() {
    let c = Confirmation::start(Parameters { subscription_token: "TOKEN".to_string() });
    match c.advance(Err(StoreError::Unavailable)) {
        ConfirmProgress::Finished(Err(error)) => {
            assert_eq!(
                error,
                ConfirmationError::UnexpectedError(
                    ConfirmStage::FindSubscriber,
                    StoreError::Unavailable
                )
            );
            assert_eq!(error.status_code(), 500);
            assert_eq!(
                error.message(),
                "Failed to retrieve the subscriber id associated with the provided token."
            );
        }
        other => panic!("unexpected progress: {:?}", other),
    }
    match Confirmation::MarkConfirmed(42).advance(Err(StoreError::Conflict)) {
        ConfirmProgress::Finished(Err(error)) => {
            assert_eq!(
                error,
                ConfirmationError::UnexpectedError(
                    ConfirmStage::MarkConfirmed,
                    StoreError::Conflict
                )
            );
            assert_eq!(error.message(), "Failed to update the subscriber status to `confirmed`.");
            let (code, body) = into_response(&error);
            assert_eq!(code, 500);
            assert_eq!(body.code(), 500);
            assert_eq!(body.message(), "Failed to update the subscriber status to `confirmed`.");
        }
        other => panic!("unexpected progress: {:?}", other),
    }
}

#[test]
fn stored_emails_are_judged_row_by_row() {
    let rows = vec![
        "vic_ji_i@gmail.com".to_string(),
        "".to_string(),
        "nope".to_string(),
        "dhs_ni_hao@example.com".to_string(),
    ];
    let judged = get_confirmed_subscribers(&rows);
    assert_eq!(judged.len(), 4);
    assert_eq!(judged[0].as_ref().unwrap().email.as_str(), "vic_ji_i@gmail.com");
    assert_eq!(judged[1].as_ref().unwrap_err(), "Email address cannot be empty");
    assert_eq!(judged[2].as_ref().unwrap_err(), "'nope' is not a valid email address");
    assert_eq!(judged[3].as_ref().unwrap().email.as_str(), "dhs_ni_hao@example.com");
}

#[test]
fn a_dispatch_goes_through_the_valid_rows_whatever_the_transport_says() {
    let rows = vec![
        "a@example.com".to_string(),
        "nope".to_string(),
        "b@example.com".to_string(),
        "c@example.com".to_string(),
    ];
    let d = match Dispatch::start(issue(), Ok(rows)) {
        DispatchProgress::Continue(d) => d,
        other => panic!("unexpected progress: {:?}", other),
    };
    let email = d.action();
    assert_eq!(email.recipient.as_str(), "a@example.com");
    assert_eq!(email.subject, "Newsletter title");
    assert_eq!(email.html_content, "<p>Newsletter body as HTML</p>");
    assert_eq!(email.text_content, "Newsletter body as plain text");

    let d = match d.advance(Err(TransportError::Status(500))) {
        DispatchProgress::Continue(d) => d,
        other => panic!("unexpected progress: {:?}", other),
    };
    assert_eq!(d.action().recipient.as_str(), "b@example.com");

    let d = match d.advance(Ok(())) {
        DispatchProgress::Continue(d) => d,
        other => panic!("unexpected progress: {:?}", other),
    };
    assert_eq!(d.action().recipient.as_str(), "c@example.com");

    match d.advance(Err(TransportError::Timeout)) {
        DispatchProgress::Finished(Ok(report)) => {
            assert_eq!(report, DispatchReport { delivered: 1, failed: 2, skipped: 1 });
        }
        other => panic!("unexpected progress: {:?}", other),
    }
}

#[test]
fn a_dispatch_without_valid_rows_is_over_at_once() {
    match Dispatch::start(issue(), Ok(vec!["nope".to_string(), "".to_string()])) {
        DispatchProgress::Finished(Ok(report)) => {
            assert_eq!(report, DispatchReport { delivered: 0, failed: 0, skipped: 2 });
        }
        other => panic!("unexpected progress: {:?}", other),
    }
}

#[test]
fn a_dispatch_fails_when_the_subscribers_cannot_be_read() {
    match Dispatch::start(issue(), Err(StoreError::Unavailable)) {
        DispatchProgress::Finished(Err(error)) => {
            assert_eq!(error, PublishError::UnexpectedError(StoreError::Unavailable));
            assert_eq!(error.status_code(), 500);
            assert_eq!(severity(&error), Severity::Error);
            assert_eq!(error.message(), "Failed to retrieve the confirmed subscribers.");
            let (code, body) = into_response(&error);
            assert_eq!(code, 500);
            assert_eq!(body.code(), 500);
            assert_eq!(body.message(), "Failed to retrieve the confirmed subscribers.");
        }
        other => panic!("unexpected progress: {:?}", other),
    }
}
