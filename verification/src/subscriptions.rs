use crate::domain::new_subscriber::NewSubscriber;
use crate::domain::subscriber_email::{email_rejection, is_valid_email, SubscriberEmail};
use crate::domain::subscriber_name::{is_valid_name, name_rejection, SubscriberName};
use crate::email_client::{Email, EmailText, TransportError};
use crate::email_client::EmailClient;
use crate::router::{AppState, ResponseError, World, BAD_REQUEST, INTERNAL_SERVER_ERROR, OK};
use crate::store::{
    has_id, has_token, StoreError, Subscriber, SubscriberRow, SubscriptionStatus,
    SubscriptionToken, Tables, TokenRow,
};
use crate::token::{generate_subscription_token, is_subscription_token};
use chrono::Utc;
use uuid::Uuid;
use vstd::prelude::*;

verus! {

/// The fields of a subscription request, as the client sent them.
#[derive(Debug)]
pub struct FormData {
    pub email: String,
    pub name: String,
}

/// Both fields of the form are acceptable.
pub open spec fn is_valid_form(name: Seq<char>, email: Seq<char>) -> bool {
    is_valid_name(name) && is_valid_email(email)
}

/// What a form that is not acceptable is answered with: the name is judged first.
pub open spec fn form_rejection(name: Seq<char>, email: Seq<char>) -> Seq<char> {
    if !is_valid_name(name) {
        name_rejection(name)
    } else {
        email_rejection(email)
    }
}

impl NewSubscriber {
    /// Validates the name, then the email, and reports the first that fails.
    pub fn try_from(form: FormData) -> (r: Result<NewSubscriber, String>)
        ensures
            match r {
                Ok(subscriber) => {
                    &&& is_valid_form(form.name@, form.email@)
                    &&& subscriber.name@ == form.name@
                    &&& subscriber.email@ == form.email@
                },
                Err(message) => {
                    &&& !is_valid_form(form.name@, form.email@)
                    &&& message@ == form_rejection(form.name@, form.email@)
                },
            },
    {
        let name = match SubscriberName::parse(form.name) {
            Ok(name) => name,
            Err(message) => {
                return Err(message);
            },
        };
        let email = match SubscriberEmail::parse(form.email) {
            Ok(email) => email,
            Err(message) => {
                return Err(message);
            },
        };
        Ok(NewSubscriber { email, name })
    }
}

/// The steps of a subscription, in the order in which they are taken.
#[derive(Clone, Copy, Debug, PartialEq, Eq, Structural)]
pub enum Stage {
    AcquireConnection,
    InsertSubscriber,
    StoreToken,
    Commit,
    SendConfirmationEmail,
}

impl Stage {
    /// What is reported when this step fails.
    pub open spec fn spec_failure_message(self) -> Seq<char> {
        match self {
            Stage::AcquireConnection => "Failed to acquire a Postgres connection from the pool."@,
            Stage::InsertSubscriber => "Failed to insert new subscriber in the database."@,
            Stage::StoreToken => "Failed to store the confirmation token for a new subscriber."@,
            Stage::Commit => "Failed to commit SQL transaction to store a new subscriber."@,
            Stage::SendConfirmationEmail => "Failed to send a confirmation email."@,
        }
    }

    /// What is reported when this step fails.
    pub fn failure_message(&self) -> (r: &'static str)
        ensures
            r@ == self.spec_failure_message(),
    {
        match self {
            Stage::AcquireConnection => "Failed to acquire a Postgres connection from the pool.",
            Stage::InsertSubscriber => "Failed to insert new subscriber in the database.",
            Stage::StoreToken => "Failed to store the confirmation token for a new subscriber.",
            Stage::Commit => "Failed to commit SQL transaction to store a new subscriber.",
            Stage::SendConfirmationEmail => "Failed to send a confirmation email.",
        }
    }

    /// How many steps remain once this one is done.
    pub open spec fn remaining(self) -> nat {
        match self {
            Stage::AcquireConnection => 4,
            Stage::InsertSubscriber => 3,
            Stage::StoreToken => 2,
            Stage::Commit => 1,
            Stage::SendConfirmationEmail => 0,
        }
    }

    /// The step that follows this one; the last step is followed by none.
    pub open spec fn spec_next(self) -> Option<Stage> {
        match self {
            Stage::AcquireConnection => Some(Stage::InsertSubscriber),
            Stage::InsertSubscriber => Some(Stage::StoreToken),
            Stage::StoreToken => Some(Stage::Commit),
            Stage::Commit => Some(Stage::SendConfirmationEmail),
            Stage::SendConfirmationEmail => None,
        }
    }

    /// The step that follows this one; the last step is followed by none.
    pub fn next(&self) -> (r: Option<Stage>)
        ensures
            r == self.spec_next(),
    {
        match self {
            Stage::AcquireConnection => Some(Stage::InsertSubscriber),
            Stage::InsertSubscriber => Some(Stage::StoreToken),
            Stage::StoreToken => Some(Stage::Commit),
            Stage::Commit => Some(Stage::SendConfirmationEmail),
            Stage::SendConfirmationEmail => None,
        }
    }
}

/// What went wrong outside the workflow.
#[derive(Clone, Copy, Debug, PartialEq, Eq, Structural)]
pub enum Failure {
    Store(StoreError),
    Transport(TransportError),
}

/// Why a subscription request failed.
#[derive(Debug)]
pub enum SubscribeError {
    /// The form was not acceptable; the message says why.
    ValidationError(String),
    /// The store or the transport failed at the given step.
    UnexpectedError(Stage, Failure),
}

impl ResponseError for SubscribeError {
    /// The text that the client is shown.
    open spec fn spec_message(&self) -> Seq<char> {
        match self {
            SubscribeError::ValidationError(message) => message@,
            SubscribeError::UnexpectedError(stage, _) => stage.spec_failure_message(),
        }
    }

    /// The HTTP status that answers the request.
    open spec fn spec_status_code(&self) -> u16 {
        match self {
            SubscribeError::ValidationError(_) => BAD_REQUEST,
            SubscribeError::UnexpectedError(_, _) => INTERNAL_SERVER_ERROR,
        }
    }

    /// The HTTP status that answers the request: a client error for a form that is not
    /// acceptable, a server error for everything else.
    fn status_code(&self) -> (code: u16) {
        match self {
            SubscribeError::ValidationError(_) => BAD_REQUEST,
            SubscribeError::UnexpectedError(_, _) => INTERNAL_SERVER_ERROR,
        }
    }

    /// The text that the client is shown: the validation message, or the name of the step
    /// that failed; never the cause of the failure.
    fn message(&self) -> (text: String) {
        match self {
            SubscribeError::ValidationError(message) => message.clone(),
            SubscribeError::UnexpectedError(stage, _) => String::from_str(stage.failure_message()),
        }
    }
}

/// The link that confirms the subscription holding `token`.
pub open spec fn confirmation_link(base_url: Seq<char>, token: Seq<char>) -> Seq<char> {
    base_url + "/subscriptions/confirm?subscription_token="@ + token
}

/// The subject of the confirmation email.
pub open spec fn confirmation_subject() -> Seq<char> {
    "Welcome!"@
}

/// The HTML body of the confirmation email.
pub open spec fn confirmation_html(link: Seq<char>) -> Seq<char> {
    "Welcome to our newsletter! We're glad to have you.<br />Click <a href=\""@ + link
        + "\">here</a> to confirm your subscription."@
}

/// The plain-text body of the confirmation email.
pub open spec fn confirmation_text(link: Seq<char>) -> Seq<char> {
    "Welcome to our newsletter! We're glad to have you.\nVisit "@ + link
        + " to confirm your subscription."@
}

/// The confirmation email to `recipient` for the subscription holding `token`.
pub open spec fn confirmation_email(
    recipient: Seq<char>,
    base_url: Seq<char>,
    token: Seq<char>,
) -> EmailText {
    EmailText {
        recipient,
        subject: confirmation_subject(),
        html_content: confirmation_html(confirmation_link(base_url, token)),
        text_content: confirmation_text(confirmation_link(base_url, token)),
    }
}

/// Builds the confirmation email: both bodies carry the same link, the base URL followed
/// by the confirmation path and the token as its query parameter.
pub fn send_confirmation_email(
    new_subscriber: &NewSubscriber,
    base_url: &str,
    subscription_token: &str,
) -> (email: Email)
    ensures
        email@ == confirmation_email(new_subscriber.email@, base_url@, subscription_token@),
{
    let mut link = String::from_str(base_url);
    link.append("/subscriptions/confirm?subscription_token=");
    link.append(subscription_token);
    let mut html_content = String::from_str(
        "Welcome to our newsletter! We're glad to have you.<br />Click <a href=\"",
    );
    html_content.append(link.as_str());
    html_content.append("\">here</a> to confirm your subscription.");
    let mut text_content = String::from_str(
        "Welcome to our newsletter! We're glad to have you.\nVisit ",
    );
    text_content.append(link.as_str());
    text_content.append(" to confirm your subscription.");
    Email {
        recipient: new_subscriber.email.clone(),
        subject: String::from_str("Welcome!"),
        html_content,
        text_content,
    }
}

/// The shape of a version 4 UUID: the version field holds 4 and the variant field the bits
/// `10`.
pub open spec fn is_random_uuid(id: u128) -> bool {
    (id / 0x1000_0000_0000_0000_0000) % 0x10 == 4 && (id / 0x4000_0000_0000_0000) % 4 == 2
}

/// `uuid::Uuid::new_v4`, read with `uuid::Uuid::as_u128`: a random UUID from the operating
/// system's generator, as its 128 bits. Whatever is drawn, version and variant are those of
/// a version 4 UUID.
#[verifier::external_body]
fn new_subscriber_id() -> (id: u128)
    ensures
        is_random_uuid(id),
{
    Uuid::new_v4().as_u128()
}

/// `chrono::Utc::now`, read with `chrono::DateTime::timestamp_micros`: the current time in
/// microseconds since the Unix epoch. Nothing is claimed of the value.
#[verifier::external_body]
fn now_micros() -> i64 {
    Utc::now().timestamp_micros()
}

/// A subscription on its way through the workflow: who subscribes, the id, time and token
/// drawn for them, and the step that is to be taken next.
#[derive(Debug)]
pub struct Subscription {
    pub stage: Stage,
    pub subscriber: NewSubscriber,
    pub subscriber_id: u128,
    pub subscribed_at: i64,
    pub token: String,
    pub base_url: String,
}

/// What the workflow asks its caller to do next.
#[derive(Debug)]
pub enum SubscribeAction {
    /// Open a transaction on the store.
    BeginTransaction,
    /// Insert this subscriber within the transaction.
    InsertSubscriber(Subscriber),
    /// Insert this token within the transaction.
    InsertToken(SubscriptionToken),
    /// Commit the transaction.
    Commit,
    /// Hand this email to the transport.
    SendEmail(Email),
}

/// Where the workflow stands after a step.
#[derive(Debug)]
pub enum SubscribeProgress {
    /// There is a further step to take.
    Continue(Subscription),
    /// The workflow is over, with this result. The caller gives up what is left of the
    /// transaction: after an error that precedes the commit the store sees nothing of it.
    Finished(Result<(), SubscribeError>),
}

impl Subscription {
    /// The row that is inserted into `subscriptions`.
    pub open spec fn row(&self) -> SubscriberRow {
        SubscriberRow {
            id: self.subscriber_id,
            email: self.subscriber.email@,
            name: self.subscriber.name@,
            subscribed_at: self.subscribed_at,
            status: SubscriptionStatus::PendingConfirmation,
        }
    }

    /// The row that is inserted into `subscription_tokens`.
    pub open spec fn token_row(&self) -> TokenRow {
        TokenRow { token: self.token@, subscriber_id: self.subscriber_id }
    }

    /// The confirmation email that is sent.
    pub open spec fn email(&self) -> EmailText {
        confirmation_email(self.subscriber.email@, self.base_url@, self.token@)
    }

    /// The same subscription at the step `stage`.
    pub open spec fn at(self, stage: Stage) -> Subscription {
        Subscription { stage, ..self }
    }

    /// Validates the form and, where it is acceptable, draws a fresh id, the current time
    /// and a fresh token for the subscriber; the first step is then to acquire a
    /// connection. A form that is not acceptable ends the workflow at once.
    pub fn start(form: FormData, base_url: &str) -> (progress: SubscribeProgress)
        ensures
            match progress {
                SubscribeProgress::Continue(subscription) => {
                    &&& is_valid_form(form.name@, form.email@)
                    &&& subscription.stage == Stage::AcquireConnection
                    &&& subscription.subscriber.name@ == form.name@
                    &&& subscription.subscriber.email@ == form.email@
                    &&& subscription.base_url@ == base_url@
                    &&& is_random_uuid(subscription.subscriber_id)
                    &&& is_subscription_token(subscription.token@)
                },
                SubscribeProgress::Finished(Err(SubscribeError::ValidationError(message))) => {
                    &&& !is_valid_form(form.name@, form.email@)
                    &&& message@ == form_rejection(form.name@, form.email@)
                },
                SubscribeProgress::Finished(_) => false,
            },
    {
        match NewSubscriber::try_from(form) {
            Ok(subscriber) => {
                let subscriber_id = new_subscriber_id();
                let subscribed_at = now_micros();
                let token = generate_subscription_token();
                SubscribeProgress::Continue(
                    Subscription::begin(subscriber, base_url, subscriber_id, subscribed_at, token),
                )
            },
            Err(message) => SubscribeProgress::Finished(
                Err(SubscribeError::ValidationError(message)),
            ),
        }
    }

    /// The subscription of `subscriber` under the given id, time and token, before its first
    /// step.
    pub fn begin(
        subscriber: NewSubscriber,
        base_url: &str,
        subscriber_id: u128,
        subscribed_at: i64,
        token: String,
    ) -> (subscription: Subscription)
        ensures
            subscription.stage == Stage::AcquireConnection,
            subscription.subscriber == subscriber,
            subscription.subscriber_id == subscriber_id,
            subscription.subscribed_at == subscribed_at,
            subscription.token == token,
            subscription.base_url@ == base_url@,
    {
        Subscription {
            stage: Stage::AcquireConnection,
            subscriber,
            subscriber_id,
            subscribed_at,
            token,
            base_url: String::from_str(base_url),
        }
    }

    /// What is to be done at the current step.
    pub fn action(&self) -> (action: SubscribeAction)
        ensures
            match action {
                SubscribeAction::BeginTransaction => self.stage == Stage::AcquireConnection,
                SubscribeAction::InsertSubscriber(row) => {
                    &&& self.stage == Stage::InsertSubscriber
                    &&& row@ == self.row()
                },
                SubscribeAction::InsertToken(row) => {
                    &&& self.stage == Stage::StoreToken
                    &&& row@ == self.token_row()
                },
                SubscribeAction::Commit => self.stage == Stage::Commit,
                SubscribeAction::SendEmail(email) => {
                    &&& self.stage == Stage::SendConfirmationEmail
                    &&& email@ == self.email()
                },
            },
    {
        match self.stage {
            Stage::AcquireConnection => SubscribeAction::BeginTransaction,
            Stage::InsertSubscriber => SubscribeAction::InsertSubscriber(
                Subscriber {
                    id: self.subscriber_id,
                    email: String::from_str(self.subscriber.email.as_str()),
                    name: String::from_str(self.subscriber.name.as_str()),
                    subscribed_at: self.subscribed_at,
                    status: SubscriptionStatus::PendingConfirmation,
                },
            ),
            Stage::StoreToken => SubscribeAction::InsertToken(
                SubscriptionToken { token: self.token.clone(), subscriber_id: self.subscriber_id },
            ),
            Stage::Commit => SubscribeAction::Commit,
            Stage::SendConfirmationEmail => SubscribeAction::SendEmail(
                send_confirmation_email(
                    &self.subscriber,
                    self.base_url.as_str(),
                    self.token.as_str(),
                ),
            ),
        }
    }

    /// Takes the outcome of the current step. A failure ends the workflow with the step and
    /// the cause; a success leads to the next step, and after the last step to the end.
    pub fn advance(self, outcome: Result<(), Failure>) -> (progress: SubscribeProgress)
        ensures
            match outcome {
                Ok(()) => match self.stage.spec_next() {
                    Some(stage) => progress == SubscribeProgress::Continue(self.at(stage)),
                    None => progress == SubscribeProgress::Finished(Ok(())),
                },
                Err(failure) => progress == SubscribeProgress::Finished(
                    Err(SubscribeError::UnexpectedError(self.stage, failure)),
                ),
            },
    {
        match outcome {
            Ok(()) => match self.stage.next() {
                Some(stage) => SubscribeProgress::Continue(Subscription { stage, ..self }),
                None => SubscribeProgress::Finished(Ok(())),
            },
            Err(failure) => SubscribeProgress::Finished(
                Err(SubscribeError::UnexpectedError(self.stage, failure)),
            ),
        }
    }
}

/// The row of a subscriber who has just subscribed.
pub open spec fn pending_row(
    name: Seq<char>,
    email: Seq<char>,
    subscriber_id: u128,
    subscribed_at: i64,
) -> SubscriberRow {
    SubscriberRow {
        id: subscriber_id,
        email,
        name,
        subscribed_at,
        status: SubscriptionStatus::PendingConfirmation,
    }
}

/// The world after the subscriber and the token have been committed and the confirmation
/// email has been posted.
pub open spec fn world_after_subscription(
    before: World,
    name: Seq<char>,
    email: Seq<char>,
    subscriber_id: u128,
    subscribed_at: i64,
    token: Seq<char>,
) -> World {
    World {
        db: before.db.with_subscriber(
            pending_row(name, email, subscriber_id, subscribed_at),
        ).with_token(TokenRow { token, subscriber_id }),
        mail_server: crate::email_client::MailServerView {
            status: before.mail_server.status,
            received: before.mail_server.received.push(
                before.email_client.request(confirmation_email(email, before.base_url, token)),
            ),
        },
        ..before
    }
}

/// What a subscription request does to the world and how it is answered, once the id, the
/// time and the token are drawn. A form that is not acceptable changes nothing and is a
/// client's error. An id or a token that the store holds already is a conflict, and nothing
/// is stored. Otherwise the subscriber and the token are stored together and the
/// confirmation email is posted; the request succeeds if the transport takes the email, and
/// fails, with the subscriber stored all the same, if it does not.
pub open spec fn subscribed(
    before: World,
    after: World,
    result: Result<u16, SubscribeError>,
    name: Seq<char>,
    email: Seq<char>,
    subscriber_id: u128,
    subscribed_at: i64,
    token: Seq<char>,
) -> bool {
    if !is_valid_form(name, email) {
        &&& after == before
        &&& result matches Err(SubscribeError::ValidationError(message))
        &&& message@ == form_rejection(name, email)
    } else if has_id(before.db.subscriptions, subscriber_id) {
        &&& after == before
        &&& result == Err::<u16, SubscribeError>(
            SubscribeError::UnexpectedError(
                Stage::InsertSubscriber,
                Failure::Store(StoreError::Conflict),
            ),
        )
    } else if has_token(before.db.subscription_tokens, token) {
        &&& after == before
        &&& result == Err::<u16, SubscribeError>(
            SubscribeError::UnexpectedError(Stage::StoreToken, Failure::Store(StoreError::Conflict)),
        )
    } else {
        &&& after == world_after_subscription(
            before,
            name,
            email,
            subscriber_id,
            subscribed_at,
            token,
        )
        &&& result == (if 400 <= before.mail_server.status <= 599 {
            Err::<u16, SubscribeError>(
                SubscribeError::UnexpectedError(
                    Stage::SendConfirmationEmail,
                    Failure::Transport(TransportError::Status(before.mail_server.status)),
                ),
            )
        } else {
            Ok::<u16, SubscribeError>(OK)
        })
    }
}

/// A subscriber and a token for them that the store does not hold yet can be committed
/// together, and the store then holds exactly these two rows more.
pub proof fn lemma_fresh_pair_fits(db: Tables, row: SubscriberRow, token: TokenRow)
    requires
        db.wf(),
        !has_id(db.subscriptions, row.id),
        !has_token(db.subscription_tokens, token.token),
        token.subscriber_id == row.id,
    ensures
        db.join(Tables::empty().with_subscriber(row).with_token(token)).wf(),
        db.join(Tables::empty().with_subscriber(row).with_token(token)) == db.with_subscriber(
            row,
        ).with_token(token),
{
    let staged = Tables::empty().with_subscriber(row).with_token(token);
    let joined = db.join(staged);
    let after = db.with_subscriber(row).with_token(token);
    assert(joined.subscriptions =~= after.subscriptions);
    assert(joined.subscription_tokens =~= after.subscription_tokens);
    crate::store::lemma_ids_distinct_push(db.subscriptions, row);
    crate::store::lemma_tokens_distinct_push(db.subscription_tokens, token);
    assert forall|k: int| 0 <= k < after.subscription_tokens.len() implies has_id(
        after.subscriptions,
        (#[trigger] after.subscription_tokens[k]).subscriber_id,
    ) by {
        crate::store::lemma_has_id_push(
            db.subscriptions,
            row,
            after.subscription_tokens[k].subscriber_id,
        );
        if k < db.subscription_tokens.len() {
            assert(after.subscription_tokens[k] == db.subscription_tokens[k]);
        }
    }
}

fn store_outcome(r: Result<(), StoreError>) -> (outcome: Result<(), Failure>)
    ensures
        outcome == (match r {
            Ok(()) => Ok::<(), Failure>(()),
            Err(e) => Err::<(), Failure>(Failure::Store(e)),
        }),
{
    match r {
        Ok(()) => Ok(()),
        Err(e) => Err(Failure::Store(e)),
    }
}

fn transport_outcome(r: Result<(), TransportError>) -> (outcome: Result<(), Failure>)
    ensures
        outcome == (match r {
            Ok(()) => Ok::<(), Failure>(()),
            Err(e) => Err::<(), Failure>(Failure::Transport(e)),
        }),
{
    match r {
        Ok(()) => Ok(()),
        Err(e) => Err(Failure::Transport(e)),
    }
}

/// Takes a started subscription through all its steps against the store and the transport
/// of `state`.
fn complete(state: &mut AppState, subscription: Subscription) -> (r: Result<u16, SubscribeError>)
    requires
        subscription.stage == Stage::AcquireConnection,
        is_valid_form(subscription.subscriber.name@, subscription.subscriber.email@),
        subscription.base_url@ == old(state).base_url@,
    ensures
        subscribed(
            old(state)@,
            final(state)@,
            r,
            subscription.subscriber.name@,
            subscription.subscriber.email@,
            subscription.subscriber_id,
            subscription.subscribed_at,
            subscription.token@,
        ),
{
    let ghost origin = state@;
    let ghost row = subscription.row();
    let ghost token_row = subscription.token_row();
    let ghost started = subscription;
    let mut tx = state.db.begin();
    let mut current = subscription;
    loop
        invariant
            origin == old(state)@,
            started == subscription,
            started.stage == Stage::AcquireConnection,
            started.base_url@ == origin.base_url,
            is_valid_form(started.subscriber.name@, started.subscriber.email@),
            row == started.row(),
            token_row == started.token_row(),
            current == started.at(current.stage),
            origin.db.wf(),
            state.email_client@ == origin.email_client,
            state.base_url@ == origin.base_url,
            state.mail_server@ == origin.mail_server,
            match current.stage {
                Stage::AcquireConnection | Stage::InsertSubscriber => {
                    &&& state.db@ == origin.db
                    &&& tx@ == Tables::empty()
                },
                Stage::StoreToken => {
                    &&& state.db@ == origin.db
                    &&& tx@ == Tables::empty().with_subscriber(row)
                    &&& !has_id(origin.db.subscriptions, row.id)
                },
                Stage::Commit => {
                    &&& state.db@ == origin.db
                    &&& tx@ == Tables::empty().with_subscriber(row).with_token(token_row)
                    &&& !has_id(origin.db.subscriptions, row.id)
                    &&& !has_token(origin.db.subscription_tokens, token_row.token)
                },
                Stage::SendConfirmationEmail => {
                    &&& state.db@ == origin.db.with_subscriber(row).with_token(token_row)
                    &&& !has_id(origin.db.subscriptions, row.id)
                    &&& !has_token(origin.db.subscription_tokens, token_row.token)
                },
            },
        decreases current.stage.remaining(),
    {
        let outcome = match current.action() {
            SubscribeAction::BeginTransaction => {
                tx = state.db.begin();
                Ok(())
            },
            SubscribeAction::InsertSubscriber(subscriber) => store_outcome(
                state.db.insert_subscriber(&mut tx, subscriber),
            ),
            SubscribeAction::InsertToken(token) => {
                assert(tx@.subscriptions[0].id == row.id);
                store_outcome(state.db.insert_token(&mut tx, token))
            },
            SubscribeAction::Commit => {
                proof {
                    lemma_fresh_pair_fits(origin.db, row, token_row);
                }
                let mut staged = state.db.begin();
                std::mem::swap(&mut tx, &mut staged);
                store_outcome(state.db.commit(staged))
            },
            SubscribeAction::SendEmail(email) => {
                let request = state.email_client.send_email(
                    &email.recipient,
                    email.subject.as_str(),
                    email.html_content.as_str(),
                    email.text_content.as_str(),
                );
                let status = state.mail_server.post(request);
                transport_outcome(EmailClient::check_status(status))
            },
        };
        let ghost stage = current.stage;
        match current.advance(outcome) {
            SubscribeProgress::Continue(next) => {
                current = next;
            },
            SubscribeProgress::Finished(result) => {
                state.db.rollback(tx);
                let r = match result {
                    Ok(()) => Ok(OK),
                    Err(e) => Err(e),
                };
                proof {
                    if stage == Stage::SendConfirmationEmail {
                        assert(state@ == world_after_subscription(
                            origin,
                            started.subscriber.name@,
                            started.subscriber.email@,
                            started.subscriber_id,
                            started.subscribed_at,
                            started.token@,
                        ));
                    }
                }
                return r;
            },
        }
    }
}

/// Handles a subscription request with the id, the time and the token given: validates the
/// form, stores the subscriber and the token in one transaction, and posts the confirmation
/// email.
pub fn subscribe_with(
    state: &mut AppState,
    form: FormData,
    subscriber_id: u128,
    subscribed_at: i64,
    token: String,
) -> (r: Result<u16, SubscribeError>)
    ensures
        subscribed(
            old(state)@,
            final(state)@,
            r,
            form.name@,
            form.email@,
            subscriber_id,
            subscribed_at,
            token@,
        ),
{
    match NewSubscriber::try_from(form) {
        Ok(subscriber) => {
            let subscription = Subscription::begin(
                subscriber,
                state.base_url.as_str(),
                subscriber_id,
                subscribed_at,
                token,
            );
            complete(state, subscription)
        },
        Err(message) => Err(SubscribeError::ValidationError(message)),
    }
}

/// Handles a subscription request: validates the form, draws a fresh id and token, stores
/// the subscriber and the token in one transaction, and posts the confirmation email. A form
/// that is not acceptable changes nothing; for an acceptable one the outcome is the one that
/// `subscribed` describes for the id, the time and the token that were drawn.
pub fn subscribe(state: &mut AppState, form: FormData) -> (r: Result<u16, SubscribeError>)
    ensures
        if is_valid_form(form.name@, form.email@) {
            exists|subscriber_id: u128, subscribed_at: i64, token: Seq<char>|
                {
                    &&& is_random_uuid(subscriber_id)
                    &&& is_subscription_token(token)
                    &&& #[trigger] subscribed(
                        old(state)@,
                        final(state)@,
                        r,
                        form.name@,
                        form.email@,
                        subscriber_id,
                        subscribed_at,
                        token,
                    )
                }
        } else {
            &&& final(state)@ == old(state)@
            &&& r matches Err(SubscribeError::ValidationError(message))
            &&& message@ == form_rejection(form.name@, form.email@)
        },
{
    match Subscription::start(form, state.base_url.as_str()) {
        SubscribeProgress::Continue(subscription) => {
            let ghost id = subscription.subscriber_id;
            let ghost at = subscription.subscribed_at;
            let ghost token = subscription.token@;
            let r = complete(state, subscription);
            assert(subscribed(old(state)@, state@, r, form.name@, form.email@, id, at, token));
            r
        },
        SubscribeProgress::Finished(result) => match result {
            Ok(()) => Ok(OK),
            Err(e) => Err(e),
        },
    }
}

/// A subscription request that succeeds, or fails only because the transport did not take
/// the confirmation email, leaves exactly one row more in each table: the subscriber,
/// pending, under the name and email of the form, and the token for them. The token then
/// resolves to that subscriber, and the constraints of the schema still hold.
pub proof fn subscription_is_stored_once(
    before: World,
    after: World,
    result: Result<u16, SubscribeError>,
    name: Seq<char>,
    email: Seq<char>,
    subscriber_id: u128,
    subscribed_at: i64,
    token: Seq<char>,
)
    requires
        before.db.wf(),
        is_valid_form(name, email),
        subscribed(before, after, result, name, email, subscriber_id, subscribed_at, token),
        result is Ok || result matches Err(
            SubscribeError::UnexpectedError(Stage::SendConfirmationEmail, _),
        ),
    ensures
        after.db.wf(),
        after.db.subscriptions == before.db.subscriptions.push(
            pending_row(name, email, subscriber_id, subscribed_at),
        ),
        after.db.subscription_tokens == before.db.subscription_tokens.push(
            TokenRow { token, subscriber_id },
        ),
        after.db.subscriber_id_of(token) == Some(subscriber_id),
        after.db.status_of(subscriber_id) == Some(SubscriptionStatus::PendingConfirmation),
{
    let row = pending_row(name, email, subscriber_id, subscribed_at);
    let token_row = TokenRow { token, subscriber_id };
    lemma_fresh_pair_fits(before.db, row, token_row);
    let rows = after.db.subscriptions;
    let tokens = after.db.subscription_tokens;
    assert(tokens[before.db.subscription_tokens.len() as int].token == token);
    let k = choose|k: int| 0 <= k < tokens.len() && (#[trigger] tokens[k]).token == token;
    assert(k == before.db.subscription_tokens.len());
    assert(rows[before.db.subscriptions.len() as int].id == subscriber_id);
    let i = choose|i: int| 0 <= i < rows.len() && (#[trigger] rows[i]).id == subscriber_id;
    assert(i == before.db.subscriptions.len());
}

/// A subscription request that does not get as far as the commit stores nothing: after an
/// invalid form, which is answered as a client's error, and after a failure of the store,
/// the world is what it was.
pub proof fn failed_subscription_stores_nothing(
    before: World,
    after: World,
    result: Result<u16, SubscribeError>,
    name: Seq<char>,
    email: Seq<char>,
    subscriber_id: u128,
    subscribed_at: i64,
    token: Seq<char>,
)
    requires
        subscribed(before, after, result, name, email, subscriber_id, subscribed_at, token),
    ensures
        !is_valid_form(name, email) ==> {
            &&& after == before
            &&& result matches Err(e)
            &&& e.spec_status_code() == BAD_REQUEST
            &&& e.spec_message() == form_rejection(name, email)
        },
        result matches Err(SubscribeError::UnexpectedError(stage, _)) && stage
            != Stage::SendConfirmationEmail ==> after == before,
{
}

} // verus!
