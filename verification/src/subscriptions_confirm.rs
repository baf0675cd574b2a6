use crate::router::{
    AppState, ResponseError, BAD_REQUEST, INTERNAL_SERVER_ERROR, OK, UNAUTHORIZED,
};
use crate::store::{has_id, has_token, StoreError, SubscriptionStatus, Tables, TokenRow};
use crate::subscriptions::pending_row;
use vstd::prelude::*;

verus! {

/// The query parameters of a confirmation request.
#[derive(Debug)]
pub struct Parameters {
    pub subscription_token: String,
}

/// The steps of a confirmation, in the order in which they are taken.
#[derive(Clone, Copy, Debug, PartialEq, Eq, Structural)]
pub enum ConfirmStage {
    FindSubscriber,
    MarkConfirmed,
}

impl ConfirmStage {
    /// What is reported when this step fails.
    pub open spec fn spec_failure_message(self) -> Seq<char> {
        match self {
            ConfirmStage::FindSubscriber => "Failed to retrieve the subscriber id associated with the provided token."@,
            ConfirmStage::MarkConfirmed => "Failed to update the subscriber status to `confirmed`."@,
        }
    }

    /// What is reported when this step fails.
    pub fn failure_message(&self) -> (r: &'static str)
        ensures
            r@ == self.spec_failure_message(),
    {
        match self {
            ConfirmStage::FindSubscriber => "Failed to retrieve the subscriber id associated with the provided token.",
            ConfirmStage::MarkConfirmed => "Failed to update the subscriber status to `confirmed`.",
        }
    }
}

/// Why a confirmation request failed.
#[derive(Clone, Copy, Debug, PartialEq, Eq, Structural)]
pub enum ConfirmationError {
    /// No subscriber is known by the token.
    UnknownToken,
    /// The store failed at the given step.
    UnexpectedError(ConfirmStage, StoreError),
}

impl ResponseError for ConfirmationError {
    /// The text that the client is shown.
    open spec fn spec_message(&self) -> Seq<char> {
        match self {
            ConfirmationError::UnknownToken => "There is no subscriber associated with the provided token."@,
            ConfirmationError::UnexpectedError(stage, _) => stage.spec_failure_message(),
        }
    }

    /// The HTTP status that answers the request.
    open spec fn spec_status_code(&self) -> u16 {
        match self {
            ConfirmationError::UnknownToken => UNAUTHORIZED,
            ConfirmationError::UnexpectedError(_, _) => INTERNAL_SERVER_ERROR,
        }
    }

    /// The HTTP status that answers the request: an unknown token is not authorized, and
    /// not "not found"; everything else is a server error.
    fn status_code(&self) -> (code: u16) {
        match self {
            ConfirmationError::UnknownToken => UNAUTHORIZED,
            ConfirmationError::UnexpectedError(_, _) => INTERNAL_SERVER_ERROR,
        }
    }

    /// The text that the client is shown; never the cause of a failure.
    fn message(&self) -> (text: String) {
        match self {
            ConfirmationError::UnknownToken => String::from_str(
                "There is no subscriber associated with the provided token.",
            ),
            ConfirmationError::UnexpectedError(stage, _) => String::from_str(
                stage.failure_message(),
            ),
        }
    }
}

/// A confirmation on its way through the workflow.
#[derive(Debug)]
pub enum Confirmation {
    /// The subscriber that the token belongs to is yet to be found.
    FindSubscriber(String),
    /// The subscriber is known and is yet to be marked as confirmed.
    MarkConfirmed(u128),
}

/// What the workflow asks its caller to do next.
#[derive(Debug)]
pub enum ConfirmAction {
    /// Look up the subscriber id that the token is stored with.
    FindSubscriberId(String),
    /// Set the status of this subscriber to confirmed.
    MarkConfirmed(u128),
}

/// Where the workflow stands after a step.
#[derive(Debug)]
pub enum ConfirmProgress {
    /// There is a further step to take.
    Continue(Confirmation),
    /// The workflow is over, with this result.
    Finished(Result<(), ConfirmationError>),
}

impl Confirmation {
    /// The confirmation of the subscriber who holds `subscription_token`, before its first
    /// step.
    pub fn start(parameters: Parameters) -> (confirmation: Confirmation)
        ensures
            confirmation matches Confirmation::FindSubscriber(token) && token
                == parameters.subscription_token,
    {
        Confirmation::FindSubscriber(parameters.subscription_token)
    }

    /// The step that is to be taken.
    pub open spec fn stage(&self) -> ConfirmStage {
        match self {
            Confirmation::FindSubscriber(_) => ConfirmStage::FindSubscriber,
            Confirmation::MarkConfirmed(_) => ConfirmStage::MarkConfirmed,
        }
    }

    /// What is to be done at the current step.
    pub fn action(&self) -> (action: ConfirmAction)
        ensures
            match action {
                ConfirmAction::FindSubscriberId(token) => self matches Confirmation::FindSubscriber(
                    held,
                ) && token@ == held@,
                ConfirmAction::MarkConfirmed(id) => self == Confirmation::MarkConfirmed(id),
            },
    {
        match self {
            Confirmation::FindSubscriber(token) => ConfirmAction::FindSubscriberId(token.clone()),
            Confirmation::MarkConfirmed(id) => ConfirmAction::MarkConfirmed(*id),
        }
    }

    /// Takes the store's reply to the current step. A lookup that finds a subscriber leads to
    /// the update of that subscriber; one that finds none ends the workflow with
    /// `UnknownToken`. The update ends the workflow with success; the id that its reply may
    /// carry means nothing. A failure of the store at either step ends the workflow with the
    /// step and the cause.
    pub fn advance(self, reply: Result<Option<u128>, StoreError>) -> (progress: ConfirmProgress)
        ensures
            progress == (match reply {
                Err(e) => ConfirmProgress::Finished(
                    Err(ConfirmationError::UnexpectedError(self.stage(), e)),
                ),
                Ok(found) => match self {
                    Confirmation::FindSubscriber(_) => match found {
                        Some(id) => ConfirmProgress::Continue(Confirmation::MarkConfirmed(id)),
                        None => ConfirmProgress::Finished(Err(ConfirmationError::UnknownToken)),
                    },
                    Confirmation::MarkConfirmed(_) => ConfirmProgress::Finished(Ok(())),
                },
            }),
    {
        match reply {
            Err(e) => match self {
                Confirmation::FindSubscriber(_) => ConfirmProgress::Finished(
                    Err(ConfirmationError::UnexpectedError(ConfirmStage::FindSubscriber, e)),
                ),
                Confirmation::MarkConfirmed(_) => ConfirmProgress::Finished(
                    Err(ConfirmationError::UnexpectedError(ConfirmStage::MarkConfirmed, e)),
                ),
            },
            Ok(found) => match self {
                Confirmation::FindSubscriber(_) => match found {
                    Some(id) => ConfirmProgress::Continue(Confirmation::MarkConfirmed(id)),
                    None => ConfirmProgress::Finished(Err(ConfirmationError::UnknownToken)),
                },
                Confirmation::MarkConfirmed(_) => ConfirmProgress::Finished(Ok(())),
            },
        }
    }
}

/// What a confirmation request for `token` does to the tables and how it is answered: the
/// subscriber that the token belongs to is confirmed, and a token that belongs to nobody
/// changes nothing and is not authorized.
pub open spec fn confirmation(before: Tables, token: Seq<char>) -> (
    Tables,
    Result<u16, ConfirmationError>,
) {
    match before.subscriber_id_of(token) {
        Some(id) => (before.mark_confirmed(id), Ok(OK)),
        None => (before, Err(ConfirmationError::UnknownToken)),
    }
}

/// Handles a confirmation request: finds the subscriber that the token belongs to and sets
/// them to confirmed. Nothing but the store is touched, and the store not at all where the
/// token is unknown.
pub fn confirm(state: &mut AppState, parameters: Parameters) -> (r: Result<u16, ConfirmationError>)
    ensures
        (final(state).db@, r) == confirmation(old(state).db@, parameters.subscription_token@),
        final(state).email_client@ == old(state).email_client@,
        final(state).base_url@ == old(state).base_url@,
        final(state).mail_server@ == old(state).mail_server@,
        !has_token(old(state).db@.subscription_tokens, parameters.subscription_token@) ==> {
            &&& final(state)@ == old(state)@
            &&& r == Err::<u16, ConfirmationError>(ConfirmationError::UnknownToken)
        },
{
    let ghost token = parameters.subscription_token@;
    let mut current = Confirmation::start(parameters);
    loop
        invariant
            token == parameters.subscription_token@,
            state.email_client@ == old(state).email_client@,
            state.base_url@ == old(state).base_url@,
            state.mail_server@ == old(state).mail_server@,
            state.db@ == old(state).db@,
            match current {
                Confirmation::FindSubscriber(held) => held@ == token,
                Confirmation::MarkConfirmed(id) => old(state).db@.subscriber_id_of(token) == Some(
                    id,
                ),
            },
        decreases
                (match current {
                    Confirmation::FindSubscriber(_) => 1nat,
                    Confirmation::MarkConfirmed(_) => 0nat,
                }),
    {
        let reply = match current.action() {
            ConfirmAction::FindSubscriberId(token) => Ok(
                state.db.find_subscriber_id_by_token(token.as_str()),
            ),
            ConfirmAction::MarkConfirmed(id) => match state.db.mark_confirmed(id) {
                Ok(()) => Ok(None),
                Err(e) => Err(e),
            },
        };
        match current.advance(reply) {
            ConfirmProgress::Continue(next) => {
                current = next;
            },
            ConfirmProgress::Finished(result) => {
                return match result {
                    Ok(()) => Ok(OK),
                    Err(e) => Err(e),
                };
            },
        }
    }
}

/// The status that answers a result of `confirm`.
pub open spec fn status_of_confirmation(result: Result<u16, ConfirmationError>) -> u16 {
    match result {
        Ok(code) => code,
        Err(e) => e.spec_status_code(),
    }
}

/// Answers a request to the confirmation route by its status. A request without the token
/// parameter is a bad request: it goes no further and changes nothing. Any other request is
/// handled by `confirm` and answered with the status of its result.
pub fn get_subscriptions_confirm(state: &mut AppState, subscription_token: Option<String>) -> (status:
    u16)
    ensures
        final(state).email_client@ == old(state).email_client@,
        final(state).base_url@ == old(state).base_url@,
        final(state).mail_server@ == old(state).mail_server@,
        match subscription_token {
            None => status == BAD_REQUEST && final(state).db@ == old(state).db@,
            Some(token) => {
                &&& final(state).db@ == confirmation(old(state).db@, token@).0
                &&& status == status_of_confirmation(confirmation(old(state).db@, token@).1)
            },
        },
{
    match subscription_token {
        None => BAD_REQUEST,
        Some(subscription_token) => match confirm(state, Parameters { subscription_token }) {
            Ok(code) => code,
            Err(e) => e.status_code(),
        },
    }
}

/// Confirmation is idempotent: confirming with a token that belongs to a subscriber
/// succeeds, leaves that subscriber confirmed, and a second confirmation with the same
/// token succeeds again and changes nothing more.
pub proof fn confirmation_is_idempotent(db: Tables, token: Seq<char>)
    requires
        db.wf(),
        has_token(db.subscription_tokens, token),
    ensures
        ({
            let (once, first) = confirmation(db, token);
            let (twice, second) = confirmation(once, token);
            &&& first == Ok::<u16, ConfirmationError>(OK)
            &&& second == Ok::<u16, ConfirmationError>(OK)
            &&& twice == once
            &&& once.wf()
            &&& once.status_of(db.subscriber_id_of(token).unwrap()) == Some(
                SubscriptionStatus::Confirmed,
            )
        }),
{
    let id = db.subscriber_id_of(token).unwrap();
    let once = db.mark_confirmed(id);
    crate::store::lemma_mark_confirmed_keeps_constraints(db, id);
    assert(once.subscription_tokens == db.subscription_tokens);
    assert(once.subscriber_id_of(token) == Some(id));
    let twice = once.mark_confirmed(id);
    assert(twice.subscriptions =~= once.subscriptions);
    let k = choose|k: int|
        0 <= k < db.subscription_tokens.len() && (#[trigger] db.subscription_tokens[k]).token
            == token;
    assert(has_id(db.subscriptions, db.subscription_tokens[k].subscriber_id));
    let i = choose|i: int| 0 <= i < db.subscriptions.len() && (#[trigger] db.subscriptions[i]).id == id;
    assert(once.subscriptions[i].id == id);
    assert(has_id(once.subscriptions, id));
    let j = choose|j: int|
        0 <= j < once.subscriptions.len() && (#[trigger] once.subscriptions[j]).id == id;
    assert(once.subscriptions[j].status == SubscriptionStatus::Confirmed);
}

/// The token of a subscription that was stored confirms its subscriber: the request with
/// that token succeeds, changes the status of that subscriber to confirmed and leaves every
/// other row as it was.
pub proof fn stored_token_confirms_its_subscriber(
    before: Tables,
    name: Seq<char>,
    email: Seq<char>,
    subscriber_id: u128,
    subscribed_at: i64,
    token: Seq<char>,
)
    requires
        before.wf(),
        !has_id(before.subscriptions, subscriber_id),
        !has_token(before.subscription_tokens, token),
    ensures
        ({
            let stored = before.with_subscriber(
                pending_row(name, email, subscriber_id, subscribed_at),
            ).with_token(TokenRow { token, subscriber_id });
            let (after, result) = confirmation(stored, token);
            &&& result == Ok::<u16, ConfirmationError>(OK)
            &&& after.subscription_tokens == stored.subscription_tokens
            &&& after.subscriptions == before.subscriptions.push(
                pending_row(name, email, subscriber_id, subscribed_at).confirmed(),
            )
        }),
{
    let row = pending_row(name, email, subscriber_id, subscribed_at);
    let token_row = TokenRow { token, subscriber_id };
    let stored = before.with_subscriber(row).with_token(token_row);
    let tokens = stored.subscription_tokens;
    assert(tokens[before.subscription_tokens.len() as int].token == token);
    let k = choose|k: int| 0 <= k < tokens.len() && (#[trigger] tokens[k]).token == token;
    if k < before.subscription_tokens.len() {
        assert(before.subscription_tokens[k].token == token);
    }
    assert(stored.subscriber_id_of(token) == Some(subscriber_id));
    let after = stored.mark_confirmed(subscriber_id);
    assert forall|i: int| 0 <= i < before.subscriptions.len() implies after.subscriptions[i]
        == before.subscriptions[i] by {
        assert(before.subscriptions[i].id != subscriber_id);
    }
    assert(after.subscriptions =~= before.subscriptions.push(row.confirmed()));
}

} // verus!
