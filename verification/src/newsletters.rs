use crate::domain::subscriber_email::{email_rejection, is_valid_email, SubscriberEmail};
use crate::email_client::{
    Email, EmailClient, EmailClientView, EmailRequestText, EmailText, TransportError,
};
use crate::router::{AppState, ResponseError, INTERNAL_SERVER_ERROR, OK};
use crate::store::{confirmed_emails, StoreError, SubscriberRow, SubscriptionStatus};
use vstd::prelude::*;

verus! {

/// The two renderings of a newsletter issue.
#[derive(Debug)]
pub struct Content {
    pub text: String,
    pub html: String,
}

/// A newsletter issue as the publisher sent it.
#[derive(Debug)]
pub struct BodyData {
    pub title: String,
    pub content: Content,
}

/// A newsletter issue as a mathematical value.
pub struct Issue {
    pub title: Seq<char>,
    pub text: Seq<char>,
    pub html: Seq<char>,
}

impl View for BodyData {
    type V = Issue;

    open spec fn view(&self) -> Issue {
        Issue { title: self.title@, text: self.content.text@, html: self.content.html@ }
    }
}

impl Issue {
    /// The email that carries this issue to `recipient`.
    pub open spec fn email_to(self, recipient: Seq<char>) -> EmailText {
        EmailText {
            recipient,
            subject: self.title,
            html_content: self.html,
            text_content: self.text,
        }
    }
}

/// Why a newsletter could not be published.
#[derive(Clone, Copy, Debug, PartialEq, Eq, Structural)]
pub enum PublishError {
    /// The confirmed subscribers could not be read from the store.
    UnexpectedError(StoreError),
}

impl ResponseError for PublishError {
    /// The text that the client is shown.
    open spec fn spec_message(&self) -> Seq<char> {
        "Failed to retrieve the confirmed subscribers."@
    }

    /// The HTTP status that answers the request.
    open spec fn spec_status_code(&self) -> u16 {
        INTERNAL_SERVER_ERROR
    }

    /// The HTTP status that answers the request: always a server error.
    fn status_code(&self) -> (code: u16) {
        INTERNAL_SERVER_ERROR
    }

    /// The text that the client is shown; never the cause of the failure.
    fn message(&self) -> (text: String) {
        String::from_str("Failed to retrieve the confirmed subscribers.")
    }
}

/// A subscriber who has confirmed and whose stored email is a valid address.
#[derive(Debug)]
pub struct ConfirmedSubscriber {
    pub email: SubscriberEmail,
}

/// The texts of a vector of strings.
pub open spec fn texts_of(v: Seq<String>) -> Seq<Seq<char>> {
    Seq::new(v.len(), |i: int| v[i]@)
}

/// The texts of `rows` that are valid email addresses, in the order of `rows`.
pub open spec fn valid_emails(rows: Seq<Seq<char>>) -> Seq<Seq<char>>
    decreases rows.len(),
{
    if rows.len() == 0 {
        Seq::empty()
    } else if is_valid_email(rows.last()) {
        valid_emails(rows.drop_last()).push(rows.last())
    } else {
        valid_emails(rows.drop_last())
    }
}

/// No more texts are valid than there are texts.
pub proof fn lemma_valid_emails_len(rows: Seq<Seq<char>>)
    ensures
        valid_emails(rows).len() <= rows.len(),
    decreases rows.len(),
{
    if rows.len() > 0 {
        lemma_valid_emails_len(rows.drop_last());
    }
}

/// Judges each stored email of a confirmed subscriber on its own: a valid one becomes a
/// `ConfirmedSubscriber`, an invalid one the message that says why, each at the place of
/// its row.
pub fn get_confirmed_subscribers(rows: &Vec<String>) -> (subscribers: Vec<
    Result<ConfirmedSubscriber, String>,
>)
    ensures
        subscribers.len() == rows.len(),
        forall|i: int|
            0 <= i < rows.len() ==> match #[trigger] subscribers[i] {
                Ok(subscriber) => is_valid_email(rows[i]@) && subscriber.email@ == rows[i]@,
                Err(message) => !is_valid_email(rows[i]@) && message@ == email_rejection(
                    rows[i]@,
                ),
            },
{
    let mut subscribers: Vec<Result<ConfirmedSubscriber, String>> = Vec::new();
    let mut i: usize = 0;
    while i < rows.len()
        invariant
            i <= rows.len(),
            subscribers.len() == i,
            forall|k: int|
                0 <= k < i ==> match #[trigger] subscribers[k] {
                    Ok(subscriber) => is_valid_email(rows[k]@) && subscriber.email@ == rows[k]@,
                    Err(message) => !is_valid_email(rows[k]@) && message@ == email_rejection(
                        rows[k]@,
                    ),
                },
        decreases rows.len() - i,
    {
        let judged = match SubscriberEmail::parse(rows[i].clone()) {
            Ok(email) => Ok(ConfirmedSubscriber { email }),
            Err(message) => Err(message),
        };
        subscribers.push(judged);
        i += 1;
    }
    subscribers
}

/// How a dispatch went, recipient by recipient.
#[derive(Clone, Copy, Debug, PartialEq, Eq, Structural)]
pub struct DispatchReport {
    /// Emails that the transport took.
    pub delivered: usize,
    /// Emails that the transport did not take.
    pub failed: usize,
    /// Confirmed subscribers passed over because their stored email is not valid.
    pub skipped: usize,
}

/// A `Dispatch` as a mathematical value.
pub struct DispatchView {
    pub issue: Issue,
    pub recipients: Seq<Seq<char>>,
    pub next: nat,
    pub report: DispatchReport,
}

impl DispatchView {
    /// The email that is to be sent next.
    pub open spec fn current_email(self) -> EmailText {
        self.issue.email_to(self.recipients[self.next as int])
    }

    /// The state invariant: there is a recipient to send to, and every recipient before
    /// them has been counted once.
    pub open spec fn wf(self) -> bool {
        &&& self.next < self.recipients.len()
        &&& self.report.delivered + self.report.failed == self.next
    }

    /// The report once the outcome of the current send is counted.
    pub open spec fn counted(self, outcome: Result<(), TransportError>) -> DispatchReport {
        match outcome {
            Ok(()) => DispatchReport {
                delivered: (self.report.delivered + 1) as usize,
                ..self.report
            },
            Err(_) => DispatchReport { failed: (self.report.failed + 1) as usize, ..self.report },
        }
    }
}

/// The emails of a vector of addresses.
pub open spec fn addresses_of(v: Seq<SubscriberEmail>) -> Seq<Seq<char>> {
    Seq::new(v.len(), |i: int| v[i]@)
}

/// The dispatch of one issue on its way through its recipients.
#[derive(Debug)]
pub struct Dispatch {
    issue: BodyData,
    recipients: Vec<SubscriberEmail>,
    next: usize,
    report: DispatchReport,
}

impl View for Dispatch {
    type V = DispatchView;

    closed spec fn view(&self) -> DispatchView {
        DispatchView {
            issue: self.issue@,
            recipients: addresses_of(self.recipients@),
            next: self.next as nat,
            report: self.report,
        }
    }
}

/// Where a dispatch stands after a step.
#[derive(Debug)]
pub enum DispatchProgress {
    /// There is a further email to send.
    Continue(Dispatch),
    /// The dispatch is over, with this result.
    Finished(Result<DispatchReport, PublishError>),
}

impl Dispatch {
    #[verifier::type_invariant]
    spec fn is_in_progress(&self) -> bool {
        self@.wf()
    }

    /// Takes what the store has read for the confirmed subscribers. A failure of the store
    /// ends the dispatch. Otherwise the recipients are the stored emails that are valid
    /// addresses, in the order of the rows; the others are skipped and counted. With no
    /// recipient the dispatch is over at once.
    pub fn start(issue: BodyData, rows: Result<Vec<String>, StoreError>) -> (progress:
        DispatchProgress)
        ensures
            match rows {
                Err(e) => progress == DispatchProgress::Finished(
                    Err(PublishError::UnexpectedError(e)),
                ),
                Ok(rows) => {
                    let recipients = valid_emails(texts_of(rows@));
                    let report = DispatchReport {
                        delivered: 0,
                        failed: 0,
                        skipped: (rows.len() - recipients.len()) as usize,
                    };
                    if recipients.len() == 0 {
                        progress == DispatchProgress::Finished(Ok(report))
                    } else {
                        &&& progress matches DispatchProgress::Continue(dispatch)
                        &&& dispatch@ == (DispatchView { issue: issue@, recipients, next: 0, report })
                    }
                },
            },
    {
        let rows = match rows {
            Ok(rows) => rows,
            Err(e) => {
                return DispatchProgress::Finished(Err(PublishError::UnexpectedError(e)));
            },
        };
        let judged = get_confirmed_subscribers(&rows);
        let ghost texts = texts_of(rows@);
        let mut recipients: Vec<SubscriberEmail> = Vec::new();
        let mut skipped: usize = 0;
        let mut judged = judged;
        let mut i: usize = 0;
        assert(texts.take(0) =~= Seq::empty());
        while i < judged.len()
            invariant
                i <= judged.len(),
                judged.len() == rows.len(),
                texts == texts_of(rows@),
                forall|k: int|
                    i <= k < rows.len() ==> match #[trigger] judged[k] {
                        Ok(subscriber) => is_valid_email(rows[k]@) && subscriber.email@
                            == rows[k]@,
                        Err(message) => !is_valid_email(rows[k]@),
                    },
                addresses_of(recipients@) == valid_emails(texts.take(i as int)),
                skipped + recipients.len() == i,
            decreases judged.len() - i,
        {
            proof {
                assert(texts.take(i + 1).drop_last() =~= texts.take(i as int));
                assert(texts.take(i + 1).last() == rows[i as int]@);
            }
            let mut entry: Result<ConfirmedSubscriber, String> = Err(String::new());
            std::mem::swap(&mut judged[i], &mut entry);
            match entry {
                Ok(subscriber) => {
                    let ghost before = addresses_of(recipients@);
                    recipients.push(subscriber.email);
                    assert(addresses_of(recipients@) =~= before.push(subscriber.email@));
                },
                Err(_) => {
                    skipped += 1;
                },
            }
            i += 1;
        }
        assert(texts.take(i as int) =~= texts);
        let report = DispatchReport { delivered: 0, failed: 0, skipped };
        if recipients.len() == 0 {
            DispatchProgress::Finished(Ok(report))
        } else {
            DispatchProgress::Continue(Dispatch { issue, recipients, next: 0, report })
        }
    }

    /// The email that is to be sent next: the issue, addressed to the current recipient.
    pub fn action(&self) -> (email: Email)
        ensures
            self@.wf(),
            email@ == self@.current_email(),
    {
        proof {
            use_type_invariant(self);
        }
        Email {
            recipient: self.recipients[self.next].clone(),
            subject: self.issue.title.clone(),
            html_content: self.issue.content.html.clone(),
            text_content: self.issue.content.text.clone(),
        }
    }

    /// Takes the outcome of the current send and counts it. A failure does not end the
    /// dispatch: the next recipient is due all the same, and after the last recipient the
    /// dispatch is over with the report.
    pub fn advance(self, outcome: Result<(), TransportError>) -> (progress: DispatchProgress)
        ensures
            self@.wf(),
            if self@.next + 1 == self@.recipients.len() {
                progress == DispatchProgress::Finished(Ok(self@.counted(outcome)))
            } else {
                &&& progress matches DispatchProgress::Continue(dispatch)
                &&& dispatch@ == (DispatchView {
                    next: self@.next + 1,
                    report: self@.counted(outcome),
                    ..self@
                })
            },
    {
        proof {
            use_type_invariant(&self);
        }
        let total = self.recipients.len();
        assert(self@.recipients.len() == total);
        let report = match outcome {
            Ok(()) => DispatchReport { delivered: self.report.delivered + 1, ..self.report },
            Err(_) => DispatchReport { failed: self.report.failed + 1, ..self.report },
        };
        let next = self.next + 1;
        if next == total {
            DispatchProgress::Finished(Ok(report))
        } else {
            DispatchProgress::Continue(
                Dispatch { issue: self.issue, recipients: self.recipients, next, report },
            )
        }
    }
}

/// The addresses that a newsletter goes to: the stored emails of the confirmed subscribers
/// that are valid addresses, in the order of the rows.
pub open spec fn recipients(rows: Seq<SubscriberRow>) -> Seq<Seq<char>> {
    valid_emails(confirmed_emails(rows))
}

/// The requests by which `client` sends `issue` to each of `recipients`, in their order.
pub open spec fn newsletter_requests(
    client: EmailClientView,
    issue: Issue,
    recipients: Seq<Seq<char>>,
) -> Seq<EmailRequestText> {
    Seq::new(recipients.len(), |i: int| client.request(issue.email_to(recipients[i])))
}

/// The report of a dispatch to `sent` recipients with `skipped` rows passed over, through a
/// transport that answers every request with `status`.
pub open spec fn report_of(status: u16, sent: nat, skipped: nat) -> DispatchReport {
    if 400 <= status <= 599 {
        DispatchReport { delivered: 0, failed: sent as usize, skipped: skipped as usize }
    } else {
        DispatchReport { delivered: sent as usize, failed: 0, skipped: skipped as usize }
    }
}

/// Sends the issue to every confirmed subscriber whose stored email is a valid address, one
/// after the other, and reports how it went. Each of them is sent to exactly once, whether
/// or not the transport takes the emails of the others; nobody else is sent to, and the
/// store is only read.
pub fn dispatch(state: &mut AppState, body: BodyData) -> (r: Result<DispatchReport, PublishError>)
    ensures
        final(state).db@ == old(state).db@,
        final(state).email_client@ == old(state).email_client@,
        final(state).base_url@ == old(state).base_url@,
        final(state).mail_server@.status == old(state).mail_server@.status,
        final(state).mail_server@.received == old(state).mail_server@.received
            + newsletter_requests(
            old(state).email_client@,
            body@,
            recipients(old(state).db@.subscriptions),
        ),
        r == Ok::<DispatchReport, PublishError>(
            report_of(
                old(state).mail_server@.status,
                recipients(old(state).db@.subscriptions).len(),
                (confirmed_emails(old(state).db@.subscriptions).len() - recipients(
                    old(state).db@.subscriptions,
                ).len()) as nat,
            ),
        ),
{
    let ghost origin = state@;
    let ghost issue = body@;
    let ghost stored = confirmed_emails(origin.db.subscriptions);
    let ghost to = recipients(origin.db.subscriptions);
    let ghost skipped = (stored.len() - to.len()) as nat;
    let rows = state.db.confirmed_emails();
    proof {
        assert(texts_of(rows@) =~= stored);
        lemma_valid_emails_len(stored);
        assert(newsletter_requests(origin.email_client, issue, to.take(0)) =~= Seq::empty());
        assert(origin.mail_server.received + Seq::<EmailRequestText>::empty()
            =~= origin.mail_server.received);
    }
    let mut current = match Dispatch::start(body, Ok(rows)) {
        DispatchProgress::Continue(dispatch) => dispatch,
        DispatchProgress::Finished(result) => {
            assert(to.take(0) =~= to);
            return result;
        },
    };
    loop
        invariant
            origin == old(state)@,
            issue == body@,
            stored == confirmed_emails(origin.db.subscriptions),
            to == recipients(origin.db.subscriptions),
            skipped == stored.len() - to.len(),
            stored.len() <= usize::MAX,
            state.db@ == origin.db,
            state.email_client@ == origin.email_client,
            state.base_url@ == origin.base_url,
            state.mail_server@.status == origin.mail_server.status,
            current@.issue == issue,
            current@.recipients == to,
            current@.next < to.len(),
            current@.report == report_of(origin.mail_server.status, current@.next, skipped),
            state.mail_server@.received == origin.mail_server.received + newsletter_requests(
                origin.email_client,
                issue,
                to.take(current@.next as int),
            ),
        decreases to.len() - current@.next,
    {
        let ghost n = current@.next as int;
        let email = current.action();
        let request = state.email_client.send_email(
            &email.recipient,
            email.subject.as_str(),
            email.html_content.as_str(),
            email.text_content.as_str(),
        );
        let status = state.mail_server.post(request);
        let outcome = EmailClient::check_status(status);
        proof {
            let sent = newsletter_requests(origin.email_client, issue, to.take(n));
            let more = newsletter_requests(origin.email_client, issue, to.take(n + 1));
            assert(more =~= sent.push(origin.email_client.request(issue.email_to(to[n]))));
            assert(origin.mail_server.received + more =~= (origin.mail_server.received
                + sent).push(origin.email_client.request(issue.email_to(to[n]))));
            lemma_valid_emails_len(stored);
        }
        match current.advance(outcome) {
            DispatchProgress::Continue(next) => {
                current = next;
            },
            DispatchProgress::Finished(result) => {
                assert(to.take(n + 1) =~= to);
                return result;
            },
        }
    }
}

/// Handles a request to publish a newsletter: sends the issue to the confirmed subscribers
/// and answers with success once all of them have been gone through, however the single
/// emails fared.
pub fn publish_newsletter(state: &mut AppState, body: BodyData) -> (r: Result<u16, PublishError>)
    ensures
        r == Ok::<u16, PublishError>(OK),
        final(state).db@ == old(state).db@,
        final(state).email_client@ == old(state).email_client@,
        final(state).base_url@ == old(state).base_url@,
        final(state).mail_server@.status == old(state).mail_server@.status,
        final(state).mail_server@.received == old(state).mail_server@.received
            + newsletter_requests(
            old(state).email_client@,
            body@,
            recipients(old(state).db@.subscriptions),
        ),
{
    match dispatch(state, body) {
        Ok(_) => Ok(OK),
        Err(e) => Err(e),
    }
}

/// The emails listed for the confirmed subscribers are those of the rows whose status is
/// confirmed, and no others.
pub proof fn lemma_confirmed_emails_members(rows: Seq<SubscriberRow>, email: Seq<char>)
    ensures
        confirmed_emails(rows).contains(email) <==> exists|i: int|
            0 <= i < rows.len() && (#[trigger] rows[i]).status == SubscriptionStatus::Confirmed
                && rows[i].email == email,
    decreases rows.len(),
{
    if rows.len() > 0 {
        let rest = rows.drop_last();
        let last = rows.last();
        lemma_confirmed_emails_members(rest, email);
        let listed = confirmed_emails(rest);
        if confirmed_emails(rows).contains(email) {
            if last.status == SubscriptionStatus::Confirmed && last.email == email {
                assert(rows[rows.len() - 1].email == email);
            } else {
                if last.status == SubscriptionStatus::Confirmed {
                    let k = choose|k: int|
                        0 <= k < listed.push(last.email).len() && listed.push(last.email)[k]
                            == email;
                    assert(listed[k] == email);
                }
                assert(listed.contains(email));
                let i = choose|i: int|
                    0 <= i < rest.len() && (#[trigger] rest[i]).status
                        == SubscriptionStatus::Confirmed && rest[i].email == email;
                assert(rows[i] == rest[i]);
            }
        }
        if exists|i: int|
            0 <= i < rows.len() && (#[trigger] rows[i]).status == SubscriptionStatus::Confirmed
                && rows[i].email == email {
            let i = choose|i: int|
                0 <= i < rows.len() && (#[trigger] rows[i]).status
                    == SubscriptionStatus::Confirmed && rows[i].email == email;
            if i < rows.len() - 1 {
                assert(rest[i] == rows[i]);
                assert(listed.contains(email));
                let k = choose|k: int| 0 <= k < listed.len() && listed[k] == email;
                if last.status == SubscriptionStatus::Confirmed {
                    assert(listed.push(last.email)[k] == email);
                }
            } else {
                assert(listed.push(last.email)[listed.len() as int] == email);
            }
        }
    }
}

/// The valid ones among some texts are the texts that are valid addresses, and no others.
pub proof fn lemma_valid_emails_members(rows: Seq<Seq<char>>, email: Seq<char>)
    ensures
        valid_emails(rows).contains(email) <==> rows.contains(email) && is_valid_email(email),
    decreases rows.len(),
{
    if rows.len() > 0 {
        let rest = rows.drop_last();
        let last = rows.last();
        lemma_valid_emails_members(rest, email);
        let kept = valid_emails(rest);
        if valid_emails(rows).contains(email) {
            if last == email && is_valid_email(last) {
                assert(rows[rows.len() - 1] == email);
            } else {
                if is_valid_email(last) {
                    let k = choose|k: int|
                        0 <= k < kept.push(last).len() && kept.push(last)[k] == email;
                    assert(kept[k] == email);
                }
                assert(kept.contains(email));
                let i = choose|i: int| 0 <= i < rest.len() && rest[i] == email;
                assert(rows[i] == email);
            }
        }
        if rows.contains(email) && is_valid_email(email) {
            let i = choose|i: int| 0 <= i < rows.len() && rows[i] == email;
            if i < rows.len() - 1 {
                assert(rest[i] == email);
                assert(kept.contains(email));
                let k = choose|k: int| 0 <= k < kept.len() && kept[k] == email;
                if is_valid_email(last) {
                    assert(kept.push(last)[k] == email);
                }
            } else {
                assert(kept.push(last)[kept.len() as int] == email);
            }
        }
    }
}

/// A newsletter goes to all and only the confirmed subscribers: an address is among the
/// recipients exactly when it is a valid address and the stored email of a row whose status
/// is confirmed. A subscriber who is pending is sent nothing on that account.
pub proof fn newsletter_goes_to_confirmed_subscribers_only(
    rows: Seq<SubscriberRow>,
    email: Seq<char>,
)
    ensures
        recipients(rows).contains(email) <==> is_valid_email(email) && exists|i: int|
            0 <= i < rows.len() && (#[trigger] rows[i]).status == SubscriptionStatus::Confirmed
                && rows[i].email == email,
{
    lemma_confirmed_emails_members(rows, email);
    lemma_valid_emails_members(confirmed_emails(rows), email);
}

} // verus!
