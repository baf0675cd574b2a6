use crate::domain::subscriber_email::SubscriberEmail;
use reqwest::Url;
use std::time::Duration;
use vstd::prelude::*;

verus! {

/// The serialization of the absolute URL that `s` is parsed to, if it is one.
pub uninterp spec fn parsed_url(s: Seq<char>) -> Option<Seq<char>>;

/// The serialization of the URL that `reference` resolves to against the URL written
/// `base`, if `base` is an absolute URL and `reference` can be resolved against it.
pub uninterp spec fn joined_url(base: Seq<char>, reference: Seq<char>) -> Option<Seq<char>>;

/// The text of a string that may be missing.
pub open spec fn option_text(s: Option<String>) -> Option<Seq<char>> {
    match s {
        Some(s) => Some(s@),
        None => None,
    }
}

/// `reqwest::Url::parse` (the `Url` of the crate `url`): parses an absolute URL; the result
/// is handed back as its serialization, and `None` stands for a parse error.
#[verifier::external_body]
fn parse_url(s: &str) -> (r: Option<String>)
    ensures
        option_text(r) == parsed_url(s@),
{
    Url::parse(s).ok().map(String::from)
}

/// `reqwest::Url::join`: resolves `reference` against the URL that `base` is the text of;
/// the result is handed back as its serialization, and `None` stands for a parse error on
/// either side.
#[verifier::external_body]
fn join_url(base: &str, reference: &str) -> (r: Option<String>)
    ensures
        option_text(r) == joined_url(base@, reference@),
{
    Url::parse(base).ok()?.join(reference).ok().map(String::from)
}

/// The path of the transport's endpoint that accepts an email.
pub open spec fn email_path() -> Seq<char> {
    "/email"@
}

/// The name of the header that carries the authorization token.
pub open spec fn token_header() -> Seq<char> {
    "X-Postmark-Server-Token"@
}

/// The URL that emails are posted to when the transport lives at `base_url`.
pub open spec fn email_endpoint(base_url: Seq<char>) -> Option<Seq<char>> {
    match parsed_url(base_url) {
        Some(base) => joined_url(base, email_path()),
        None => None,
    }
}

/// Why the transport did not take an email.
#[derive(Clone, Copy, Debug, PartialEq, Eq, Structural)]
pub enum TransportError {
    /// No response came within the client's timeout.
    Timeout,
    /// The request could not be sent or the response could not be read.
    Connection,
    /// The transport answered with this status, a client or server error.
    Status(u16),
}

impl TransportError {
    /// What it means that a request got no response: a timeout where the time allowed ran
    /// out, a failed connection otherwise.
    pub fn of_send_failure(timed_out: bool) -> (e: TransportError)
        ensures
            e == (if timed_out {
                TransportError::Timeout
            } else {
                TransportError::Connection
            }),
    {
        if timed_out {
            TransportError::Timeout
        } else {
            TransportError::Connection
        }
    }
}

/// A message as a workflow hands it to the transport.
#[derive(Debug)]
pub struct Email {
    pub recipient: SubscriberEmail,
    pub subject: String,
    pub html_content: String,
    pub text_content: String,
}

/// An `Email` as a mathematical value.
pub struct EmailText {
    pub recipient: Seq<char>,
    pub subject: Seq<char>,
    pub html_content: Seq<char>,
    pub text_content: Seq<char>,
}

impl View for Email {
    type V = EmailText;

    open spec fn view(&self) -> EmailText {
        EmailText {
            recipient: self.recipient@,
            subject: self.subject@,
            html_content: self.html_content@,
            text_content: self.text_content@,
        }
    }
}

/// The body of the request that posts one email; the transport reads the fields under the
/// names `From`, `To`, `Subject`, `HtmlBody` and `TextBody`.
#[derive(Debug)]
pub struct SendEmailRequest {
    pub from: String,
    pub to: String,
    pub subject: String,
    pub html_body: String,
    pub text_body: String,
}

/// One HTTP request to the transport, ready to be posted.
#[derive(Debug)]
pub struct EmailRequest {
    /// The URL to post to.
    pub url: String,
    /// The name of the authorization header.
    pub header_name: String,
    /// The value of the authorization header.
    pub header_value: String,
    /// How long to wait for the response.
    pub timeout: Duration,
    /// The fields of the JSON body.
    pub body: SendEmailRequest,
}

/// An `EmailRequest` as a mathematical value.
pub struct EmailRequestText {
    pub url: Seq<char>,
    pub header_name: Seq<char>,
    pub header_value: Seq<char>,
    pub timeout: Duration,
    pub from: Seq<char>,
    pub to: Seq<char>,
    pub subject: Seq<char>,
    pub html_body: Seq<char>,
    pub text_body: Seq<char>,
}

impl View for EmailRequest {
    type V = EmailRequestText;

    open spec fn view(&self) -> EmailRequestText {
        EmailRequestText {
            url: self.url@,
            header_name: self.header_name@,
            header_value: self.header_value@,
            timeout: self.timeout,
            from: self.body.from@,
            to: self.body.to@,
            subject: self.body.subject@,
            html_body: self.body.html_body@,
            text_body: self.body.text_body@,
        }
    }
}

/// What an `EmailClient` holds, as a mathematical value.
pub struct EmailClientView {
    pub endpoint: Seq<char>,
    pub sender: Seq<char>,
    pub authorization_token: Seq<char>,
    pub timeout: Duration,
}

impl EmailClientView {
    /// The request by which this client sends `email`.
    pub open spec fn request(self, email: EmailText) -> EmailRequestText {
        EmailRequestText {
            url: self.endpoint,
            header_name: token_header(),
            header_value: self.authorization_token,
            timeout: self.timeout,
            from: self.sender,
            to: email.recipient,
            subject: email.subject,
            html_body: email.html_content,
            text_body: email.text_content,
        }
    }
}

/// A client of the email transport: where it lives, who the emails come from, the token
/// that authorizes them and the time allowed for each request.
#[derive(Debug)]
pub struct EmailClient {
    endpoint: String,
    sender: SubscriberEmail,
    authorization_token: String,
    timeout: Duration,
}

impl View for EmailClient {
    type V = EmailClientView;

    closed spec fn view(&self) -> EmailClientView {
        EmailClientView {
            endpoint: self.endpoint@,
            sender: self.sender@,
            authorization_token: self.authorization_token@,
            timeout: self.timeout,
        }
    }
}

impl EmailClient {
    /// A client for the transport at `base_url`, or `None` where `base_url` is no absolute
    /// URL or the path of the email endpoint cannot be resolved against it.
    pub fn try_new(
        base_url: &str,
        sender: SubscriberEmail,
        authorization_token: String,
        timeout: Duration,
    ) -> (r: Option<EmailClient>)
        ensures
            r is Some <==> email_endpoint(base_url@) is Some,
            r matches Some(client) ==> client@ == (EmailClientView {
                endpoint: email_endpoint(base_url@).unwrap(),
                sender: sender@,
                authorization_token: authorization_token@,
                timeout,
            }),
    {
        match parse_url(base_url) {
            Some(base) => match join_url(base.as_str(), "/email") {
                Some(_) => Some(EmailClient::new(base_url, sender, authorization_token, timeout)),
                None => None,
            },
            None => None,
        }
    }

    /// A client for the transport at `base_url`, which must be a URL that the email
    /// endpoint can be resolved against.
    pub fn new(
        base_url: &str,
        sender: SubscriberEmail,
        authorization_token: String,
        timeout: Duration,
    ) -> (client: EmailClient)
        requires
            email_endpoint(base_url@) is Some,
        ensures
            client@ == (EmailClientView {
                endpoint: email_endpoint(base_url@).unwrap(),
                sender: sender@,
                authorization_token: authorization_token@,
                timeout,
            }),
    {
        let base = parse_url(base_url).unwrap();
        let endpoint = join_url(base.as_str(), "/email").unwrap();
        EmailClient { endpoint, sender, authorization_token, timeout }
    }

    /// The request that sends one email: a POST to the email endpoint, authorized by the
    /// client's token, from the client's sender to `recipient`.
    pub fn send_email(
        &self,
        recipient: &SubscriberEmail,
        subject: &str,
        html_content: &str,
        text_content: &str,
    ) -> (request: EmailRequest)
        ensures
            request@ == self@.request(
                EmailText {
                    recipient: recipient@,
                    subject: subject@,
                    html_content: html_content@,
                    text_content: text_content@,
                },
            ),
    {
        EmailRequest {
            url: self.endpoint.clone(),
            header_name: String::from_str("X-Postmark-Server-Token"),
            header_value: self.authorization_token.clone(),
            timeout: self.timeout,
            body: SendEmailRequest {
                from: String::from_str(self.sender.as_str()),
                to: String::from_str(recipient.as_str()),
                subject: String::from_str(subject),
                html_body: String::from_str(html_content),
                text_body: String::from_str(text_content),
            },
        }
    }

    /// What the transport's answer means: a status that is a client or server error, from
    /// 400 to 599, is a failure; every other status means that the email was taken.
    pub fn check_status(status: u16) -> (r: Result<(), TransportError>)
        ensures
            r == (if 400 <= status <= 599 {
                Err::<(), TransportError>(TransportError::Status(status))
            } else {
                Ok::<(), TransportError>(())
            }),
    {
        if 400 <= status && status <= 599 {
            Err(TransportError::Status(status))
        } else {
            Ok(())
        }
    }
}

/// The requests of a vector, as mathematical values.
pub open spec fn requests_of(v: Seq<EmailRequest>) -> Seq<EmailRequestText> {
    Seq::new(v.len(), |i: int| v[i]@)
}

/// What a `MailServer` holds, as a mathematical value.
pub struct MailServerView {
    pub status: u16,
    pub received: Seq<EmailRequestText>,
}

/// An email transport held in memory: it keeps every request posted to it, in order, and
/// answers each with the status it was set up with.
#[derive(Debug)]
pub struct MailServer {
    status: u16,
    received: Vec<EmailRequest>,
}

impl View for MailServer {
    type V = MailServerView;

    closed spec fn view(&self) -> MailServerView {
        MailServerView { status: self.status, received: requests_of(self.received@) }
    }
}

impl MailServer {
    /// A transport that has received nothing and answers every request with `status`.
    pub fn new(status: u16) -> (server: MailServer)
        ensures
            server@ == (MailServerView { status, received: Seq::empty() }),
    {
        let server = MailServer { status, received: Vec::new() };
        assert(server@.received =~= Seq::empty());
        server
    }

    /// Takes a request and answers it.
    pub fn post(&mut self, request: EmailRequest) -> (status: u16)
        ensures
            status == old(self)@.status,
            final(self)@ == (MailServerView {
                status: old(self)@.status,
                received: old(self)@.received.push(request@),
            }),
    {
        self.received.push(request);
        assert(self@.received =~= old(self)@.received.push(request@));
        self.status
    }

    /// The requests received so far, oldest first.
    pub fn received(&self) -> (requests: &Vec<EmailRequest>)
        ensures
            requests_of(requests@) == self@.received,
    {
        &self.received
    }
}

} // verus!
