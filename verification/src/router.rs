use crate::email_client::{EmailClient, EmailClientView, MailServer, MailServerView};
use crate::store::{Store, Tables};
use vstd::prelude::*;

verus! {

/// The HTTP status of a request that was carried out.
pub const OK: u16 = 200;

/// The HTTP status of a request with invalid contents.
pub const BAD_REQUEST: u16 = 400;

/// The HTTP status of a request with a credential that is not recognised.
pub const UNAUTHORIZED: u16 = 401;

/// The HTTP status of a request that failed on the server's side.
pub const INTERNAL_SERVER_ERROR: u16 = 500;

/// The body of an error response: the status code once more, and a message that is fit
/// for the client to read.
#[derive(Debug)]
pub struct ErrorResponse {
    code: u16,
    message: String,
}

impl ErrorResponse {
    pub closed spec fn spec_code(&self) -> u16 {
        self.code
    }

    pub closed spec fn spec_message(&self) -> Seq<char> {
        self.message@
    }

    /// An error response body with the given code and message.
    pub fn new(code: u16, message: String) -> (r: Self)
        ensures
            r.spec_code() == code,
            r.spec_message() == message@,
    {
        Self { code, message }
    }

    /// The status code.
    #[verifier::when_used_as_spec(spec_code)]
    pub fn code(&self) -> (r: u16)
        ensures
            r == self.spec_code(),
    {
        self.code
    }

    /// The message.
    pub fn message(&self) -> (r: &str)
        ensures
            r@ == self.spec_message(),
    {
        self.message.as_str()
    }
}

/// How loudly an error is logged.
#[derive(Clone, Copy, Debug, PartialEq, Eq, Structural)]
pub enum Severity {
    /// The client's doing: a warning.
    Warn,
    /// The server's doing: an error.
    Error,
}

/// What every error of the HTTP surface can do: name the status that answers the request,
/// and give the text that the client is shown.
pub trait ResponseError {
    /// The HTTP status that answers the request.
    spec fn spec_status_code(&self) -> u16;

    /// The text that the client is shown.
    spec fn spec_message(&self) -> Seq<char>;

    /// The HTTP status that answers the request.
    fn status_code(&self) -> (code: u16)
        ensures
            code == self.spec_status_code(),
    ;

    /// The text that the client is shown.
    fn message(&self) -> (text: String)
        ensures
            text@ == self.spec_message(),
    ;
}

/// How loudly an error with the status `code` is logged.
pub open spec fn severity_of(code: u16) -> Severity {
    if code >= INTERNAL_SERVER_ERROR {
        Severity::Error
    } else {
        Severity::Warn
    }
}

/// How loudly `error` is logged: a server error as an error, anything else as a warning.
pub fn severity<E: ResponseError>(error: &E) -> (level: Severity)
    ensures
        level == severity_of(error.spec_status_code()),
{
    if error.status_code() >= INTERNAL_SERVER_ERROR {
        Severity::Error
    } else {
        Severity::Warn
    }
}

/// The status and the body of the response that reports `error`: the body repeats the
/// status and carries the text for the client, nothing else.
pub fn into_response<E: ResponseError>(error: &E) -> (r: (u16, ErrorResponse))
    ensures
        r.0 == error.spec_status_code(),
        r.1.spec_code() == error.spec_status_code(),
        r.1.spec_message() == error.spec_message(),
{
    let code = error.status_code();
    let body = ErrorResponse::new(code, error.message());
    (code, body)
}

/// What an `AppState` holds, as a mathematical value.
pub struct World {
    pub db: Tables,
    pub email_client: EmailClientView,
    pub base_url: Seq<char>,
    pub mail_server: MailServerView,
}

/// Everything a request handler works with: the store, the client of the email transport,
/// the base URL under which the service is reached from outside, and the transport itself.
#[derive(Debug)]
pub struct AppState {
    pub db: Store,
    pub email_client: EmailClient,
    pub base_url: String,
    pub mail_server: MailServer,
}

impl View for AppState {
    type V = World;

    open spec fn view(&self) -> World {
        World {
            db: self.db@,
            email_client: self.email_client@,
            base_url: self.base_url@,
            mail_server: self.mail_server@,
        }
    }
}

} // verus!
