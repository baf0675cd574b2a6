use crate::router::{ResponseError, BAD_REQUEST, INTERNAL_SERVER_ERROR};
use vstd::prelude::*;

verus! {

/// An error of the HTTP API. The database and internal variants hold the text of their
/// cause, which is logged and never shown to the client.
#[derive(Debug)]
pub enum ApiError {
    /// The database failed.
    Database(String),
    /// Something else failed on the server's side.
    Internal(String),
    /// The request held a value that is not acceptable.
    InvalidValue(String),
}

impl ResponseError for ApiError {
    /// The HTTP status that answers the request.
    open spec fn spec_status_code(&self) -> u16 {
        match self {
            ApiError::Database(_) | ApiError::Internal(_) => INTERNAL_SERVER_ERROR,
            ApiError::InvalidValue(_) => BAD_REQUEST,
        }
    }

    /// The text that the client is shown.
    open spec fn spec_message(&self) -> Seq<char> {
        match self {
            ApiError::Database(_) => "a database error has occurred"@,
            ApiError::Internal(_) => "an internal server error has occurred"@,
            ApiError::InvalidValue(value) => "invalid value: "@ + value@,
        }
    }

    /// The HTTP status that answers the request: a client error for a value that is not
    /// acceptable, a server error for everything else.
    fn status_code(&self) -> (code: u16) {
        match self {
            ApiError::Database(_) | ApiError::Internal(_) => INTERNAL_SERVER_ERROR,
            ApiError::InvalidValue(_) => BAD_REQUEST,
        }
    }

    /// The text that the client is shown: it names the kind of error, and the cause only
    /// where the cause is the client's own value.
    fn message(&self) -> (text: String) {
        match self {
            ApiError::Database(_) => String::from_str("a database error has occurred"),
            ApiError::Internal(_) => String::from_str("an internal server error has occurred"),
            ApiError::InvalidValue(value) => {
                let mut text = String::from_str("invalid value: ");
                text.append(value.as_str());
                text
            },
        }
    }
}

impl ApiError {
    /// The text that is logged.
    pub open spec fn spec_inner_error(&self) -> Seq<char> {
        match self {
            ApiError::Database(cause) => "database error: "@ + cause@,
            ApiError::Internal(cause) => "internal error: "@ + cause@,
            ApiError::InvalidValue(value) => "invalid value: "@ + value@,
        }
    }

    /// The text that is logged: the kind of error and its cause.
    pub fn inner_error(&self) -> (text: String)
        ensures
            text@ == self.spec_inner_error(),
    {
        match self {
            ApiError::Database(cause) => {
                let mut text = String::from_str("database error: ");
                text.append(cause.as_str());
                text
            },
            ApiError::Internal(cause) => {
                let mut text = String::from_str("internal error: ");
                text.append(cause.as_str());
                text
            },
            ApiError::InvalidValue(value) => {
                let mut text = String::from_str("invalid value: ");
                text.append(value.as_str());
                text
            },
        }
    }
}

} // verus!
