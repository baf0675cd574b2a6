use crate::domain::subscriber_email::{email_rejection, is_valid_email, SubscriberEmail};
use crate::text::{decimal, push_decimal};
use std::time::Duration;
use vstd::prelude::*;

verus! {

/// The text of `s` with every character mapped to lower case, by the rules of Unicode.
pub uninterp spec fn lowercase(s: Seq<char>) -> Seq<char>;

/// The length of `d` in whole milliseconds.
pub uninterp spec fn duration_millis(d: Duration) -> nat;

/// `str::to_lowercase` of std: the lower-case equivalent of the text, a new string.
#[verifier::external_body]
fn to_lowercase(s: &str) -> (r: String)
    ensures
        r@ == lowercase(s@),
{
    s.to_lowercase()
}

/// `Duration::from_millis` of std: a duration of that many milliseconds.
pub assume_specification[ Duration::from_millis ](millis: u64) -> (d: Duration)
    ensures
        duration_millis(d) == millis,
;

/// Where the HTTP server listens and how it is reached from outside.
#[derive(Debug)]
pub struct ServerSettings {
    pub host: String,
    pub port: u16,
    pub base_url: String,
}

/// How the database is reached.
#[derive(Debug)]
pub struct DatabaseSettings {
    pub username: String,
    pub password: String,
    pub host: String,
    pub port: u16,
    pub db_name: String,
    pub require_ssl: bool,
}

/// Where the log goes and what is logged.
#[derive(Debug)]
pub struct LogsSettings {
    pub path: Option<String>,
    pub directives: Option<String>,
}

/// How the email transport is reached and used.
#[derive(Debug)]
pub struct EmailClientSettings {
    pub base_url: String,
    pub sender_email: String,
    pub authorization_token: String,
    pub timeout_millis: u64,
}

/// All settings of the application.
#[derive(Debug)]
pub struct Settings {
    pub database: DatabaseSettings,
    pub server: ServerSettings,
    pub logs: Option<LogsSettings>,
    pub email_client: EmailClientSettings,
}

/// Whether an encrypted connection to the database is demanded or only preferred.
#[derive(Clone, Copy, Debug, PartialEq, Eq, Structural)]
pub enum SslMode {
    Require,
    Prefer,
}

impl ServerSettings {
    /// The address to listen on: the host, a colon, and the port in decimal.
    pub fn address_string(&self) -> (r: String)
        ensures
            r@ == self.host@ + ":"@ + decimal(self.port as nat),
    {
        let mut r = self.host.clone();
        r.append(":");
        push_decimal(&mut r, self.port as u64);
        r
    }
}

impl DatabaseSettings {
    /// The connection string of this database.
    pub open spec fn spec_connection_string(&self) -> Seq<char> {
        "postgres://"@ + self.username@ + ":"@ + self.password@ + "@"@ + self.host@ + ":"@
            + decimal(self.port as nat) + "/"@ + self.db_name@
    }

    /// The connection string of this database: user and password, host and port, and the
    /// name of the database, in the form of a `postgres` URL.
    pub fn connection_string(&self) -> (r: String)
        ensures
            r@ == self.spec_connection_string(),
    {
        let mut r = String::from_str("postgres://");
        r.append(self.username.as_str());
        r.append(":");
        r.append(self.password.as_str());
        r.append("@");
        r.append(self.host.as_str());
        r.append(":");
        push_decimal(&mut r, self.port as u64);
        r.append("/");
        r.append(self.db_name.as_str());
        r
    }

    /// An encrypted connection is demanded where the settings say so, and preferred
    /// otherwise.
    pub fn ssl_mode(&self) -> (mode: SslMode)
        ensures
            mode == (if self.require_ssl {
                SslMode::Require
            } else {
                SslMode::Prefer
            }),
    {
        if self.require_ssl {
            SslMode::Require
        } else {
            SslMode::Prefer
        }
    }
}

impl EmailClientSettings {
    /// The sender's address, validated.
    pub fn sender(&self) -> (r: Result<SubscriberEmail, String>)
        ensures
            match r {
                Ok(email) => is_valid_email(self.sender_email@) && email@ == self.sender_email@,
                Err(message) => !is_valid_email(self.sender_email@) && message@
                    == email_rejection(self.sender_email@),
            },
    {
        SubscriberEmail::parse(self.sender_email.clone())
    }

    /// The time allowed for one request to the transport.
    pub fn timeout(&self) -> (d: Duration)
        ensures
            duration_millis(d) == self.timeout_millis,
    {
        Duration::from_millis(self.timeout_millis)
    }
}

/// The environments the application runs in.
#[derive(Clone, Copy, Debug, PartialEq, Eq, Structural)]
pub enum Environment {
    Dev,
    Production,
}

/// What a text that names no environment is answered with.
pub open spec fn environment_rejection(name: Seq<char>) -> Seq<char> {
    name + " is not a supported environment. Use either `dev` or `production`."@
}

impl Environment {
    /// The name of the environment.
    pub open spec fn spec_as_str(&self) -> Seq<char> {
        match self {
            Environment::Dev => "dev"@,
            Environment::Production => "production"@,
        }
    }

    /// The name of the environment, which is also the name of its configuration file.
    pub fn as_str(&self) -> (r: &'static str)
        ensures
            r@ == self.spec_as_str(),
    {
        match self {
            Environment::Dev => "dev",
            Environment::Production => "production",
        }
    }
}

impl Environment {
    /// The environment that `value` names, whatever the case of its letters; a text that
    /// names none is answered with a message that quotes it in lower case.
    pub fn try_from(value: String) -> (r: Result<Environment, String>)
        ensures
            match r {
                Ok(environment) => lowercase(value@) == environment.spec_as_str(),
                Err(message) => {
                    &&& lowercase(value@) != "dev"@
                    &&& lowercase(value@) != "production"@
                    &&& message@ == environment_rejection(lowercase(value@))
                },
            },
    {
        let lowered = to_lowercase(value.as_str());
        if lowered == String::from_str("dev") {
            Ok(Environment::Dev)
        } else if lowered == String::from_str("production") {
            Ok(Environment::Production)
        } else {
            let mut message = lowered;
            message.append(" is not a supported environment. Use either `dev` or `production`.");
            Err(message)
        }
    }
}

} // verus!
