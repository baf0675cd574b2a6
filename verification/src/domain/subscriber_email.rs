use validator::ValidateEmail;
use vstd::prelude::*;

verus! {

/// Whether `validator` accepts `s` as the text of an email address.
pub uninterp spec fn email_syntax(s: Seq<char>) -> bool;

/// `validator::ValidateEmail::validate_email` on a string slice: the HTML5 rule for a valid
/// email address, decided by the text alone. It accepts no text without an `@`.
#[verifier::external_body]
fn validate_email(s: &str) -> (ok: bool)
    ensures
        ok == email_syntax(s@),
        ok ==> s@.contains('@'),
{
    s.validate_email()
}

/// The text of an address that a `SubscriberEmail` may hold.
pub open spec fn is_valid_email(s: Seq<char>) -> bool {
    s.len() > 0 && email_syntax(s)
}

/// What `SubscriberEmail::parse` answers to a text it refuses.
pub open spec fn email_rejection(s: Seq<char>) -> Seq<char> {
    if s.len() == 0 {
        "Email address cannot be empty"@
    } else {
        "'"@ + s + "' is not a valid email address"@
    }
}

/// An email address that has passed validation.
#[derive(Debug)]
pub struct SubscriberEmail(String);

impl View for SubscriberEmail {
    type V = Seq<char>;

    closed spec fn view(&self) -> Seq<char> {
        self.0@
    }
}

impl Clone for SubscriberEmail {
    fn clone(&self) -> (r: Self)
        ensures
            r@ == self@,
    {
        proof {
            use_type_invariant(self);
        }
        SubscriberEmail(self.0.clone())
    }
}

impl SubscriberEmail {
    #[verifier::type_invariant]
    spec fn holds_valid_address(&self) -> bool {
        is_valid_email(self.0@)
    }

    /// Accepts `s` exactly when it is not empty and has the syntax of an email address;
    /// the address then holds `s` unchanged. Otherwise the error says why.
    pub fn parse(s: String) -> (r: Result<SubscriberEmail, String>)
        ensures
            match r {
                Ok(email) => is_valid_email(s@) && email@ == s@,
                Err(message) => !is_valid_email(s@) && message@ == email_rejection(s@),
            },
    {
        if s.as_str().unicode_len() == 0 {
            return Err(String::from_str("Email address cannot be empty"));
        }
        if !validate_email(s.as_str()) {
            let mut message = String::from_str("'");
            message.append(s.as_str());
            message.append("' is not a valid email address");
            return Err(message);
        }
        Ok(SubscriberEmail(s))
    }

    /// The address as text.
    pub fn as_str(&self) -> (r: &str)
        ensures
            r@ == self@,
            is_valid_email(r@),
    {
        proof {
            use_type_invariant(self);
        }
        self.0.as_str()
    }
}

impl AsRef<str> for SubscriberEmail {
    fn as_ref(&self) -> (r: &str)
        ensures
            r@ == self@,
    {
        self.as_str()
    }
}

} // verus!
