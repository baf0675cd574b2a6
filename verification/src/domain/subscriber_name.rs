use unicode_segmentation::UnicodeSegmentation;
use vstd::prelude::*;

verus! {

/// Whether `c` has the Unicode property White_Space.
pub uninterp spec fn is_whitespace(c: char) -> bool;

/// How many extended grapheme clusters the text `s` is made of.
pub uninterp spec fn grapheme_count(s: Seq<char>) -> nat;

/// `char::is_whitespace` of std: true exactly for the characters with the Unicode property
/// White_Space, the ones that `str::trim` removes.
#[verifier::external_body]
fn char_is_whitespace(c: char) -> (r: bool)
    ensures
        r == is_whitespace(c),
{
    c.is_whitespace()
}

/// `unicode_segmentation::UnicodeSegmentation::graphemes` with `is_extended` set: counts the
/// extended grapheme clusters that the iterator yields for `s`.
#[verifier::external_body]
fn count_graphemes(s: &str) -> (n: usize)
    ensures
        n == grapheme_count(s@),
{
    s.graphemes(true).count()
}

/// The longest name accepted, in grapheme clusters.
pub const MAX_NAME_GRAPHEMES: usize = 256;

/// The characters that no name may contain.
pub open spec fn is_forbidden(c: char) -> bool {
    c == '/' || c == '(' || c == ')' || c == '"' || c == '<' || c == '>' || c == '\\' || c == '{'
        || c == '}'
}

/// Nothing is left of `s` once leading and trailing whitespace is trimmed away: every
/// character of it is whitespace.
pub open spec fn is_blank(s: Seq<char>) -> bool {
    forall|i: int| 0 <= i < s.len() ==> is_whitespace(#[trigger] s[i])
}

/// `s` contains one of the forbidden characters.
pub open spec fn has_forbidden(s: Seq<char>) -> bool {
    exists|i: int| 0 <= i < s.len() && is_forbidden(#[trigger] s[i])
}

/// The text of a name that a `SubscriberName` may hold.
pub open spec fn is_valid_name(s: Seq<char>) -> bool {
    !is_blank(s) && grapheme_count(s) <= MAX_NAME_GRAPHEMES && !has_forbidden(s)
}

/// What `SubscriberName::parse` answers to a text it refuses.
pub open spec fn name_rejection(s: Seq<char>) -> Seq<char> {
    if is_blank(s) {
        "Subscriber name cannot be empty"@
    } else {
        "'"@ + s + "' is not a valid subscriber name"@
    }
}

fn forbidden(c: char) -> (r: bool)
    ensures
        r == is_forbidden(c),
{
    c == '/' || c == '(' || c == ')' || c == '"' || c == '<' || c == '>' || c == '\\' || c == '{'
        || c == '}'
}

/// One pass over `s`: whether it is blank, and whether it holds a forbidden character.
fn scan(s: &str) -> (r: (bool, bool))
    ensures
        r.0 == is_blank(s@),
        r.1 == has_forbidden(s@),
{
    let mut blank = true;
    let mut bad = false;
    for c in it: s.chars()
        invariant
            it.seq() == s@,
            blank == (forall|i: int| 0 <= i < it.index() ==> is_whitespace(#[trigger] s@[i])),
            bad == (exists|i: int| 0 <= i < it.index() && is_forbidden(#[trigger] s@[i])),
    {
        if !char_is_whitespace(c) {
            blank = false;
        }
        if forbidden(c) {
            bad = true;
        }
    }
    (blank, bad)
}

/// A subscriber's display name that has passed validation.
#[derive(Debug)]
pub struct SubscriberName(String);

impl View for SubscriberName {
    type V = Seq<char>;

    closed spec fn view(&self) -> Seq<char> {
        self.0@
    }
}

impl Clone for SubscriberName {
    fn clone(&self) -> (r: Self)
        ensures
            r@ == self@,
    {
        proof {
            use_type_invariant(self);
        }
        SubscriberName(self.0.clone())
    }
}

impl SubscriberName {
    #[verifier::type_invariant]
    spec fn holds_valid_name(&self) -> bool {
        is_valid_name(self.0@)
    }

    /// Accepts `s` exactly when it is not blank, is at most `MAX_NAME_GRAPHEMES` grapheme
    /// clusters long and holds no forbidden character; the name then holds `s` unchanged.
    /// Otherwise the error says why.
    pub fn parse(s: String) -> (r: Result<SubscriberName, String>)
        ensures
            match r {
                Ok(name) => is_valid_name(s@) && name@ == s@,
                Err(message) => !is_valid_name(s@) && message@ == name_rejection(s@),
            },
    {
        let (blank, bad) = scan(s.as_str());
        if blank {
            return Err(String::from_str("Subscriber name cannot be empty"));
        }
        if bad || count_graphemes(s.as_str()) > MAX_NAME_GRAPHEMES {
            let mut message = String::from_str("'");
            message.append(s.as_str());
            message.append("' is not a valid subscriber name");
            return Err(message);
        }
        Ok(SubscriberName(s))
    }

    /// The name as text.
    pub fn as_str(&self) -> (r: &str)
        ensures
            r@ == self@,
            is_valid_name(r@),
    {
        proof {
            use_type_invariant(self);
        }
        self.0.as_str()
    }
}

impl AsRef<str> for SubscriberName {
    fn as_ref(&self) -> (r: &str)
        ensures
            r@ == self@,
    {
        self.as_str()
    }
}

} // verus!
