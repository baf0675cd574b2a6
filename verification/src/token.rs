use crate::text::push_char;
use rand::distr::Alphanumeric;
use rand::rngs::ThreadRng;
use rand::Rng;
use vstd::prelude::*;

verus! {

/// The number of characters in a confirmation token.
pub const TOKEN_LENGTH: usize = 25;

/// One of the 62 symbols a token is drawn from: an ASCII letter or digit.
pub open spec fn is_token_symbol(c: char) -> bool {
    ('0' <= c && c <= '9') || ('A' <= c && c <= 'Z') || ('a' <= c && c <= 'z')
}

/// The shape of every confirmation token: `TOKEN_LENGTH` ASCII letters and digits.
pub open spec fn is_subscription_token(s: Seq<char>) -> bool {
    &&& s.len() == TOKEN_LENGTH
    &&& forall|i: int| 0 <= i < s.len() ==> is_token_symbol(#[trigger] s[i])
}

/// `rand::rngs::ThreadRng`, the handle to a thread's generator; nothing of its state is
/// visible here.
#[verifier::external_type_specification]
#[verifier::external_body]
pub struct ExThreadRng(ThreadRng);

/// `rand::rng`: a handle to the generator of the current thread, a cryptographically secure
/// generator seeded by the operating system. Nothing is claimed of its state.
#[verifier::external_body]
fn thread_rng() -> ThreadRng {
    rand::rng()
}

/// `rand::Rng::sample` with the distribution `rand::distr::Alphanumeric`: whatever the
/// generator yields, the byte is one of a-z, A-Z and 0-9.
#[verifier::external_body]
fn sample_alphanumeric(rng: &mut ThreadRng) -> (b: u8)
    ensures
        is_token_symbol(b as char),
{
    rng.sample(Alphanumeric)
}

/// Draws a fresh confirmation token: `TOKEN_LENGTH` symbols, each sampled on its own from
/// the thread's cryptographically secure generator.
pub fn generate_subscription_token() -> (token: String)
    ensures
        is_subscription_token(token@),
{
    let mut rng = thread_rng();
    let mut token = String::new();
    let mut n: usize = 0;
    while n < TOKEN_LENGTH
        invariant
            n <= TOKEN_LENGTH,
            token@.len() == n,
            forall|i: int| 0 <= i < token@.len() ==> is_token_symbol(#[trigger] token@[i]),
        decreases TOKEN_LENGTH - n,
    {
        let b = sample_alphanumeric(&mut rng);
        push_char(&mut token, b as char);
        n += 1;
    }
    token
}

} // verus!
