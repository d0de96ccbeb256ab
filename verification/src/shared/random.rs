//! Random alphanumeric text, for generated keys and secrets.
use vstd::prelude::*;
use rand::Rng;

verus! {

/// An ASCII letter or digit.
pub open spec fn is_alphanumeric(c: char) -> bool {
    ('A' <= c <= 'Z') || ('a' <= c <= 'z') || ('0' <= c <= '9')
}

/// `rand::thread_rng().sample(Alphanumeric)`: a random byte drawn from
/// "A".."Z", "a".."z" and "0".."9", taken as a character. Trusted: rand's
/// `Alphanumeric` samples only from that table; which character comes out is
/// left open.
#[verifier::external_body]
fn random_alphanumeric_char() -> (res: char)
    ensures
        is_alphanumeric(res),
{
    char::from(rand::thread_rng().sample(rand::distributions::Alphanumeric))
}

/// `String::push`: appends one character.
#[verifier::external_body]
fn push_char(text: &mut String, c: char)
    ensures
        final(text)@ == old(text)@.push(c),
{
    text.push(c)
}

/// A random string of `len` ASCII letters and digits.
pub fn random_alphanumeric_string(len: usize) -> (res: String)
    ensures
        res@.len() == len,
        forall|i: int| 0 <= i < len ==> is_alphanumeric(#[trigger] res@[i]),
{
    let mut text = String::new();
    let mut n: usize = 0;
    while n < len
        invariant
            n <= len,
            text@.len() == n,
            forall|i: int| 0 <= i < n ==> is_alphanumeric(#[trigger] text@[i]),
        decreases len - n,
    {
        let c = random_alphanumeric_char();
        push_char(&mut text, c);
        n = n + 1;
    }
    text
}

} // verus!
