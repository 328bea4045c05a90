//! Random session IDs.

use rand::distributions::Alphanumeric;
use rand::rngs::OsRng;
use rand::Rng;
use vstd::prelude::*;

verus! {

/// Whether a character is one of `A` to `Z`, `a` to `z` and `0` to `9`.
pub open spec fn is_alphanumeric(ch: char) -> bool {
    ('A' <= ch && ch <= 'Z') || ('a' <= ch && ch <= 'z') || ('0' <= ch && ch <= '9')
}

/// Whether a text has the shape of a new session ID of a given length.
pub open spec fn is_token(text: Seq<char>, len: nat) -> bool {
    text.len() == len && forall|i: int| 0 <= i < text.len() ==> is_alphanumeric(#[trigger] text[i])
}

/// Draws a character: `rand::Rng::sample` with `rand::distributions::Alphanumeric`, on
/// `rand::rngs::OsRng`.
///
/// What is claimed: the character is an ASCII letter or digit. Nothing is claimed of which one it
/// is. Where the operating system gives out no randomness, the call panics.
#[verifier::external_body]
fn sample_alphanumeric() -> (ch: char)
    ensures
        is_alphanumeric(ch),
{
    char::from(OsRng.sample(Alphanumeric))
}

/// Whether each character of a text is one that was drawn.
pub closed spec fn is_sampled(text: Seq<char>) -> bool {
    forall|i: int| 0 <= i < text.len() ==> call_ensures(sample_alphanumeric, (), #[trigger] text[i])
}

/// Draws a character from a source of them.
fn draw<F: FnOnce() -> char>(source: F) -> (ch: char)
    requires
        call_requires(source, ()),
    ensures
        call_ensures(source, (), ch),
{
    source()
}

/// Draws a text of letters and digits, each on its own.
pub fn random_token(len: usize) -> (token: String)
    ensures
        is_token(token@, len as nat),
        is_sampled(token@),
{
    let mut token = String::new();
    let mut i: usize = 0;
    while i < len
        invariant
            i <= len,
            is_token(token@, i as nat),
            is_sampled(token@),
        decreases len - i,
    {
        token.push(draw(sample_alphanumeric));
        i += 1;
    }
    token
}

}
