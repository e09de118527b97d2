//! The handle token that names a new portal session.

use vstd::prelude::*;
use rand::Rng;

verus! {

/// Number of random characters after the prefix.
pub const TOKEN_RANDOM_LEN: usize = 10;

/// An ASCII letter or digit.
pub open spec fn is_alphanumeric(c: char) -> bool {
    ('A' <= c && c <= 'Z') || ('a' <= c && c <= 'z') || ('0' <= c && c <= '9')
}

/// The text that every session token starts with.
pub open spec fn token_prefix() -> Seq<char> {
    seq!['w', 'h', 'y', 'd', 'o', 't', 'o', 'o', 'l', '_']
}

/// A well-formed random session token: the prefix, then ten ASCII letters or digits.
pub open spec fn is_random_token(s: Seq<char>) -> bool {
    &&& s.len() == token_prefix().len() + TOKEN_RANDOM_LEN
    &&& s.subrange(0, token_prefix().len() as int) == token_prefix()
    &&& forall|i: int| token_prefix().len() <= i < s.len() ==> is_alphanumeric(#[trigger] s[i])
}

/// Relies on rand's `Alphanumeric` distribution, sampled from the thread-local
/// generator `rand::rng()`: each sample is one byte of A-Z, a-z or 0-9, and
/// `take(len)` yields exactly `len` samples.
#[verifier::external_body]
fn random_alphanumeric(len: usize) -> (r: String)
    ensures
        r@.len() == len,
        forall|i: int| 0 <= i < len ==> is_alphanumeric(#[trigger] r@[i]),
{
    rand::rng().sample_iter(&rand::distr::Alphanumeric).take(len).map(char::from).collect()
}

/// The `session_handle_token` option of `CreateSession`.
pub struct SessionToken(String);

impl View for SessionToken {
    type V = Seq<char>;

    closed spec fn view(&self) -> Seq<char> {
        self.0@
    }
}

impl SessionToken {
    /// The token made of the prefix and `suffix`.
    pub fn from_suffix(suffix: &str) -> (r: SessionToken)
        ensures
            r@ == token_prefix() + suffix@,
    {
        let mut s = String::new();
        s.append("whydotool_");
        proof {
            reveal_strlit("whydotool_");
        }
        assert(s@ =~= token_prefix());
        s.append(suffix);
        SessionToken(s)
    }

    pub fn as_str(&self) -> (r: &str)
        ensures
            r@ == self@,
    {
        self.0.as_str()
    }
}

impl Default for SessionToken {
    /// A fresh token with a random part.
    fn default() -> (r: SessionToken)
        ensures
            is_random_token(r@),
    {
        let random = random_alphanumeric(TOKEN_RANDOM_LEN);
        let t = SessionToken::from_suffix(random.as_str());
        assert(t@.subrange(0, token_prefix().len() as int) =~= token_prefix());
        assert forall|i: int| token_prefix().len() <= i < t@.len() implies is_alphanumeric(#[trigger] t@[i]) by {
            assert(t@[i] == random@[i - token_prefix().len()]);
        }
        t
    }
}

} // verus!
