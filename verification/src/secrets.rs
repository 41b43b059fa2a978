//! The random values of one authorization attempt: the state token and the PKCE pair.

use crate::text::is_alphanumeric;
use oauth2::PkceCodeChallenge;
use rand::distributions::Alphanumeric;
use rand::Rng;
use vstd::prelude::*;

verus! {

/// How many characters a state token has.
pub const STATE_LENGTH: usize = 30;

/// A PKCE code challenge, the method that made it, and the verifier it was made from.
#[derive(Debug)]
pub struct PkcePair {
    pub code_challenge: String,
    pub code_challenge_method: String,
    pub code_verifier: String,
}

/// What `PkceCodeChallenge::from_code_verifier_sha256` gives for a verifier: the SHA-256
/// digest of the verifier in base64 for URLs, without padding.
pub uninterp spec fn s256_challenge(verifier: Seq<char>) -> Seq<char>;

/// The characters of base64 for URLs.
pub open spec fn is_base64url(c: char) -> bool {
    is_alphanumeric(c) || c == '-' || c == '_'
}

/// `PkceCodeChallenge::new_random_sha256`: a verifier of 32 random bytes in base64 for URLs,
/// which makes 43 characters, with its `S256` challenge.
#[verifier::external_body]
pub(crate) fn new_pkce() -> (pair: PkcePair)
    ensures
        pair.code_challenge_method@ == "S256"@,
        pair.code_challenge@ == s256_challenge(pair.code_verifier@),
        pair.code_verifier@.len() == 43,
        forall|i: int| 0 <= i < pair.code_verifier@.len() ==> is_base64url(pair.code_verifier@[i]),
{
    let (challenge, verifier) = PkceCodeChallenge::new_random_sha256();
    PkcePair {
        code_challenge: challenge.as_str().to_string(),
        code_challenge_method: challenge.method().as_str().to_string(),
        code_verifier: verifier.secret().clone(),
    }
}

/// `Rng::sample` of `Alphanumeric` on the generator of the thread: one of the 62 ASCII
/// letters and digits.
#[verifier::external_body]
pub(crate) fn random_alphanumeric() -> (b: u8)
    ensures
        is_alphanumeric(b as char),
{
    rand::thread_rng().sample(Alphanumeric)
}

/// Whether a text can serve as a state token: letters and digits only.
pub open spec fn is_state_token(token: Seq<char>) -> bool {
    forall|i: int| 0 <= i < token.len() ==> is_alphanumeric(#[trigger] token[i])
}

/// A fresh state token: `STATE_LENGTH` random letters and digits.
pub fn generate_state() -> (token: String)
    ensures
        token@.len() == STATE_LENGTH,
        is_state_token(token@),
{
    let mut token = String::new();
    let mut i: usize = 0;
    while i < STATE_LENGTH
        invariant
            i <= STATE_LENGTH,
            token@.len() == i,
            is_state_token(token@),
        decreases STATE_LENGTH - i,
    {
        let b: u8 = random_alphanumeric();
        token.push(b as char);
        i += 1;
    }
    token
}

} // verus!
