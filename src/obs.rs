//! Authentication with the screen recording application's control
//! protocol: the response to its challenge is derived from the password,
//! the salt and the challenge by SHA-256 and base64.
use vstd::prelude::*;
use base64::Engine;
use sha2::{Digest, Sha256};

verus! {

/// The SHA-256 digest of the UTF-8 encoding of a text.
pub uninterp spec fn sha256_of(s: Seq<char>) -> Seq<u8>;

/// The standard, padded base64 encoding of bytes.
pub uninterp spec fn base64_of(b: Seq<u8>) -> Seq<char>;

/// Relies on `sha2::Sha256::digest` over `str::as_bytes`: the 32-byte
/// digest of the text's UTF-8 encoding.
#[verifier::external_body]
fn sha256_text(s: &str) -> (r: Vec<u8>)
    ensures
        r@ == sha256_of(s@),
        r@.len() == 32,
{
    Sha256::digest(s.as_bytes()).to_vec()
}

/// Relies on `base64::engine::general_purpose::STANDARD.encode`: standard
/// alphabet with padding. It panics only when the encoded length overflows
/// `usize`, which the bound on the input rules out.
#[verifier::external_body]
fn base64_encode(b: &[u8]) -> (r: String)
    requires
        b@.len() <= usize::MAX / 2,
    ensures
        r@ == base64_of(b@),
{
    base64::engine::general_purpose::STANDARD.encode(b)
}

/// `base64(sha256(a + b))`, one step of the response.
pub open spec fn hashed_pair(a: Seq<char>, b: Seq<char>) -> Seq<char> {
    base64_of(sha256_of(a + b))
}

fn hash_pair(a: &str, b: &str) -> (r: String)
    ensures
        r@ == hashed_pair(a@, b@),
{
    let mut joined = a.to_owned();
    joined.append(b);
    let digest = sha256_text(joined.as_str());
    base64_encode(digest.as_slice())
}

/// The authentication string for a challenge: none when no password is
/// configured or the challenge or salt is missing (empty); otherwise the
/// secret `base64(sha256(password + salt))` hashed the same way with the
/// challenge.
pub fn build_auth(password: Option<&str>, salt: &str, challenge: &str) -> (r: Option<String>)
    ensures
        password is None || salt@.len() == 0 || challenge@.len() == 0 ==> r is None,
        password is Some && salt@.len() > 0 && challenge@.len() > 0 ==> r is Some && r->Some_0@
            == hashed_pair(hashed_pair(password->Some_0@, salt@), challenge@),
{
    let password = match password {
        Some(p) => p,
        None => return None,
    };
    if challenge.unicode_len() == 0 || salt.unicode_len() == 0 {
        return None;
    }
    let secret = hash_pair(password, salt);
    Some(hash_pair(secret.as_str(), challenge))
}

} // verus!
