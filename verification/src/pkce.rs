//! PKCE material for the authorization-code flow: a random URL-safe
//! alphanumeric verifier and its S256 challenge,
//! `base64url_nopad(sha256(verifier))`.

use vstd::prelude::*;
use vstd::string::*;
use vstd::utf8::encode_utf8;
use crate::text::{is_alnum_char, is_b64url_char};

use base64::Engine;
use rand::Rng;
use sha2::Digest;

verus! {

/// Characters drawn per verifier.
pub const VERIFIER_LEN: usize = 64;

/// The SHA-256 digest of a byte sequence.
pub uninterp spec fn sha256_of(bytes: Seq<u8>) -> Seq<u8>;

/// The URL-safe base64 rendering of a byte sequence, without padding.
pub uninterp spec fn base64url_nopad(bytes: Seq<u8>) -> Seq<char>;

/// The S256 challenge text for a verifier string.
pub open spec fn challenge_of(verifier: Seq<char>) -> Seq<char> {
    base64url_nopad(sha256_of(encode_utf8(verifier)))
}

/// Relies on rand's `Alphanumeric` distribution: every sample is drawn from
/// `A`-`Z`, `a`-`z`, `0`-`9`.
#[verifier::external_body]
pub(crate) fn random_alnum_string(len: usize) -> (r: String)
    ensures
        r@.len() == len,
        forall|i: int| 0 <= i < r@.len() ==> is_alnum_char(#[trigger] r@[i]),
{
    rand::thread_rng()
        .sample_iter(&rand::distributions::Alphanumeric)
        .take(len)
        .map(char::from)
        .collect()
}

/// Relies on sha2's `Sha256`: the digest is 32 bytes and depends on the
/// input bytes alone.
#[verifier::external_body]
fn sha256_digest(bytes: &[u8]) -> (r: Vec<u8>)
    ensures
        r@ == sha256_of(bytes@),
        r@.len() == 32,
{
    let mut hasher = sha2::Sha256::new();
    hasher.update(bytes);
    hasher.finalize().to_vec()
}

/// Relies on base64's `URL_SAFE_NO_PAD` engine: the rendering depends on the
/// input bytes alone, uses the URL-safe alphabet (`A`-`Z`, `a`-`z`, `0`-`9`,
/// `-`, `_`), carries no padding, and spends four characters on each full
/// three-byte group, two on a trailing byte, three on a trailing pair.
#[verifier::external_body]
fn b64url_encode(bytes: &[u8]) -> (r: String)
    ensures
        r@ == base64url_nopad(bytes@),
        r@.len() == 4 * (bytes@.len() / 3) + (
        if bytes@.len() % 3 == 0 {
            0int
        } else {
            bytes@.len() % 3 + 1int
        }),
        forall|i: int| 0 <= i < r@.len() ==> is_b64url_char(#[trigger] r@[i]),
{
    base64::engine::general_purpose::URL_SAFE_NO_PAD.encode(bytes)
}

/// The verifier/challenge pair of one authorization attempt.
#[derive(Debug, Clone)]
pub struct PkceParams {
    pub code_verifier: String,
    pub code_challenge: String,
}

impl PkceParams {
    /// The challenge is the S256 rendering of the verifier, 43 characters of
    /// the URL-safe base64 alphabet.
    pub open spec fn wf(&self) -> bool {
        &&& self.code_challenge@ == challenge_of(self.code_verifier@)
        &&& self.code_challenge@.len() == 43
        &&& forall|i: int|
            0 <= i < self.code_challenge@.len() ==> is_b64url_char(
                #[trigger] self.code_challenge@[i],
            )
    }

    /// Pair a given verifier with its S256 challenge.
    pub fn from_verifier(code_verifier: String) -> (r: PkceParams)
        ensures
            r.code_verifier == code_verifier,
            r.wf(),
    {
        let digest = sha256_digest(code_verifier.as_str().as_bytes());
        let code_challenge = b64url_encode(digest.as_slice());
        PkceParams { code_verifier, code_challenge }
    }

    /// Draw a fresh verifier of 64 URL-safe alphanumeric characters and
    /// compute its challenge.
    pub fn generate() -> (r: PkceParams)
        ensures
            r.code_verifier@.len() == VERIFIER_LEN,
            forall|i: int|
                0 <= i < r.code_verifier@.len() ==> is_alnum_char(
                    #[trigger] r.code_verifier@[i],
                ),
            r.wf(),
    {
        let code_verifier = random_alnum_string(VERIFIER_LEN);
        Self::from_verifier(code_verifier)
    }
}

} // verus!
