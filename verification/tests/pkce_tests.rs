//! PKCE verifier and challenge behavior, including the RFC 7636 vector.

use authful_mcp_proxy_ng::pkce::PkceParams;
use base64::Engine;
use sha2::Digest;

#[test]
fn test_pkce_generation() {
    let pkce = PkceParams::generate();

    // Verify code verifier length
    assert_eq!(pkce.code_verifier.len(), 64);

    // Verify code challenge is base64url encoded
    assert!(!pkce.code_challenge.contains('+'));
    assert!(!pkce.code_challenge.contains('/'));
    assert!(!pkce.code_challenge.contains('='));

    // Verify code challenge length (SHA256 hash encoded in base64url is 43 chars)
    assert_eq!(pkce.code_challenge.len(), 43);
}

#[test]
fn test_pkce_uniqueness() {
    let pkce1 = PkceParams::generate();
    let pkce2 = PkceParams::generate();

    // Each generation should produce unique values
    assert_ne!(pkce1.code_verifier, pkce2.code_verifier);
    assert_ne!(pkce1.code_challenge, pkce2.code_challenge);
}

#[test]
fn test_pkce_challenge_computation() {
    // Manually compute challenge to verify correctness
    let verifier = "test_verifier_string_for_pkce_testing_purposes_in_unit_test";

    let mut hasher = sha2::Sha256::new();
    hasher.update(verifier.as_bytes());
    let hash = hasher.finalize();
    let expected_challenge = base64::engine::general_purpose::URL_SAFE_NO_PAD.encode(hash);

    // Create PKCE with known verifier
    let pkce = PkceParams {
        code_verifier: verifier.to_string(),
        code_challenge: expected_challenge.clone(),
    };

    assert_eq!(pkce.code_challenge, expected_challenge);
}

#[test]
fn test_pkce_known_vector() {
    // The verifier/challenge pair from RFC 7636, appendix B.
    let pkce =
        PkceParams::from_verifier("dBjftJeZ4CVP-mB92K27uhbUJU1p1r_wW1gFWFOEjXk".to_string());
    assert_eq!(pkce.code_challenge, "E9Melhoa2OwvFrEMTJguCHaoeK1t8URWbuGJSstw-cM");
}

#[test]
fn test_pkce_verifier_charset() {
    let pkce = PkceParams::generate();
    assert!(pkce.code_verifier.chars().all(|c| c.is_ascii_alphanumeric()));
    assert!(pkce
        .code_challenge
        .chars()
        .all(|c| c.is_ascii_alphanumeric() || c == '-' || c == '_'));
}
