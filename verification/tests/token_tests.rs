//! Token bundle validity, refreshability, cache keying and the cache file
//! rendering.

use std::time::{SystemTime, UNIX_EPOCH};

use authful_mcp_proxy_ng::token::{TokenInfo, TokenResponse};

fn now_secs() -> u64 {
    SystemTime::now().duration_since(UNIX_EPOCH).unwrap().as_secs()
}

#[test]
fn test_sanitize_issuer() {
    assert_eq!(
        TokenInfo::sanitize_issuer("https://auth.example.com/realms/myrealm"),
        "auth.example.com_realms_myrealm"
    );
    assert_eq!(TokenInfo::sanitize_issuer("http://localhost:8080"), "localhost_8080");
}

#[test]
fn test_token_validation() {
    // Valid token
    let mut token = TokenInfo {
        access_token: "test_token".to_string(),
        refresh_token: None,
        expires_in: Some(3600),
        token_type: Some("Bearer".to_string()),
        scope: None,
        expires_at: Some(now_secs() + 3600),
    };

    assert!(token.is_valid());

    // Expired token
    token.expires_at = Some(now_secs() - 100);

    assert!(!token.is_valid());

    // Empty token
    let empty_token = TokenInfo {
        access_token: String::new(),
        refresh_token: None,
        expires_in: None,
        token_type: None,
        scope: None,
        expires_at: None,
    };

    assert!(!empty_token.is_valid());
}

#[test]
fn test_can_refresh() {
    let token_with_refresh = TokenInfo {
        access_token: "test".to_string(),
        refresh_token: Some("refresh".to_string()),
        expires_in: None,
        token_type: None,
        scope: None,
        expires_at: None,
    };

    assert!(token_with_refresh.can_refresh());

    let token_without_refresh = TokenInfo {
        access_token: "test".to_string(),
        refresh_token: None,
        expires_in: None,
        token_type: None,
        scope: None,
        expires_at: None,
    };

    assert!(!token_without_refresh.can_refresh());
}

#[test]
fn test_validity_buffer_boundary() {
    let token = TokenInfo {
        access_token: "t".to_string(),
        refresh_token: None,
        expires_in: None,
        token_type: None,
        scope: None,
        expires_at: Some(1_000_060),
    };

    // Exactly the 60-second buffer ahead: no longer valid.
    assert!(!token.is_valid_at(1_000_000));
    // One second more headroom: valid.
    assert!(token.is_valid_at(999_999));
}

#[test]
fn test_from_response_computes_expiry() {
    let resp = TokenResponse {
        access_token: "A".to_string(),
        refresh_token: Some("R".to_string()),
        expires_in: Some(3600),
        token_type: Some("Bearer".to_string()),
        scope: Some("openid".to_string()),
        };
    let t = TokenInfo::from_response(resp, 1_000_000);
    assert_eq!(t.expires_at, Some(1_003_600));
    assert_eq!(t.access_token, "A");
    assert_eq!(t.refresh_token, Some("R".to_string()));

    let resp = TokenResponse {
        access_token: "A".to_string(),
        refresh_token: None,
        expires_in: None,
        token_type: None,
        scope: None,
    };
    let t = TokenInfo::from_response(resp, 1_000_000);
    assert_eq!(t.expires_at, None);
}

#[test]
fn test_token_file_path() {
    assert_eq!(
        TokenInfo::get_token_file_path("/home/u", "https://auth.example.com"),
        "/home/u/.mcp/authful_mcp_proxy/tokens/auth.example.com_tokens.json"
    );
}

#[test]
fn test_cache_json_omits_expires_at() {
    let t = TokenInfo {
        access_token: "A".to_string(),
        refresh_token: Some("R".to_string()),
        expires_in: Some(3600),
        token_type: Some("Bearer".to_string()),
        scope: None,
        expires_at: Some(999),
    };
    let json = t.to_cache_json();
    assert_eq!(
        json,
        "{\n  \"access_token\": \"A\",\n  \"refresh_token\": \"R\",\n  \"expires_in\": 3600,\n  \"token_type\": \"Bearer\"\n}"
    );

    // The text is a JSON object without any expiry instant.
    let v: serde_json::Value = serde_json::from_str(&json).unwrap();
    assert_eq!(v["access_token"], "A");
    assert_eq!(v["expires_in"], 3600);
    assert!(v.get("expires_at").is_none());
    assert!(v.get("scope").is_none());
}

#[test]
fn test_cache_json_escapes_strings() {
    let t = TokenInfo {
        access_token: "a\"b\\c".to_string(),
        refresh_token: None,
        expires_in: None,
        token_type: None,
        scope: None,
        expires_at: None,
    };
    let json = t.to_cache_json();
    let v: serde_json::Value = serde_json::from_str(&json).unwrap();
    assert_eq!(v["access_token"], "a\"b\\c");
}
