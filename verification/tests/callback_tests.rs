//! The callback decision: success, provider-reported errors, missing
//! parameters, and the wait deadline.

use authful_mcp_proxy_ng::callback::{
    callback_closed_error, callback_timeout_error, handle_callback, CallbackQuery,
    CALLBACK_TIMEOUT_SECS,
};
use authful_mcp_proxy_ng::error::ProxyError;

#[test]
fn test_callback_success() {
    let reply = handle_callback(CallbackQuery {
        code: Some("CODE".to_string()),
        state: Some("STATE".to_string()),
        error: None,
        error_description: None,
    });
    let result = reply.outcome.unwrap();
    assert_eq!(result.code, "CODE");
    assert_eq!(result.state, "STATE");
    assert!(reply.html.contains("Authentication Successful"));
}

#[test]
fn test_callback_provider_error() {
    let reply = handle_callback(CallbackQuery {
        code: None,
        state: None,
        error: Some("access_denied".to_string()),
        error_description: Some("user said no".to_string()),
    });
    let err = reply.outcome.err().unwrap();
    assert!(matches!(err, ProxyError::Callback(_)));
    assert_eq!(err.detail(), "OAuth error: access_denied - user said no");
    assert!(reply.html.contains("Authentication Failed"));
    assert!(reply.html.contains("OAuth error: access_denied - user said no"));
}

#[test]
fn test_callback_provider_error_without_description() {
    let reply = handle_callback(CallbackQuery {
        code: Some("CODE".to_string()),
        state: Some("STATE".to_string()),
        error: Some("server_error".to_string()),
        error_description: None,
    });
    let err = reply.outcome.err().unwrap();
    assert_eq!(err.detail(), "OAuth error: server_error - No description provided");
}

#[test]
fn test_callback_missing_parameters() {
    let reply = handle_callback(CallbackQuery {
        code: Some("CODE".to_string()),
        state: None,
        error: None,
        error_description: None,
    });
    let err = reply.outcome.err().unwrap();
    assert!(matches!(err, ProxyError::Callback(_)));
    assert_eq!(err.detail(), "Missing code or state parameter in callback");
    assert!(reply.html.contains("Authentication Failed"));
}

#[test]
fn test_callback_closed_message() {
    let err = callback_closed_error();
    assert!(matches!(err, ProxyError::Callback(_)));
    assert_eq!(err.detail(), "Callback channel closed");
}

#[test]
fn test_error_variant_labels() {
    assert_eq!(ProxyError::Http("h".to_string()).message(), "HTTP error: h");
    assert_eq!(ProxyError::Json("j".to_string()).message(), "JSON error: j");
    assert_eq!(ProxyError::Io("i".to_string()).message(), "IO error: i");
    assert_eq!(ProxyError::Mcp("m".to_string()).message(), "MCP error: m");
    assert_eq!(
        ProxyError::UrlParse("u".to_string()).message(),
        "URL parse error: u"
    );
    assert_eq!(
        ProxyError::Timeout("t".to_string()).message(),
        "Timeout: t"
    );
    assert_eq!(
        ProxyError::Auth("a".to_string()).message(),
        "Authentication failed: a"
    );
}

#[test]
fn test_callback_timeout_message() {
    assert_eq!(CALLBACK_TIMEOUT_SECS, 300);
    let err = callback_timeout_error();
    assert!(matches!(err, ProxyError::Timeout(_)));
    assert_eq!(err.detail(), "OAuth callback timed out after 300 seconds");
}
