//! Configuration parsing and validation behavior.

use authful_mcp_proxy_ng::config::{Config, LogLevel};
use authful_mcp_proxy_ng::error::ProxyError;

fn base_config() -> Config {
    Config {
        backend_url: "https://backend.example.com".to_string(),
        oidc_issuer_url: "https://auth.example.com".to_string(),
        oidc_client_id: "client-id".to_string(),
        oidc_client_secret: None,
        oidc_scopes: None,
        oidc_redirect_url: None,
        no_banner: false,
        silent: false,
        debug: false,
        dump_messages: None,
    }
}

#[test]
fn test_scopes_with_default() {
    let config = base_config();

    let scopes = config.scopes();
    assert!(scopes.contains(&"openid".to_string()));
    assert!(scopes.contains(&"profile".to_string()));
    assert!(scopes.contains(&"email".to_string()));
}

#[test]
fn test_scopes_ensures_openid() {
    let mut config = base_config();
    config.oidc_scopes = Some("profile email".to_string());

    let scopes = config.scopes();
    assert_eq!(scopes[0], "openid");
    assert!(scopes.contains(&"profile".to_string()));
    assert!(scopes.contains(&"email".to_string()));
}

#[test]
fn test_redirect_url_default() {
    let config = base_config();

    assert_eq!(config.redirect_url(), "http://localhost:8080/auth/callback");
}

#[test]
fn test_scopes_preserve_order() {
    let mut config = base_config();
    config.oidc_scopes = Some("email  profile".to_string());

    assert_eq!(config.scopes(), vec!["openid", "email", "profile"]);
}

#[test]
fn test_scopes_keep_existing_openid_position() {
    let mut config = base_config();
    config.oidc_scopes = Some("profile openid email".to_string());

    assert_eq!(config.scopes(), vec!["profile", "openid", "email"]);
}

#[test]
fn test_scopes_split_on_unicode_whitespace() {
    let mut config = base_config();
    config.oidc_scopes = Some("openid\u{a0}profile\u{2003}email".to_string());

    assert_eq!(config.scopes(), vec!["openid", "profile", "email"]);
}

#[test]
fn test_validate_accepts_good_config() {
    let config = base_config();
    assert!(config.validate().is_ok());
}

#[test]
fn test_validate_requires_backend_url() {
    let mut config = base_config();
    config.backend_url = String::new();

    let err = config.validate().unwrap_err();
    assert!(matches!(err, ProxyError::Config(_)));
    assert_eq!(err.detail(), "MCP backend URL is required");
}

#[test]
fn test_validate_requires_issuer() {
    let mut config = base_config();
    config.oidc_issuer_url = String::new();

    let err = config.validate().unwrap_err();
    assert_eq!(err.detail(), "OIDC issuer URL is required");
}

#[test]
fn test_validate_requires_client_id() {
    let mut config = base_config();
    config.oidc_client_id = String::new();

    let err = config.validate().unwrap_err();
    assert_eq!(err.detail(), "OIDC client ID is required");
}

#[test]
fn test_validate_rejects_bad_backend_url() {
    let mut config = base_config();
    config.backend_url = "not a url".to_string();

    let err = config.validate().unwrap_err();
    assert!(matches!(err, ProxyError::Config(_)));
    assert!(err.detail().starts_with("Invalid backend URL: "));
}

#[test]
fn test_validate_rejects_bad_redirect_url() {
    let mut config = base_config();
    config.oidc_redirect_url = Some("::nope::".to_string());

    let err = config.validate().unwrap_err();
    assert!(err.detail().starts_with("Invalid redirect URL: "));
}

#[test]
fn test_log_level_from_flags() {
    let mut config = base_config();
    assert_eq!(config.log_level(), LogLevel::Info);

    config.debug = true;
    assert_eq!(config.log_level(), LogLevel::Debug);

    config.debug = false;
    config.silent = true;
    assert_eq!(config.log_level(), LogLevel::Error);
}

#[test]
fn test_error_message_labels() {
    let e = ProxyError::Token("boom".to_string());
    assert_eq!(e.message(), "Token error: boom");
    let e = ProxyError::Config("bad".to_string());
    assert_eq!(e.message(), "Configuration error: bad");
}
