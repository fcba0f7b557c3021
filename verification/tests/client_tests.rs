//! The auth flow's decisions: cached-token use, renewal planning, the
//! authorization URL, the CSRF check, and the token-endpoint material.

use authful_mcp_proxy_ng::callback::CallbackResult;
use authful_mcp_proxy_ng::client::{
    form_body, generate_state, AuthAttempt, OidcClient, RenewPlan, TokenAction,
};
use authful_mcp_proxy_ng::discovery::OidcConfig;
use authful_mcp_proxy_ng::error::ProxyError;
use authful_mcp_proxy_ng::pkce::PkceParams;
use authful_mcp_proxy_ng::token::{TokenInfo, TokenResponse};

fn test_config() -> OidcConfig {
    OidcConfig {
        issuer: "https://auth.example.com".to_string(),
        authorization_endpoint: "https://auth.example.com/authorize".to_string(),
        token_endpoint: "https://auth.example.com/token".to_string(),
        userinfo_endpoint: None,
        jwks_uri: None,
    }
}

fn test_client(token_info: Option<TokenInfo>) -> OidcClient {
    OidcClient::new(
        "https://auth.example.com".to_string(),
        "cid".to_string(),
        None,
        vec!["openid".to_string(), "profile".to_string()],
        "http://localhost:8080/auth/callback".to_string(),
        test_config(),
        token_info,
    )
    .unwrap()
}

#[test]
fn test_new_rejects_unusable_document() {
    let mut config = test_config();
    config.token_endpoint = String::new();
    let r = OidcClient::new(
        "https://auth.example.com".to_string(),
        "cid".to_string(),
        None,
        vec!["openid".to_string()],
        "http://localhost:8080/auth/callback".to_string(),
        config,
        None,
    );
    let err = r.err().unwrap();
    assert!(matches!(err, ProxyError::Discovery(_)));
    assert_eq!(err.detail(), "OIDC configuration missing token_endpoint");
}

#[test]
fn test_cached_valid_token_used_without_io() {
    // A cache entry written moments ago with an hour of life left.
    let resp = TokenResponse {
        access_token: "A".to_string(),
        refresh_token: None,
        expires_in: Some(3600),
        token_type: None,
        scope: None,
    };
    let now: u64 = 1_700_000_000;
    let bundle = TokenInfo::from_response(resp, now - 10);
    let client = test_client(Some(bundle));

    match client.get_token(now) {
        TokenAction::UseCached(t) => assert_eq!(t, "A"),
        TokenAction::Renew => panic!("a valid cached token must be used as it is"),
    }
}

#[test]
fn test_expired_token_forces_renewal() {
    let resp = TokenResponse {
        access_token: "A".to_string(),
        refresh_token: None,
        expires_in: Some(30),
        token_type: None,
        scope: None,
    };
    let now: u64 = 1_700_000_000;
    let bundle = TokenInfo::from_response(resp, now - 3600);
    let client = test_client(Some(bundle));

    assert!(matches!(client.get_token(now), TokenAction::Renew));
    assert!(matches!(test_client(None).get_token(now), TokenAction::Renew));
}

#[test]
fn test_renew_plan_prefers_refresh() {
    let bundle = TokenInfo {
        access_token: "A".to_string(),
        refresh_token: Some("R".to_string()),
        expires_in: None,
        token_type: None,
        scope: None,
        expires_at: None,
    };
    match test_client(Some(bundle)).renew_token() {
        RenewPlan::RefreshFirst(rt) => assert_eq!(rt, "R"),
        RenewPlan::FullFlowOnly => panic!("refresh material must be tried first"),
    }

    assert!(matches!(test_client(None).renew_token(), RenewPlan::FullFlowOnly));
}

#[test]
fn test_authorization_url_shape() {
    let client = test_client(None);
    let pkce = PkceParams {
        code_verifier: "VERIFIER".to_string(),
        code_challenge: "CHAL".to_string(),
    };
    let url = client.build_authorization_url("STATE123", &pkce);
    assert_eq!(
        url,
        "https://auth.example.com/authorize?response_type=code&client_id=cid&redirect_uri=http%3A%2F%2Flocalhost%3A8080%2Fauth%2Fcallback&scope=openid+profile&state=STATE123&code_challenge=CHAL&code_challenge_method=S256"
    );
}

#[test]
fn test_begin_auth_flow_derives_listener_address() {
    let client = test_client(None);
    let attempt = client.begin_auth_flow().unwrap();
    assert_eq!(attempt.redirect_port, 8080);
    assert_eq!(attempt.redirect_path, "/auth/callback");
    assert_eq!(attempt.state.len(), 32);
    assert_eq!(attempt.pkce.code_challenge.len(), 43);
    assert!(attempt.auth_url.contains("code_challenge_method=S256"));
}

#[test]
fn test_begin_auth_flow_rejects_bad_redirect() {
    let mut client = test_client(None);
    client.redirect_url = "::nope::".to_string();
    let err = client.begin_auth_flow().err().unwrap();
    assert!(matches!(err, ProxyError::UrlParse(_)));
}

#[test]
fn test_state_mismatch_is_auth_error() {
    let sent = generate_state();
    let attempt = AuthAttempt {
        pkce: PkceParams {
            code_verifier: "v".to_string(),
            code_challenge: "c".to_string(),
        },
        state: sent.clone(),
        auth_url: String::new(),
        redirect_port: 8080,
        redirect_path: "/auth/callback".to_string(),
    };

    let other = CallbackResult { code: "CODE".to_string(), state: format!("{}x", sent) };
    let err = attempt.verify_callback(&other).err().unwrap();
    assert!(matches!(err, ProxyError::Auth(_)));
    assert_eq!(err.detail(), "State mismatch - possible CSRF attack");

    let echoed = CallbackResult { code: "CODE".to_string(), state: sent };
    assert!(attempt.verify_callback(&echoed).is_ok());
}

#[test]
fn test_token_request_params_order() {
    let mut client = test_client(None);
    let pkce = PkceParams {
        code_verifier: "VER".to_string(),
        code_challenge: "CHA".to_string(),
    };
    let params = client.token_request_params("CODE", &pkce);
    assert_eq!(
        params,
        vec![
            ("grant_type".to_string(), "authorization_code".to_string()),
            ("code".to_string(), "CODE".to_string()),
            ("redirect_uri".to_string(), "http://localhost:8080/auth/callback".to_string()),
            ("client_id".to_string(), "cid".to_string()),
            ("code_verifier".to_string(), "VER".to_string()),
        ]
    );

    client.client_secret = Some("sec".to_string());
    let params = client.token_request_params("CODE", &pkce);
    assert_eq!(params[5], ("client_secret".to_string(), "sec".to_string()));
}

#[test]
fn test_refresh_request_params() {
    let client = test_client(None);
    let params = client.refresh_request_params("R1");
    assert_eq!(
        params,
        vec![
            ("grant_type".to_string(), "refresh_token".to_string()),
            ("refresh_token".to_string(), "R1".to_string()),
            ("client_id".to_string(), "cid".to_string()),
        ]
    );
}

#[test]
fn test_form_body_encoding() {
    let params = vec![
        ("a".to_string(), "b c".to_string()),
        ("x".to_string(), "1&2".to_string()),
    ];
    assert_eq!(form_body(&params), "a=b+c&x=1%262");
}

#[test]
fn test_token_endpoint_errors() {
    let e = authful_mcp_proxy_ng::client::exchange_status_error(400, "bad grant");
    assert!(matches!(e, ProxyError::Token(_)));
    assert_eq!(e.detail(), "Token exchange failed with status 400: bad grant");

    let e = authful_mcp_proxy_ng::client::refresh_status_error(401);
    assert_eq!(e.detail(), "Token refresh failed with status: 401");
}

#[test]
fn test_store_bundle_replaces_cache() {
    let mut client = test_client(None);
    let bundle = TokenInfo {
        access_token: "B".to_string(),
        refresh_token: None,
        expires_in: None,
        token_type: None,
        scope: None,
        expires_at: None,
    };
    client.store_bundle(bundle);
    assert_eq!(client.token_info.as_ref().unwrap().access_token, "B");
}
