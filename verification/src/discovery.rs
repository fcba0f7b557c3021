//! The provider's discovery document: where it is fetched from, and what a
//! usable one must hold.

use vstd::prelude::*;
use vstd::string::*;
use crate::error::ProxyError;
use crate::text::{spec_dec, u64_to_string};

verus! {

/// The discovery document, reduced to the fields the flow uses.
#[derive(Debug, Clone)]
pub struct OidcConfig {
    pub issuer: String,
    pub authorization_endpoint: String,
    pub token_endpoint: String,
    pub userinfo_endpoint: Option<String>,
    pub jwks_uri: Option<String>,
}

/// The issuer with one trailing `/` removed, if present.
pub open spec fn strip_trailing_slash(s: Seq<char>) -> Seq<char> {
    if s.len() > 0 && s[s.len() - 1] == '/' {
        s.take(s.len() - 1)
    } else {
        s
    }
}

/// Where a provider's discovery document lives: the issuer URL, normalized
/// by dropping one trailing `/`, with the well-known suffix appended.
pub fn discovery_url(issuer_url: &str) -> (r: String)
    ensures
        r@ == strip_trailing_slash(issuer_url@) + "/.well-known/openid-configuration"@,
{
    let n = issuer_url.unicode_len();
    let mut s: String;
    if n > 0 && issuer_url.get_char(n - 1) == '/' {
        s = issuer_url.substring_char(0, n - 1).to_owned();
    } else {
        s = issuer_url.to_owned();
    }
    s.append("/.well-known/openid-configuration");
    s
}

impl OidcConfig {
    /// A usable document names both flow endpoints.
    pub open spec fn spec_usable(&self) -> bool {
        self.authorization_endpoint@.len() > 0 && self.token_endpoint@.len() > 0
    }

    /// Validate a parsed discovery document: the authorization and token
    /// endpoints must both be present and non-empty, and the missing one —
    /// the authorization endpoint first — is named in the error.
    pub fn validate(&self) -> (r: Result<(), ProxyError>)
        ensures
            r is Ok <==> self.spec_usable(),
            self.authorization_endpoint@.len() == 0 ==> (r matches Err(ProxyError::Discovery(m))
                && m@ == "OIDC configuration missing authorization_endpoint"@),
            self.authorization_endpoint@.len() > 0 && self.token_endpoint@.len() == 0 ==> (
            r matches Err(ProxyError::Discovery(m)) && m@
                == "OIDC configuration missing token_endpoint"@),
    {
        if self.authorization_endpoint.as_str().is_empty() {
            return Err(
                ProxyError::Discovery("OIDC configuration missing authorization_endpoint".to_owned()),
            );
        }
        if self.token_endpoint.as_str().is_empty() {
            return Err(
                ProxyError::Discovery("OIDC configuration missing token_endpoint".to_owned()),
            );
        }
        Ok(())
    }
}

/// The error reported when the discovery fetch itself fails; the transport's
/// message is carried as the detail.
pub fn discovery_fetch_error(detail: &str) -> (r: ProxyError)
    ensures
        r matches ProxyError::Discovery(m) && m@ == "Failed to fetch OIDC configuration: "@
            + detail@,
{
    let mut m = "Failed to fetch OIDC configuration: ".to_owned();
    m.append(detail);
    ProxyError::Discovery(m)
}

/// The error reported when the discovery reply is not 2xx.
pub fn discovery_status_error(status: u16) -> (r: ProxyError)
    ensures
        r matches ProxyError::Discovery(m) && m@ == "OIDC discovery request failed with status: "@
            + spec_dec(status as nat),
{
    let mut m = "OIDC discovery request failed with status: ".to_owned();
    let d = u64_to_string(status as u64);
    m.append(d.as_str());
    ProxyError::Discovery(m)
}

/// The error reported when the discovery reply is not a discovery document.
pub fn discovery_parse_error(detail: &str) -> (r: ProxyError)
    ensures
        r matches ProxyError::Discovery(m) && m@ == "Failed to parse OIDC configuration: "@
            + detail@,
{
    let mut m = "Failed to parse OIDC configuration: ".to_owned();
    m.append(detail);
    ProxyError::Discovery(m)
}

} // verus!
