//! The library's error taxonomy.
//!
//! Transport-level failures that arise outside the library (HTTP, file I/O,
//! JSON decoding, URL parsing) are carried here as their message text, so
//! every variant is a plain value the contracts can speak about.

use vstd::prelude::*;
use vstd::string::*;

verus! {

#[derive(Debug, Clone)]
pub enum ProxyError {
    /// Configuration validation failed before any I/O.
    Config(String),
    /// Provider discovery fetch or validation failed.
    Discovery(String),
    /// The token endpoint refused a grant, or its reply was unusable.
    Token(String),
    /// The authorization callback was malformed or reported an OAuth error.
    Callback(String),
    /// HTTP transport failure, carried as its message.
    Http(String),
    /// HTTP middleware failure, carried as its message.
    Middleware(String),
    /// JSON decoding failure, carried as its message.
    Json(String),
    /// File or stream I/O failure, carried as its message.
    Io(String),
    /// URL parsing failure, carried as its message.
    UrlParse(String),
    /// Stdio framing or write failure: the bridge loop cannot continue.
    Mcp(String),
    /// The callback wait exceeded its deadline.
    Timeout(String),
    /// CSRF state mismatch, or no token could be obtained.
    Auth(String),
}

impl ProxyError {
    /// The detail text the variant was built with.
    pub open spec fn spec_detail(&self) -> Seq<char> {
        match self {
            ProxyError::Config(m) => m@,
            ProxyError::Discovery(m) => m@,
            ProxyError::Token(m) => m@,
            ProxyError::Callback(m) => m@,
            ProxyError::Http(m) => m@,
            ProxyError::Middleware(m) => m@,
            ProxyError::Json(m) => m@,
            ProxyError::Io(m) => m@,
            ProxyError::UrlParse(m) => m@,
            ProxyError::Mcp(m) => m@,
            ProxyError::Timeout(m) => m@,
            ProxyError::Auth(m) => m@,
        }
    }

    /// The full message: a label naming the kind, then the detail.
    pub open spec fn spec_message(&self) -> Seq<char> {
        match self {
            ProxyError::Config(m) => "Configuration error: "@ + m@,
            ProxyError::Discovery(m) => "OIDC discovery failed: "@ + m@,
            ProxyError::Token(m) => "Token error: "@ + m@,
            ProxyError::Callback(m) => "OAuth callback error: "@ + m@,
            ProxyError::Http(m) => "HTTP error: "@ + m@,
            ProxyError::Middleware(m) => "HTTP middleware error: "@ + m@,
            ProxyError::Json(m) => "JSON error: "@ + m@,
            ProxyError::Io(m) => "IO error: "@ + m@,
            ProxyError::UrlParse(m) => "URL parse error: "@ + m@,
            ProxyError::Mcp(m) => "MCP error: "@ + m@,
            ProxyError::Timeout(m) => "Timeout: "@ + m@,
            ProxyError::Auth(m) => "Authentication failed: "@ + m@,
        }
    }

    /// The detail text the variant was built with.
    pub fn detail(&self) -> (r: &str)
        ensures
            r@ == self.spec_detail(),
    {
        match self {
            ProxyError::Config(m) => m.as_str(),
            ProxyError::Discovery(m) => m.as_str(),
            ProxyError::Token(m) => m.as_str(),
            ProxyError::Callback(m) => m.as_str(),
            ProxyError::Http(m) => m.as_str(),
            ProxyError::Middleware(m) => m.as_str(),
            ProxyError::Json(m) => m.as_str(),
            ProxyError::Io(m) => m.as_str(),
            ProxyError::UrlParse(m) => m.as_str(),
            ProxyError::Mcp(m) => m.as_str(),
            ProxyError::Timeout(m) => m.as_str(),
            ProxyError::Auth(m) => m.as_str(),
        }
    }

    /// The full message: a label naming the kind, then the detail.
    pub fn message(&self) -> (r: String)
        ensures
            r@ == self.spec_message(),
    {
        let label: &str = match self {
            ProxyError::Config(_) => "Configuration error: ",
            ProxyError::Discovery(_) => "OIDC discovery failed: ",
            ProxyError::Token(_) => "Token error: ",
            ProxyError::Callback(_) => "OAuth callback error: ",
            ProxyError::Http(_) => "HTTP error: ",
            ProxyError::Middleware(_) => "HTTP middleware error: ",
            ProxyError::Json(_) => "JSON error: ",
            ProxyError::Io(_) => "IO error: ",
            ProxyError::UrlParse(_) => "URL parse error: ",
            ProxyError::Mcp(_) => "MCP error: ",
            ProxyError::Timeout(_) => "Timeout: ",
            ProxyError::Auth(_) => "Authentication failed: ",
        };
        let mut s = label.to_owned();
        s.append(self.detail());
        s
    }
}

} // verus!
