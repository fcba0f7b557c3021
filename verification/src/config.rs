//! Configuration values and their validation: required fields, URL checks,
//! scope normalization, and derived defaults.
//!
//! The surrounding process gathers these values from its command line and
//! environment; the library owns what they mean.

use vstd::prelude::*;
use vstd::string::*;
use crate::error::ProxyError;
use crate::text::{split_whitespace, split_ws, str_eq};
use crate::web::{url_check, url_wf};

verus! {

/// The configuration of one proxy process.
#[derive(Debug, Clone)]
pub struct Config {
    /// URL of the remote backend server to be proxied.
    pub backend_url: String,
    /// OIDC issuer URL.
    pub oidc_issuer_url: String,
    /// OAuth client ID.
    pub oidc_client_id: String,
    /// OAuth client secret; absent for public clients.
    pub oidc_client_secret: Option<String>,
    /// Space-separated OAuth scopes; absent means the default set.
    pub oidc_scopes: Option<String>,
    /// Loopback URL for the OAuth redirect; absent means the default.
    pub oidc_redirect_url: Option<String>,
    /// Don't show the banner.
    pub no_banner: bool,
    /// Show only error messages.
    pub silent: bool,
    /// Enable debug logging.
    pub debug: bool,
    /// Append every forwarded message to this file.
    pub dump_messages: Option<String>,
}

/// The verbosity the logging sink should be configured with.
#[derive(Debug, Clone, Copy, PartialEq, Eq, Structural)]
pub enum LogLevel {
    Error,
    Info,
    Debug,
}

/// Whether some word of the list equals `w`.
pub open spec fn has_word(parts: Seq<Seq<char>>, w: Seq<char>) -> bool {
    exists|i: int| 0 <= i < parts.len() && parts[i] == w
}

/// How often `w` occurs in the list.
pub open spec fn count_word(parts: Seq<Seq<char>>, w: Seq<char>) -> nat
    decreases parts.len(),
{
    if parts.len() == 0 {
        0
    } else {
        (if parts[0] == w {
            1nat
        } else {
            0nat
        }) + count_word(parts.skip(1), w)
    }
}

/// The scopes string split on whitespace, with `openid` put first when no
/// word already equals it.
pub open spec fn normalize_scopes(s: Seq<char>) -> Seq<Seq<char>> {
    let parts = split_ws(s);
    if has_word(parts, "openid"@) {
        parts
    } else {
        seq!["openid"@] + parts
    }
}

/// The scopes string the configuration asks for: the given one, or the
/// default set.
pub open spec fn spec_scopes_str(c: &Config) -> Seq<char> {
    match c.oidc_scopes {
        Some(s) => s@,
        None => "openid profile email"@,
    }
}

impl Config {
    /// Validate the configuration: the three required fields are non-empty,
    /// and every URL among them parses.  Exactly the first failing check, in
    /// that order, is reported as a `Config` error.
    pub fn validate(&self) -> (r: Result<(), ProxyError>)
        ensures
            r is Ok <==> {
                &&& self.backend_url@.len() > 0
                &&& self.oidc_issuer_url@.len() > 0
                &&& self.oidc_client_id@.len() > 0
                &&& url_wf(self.backend_url@)
                &&& url_wf(self.oidc_issuer_url@)
                &&& match self.oidc_redirect_url {
                    Some(u) => url_wf(u@),
                    None => true,
                }
            },
            r matches Err(e) ==> e matches ProxyError::Config(_),
            self.backend_url@.len() == 0 ==> (r matches Err(ProxyError::Config(m)) && m@
                == "MCP backend URL is required"@),
            self.backend_url@.len() > 0 && self.oidc_issuer_url@.len() == 0 ==> (r matches Err(
                ProxyError::Config(m),
            ) && m@ == "OIDC issuer URL is required"@),
            self.backend_url@.len() > 0 && self.oidc_issuer_url@.len() > 0
                && self.oidc_client_id@.len() == 0 ==> (r matches Err(ProxyError::Config(m)) && m@
                == "OIDC client ID is required"@),
            self.backend_url@.len() > 0 && self.oidc_issuer_url@.len() > 0
                && self.oidc_client_id@.len() > 0 && !url_wf(self.backend_url@) ==> (r matches Err(
                ProxyError::Config(m),
            ) && m@.subrange(0, "Invalid backend URL: "@.len() as int) == "Invalid backend URL: "@),
            self.backend_url@.len() > 0 && self.oidc_issuer_url@.len() > 0
                && self.oidc_client_id@.len() > 0 && url_wf(self.backend_url@) && !url_wf(
                self.oidc_issuer_url@,
            ) ==> (r matches Err(ProxyError::Config(m)) && m@.subrange(
                0,
                "Invalid OIDC issuer URL: "@.len() as int,
            ) == "Invalid OIDC issuer URL: "@),
            self.backend_url@.len() > 0 && self.oidc_issuer_url@.len() > 0
                && self.oidc_client_id@.len() > 0 && url_wf(self.backend_url@) && url_wf(
                self.oidc_issuer_url@,
            ) && self.oidc_redirect_url is Some && !url_wf(self.oidc_redirect_url->0@) ==> (
            r matches Err(ProxyError::Config(m)) && m@.subrange(
                0,
                "Invalid redirect URL: "@.len() as int,
            ) == "Invalid redirect URL: "@),
    {
        if self.backend_url.as_str().is_empty() {
            return Err(ProxyError::Config("MCP backend URL is required".to_owned()));
        }
        if self.oidc_issuer_url.as_str().is_empty() {
            return Err(ProxyError::Config("OIDC issuer URL is required".to_owned()));
        }
        if self.oidc_client_id.as_str().is_empty() {
            return Err(ProxyError::Config("OIDC client ID is required".to_owned()));
        }
        if let Err(e) = url_check(self.backend_url.as_str()) {
            let mut m = "Invalid backend URL: ".to_owned();
            m.append(e.as_str());
            proof {
                assert(m@.subrange(0, "Invalid backend URL: "@.len() as int) =~= "Invalid backend URL: "@);
            }
            return Err(ProxyError::Config(m));
        }
        if let Err(e) = url_check(self.oidc_issuer_url.as_str()) {
            let mut m = "Invalid OIDC issuer URL: ".to_owned();
            m.append(e.as_str());
            proof {
                assert(m@.subrange(0, "Invalid OIDC issuer URL: "@.len() as int)
                    =~= "Invalid OIDC issuer URL: "@);
            }
            return Err(ProxyError::Config(m));
        }
        if let Some(redirect_url) = &self.oidc_redirect_url {
            if let Err(e) = url_check(redirect_url.as_str()) {
                let mut m = "Invalid redirect URL: ".to_owned();
                m.append(e.as_str());
                proof {
                    assert(m@.subrange(0, "Invalid redirect URL: "@.len() as int)
                        =~= "Invalid redirect URL: "@);
                }
                return Err(ProxyError::Config(m));
            }
        }
        Ok(())
    }

    /// The OAuth scopes as a list: the configured string (or the default
    /// `openid profile email`) split on whitespace, with `openid` prepended
    /// when missing.
    pub fn scopes(&self) -> (r: Vec<String>)
        ensures
            r.deep_view() == normalize_scopes(spec_scopes_str(self)),
    {
        let scopes_str: &str = match &self.oidc_scopes {
            Some(s) => s.as_str(),
            None => "openid profile email",
        };
        let mut parts = split_whitespace(scopes_str);
        let mut found = false;
        let mut k: usize = 0;
        while k < parts.len()
            invariant
                k <= parts@.len(),
                found == exists|i: int| 0 <= i < k && parts.deep_view()[i] == "openid"@,
            decreases parts@.len() - k,
        {
            let hit = str_eq(parts[k].as_str(), "openid");
            proof {
                assert(parts.deep_view()[k as int] == parts@[k as int]@);
            }
            if hit {
                found = true;
            }
            k += 1;
        }
        assert(found == has_word(parts.deep_view(), "openid"@));
        if !found {
            let ghost before = parts.deep_view();
            parts.insert(0, "openid".to_owned());
            proof {
                assert(parts.deep_view() =~= seq!["openid"@] + before);
            }
        }
        parts
    }

    /// The redirect URL: the configured one, or the default loopback URL.
    pub fn redirect_url(&self) -> (r: String)
        ensures
            r@ == match self.oidc_redirect_url {
                Some(u) => u@,
                None => "http://localhost:8080/auth/callback"@,
            },
    {
        match &self.oidc_redirect_url {
            Some(u) => u.as_str().to_owned(),
            None => "http://localhost:8080/auth/callback".to_owned(),
        }
    }

    /// The log level the flags ask for: errors only when silent, debug when
    /// debugging, information otherwise.
    pub fn log_level(&self) -> (r: LogLevel)
        ensures
            r == if self.silent {
                LogLevel::Error
            } else if self.debug {
                LogLevel::Debug
            } else {
                LogLevel::Info
            },
    {
        if self.silent {
            LogLevel::Error
        } else if self.debug {
            LogLevel::Debug
        } else {
            LogLevel::Info
        }
    }
}

proof fn lemma_count_word_zero(parts: Seq<Seq<char>>, w: Seq<char>)
    ensures
        (count_word(parts, w) == 0) <==> !has_word(parts, w),
    decreases parts.len(),
{
    if parts.len() == 0 {
    } else {
        lemma_count_word_zero(parts.skip(1), w);
        if parts[0] == w {
            assert(has_word(parts, w));
        } else {
            assert(has_word(parts.skip(1), w) ==> has_word(parts, w)) by {
                if has_word(parts.skip(1), w) {
                    let i = choose|i: int|
                        0 <= i < parts.skip(1).len() && parts.skip(1)[i] == w;
                    assert(parts[i + 1] == w);
                }
            };
            assert(has_word(parts, w) ==> has_word(parts.skip(1), w)) by {
                if has_word(parts, w) {
                    let i = choose|i: int| 0 <= i < parts.len() && parts[i] == w;
                    assert(i >= 1);
                    assert(parts.skip(1)[i - 1] == w);
                }
            };
        }
    }
}

/// For any scopes string whose words include `openid` at most once, the
/// normalized list holds `openid` exactly once, and is either the split
/// list itself or that list with `openid` put in front — so the relative
/// order of the other scopes is kept.
pub proof fn lemma_normalize_scopes(s: Seq<char>)
    requires
        count_word(split_ws(s), "openid"@) <= 1,
    ensures
        count_word(normalize_scopes(s), "openid"@) == 1,
        normalize_scopes(s) == split_ws(s) || normalize_scopes(s) == seq!["openid"@] + split_ws(s),
{
    let parts = split_ws(s);
    lemma_count_word_zero(parts, "openid"@);
    if has_word(parts, "openid"@) {
        assert(count_word(parts, "openid"@) >= 1);
    } else {
        let ext = seq!["openid"@] + parts;
        assert(ext[0] == "openid"@);
        assert(ext.skip(1) =~= parts);
        assert(count_word(ext, "openid"@) == 1 + count_word(parts, "openid"@));
    }
}

} // verus!
