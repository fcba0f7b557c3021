//! Token bundles: validity arithmetic, refreshability, and the issuer-scoped
//! on-disk keying of the token cache.
//!
//! A bundle's `expires_at` is an absolute Unix second, computed when the
//! bundle is produced from a token-endpoint reply or resurrected from the
//! cache; it is never part of the serialized form.

use vstd::prelude::*;
use vstd::string::*;
use crate::text::{push_str_chars, str_to_chars};

verus! {

/// Seconds of early-expiry safety margin applied by `is_valid`.
pub const TOKEN_EXPIRY_BUFFER_SECS: u64 = 60;

/// A token bundle as the library holds it.
#[derive(Debug, Clone)]
pub struct TokenInfo {
    pub access_token: String,
    pub refresh_token: Option<String>,
    pub expires_in: Option<u64>,
    pub token_type: Option<String>,
    pub scope: Option<String>,
    /// Absolute Unix second past which the token is stale; never serialized.
    pub expires_at: Option<u64>,
}

/// A token-endpoint reply, reduced to its plain fields.
#[derive(Debug, Clone)]
pub struct TokenResponse {
    pub access_token: String,
    pub refresh_token: Option<String>,
    pub expires_in: Option<u64>,
    pub token_type: Option<String>,
    pub scope: Option<String>,
}

/// Relies on std's `SystemTime`: seconds since the Unix epoch by the system
/// clock, or zero if the clock reads earlier than the epoch.
#[verifier::external_body]
pub(crate) fn now_unix_secs() -> u64 {
    std::time::SystemTime::now()
        .duration_since(std::time::UNIX_EPOCH)
        .map(|d| d.as_secs())
        .unwrap_or(0)
}

impl TokenInfo {
    /// Whether the bundle counts as valid at the instant `now`: a non-empty
    /// access token, and at least the safety margin left before expiry.
    pub open spec fn valid_at(&self, now: u64) -> bool {
        &&& self.access_token@.len() > 0
        &&& match self.expires_at {
            Some(e) => (now as int) < e as int - TOKEN_EXPIRY_BUFFER_SECS as int,
            None => true,
        }
    }

    /// Whether the bundle holds refresh material.
    pub open spec fn spec_can_refresh(&self) -> bool {
        self.refresh_token is Some
    }

    /// Validity at a caller-supplied instant.
    pub fn is_valid_at(&self, now: u64) -> (r: bool)
        ensures
            r == self.valid_at(now),
    {
        if self.access_token.as_str().is_empty() {
            return false;
        }
        match self.expires_at {
            Some(e) => {
                if e >= TOKEN_EXPIRY_BUFFER_SECS {
                    now < e - TOKEN_EXPIRY_BUFFER_SECS
                } else {
                    false
                }
            },
            None => true,
        }
    }

    /// Validity now, by the system clock.  Whatever the clock reads, a valid
    /// bundle has a non-empty access token, and a bundle without an expiry
    /// and with a non-empty token is valid.
    pub fn is_valid(&self) -> (r: bool)
        ensures
            r ==> self.access_token@.len() > 0,
            self.access_token@.len() > 0 && self.expires_at is None ==> r,
    {
        let now = now_unix_secs();
        self.is_valid_at(now)
    }

    /// Whether the bundle can be refreshed without user interaction.
    pub fn can_refresh(&self) -> (r: bool)
        ensures
            r == self.spec_can_refresh(),
    {
        self.refresh_token.is_some()
    }

    /// Build a bundle from a token-endpoint reply received (or a cache file
    /// read) at the instant `now`: the fields carry over, and `expires_at`
    /// becomes `now + expires_in` where an `expires_in` is present.
    pub fn from_response(response: TokenResponse, now: u64) -> (r: TokenInfo)
        requires
            response.expires_in matches Some(e) ==> now + e <= u64::MAX,
        ensures
            r.access_token == response.access_token,
            r.refresh_token == response.refresh_token,
            r.expires_in == response.expires_in,
            r.token_type == response.token_type,
            r.scope == response.scope,
            r.expires_at == match response.expires_in {
                Some(e) => Some((now + e) as u64),
                None => None::<u64>,
            },
    {
        let expires_at = match response.expires_in {
            Some(e) => Some(now + e),
            None => None,
        };
        TokenInfo {
            access_token: response.access_token,
            refresh_token: response.refresh_token,
            expires_in: response.expires_in,
            token_type: response.token_type,
            scope: response.scope,
            expires_at,
        }
    }

    /// The issuer URL with one leading scheme removed and every `/` and `:`
    /// replaced by `_`, as used to key the token cache.
    pub open spec fn sanitize_spec(s: Seq<char>) -> Seq<char> {
        strip_scheme(s).map_values(|c: char| replace_sep(c))
    }

    /// Sanitize an issuer URL for use as a file name.
    pub fn sanitize_issuer(issuer_url: &str) -> (r: String)
        ensures
            r@ == Self::sanitize_spec(issuer_url@),
    {
        let v = str_to_chars(issuer_url);
        let https = str_to_chars("https://");
        let http = str_to_chars("http://");
        proof {
            reveal_strlit("https://");
            reveal_strlit("http://");
        }
        let start: usize = if has_prefix(&v, &https) {
            8
        } else if has_prefix(&v, &http) {
            7
        } else {
            0
        };
        let ghost stripped = strip_scheme(issuer_url@);
        proof {
            assert(stripped =~= v@.subrange(start as int, v@.len() as int));
        }
        let mut out: Vec<char> = Vec::new();
        let mut i: usize = start;
        while i < v.len()
            invariant
                start <= i <= v@.len(),
                stripped == v@.subrange(start as int, v@.len() as int),
                out@.len() == i - start,
                forall|j: int|
                    0 <= j < out@.len() ==> out@[j] == replace_sep(stripped[j]),
            decreases v@.len() - i,
        {
            let c = v[i];
            if c == '/' || c == ':' {
                out.push('_');
            } else {
                out.push(c);
            }
            i += 1;
        }
        proof {
            assert(out@ =~= Self::sanitize_spec(issuer_url@));
        }
        crate::text::chars_to_string(out)
    }

    /// The token cache path for an issuer, under the given home directory:
    /// `<home>/.mcp/authful_mcp_proxy/tokens/<sanitized issuer>_tokens.json`.
    pub fn get_token_file_path(home: &str, issuer_url: &str) -> (r: String)
        ensures
            r@ == home@ + "/.mcp/authful_mcp_proxy/tokens/"@ + Self::sanitize_spec(issuer_url@)
                + "_tokens.json"@,
    {
        let mut s = home.to_owned();
        s.append("/.mcp/authful_mcp_proxy/tokens/");
        let name = Self::sanitize_issuer(issuer_url);
        s.append(name.as_str());
        s.append("_tokens.json");
        s
    }
}

/// One leading `https://` or `http://` removed, if present.
pub open spec fn strip_scheme(s: Seq<char>) -> Seq<char> {
    if s.len() >= 8 && s.subrange(0, 8) == "https://"@ {
        s.skip(8)
    } else if s.len() >= 7 && s.subrange(0, 7) == "http://"@ {
        s.skip(7)
    } else {
        s
    }
}

/// Path and scheme separators become underscores; all else is kept.
pub open spec fn replace_sep(c: char) -> char {
    if c == '/' || c == ':' {
        '_'
    } else {
        c
    }
}

/// Whether `v` begins with the characters of `p`.
fn has_prefix(v: &Vec<char>, p: &Vec<char>) -> (r: bool)
    ensures
        r == (v@.len() >= p@.len() && v@.subrange(0, p@.len() as int) =~= p@),
{
    if v.len() < p.len() {
        return false;
    }
    let mut i: usize = 0;
    while i < p.len()
        invariant
            i <= p@.len() <= v@.len(),
            forall|j: int| 0 <= j < i ==> v@[j] == p@[j],
        decreases p@.len() - i,
    {
        if v[i] != p[i] {
            assert(v@.subrange(0, p@.len() as int)[i as int] != p@[i as int]);
            return false;
        }
        i += 1;
    }
    proof {
        assert(v@.subrange(0, p@.len() as int) =~= p@);
    }
    true
}

/// An optional string field of the cache file: nothing, or a comma, the
/// indented key, and the escaped value in quotes.
pub open spec fn opt_str_field(name: Seq<char>, v: Option<Seq<char>>) -> Seq<char> {
    match v {
        Some(s) => ",\n  \""@ + name + "\": \""@ + crate::bridge::json_escape(s) + "\""@,
        None => Seq::empty(),
    }
}

/// An optional numeric field of the cache file.
pub open spec fn opt_num_field(name: Seq<char>, v: Option<u64>) -> Seq<char> {
    match v {
        Some(n) => ",\n  \""@ + name + "\": "@ + crate::text::spec_dec(n as nat),
        None => Seq::empty(),
    }
}

/// The cache file's text: a pretty-printed JSON object holding the access
/// token, then whichever of the refresh token, `expires_in`, token type and
/// scope are present — and never `expires_at`.
pub open spec fn token_cache_json_spec(t: &TokenInfo) -> Seq<char> {
    "{\n  \"access_token\": \""@ + crate::bridge::json_escape(t.access_token@) + "\""@
        + opt_str_field(
        "refresh_token"@,
        match t.refresh_token {
            Some(s) => Some(s@),
            None => None::<Seq<char>>,
        },
    ) + opt_num_field("expires_in"@, t.expires_in) + opt_str_field(
        "token_type"@,
        match t.token_type {
            Some(s) => Some(s@),
            None => None::<Seq<char>>,
        },
    ) + opt_str_field(
        "scope"@,
        match t.scope {
            Some(s) => Some(s@),
            None => None::<Seq<char>>,
        },
    ) + "\n}"@
}

/// Append one optional string field of the cache file.
fn push_str_field(out: &mut Vec<char>, name: &str, v: &str)
    ensures
        final(out)@ == old(out)@ + opt_str_field(name@, Some(v@)),
{
    push_str_chars(out, ",\n  \"");
    push_str_chars(out, name);
    push_str_chars(out, "\": \"");
    crate::bridge::json_escape_into(out, v);
    push_str_chars(out, "\"");
    proof {
        assert(out@ =~= old(out)@ + opt_str_field(name@, Some(v@)));
    }
}

impl TokenInfo {
    /// Render the bundle as the cache file's text, exactly as
    /// `token_cache_json_spec` describes.
    #[verifier::rlimit(100)]
    pub fn to_cache_json(&self) -> (r: String)
        ensures
            r@ == token_cache_json_spec(self),
    {
        let mut out: Vec<char> = Vec::new();
        push_str_chars(&mut out, "{\n  \"access_token\": \"");
        crate::bridge::json_escape_into(&mut out, self.access_token.as_str());
        push_str_chars(&mut out, "\"");
        if let Some(rt) = &self.refresh_token {
            push_str_field(&mut out, "refresh_token", rt.as_str());
        }
        let ghost with_rt = out@;
        if let Some(ei) = self.expires_in {
            push_str_chars(&mut out, ",\n  \"expires_in\": ");
            let d = crate::text::u64_to_string(ei);
            push_str_chars(&mut out, d.as_str());
            proof {
                assert(",\n  \"expires_in\": "@ =~= ",\n  \""@ + "expires_in"@ + "\": "@) by {
                    reveal_strlit(",\n  \"expires_in\": ");
                    reveal_strlit(",\n  \"");
                    reveal_strlit("expires_in");
                    reveal_strlit("\": ");
                }
                assert(out@ =~= with_rt + opt_num_field("expires_in"@, self.expires_in));
            }
        }
        if let Some(tt) = &self.token_type {
            push_str_field(&mut out, "token_type", tt.as_str());
        }
        if let Some(sc) = &self.scope {
            push_str_field(&mut out, "scope", sc.as_str());
        }
        push_str_chars(&mut out, "\n}");
        proof {
            assert(out@ =~= token_cache_json_spec(self));
        }
        crate::text::chars_to_string(out)
    }
}

/// The sanitized issuer never holds a path or scheme separator: no `/` and
/// no `:` survives, whatever the input.  (That the same input always gives
/// the same name is immediate: the name is a function of the input alone.)
pub proof fn lemma_sanitize_clean(u: Seq<char>)
    ensures
        forall|i: int|
            0 <= i < TokenInfo::sanitize_spec(u).len() ==> (#[trigger] TokenInfo::sanitize_spec(
                u,
            )[i]) != '/' && TokenInfo::sanitize_spec(u)[i] != ':',
{
    assert forall|i: int| 0 <= i < TokenInfo::sanitize_spec(u).len() implies (
    #[trigger] TokenInfo::sanitize_spec(u)[i]) != '/' && TokenInfo::sanitize_spec(u)[i]
        != ':' by {
        assert(TokenInfo::sanitize_spec(u)[i] == replace_sep(strip_scheme(u)[i]));
    }
}

/// Every bundle that is valid at some instant has a non-empty access token,
/// and no bundle whose expiry lies at most the safety margin ahead of `now`
/// is valid at `now`.
pub proof fn lemma_token_validity(t: TokenInfo, now: u64)
    ensures
        t.valid_at(now) ==> t.access_token@.len() > 0,
        t.expires_at matches Some(e) && now as int >= e as int
            - TOKEN_EXPIRY_BUFFER_SECS as int ==> !t.valid_at(now),
{
}

} // verus!
