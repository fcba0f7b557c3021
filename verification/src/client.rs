//! The OIDC client's flow logic: what to do with the cached bundle, how an
//! authorization attempt is prepared, how its callback is checked, and what
//! the token-endpoint requests and failures look like.
//!
//! The surrounding process performs the browser launch, the loopback wait
//! and the HTTP posts; every decision and every byte of request material
//! comes from here.

use vstd::prelude::*;
use vstd::string::*;
use vstd::utf8::encode_utf8;
use crate::callback::CallbackResult;
use crate::discovery::OidcConfig;
use crate::error::ProxyError;
use crate::pkce::PkceParams;
use crate::text::{
    chars_to_string, contains_char, has_char, hex_upper, hex_upper_c, is_alnum_char, join_spaces,
    join_with_spaces, push_str_chars, spec_dec, str_eq, u64_to_string,
};
use crate::token::TokenInfo;
use crate::web::{url_check, url_path, url_path_of, url_port, url_port_of, url_wf};

verus! {

/// Characters drawn per CSRF state parameter.
pub const STATE_LEN: usize = 32;

/// Port assumed when the redirect URL names none.
pub const DEFAULT_REDIRECT_PORT: u16 = 8080;

/// Bytes a form-urlencoded rendering passes through unchanged: the
/// alphanumerics and `*`, `-`, `.`, `_`.
pub open spec fn form_unchanged(b: u8) -> bool {
    (48 <= b && b <= 57) || (65 <= b && b <= 90) || (97 <= b && b <= 122) || b == 42 || b == 45
        || b == 46 || b == 95
}

/// One byte's form-urlencoded rendering: kept, `+` for a space, or `%` and
/// two uppercase hexadecimal digits.
pub open spec fn form_enc_byte(b: u8) -> Seq<char> {
    if form_unchanged(b) {
        seq![b as char]
    } else if b == 32 {
        seq!['+']
    } else {
        seq!['%', hex_upper(b as int / 16), hex_upper(b as int % 16)]
    }
}

/// The form-urlencoded rendering of a byte sequence.
pub open spec fn form_enc(bs: Seq<u8>) -> Seq<char>
    decreases bs.len(),
{
    if bs.len() == 0 {
        Seq::empty()
    } else {
        form_enc_byte(bs[0]) + form_enc(bs.skip(1))
    }
}

proof fn lemma_form_enc_snoc(bs: Seq<u8>, b: u8)
    ensures
        form_enc(bs.push(b)) == form_enc(bs) + form_enc_byte(b),
    decreases bs.len(),
{
    if bs.len() == 0 {
        assert(bs.push(b).skip(1) =~= Seq::<u8>::empty());
        assert(bs.push(b)[0] == b);
        assert(form_enc(bs.push(b).skip(1)) =~= Seq::<char>::empty());
        assert(form_enc(bs.push(b)) == form_enc_byte(bs.push(b)[0]) + form_enc(bs.push(b).skip(1)));
        assert(form_enc(bs.push(b)) =~= form_enc_byte(b));
        assert(form_enc(bs) + form_enc_byte(b) =~= form_enc_byte(b));
    } else {
        assert(bs.push(b).skip(1) =~= bs.skip(1).push(b));
        assert(bs.push(b)[0] == bs[0]);
        lemma_form_enc_snoc(bs.skip(1), b);
        assert(form_enc(bs.push(b)) =~= form_enc_byte(bs[0]) + (form_enc(bs.skip(1))
            + form_enc_byte(b)));
        assert(form_enc_byte(bs[0]) + (form_enc(bs.skip(1)) + form_enc_byte(b)) =~= (form_enc_byte(
            bs[0],
        ) + form_enc(bs.skip(1))) + form_enc_byte(b));
    }
}

proof fn lemma_form_enc_byte_reserved(b: u8)
    ensures
        forall|j: int|
            0 <= j < form_enc_byte(b).len() ==> {
                let c = #[trigger] form_enc_byte(b)[j];
                c != '&' && c != '=' && c != '?' && c != '#' && c != ' '
            },
{
}

/// An encoded value cannot smuggle structure into a URL or form: whatever
/// the text holds, its form-encoded rendering contains no `&`, `=`, `?`,
/// `#` or space, so each query pair stays one pair.
pub proof fn lemma_form_enc_reserved(bs: Seq<u8>)
    ensures
        forall|i: int|
            0 <= i < form_enc(bs).len() ==> {
                let c = #[trigger] form_enc(bs)[i];
                c != '&' && c != '=' && c != '?' && c != '#' && c != ' '
            },
    decreases bs.len(),
{
    if bs.len() > 0 {
        lemma_form_enc_byte_reserved(bs[0]);
        lemma_form_enc_reserved(bs.skip(1));
        assert forall|i: int| 0 <= i < form_enc(bs).len() implies {
            let c = #[trigger] form_enc(bs)[i];
            c != '&' && c != '=' && c != '?' && c != '#' && c != ' '
        } by {
            if i < form_enc_byte(bs[0]).len() {
                assert(form_enc(bs)[i] == form_enc_byte(bs[0])[i]);
            } else {
                assert(form_enc(bs)[i] == form_enc(bs.skip(1))[i - form_enc_byte(bs[0]).len()]);
            }
        }
    }
}

/// Append the form-urlencoded rendering of the string's UTF-8 bytes.
pub fn form_encode_into(out: &mut Vec<char>, s: &str)
    ensures
        final(out)@ == old(out)@ + form_enc(s.spec_bytes()),
{
    let bytes = s.as_bytes();
    let n = bytes.len();
    let mut i: usize = 0;
    proof {
        assert(bytes@.take(0) =~= Seq::<u8>::empty());
        assert(out@ + form_enc(bytes@.take(0)) =~= out@);
    }
    while i < n
        invariant
            i <= n,
            n == bytes@.len(),
            bytes@ == s.spec_bytes(),
            out@ == old(out)@ + form_enc(bytes@.take(i as int)),
        decreases n - i,
    {
        let b = bytes[i];
        if (48 <= b && b <= 57) || (65 <= b && b <= 90) || (97 <= b && b <= 122) || b == 42 || b
            == 45 || b == 46 || b == 95 {
            out.push(b as char);
        } else if b == 32 {
            out.push('+');
        } else {
            out.push('%');
            out.push(hex_upper_c(b / 16));
            out.push(hex_upper_c(b % 16));
        }
        proof {
            lemma_form_enc_snoc(bytes@.take(i as int), bytes@[i as int]);
            assert(bytes@.take(i as int).push(bytes@[i as int]) =~= bytes@.take(i as int + 1));
            assert(out@ =~= old(out)@ + form_enc(bytes@.take(i as int + 1)));
        }
        i += 1;
    }
    proof {
        assert(bytes@.take(n as int) =~= bytes@);
    }
}

/// The authorization URL: the endpoint, a `?` (or `&` where the endpoint
/// already carries a query), and the seven flow parameters as form-encoded
/// query pairs.
pub open spec fn auth_url_spec(
    endpoint: Seq<char>,
    client_id: Seq<char>,
    redirect: Seq<char>,
    scope_joined: Seq<char>,
    state: Seq<char>,
    challenge: Seq<char>,
) -> Seq<char> {
    endpoint + (if has_char(endpoint, '?') {
        "&"@
    } else {
        "?"@
    }) + "response_type=code&client_id="@ + form_enc(encode_utf8(client_id)) + "&redirect_uri="@
        + form_enc(encode_utf8(redirect)) + "&scope="@ + form_enc(encode_utf8(scope_joined))
        + "&state="@ + form_enc(encode_utf8(state)) + "&code_challenge="@ + form_enc(
        encode_utf8(challenge),
    ) + "&code_challenge_method=S256"@
}

/// One authorization attempt: the PKCE pair, the CSRF state, the URL the
/// browser is sent to, and where the loopback listener must wait.
#[derive(Debug, Clone)]
pub struct AuthAttempt {
    pub pkce: PkceParams,
    pub state: String,
    pub auth_url: String,
    pub redirect_port: u16,
    pub redirect_path: String,
}

impl AuthAttempt {
    /// Check the state echoed by the callback against the state that was
    /// sent.  A mismatch is always the CSRF `Auth` error, never a success.
    pub fn verify_callback(&self, result: &CallbackResult) -> (r: Result<(), ProxyError>)
        ensures
            r is Ok <==> result.state@ == self.state@,
            r matches Err(e) ==> (e matches ProxyError::Auth(m) && m@
                == "State mismatch - possible CSRF attack"@),
    {
        if str_eq(result.state.as_str(), self.state.as_str()) {
            Ok(())
        } else {
            Err(ProxyError::Auth("State mismatch - possible CSRF attack".to_owned()))
        }
    }
}

/// Draw a fresh CSRF state of 32 URL-safe alphanumeric characters.
pub fn generate_state() -> (r: String)
    ensures
        r@.len() == STATE_LEN,
        forall|i: int| 0 <= i < r@.len() ==> is_alnum_char(#[trigger] r@[i]),
{
    crate::pkce::random_alnum_string(STATE_LEN)
}

/// What `get_token` decides: hand out the cached access token, or renew.
#[derive(Debug, Clone)]
pub enum TokenAction {
    UseCached(String),
    Renew,
}

/// What `renew_token` tries first: the refresh grant with this refresh
/// token, falling back to the full flow, or the full flow alone.
#[derive(Debug, Clone)]
pub enum RenewPlan {
    RefreshFirst(String),
    FullFlowOnly,
}

/// The token-endpoint form for the authorization-code grant.
pub open spec fn token_params_spec(
    client_id: Seq<char>,
    client_secret: Option<Seq<char>>,
    redirect: Seq<char>,
    code: Seq<char>,
    verifier: Seq<char>,
) -> Seq<(Seq<char>, Seq<char>)> {
    let base = seq![
        ("grant_type"@, "authorization_code"@),
        ("code"@, code),
        ("redirect_uri"@, redirect),
        ("client_id"@, client_id),
        ("code_verifier"@, verifier),
    ];
    match client_secret {
        Some(s) => base.push(("client_secret"@, s)),
        None => base,
    }
}

/// The token-endpoint form for the refresh grant.
pub open spec fn refresh_params_spec(
    client_id: Seq<char>,
    client_secret: Option<Seq<char>>,
    refresh_token: Seq<char>,
) -> Seq<(Seq<char>, Seq<char>)> {
    let base = seq![
        ("grant_type"@, "refresh_token"@),
        ("refresh_token"@, refresh_token),
        ("client_id"@, client_id),
    ];
    match client_secret {
        Some(s) => base.push(("client_secret"@, s)),
        None => base,
    }
}

/// One form pair rendered as `key=value`, both sides form-encoded.
pub open spec fn form_pair_spec(p: (Seq<char>, Seq<char>)) -> Seq<char> {
    form_enc(encode_utf8(p.0)) + "="@ + form_enc(encode_utf8(p.1))
}

/// A whole form body: the rendered pairs joined with `&`.
pub open spec fn form_body_spec(ps: Seq<(Seq<char>, Seq<char>)>) -> Seq<char>
    decreases ps.len(),
{
    if ps.len() == 0 {
        Seq::empty()
    } else if ps.len() == 1 {
        form_pair_spec(ps[0])
    } else {
        form_pair_spec(ps[0]) + "&"@ + form_body_spec(ps.skip(1))
    }
}

proof fn lemma_form_body_push(ps: Seq<(Seq<char>, Seq<char>)>, p: (Seq<char>, Seq<char>))
    ensures
        form_body_spec(ps.push(p)) == if ps.len() == 0 {
            form_pair_spec(p)
        } else {
            form_body_spec(ps) + "&"@ + form_pair_spec(p)
        },
    decreases ps.len(),
{
    if ps.len() == 0 {
        assert(ps.push(p)[0] == p);
        assert(form_body_spec(ps.push(p)) =~= form_pair_spec(p));
    } else if ps.len() == 1 {
        assert(ps.push(p).skip(1) =~= seq![p]);
        assert(ps.push(p)[0] == ps[0]);
        assert(form_body_spec(seq![p]) == form_pair_spec(p));
        assert(form_body_spec(ps.push(p)) =~= form_pair_spec(ps[0]) + "&"@ + form_pair_spec(p));
    } else {
        assert(ps.push(p).skip(1) =~= ps.skip(1).push(p));
        assert(ps.push(p)[0] == ps[0]);
        lemma_form_body_push(ps.skip(1), p);
        assert(form_body_spec(ps.push(p)) =~= form_pair_spec(ps[0]) + "&"@ + (form_body_spec(
            ps.skip(1),
        ) + "&"@ + form_pair_spec(p)));
        assert(form_pair_spec(ps[0]) + "&"@ + (form_body_spec(ps.skip(1)) + "&"@ + form_pair_spec(
            p,
        )) =~= (form_pair_spec(ps[0]) + "&"@ + form_body_spec(ps.skip(1))) + "&"@ + form_pair_spec(
            p,
        ));
    }
}

/// Render a form as an `application/x-www-form-urlencoded` body.
pub fn form_body(params: &Vec<(String, String)>) -> (r: String)
    ensures
        r@ == form_body_spec(params.deep_view()),
{
    let mut out: Vec<char> = Vec::new();
    let mut i: usize = 0;
    proof {
        assert(params.deep_view().take(0) =~= Seq::<(Seq<char>, Seq<char>)>::empty());
    }
    while i < params.len()
        invariant
            i <= params@.len(),
            out@ == form_body_spec(params.deep_view().take(i as int)),
        decreases params@.len() - i,
    {
        if i > 0 {
            out.push('&');
        }
        let ghost mid0 = out@;
        form_encode_into(&mut out, params[i].0.as_str());
        out.push('=');
        form_encode_into(&mut out, params[i].1.as_str());
        proof {
            assert(params.deep_view()[i as int] == (params@[i as int].0@, params@[i as int].1@));
            reveal_strlit("&");
            reveal_strlit("=");
            assert("&"@ =~= seq!['&']);
            assert("="@ =~= seq!['=']);
            assert(out@ =~= mid0 + form_pair_spec(params.deep_view()[i as int]));
            lemma_form_body_push(params.deep_view().take(i as int), params.deep_view()[i as int]);
            assert(params.deep_view().take(i as int).push(params.deep_view()[i as int])
                =~= params.deep_view().take(i as int + 1));
            assert(out@ =~= form_body_spec(params.deep_view().take(i as int + 1)));
        }
        i += 1;
    }
    proof {
        assert(params.deep_view().take(params.deep_view().len() as int) =~= params.deep_view());
    }
    chars_to_string(out)
}

/// The `Token` error for a failed authorization-code exchange: the status in
/// decimal, then the reply body.
pub fn exchange_status_error(status: u16, body: &str) -> (r: ProxyError)
    ensures
        r matches ProxyError::Token(m) && m@ == "Token exchange failed with status "@ + spec_dec(
            status as nat,
        ) + ": "@ + body@,
{
    let mut m = "Token exchange failed with status ".to_owned();
    let d = u64_to_string(status as u64);
    m.append(d.as_str());
    m.append(": ");
    m.append(body);
    ProxyError::Token(m)
}

/// The `Token` error for a failed refresh grant: the status in decimal and,
/// deliberately, no body — every refresh failure looks alike to callers,
/// which fall back to the full flow.
pub fn refresh_status_error(status: u16) -> (r: ProxyError)
    ensures
        r matches ProxyError::Token(m) && m@ == "Token refresh failed with status: "@ + spec_dec(
            status as nat,
        ),
{
    let mut m = "Token refresh failed with status: ".to_owned();
    let d = u64_to_string(status as u64);
    m.append(d.as_str());
    ProxyError::Token(m)
}

/// The client's own state: its registration, the discovered configuration,
/// and the cached token bundle.
#[derive(Debug)]
pub struct OidcClient {
    pub issuer_url: String,
    pub client_id: String,
    pub client_secret: Option<String>,
    pub scopes: Vec<String>,
    pub redirect_url: String,
    pub oidc_config: OidcConfig,
    pub token_info: Option<TokenInfo>,
}

impl OidcClient {
    /// Build a client from a discovery document and a possibly loaded token
    /// cache.  The document must be usable; its validation error passes
    /// through unchanged.
    pub fn new(
        issuer_url: String,
        client_id: String,
        client_secret: Option<String>,
        scopes: Vec<String>,
        redirect_url: String,
        oidc_config: OidcConfig,
        token_info: Option<TokenInfo>,
    ) -> (r: Result<OidcClient, ProxyError>)
        ensures
            r is Ok <==> oidc_config.spec_usable(),
            r matches Ok(c) ==> c.issuer_url == issuer_url && c.client_id == client_id
                && c.client_secret == client_secret && c.scopes == scopes && c.redirect_url
                == redirect_url && c.oidc_config == oidc_config && c.token_info == token_info,
            r matches Err(e) ==> e matches ProxyError::Discovery(_),
    {
        match oidc_config.validate() {
            Err(e) => Err(e),
            Ok(()) => Ok(
                OidcClient {
                    issuer_url,
                    client_id,
                    client_secret,
                    scopes,
                    redirect_url,
                    oidc_config,
                    token_info,
                },
            ),
        }
    }

    /// What obtaining a token comes to at the instant `now`: a bundle that
    /// is cached and valid is handed out as it is, with no I/O; anything
    /// else forces a renewal.
    pub fn get_token(&self, now: u64) -> (r: TokenAction)
        ensures
            r matches TokenAction::UseCached(t) ==> (self.token_info matches Some(b) && b.valid_at(
                now,
            ) && t@ == b.access_token@),
            r is Renew <==> !(self.token_info matches Some(b) && b.valid_at(now)),
    {
        match &self.token_info {
            Some(b) => {
                if b.is_valid_at(now) {
                    TokenAction::UseCached(b.access_token.as_str().to_owned())
                } else {
                    TokenAction::Renew
                }
            },
            None => TokenAction::Renew,
        }
    }

    /// How a renewal proceeds: the refresh grant first where refresh
    /// material is cached, otherwise the full flow alone.
    pub fn renew_token(&self) -> (r: RenewPlan)
        ensures
            (self.token_info is Some && self.token_info->0.spec_can_refresh()) ==> (r matches
                RenewPlan::RefreshFirst(rt) && rt@ == self.token_info->0.refresh_token->0@),
            !(self.token_info is Some && self.token_info->0.spec_can_refresh()) ==> r
                is FullFlowOnly,
    {
        match &self.token_info {
            Some(b) => match &b.refresh_token {
                Some(rt) => RenewPlan::RefreshFirst(rt.as_str().to_owned()),
                None => RenewPlan::FullFlowOnly,
            },
            None => RenewPlan::FullFlowOnly,
        }
    }

    /// Install a freshly obtained bundle as the cached one.
    pub fn store_bundle(&mut self, bundle: TokenInfo)
        ensures
            final(self).token_info == Some(bundle),
            final(self).issuer_url == old(self).issuer_url,
            final(self).client_id == old(self).client_id,
            final(self).client_secret == old(self).client_secret,
            final(self).scopes == old(self).scopes,
            final(self).redirect_url == old(self).redirect_url,
            final(self).oidc_config == old(self).oidc_config,
    {
        self.token_info = Some(bundle);
    }

    /// The authorization URL for one attempt.
    pub fn build_authorization_url(&self, state: &str, pkce: &PkceParams) -> (r: String)
        ensures
            r@ == auth_url_spec(
                self.oidc_config.authorization_endpoint@,
                self.client_id@,
                self.redirect_url@,
                join_spaces(self.scopes.deep_view()),
                state@,
                pkce.code_challenge@,
            ),
    {
        let endpoint = self.oidc_config.authorization_endpoint.as_str();
        let mut out: Vec<char> = Vec::new();
        push_str_chars(&mut out, endpoint);
        if contains_char(endpoint, '?') {
            out.push('&');
            proof {
                reveal_strlit("&");
                assert("&"@ =~= seq!['&']);
            }
        } else {
            out.push('?');
            proof {
                reveal_strlit("?");
                assert("?"@ =~= seq!['?']);
            }
        }
        push_str_chars(&mut out, "response_type=code&client_id=");
        form_encode_into(&mut out, self.client_id.as_str());
        push_str_chars(&mut out, "&redirect_uri=");
        form_encode_into(&mut out, self.redirect_url.as_str());
        push_str_chars(&mut out, "&scope=");
        let joined = join_with_spaces(&self.scopes);
        form_encode_into(&mut out, joined.as_str());
        push_str_chars(&mut out, "&state=");
        form_encode_into(&mut out, state);
        push_str_chars(&mut out, "&code_challenge=");
        form_encode_into(&mut out, pkce.code_challenge.as_str());
        push_str_chars(&mut out, "&code_challenge_method=S256");
        chars_to_string(out)
    }

    /// Prepare one authorization attempt: fresh PKCE material and state, the
    /// authorization URL, and the loopback port and path taken from the
    /// redirect URL.  A redirect URL the url crate rejects is a `UrlParse`
    /// error carrying the parser's message.
    pub fn begin_auth_flow(&self) -> (r: Result<AuthAttempt, ProxyError>)
        ensures
            r is Ok <==> url_wf(self.redirect_url@),
            r matches Ok(a) ==> {
                &&& a.pkce.wf()
                &&& a.pkce.code_verifier@.len() == crate::pkce::VERIFIER_LEN
                &&& forall|i: int|
                    0 <= i < a.pkce.code_verifier@.len() ==> is_alnum_char(
                        #[trigger] a.pkce.code_verifier@[i],
                    )
                &&& a.state@.len() == STATE_LEN
                &&& forall|i: int|
                    0 <= i < a.state@.len() ==> is_alnum_char(#[trigger] a.state@[i])
                &&& a.auth_url@ == auth_url_spec(
                    self.oidc_config.authorization_endpoint@,
                    self.client_id@,
                    self.redirect_url@,
                    join_spaces(self.scopes.deep_view()),
                    a.state@,
                    a.pkce.code_challenge@,
                )
                &&& a.redirect_port == match url_port_of(self.redirect_url@) {
                    Some(p) => p,
                    None => DEFAULT_REDIRECT_PORT,
                }
                &&& a.redirect_path@ == url_path_of(self.redirect_url@)
            },
            r matches Err(e) ==> e matches ProxyError::UrlParse(_),
    {
        let pkce = PkceParams::generate();
        let state = generate_state();
        let auth_url = self.build_authorization_url(state.as_str(), &pkce);
        if let Err(e) = url_check(self.redirect_url.as_str()) {
            return Err(ProxyError::UrlParse(e));
        }
        let port_lookup = url_port(self.redirect_url.as_str());
        let named_port = match port_lookup {
            Some(p) => p,
            None => None,
        };
        let redirect_port = match named_port {
            Some(p) => p,
            None => DEFAULT_REDIRECT_PORT,
        };
        let redirect_path = match url_path(self.redirect_url.as_str()) {
            Some(p) => p,
            None => String::new(),
        };
        Ok(AuthAttempt { pkce, state, auth_url, redirect_port, redirect_path })
    }

    /// The token-endpoint form for exchanging an authorization code, in
    /// order: the grant type, the code, the redirect URL, the client ID, the
    /// PKCE verifier, and the client secret where one is configured.
    pub fn token_request_params(&self, code: &str, pkce: &PkceParams) -> (r: Vec<(String, String)>)
        ensures
            r.deep_view() == token_params_spec(
                self.client_id@,
                match self.client_secret {
                    Some(s) => Some(s@),
                    None => None::<Seq<char>>,
                },
                self.redirect_url@,
                code@,
                pkce.code_verifier@,
            ),
    {
        let mut out: Vec<(String, String)> = Vec::new();
        out.push(("grant_type".to_owned(), "authorization_code".to_owned()));
        out.push(("code".to_owned(), code.to_owned()));
        out.push(("redirect_uri".to_owned(), self.redirect_url.as_str().to_owned()));
        out.push(("client_id".to_owned(), self.client_id.as_str().to_owned()));
        out.push(("code_verifier".to_owned(), pkce.code_verifier.as_str().to_owned()));
        if let Some(secret) = &self.client_secret {
            out.push(("client_secret".to_owned(), secret.as_str().to_owned()));
        }
        proof {
            assert(out.deep_view() =~= token_params_spec(
                self.client_id@,
                match self.client_secret {
                    Some(s) => Some(s@),
                    None => None::<Seq<char>>,
                },
                self.redirect_url@,
                code@,
                pkce.code_verifier@,
            ));
        }
        out
    }

    /// The token-endpoint form for the refresh grant, in order: the grant
    /// type, the refresh token, the client ID, and the client secret where
    /// one is configured.
    pub fn refresh_request_params(&self, refresh_token: &str) -> (r: Vec<(String, String)>)
        ensures
            r.deep_view() == refresh_params_spec(
                self.client_id@,
                match self.client_secret {
                    Some(s) => Some(s@),
                    None => None::<Seq<char>>,
                },
                refresh_token@,
            ),
    {
        let mut out: Vec<(String, String)> = Vec::new();
        out.push(("grant_type".to_owned(), "refresh_token".to_owned()));
        out.push(("refresh_token".to_owned(), refresh_token.to_owned()));
        out.push(("client_id".to_owned(), self.client_id.as_str().to_owned()));
        if let Some(secret) = &self.client_secret {
            out.push(("client_secret".to_owned(), secret.as_str().to_owned()));
        }
        proof {
            assert(out.deep_view() =~= refresh_params_spec(
                self.client_id@,
                match self.client_secret {
                    Some(s) => Some(s@),
                    None => None::<Seq<char>>,
                },
                refresh_token@,
            ));
        }
        out
    }
}

} // verus!
