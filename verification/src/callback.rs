//! The one-shot authorization callback: what a callback request means, what
//! page the browser is shown, and the deadline on waiting for one.
//!
//! The loopback HTTP listener itself lives outside the library; it hands
//! each matching request's query here and sends back the page and outcome
//! this module decides on.

use vstd::prelude::*;
use vstd::string::*;
use crate::error::ProxyError;
use crate::text::{spec_dec, u64_to_string};

verus! {

/// Seconds the listener waits for a matching request.
pub const CALLBACK_TIMEOUT_SECS: u64 = 300;

/// The query parameters of a callback request.
#[derive(Debug, Clone)]
pub struct CallbackQuery {
    pub code: Option<String>,
    pub state: Option<String>,
    pub error: Option<String>,
    pub error_description: Option<String>,
}

/// A successful callback: the authorization code and the echoed state.
#[derive(Debug, Clone)]
pub struct CallbackResult {
    pub code: String,
    pub state: String,
}

/// What one callback request produces: the page to serve, and the outcome
/// to hand the waiting flow.
pub struct CallbackReply {
    pub html: String,
    pub outcome: Result<CallbackResult, ProxyError>,
}

/// The page served when authentication failed, with the message shown.
pub open spec fn failure_page(msg: Seq<char>) -> Seq<char> {
    "<html><head><title>Authentication Failed</title></head><body><h1>Authentication Failed</h1><p>"@
        + msg
        + "</p><p>You can close this window.</p></body></html>"@
}

/// The page served when authentication succeeded.
pub open spec fn success_page() -> Seq<char> {
    "<html><head><title>Authentication Successful</title></head><body><h1>Authentication Successful!</h1><p>You have been successfully authenticated.</p><p>You can close this window and return to your application.</p></body></html>"@
}

/// The message delivered when the provider reported an OAuth error.
pub open spec fn oauth_error_msg(error: Seq<char>, description: Option<Seq<char>>) -> Seq<char> {
    "OAuth error: "@ + error + " - "@ + (match description {
        Some(d) => d,
        None => "No description provided"@,
    })
}

fn build_failure_page(msg: &str) -> (r: String)
    ensures
        r@ == failure_page(msg@),
{
    let mut s =
        "<html><head><title>Authentication Failed</title></head><body><h1>Authentication Failed</h1><p>".to_owned();
    s.append(msg);
    s.append("</p><p>You can close this window.</p></body></html>");
    s
}

/// Decide on one callback request.  A reported OAuth error is delivered as a
/// `Callback` error carrying the provider's message; a request with both
/// `code` and `state` succeeds; anything else is a `Callback` error naming
/// the missing parameters.  The page matches the outcome.
pub fn handle_callback(params: CallbackQuery) -> (r: CallbackReply)
    ensures
        params.error matches Some(e) ==> (r.outcome matches Err(ProxyError::Callback(m)) && m@
            == oauth_error_msg(
            e@,
            match params.error_description {
                Some(d) => Some(d@),
                None => None,
            },
        ) && r.html@ == failure_page(m@)),
        params.error is None && params.code is Some && params.state is Some ==> (
        r.outcome matches Ok(cb) && cb.code == params.code->0 && cb.state == params.state->0
            && r.html@ == success_page()),
        params.error is None && (params.code is None || params.state is None) ==> (
        r.outcome matches Err(ProxyError::Callback(m)) && m@
            == "Missing code or state parameter in callback"@ && r.html@ == failure_page(m@)),
{
    if let Some(error) = params.error {
        let mut msg = "OAuth error: ".to_owned();
        msg.append(error.as_str());
        msg.append(" - ");
        match &params.error_description {
            Some(d) => msg.append(d.as_str()),
            None => msg.append("No description provided"),
        }
        let html = build_failure_page(msg.as_str());
        return CallbackReply { html, outcome: Err(ProxyError::Callback(msg)) };
    }
    match (params.code, params.state) {
        (Some(code), Some(state)) => {
            let html =
                "<html><head><title>Authentication Successful</title></head><body><h1>Authentication Successful!</h1><p>You have been successfully authenticated.</p><p>You can close this window and return to your application.</p></body></html>".to_owned();
            CallbackReply { html, outcome: Ok(CallbackResult { code, state }) }
        },
        _ => {
            let msg = "Missing code or state parameter in callback".to_owned();
            let html = build_failure_page(msg.as_str());
            CallbackReply { html, outcome: Err(ProxyError::Callback(msg)) }
        },
    }
}

/// The error delivered when no matching request arrives in time.
pub fn callback_timeout_error() -> (r: ProxyError)
    ensures
        r matches ProxyError::Timeout(m) && m@ == "OAuth callback timed out after "@ + spec_dec(
            CALLBACK_TIMEOUT_SECS as nat,
        ) + " seconds"@,
{
    let mut m = "OAuth callback timed out after ".to_owned();
    let d = u64_to_string(CALLBACK_TIMEOUT_SECS);
    m.append(d.as_str());
    m.append(" seconds");
    ProxyError::Timeout(m)
}

/// The error delivered when the one-shot channel closes without a callback.
pub fn callback_closed_error() -> (r: ProxyError)
    ensures
        r matches ProxyError::Callback(m) && m@ == "Callback channel closed"@,
{
    ProxyError::Callback("Callback channel closed".to_owned())
}

} // verus!
