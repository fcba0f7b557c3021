//! The authenticating request policy: inject a bearer token, and on exactly
//! one 401 renew and retry exactly once.
//!
//! The HTTP client executes the round trips; this module decides them.  For
//! one incoming request the run is: send with the current token; if and only
//! if the reply is 401, renew and send once more; whatever the second reply
//! is — even another 401 — it is returned verbatim.

use vstd::prelude::*;
use vstd::string::*;
use crate::error::ProxyError;

verus! {

/// What to do after the first upstream reply.
#[derive(Debug, Clone, Copy, PartialEq, Eq, Structural)]
pub enum RetryDecision {
    /// Return this reply to the caller.
    Return,
    /// Renew the token and send the same request once more.
    RenewAndRetry,
}

/// Whether an HTTP status is a success (2xx).
pub fn is_success_status(status: u16) -> (r: bool)
    ensures
        r == (200 <= status < 300),
{
    200 <= status && status < 300
}

/// The `Authorization` header value for a bearer token.
pub fn bearer_header(token: &str) -> (r: String)
    ensures
        r@ == "Bearer "@ + token@,
{
    let mut s = "Bearer ".to_owned();
    s.append(token);
    s
}

/// Decide on the first upstream reply: renew and retry on exactly 401,
/// return anything else — other 4xx and 5xx included — unchanged.
pub fn on_first_response(status: u16) -> (d: RetryDecision)
    ensures
        d == RetryDecision::RenewAndRetry <==> status == 401,
{
    if status == 401 {
        RetryDecision::RenewAndRetry
    } else {
        RetryDecision::Return
    }
}

/// How many upstream round trips one request costs, given the first reply.
pub open spec fn middleware_attempts(first_status: u16) -> nat {
    if first_status == 401 {
        2
    } else {
        1
    }
}

/// The status returned to the caller, given the first and — where one is
/// made — the second reply.
pub open spec fn middleware_result(first_status: u16, second_status: u16) -> u16 {
    if first_status == 401 {
        second_status
    } else {
        first_status
    }
}

/// One whole run of the policy, with the upstream's two possible replies
/// given ahead of time: the returned status and the round trips spent.
pub fn middleware_run(first_status: u16, second_status: u16) -> (r: (u16, u8))
    ensures
        r.0 == middleware_result(first_status, second_status),
        r.1 == middleware_attempts(first_status),
        r.1 <= 2,
{
    match on_first_response(first_status) {
        RetryDecision::Return => (first_status, 1),
        RetryDecision::RenewAndRetry => (second_status, 2),
    }
}

/// For every first upstream reply, the policy spends at most two round
/// trips; it retries exactly on a 401, and then returns the second reply
/// verbatim — even when that is itself a 401.
pub proof fn lemma_middleware_round_trips(first_status: u16, second_status: u16)
    ensures
        middleware_attempts(first_status) <= 2,
        first_status == 401 ==> middleware_result(first_status, second_status) == second_status,
        first_status != 401 ==> middleware_result(first_status, second_status) == first_status,
{
}

/// The `Middleware` error for a token that cannot stand in a header.
pub fn invalid_token_error(detail: &str) -> (r: ProxyError)
    ensures
        r matches ProxyError::Middleware(m) && m@ == "Invalid token: "@ + detail@,
{
    let mut m = "Invalid token: ".to_owned();
    m.append(detail);
    ProxyError::Middleware(m)
}

} // verus!
