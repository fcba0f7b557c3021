//! An OIDC-authenticating bridge library: the verified core of a proxy that
//! exposes a remote HTTP JSON-RPC tool server to a local line-delimited stdio
//! client.
//!
//! The library holds the logic of the authenticated session layer — PKCE
//! material, provider discovery validation, token-bundle arithmetic and
//! persistence keying, the authorization-code flow with CSRF checking, the
//! bearer-injecting retry policy, and the stdio framing rules — as verified
//! functions over plain values.  The surrounding process (argument parsing,
//! HTTP transport, the loopback listener, file and stream I/O) drives these
//! functions from an ordinary Rust shell.

pub mod bridge;
pub mod callback;
pub mod client;
pub mod config;
pub mod discovery;
pub mod error;
pub mod middleware;
pub mod pkce;
pub mod text;
pub mod token;
pub mod web;
