//! Trusted views of the url and serde_json crates: well-formedness of URL
//! and JSON text, and the port and path of a parsed URL.

use vstd::prelude::*;

verus! {

/// Whether `url::Url::parse` accepts the text.
pub uninterp spec fn url_wf(s: Seq<char>) -> bool;

/// The port of the URL parsed from the text, as `url::Url::port` reports it
/// (`None` where the text names no port or names its scheme's default).
pub uninterp spec fn url_port_of(s: Seq<char>) -> Option<u16>;

/// The path of the URL parsed from the text, as `url::Url::path` reports it.
pub uninterp spec fn url_path_of(s: Seq<char>) -> Seq<char>;

/// Whether `serde_json::from_str` accepts the text as one JSON document.
pub uninterp spec fn json_wf(s: Seq<char>) -> bool;

/// Relies on url's `Url::parse`: acceptance depends on the text alone; a
/// rejection is carried as its message.
#[verifier::external_body]
pub(crate) fn url_check(s: &str) -> (r: Result<(), String>)
    ensures
        r is Ok <==> url_wf(s@),
{
    match url::Url::parse(s) {
        Ok(_) => Ok(()),
        Err(e) => Err(e.to_string()),
    }
}

/// Relies on url's `Url::parse` and `Url::port`: both depend on the text
/// alone; the outer `None` is a parse rejection.
#[verifier::external_body]
pub(crate) fn url_port(s: &str) -> (r: Option<Option<u16>>)
    ensures
        r is Some <==> url_wf(s@),
        r matches Some(p) ==> p == url_port_of(s@),
{
    match url::Url::parse(s) {
        Ok(u) => Some(u.port()),
        Err(_) => None,
    }
}

/// Relies on url's `Url::parse` and `Url::path`: both depend on the text
/// alone; `None` is a parse rejection.
#[verifier::external_body]
pub(crate) fn url_path(s: &str) -> (r: Option<String>)
    ensures
        r is Some <==> url_wf(s@),
        r matches Some(p) ==> p@ == url_path_of(s@),
{
    match url::Url::parse(s) {
        Ok(u) => Some(u.path().to_string()),
        Err(_) => None,
    }
}

/// Relies on serde_json's `from_str` for `Value`: acceptance depends on the
/// text alone.
#[verifier::external_body]
pub(crate) fn json_check(s: &str) -> (r: bool)
    ensures
        r == json_wf(s@),
{
    serde_json::from_str::<serde_json::Value>(s).is_ok()
}

} // verus!
