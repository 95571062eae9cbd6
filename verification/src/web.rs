use vstd::prelude::*;
use crate::text::opt_text;
use crate::uri::uri_decoded;

verus! {

/// The host name that the browser's `URL` parser reads from `url`: `None`
/// when `url` is not an absolute URL.
pub uninterp spec fn url_host_of(url: Seq<char>) -> Option<Seq<char>>;

/// Calls `js_sys::decode_uri_component`, the browser's
/// `decodeURIComponent`. Claimed: the result is `uri_decoded` of the
/// argument, as ECMAScript defines the function (escapes turned into bytes
/// and the bytes read as UTF-8); the `URIError` it throws on a malformed
/// escape or invalid UTF-8 becomes `None`.
#[verifier::external_body]
pub(crate) fn decode_uri_component(s: &str) -> (r: Option<String>)
    ensures
        opt_text(r) == uri_decoded(s@),
{
    match js_sys::decode_uri_component(s) {
        Ok(decoded) => Some(String::from(decoded)),
        Err(_) => None,
    }
}

/// Calls `web_sys::Url::new` and, when the URL parses, `Url::hostname`.
/// Claimed: the result is `url_host_of` of the argument, a function of the
/// argument alone; a parse error becomes `None`. Nothing else about URL
/// parsing is claimed.
#[verifier::external_body]
pub(crate) fn url_hostname(url: &str) -> (r: Option<String>)
    ensures
        opt_text(r) == url_host_of(url@),
{
    match web_sys::Url::new(url) {
        Ok(parsed) => Some(parsed.hostname()),
        Err(_) => None,
    }
}

} // verus!
