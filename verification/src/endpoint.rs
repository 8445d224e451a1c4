//! Computing the target of the teardown DELETE: the configured ingestion
//! endpoint with its path component replaced by the remote session location
//! learned from the POST response. The URL syntax itself is the `url` crate's
//! business; its result is a function of the two texts alone and is given a
//! name here, so that callers' contracts can speak of the exact URL formed.

use vstd::prelude::*;

use crate::errors::SignallerError;
use crate::session::opt_str_view;

verus! {

/// The longest endpoint or location text the library will form a URL from,
/// in characters. Normalization and percent-encoding expand each character to
/// at most a dozen bytes, so two texts of this size keep the `url` crate's
/// serialization far below the four-GiB index limit its internals hold it to.
pub const MAX_URL_TEXT: usize = 0x0400_0000;

/// Whether `url::Url::parse` accepts the text as an absolute URL. Parsing is
/// a function of the text alone; nothing more is assumed of it here.
pub uninterp spec fn url_ok(s: Seq<char>) -> bool;

/// The serialization of the URL obtained by parsing `endpoint` and replacing
/// its path component with `path`: what `url::Url::parse`, `Url::set_path`
/// and `Url::as_str` together yield. A function of the two texts alone;
/// `set_path` normalizes with a leading `/` and percent-encodes where needed.
pub uninterp spec fn delete_url_of(endpoint: Seq<char>, path: Seq<char>) -> Seq<char>;

/// The path text a stored location denotes: the location itself, or the
/// empty path when none was ever learned.
pub open spec fn location_path(location: Option<Seq<char>>) -> Seq<char> {
    match location {
        Some(l) => l,
        None => Seq::empty(),
    }
}

/// Relies on `url::Url::parse` (`Ok` exactly when the text is a valid
/// absolute URL, a function of the text alone), `Url::set_path` (replaces the
/// path component) and `Url::as_str` (the serialization): together they form
/// the URL named `delete_url_of(endpoint, path)`. The length bounds keep the
/// serialization away from the `url` crate's four-GiB index limit, beyond
/// which `set_path` does not return.
#[verifier::external_body]
fn replace_url_path(endpoint: &str, path: &str) -> (r: Option<String>)
    requires
        endpoint@.len() <= MAX_URL_TEXT as nat,
        path@.len() <= MAX_URL_TEXT as nat,
    ensures
        r is Some <==> url_ok(endpoint@),
        (r matches Some(u) ==> u@ == delete_url_of(endpoint@, path@)),
{
    match url::Url::parse(endpoint) {
        Ok(mut u) => {
            u.set_path(path);
            Some(String::from(u.as_str()))
        },
        Err(_) => None,
    }
}

/// The URL the teardown DELETE is sent to: the configured endpoint with its
/// path replaced by the remote session location, or by the empty path when
/// the POST never yielded one. Fails with `TransportFailure` exactly when the
/// endpoint is not a valid absolute URL or one of the texts is over
/// `MAX_URL_TEXT`.
pub fn delete_target(endpoint: &str, location: Option<String>) -> (r: Result<
    String,
    SignallerError,
>)
    ensures
        r is Ok <==> url_ok(endpoint@) && endpoint@.len() <= MAX_URL_TEXT as nat
            && location_path(opt_str_view(location)).len()
            <= MAX_URL_TEXT as nat,
        (r matches Ok(t) ==> t@ == delete_url_of(
            endpoint@,
            location_path(opt_str_view(location)),
        )),
        r is Err ==> r == Err::<String, SignallerError>(SignallerError::TransportFailure),
{
    let path = match location {
        Some(l) => l,
        None => String::new(),
    };
    if endpoint.unicode_len() > MAX_URL_TEXT || path.as_str().unicode_len() > MAX_URL_TEXT {
        return Err(SignallerError::TransportFailure);
    }
    match replace_url_path(endpoint, path.as_str()) {
        Some(u) => Ok(u),
        None => Err(SignallerError::TransportFailure),
    }
}

} // verus!
