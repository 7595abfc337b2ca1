//! The WebSocket crate's types and calls that the verified code relies on, each
//! with the contract that is taken on trust.

use vstd::prelude::*;

verus! {

/// `ws::Request`, the HTTP upgrade request of a handshake. Opaque here: what it
/// holds is spoken of through `request_headers` and `request_line`.
#[verifier::external_type_specification]
#[verifier::external_body]
pub struct ExRequest(ws::Request);

/// `ws::Error`, carried through unchanged.
#[verifier::external_type_specification]
#[verifier::external_body]
pub struct ExError(ws::Error);

/// `url::Url`, a parsed URL, carried through unchanged.
#[verifier::external_type_specification]
#[verifier::external_body]
pub struct ExUrl(url::Url);

/// The header lines of a request, in the order in which they are written to
/// the wire: each a name and the bytes of its value.
pub uninterp spec fn request_headers(req: ws::Request) -> Seq<(Seq<char>, Seq<u8>)>;

/// The method and the resource of a request's first line.
pub uninterp spec fn request_line(req: ws::Request) -> (Seq<char>, Seq<char>);

/// The text of a URL: what the `Url` holds, and what it is compared by.
pub uninterp spec fn url_text(url: url::Url) -> Seq<char>;

/// Whether `ws::Request::from_url` constructs a request for the URL with this
/// text. By its source it does so for every URL that has a host, and for no
/// other.
pub uninterp spec fn constructible(text: Seq<char>) -> bool;

/// `ws::Request::from_url` builds the upgrade request for a URL, with a fresh
/// random key. Whether it succeeds depends on the URL alone: it fails exactly
/// where the URL has no host. Nothing is claimed of the request itself.
pub assume_specification[ ws::Request::from_url ](url: &url::Url) -> (r: Result<
    ws::Request,
    ws::Error,
>)
    ensures
        r is Ok <==> constructible(url_text(*url)),
;

/// `ws::Request::headers_mut` followed by a push: appends one header line and
/// leaves the earlier lines and the first line as they were.
#[verifier::external_body]
pub(crate) fn push_header(req: &mut ws::Request, name: String, value: Vec<u8>)
    ensures
        request_headers(*final(req)) == request_headers(*old(req)).push((name@, value@)),
        request_line(*final(req)) == request_line(*old(req)),
{
    req.headers_mut().push((name, value));
}

/// `ws::Error::new` with `ws::ErrorKind::Internal`: an application error that
/// carries `details`. The error is opaque here, so nothing is claimed of it.
#[verifier::external_body]
pub(crate) fn internal_error(details: &'static str) -> ws::Error {
    ws::Error::new(ws::ErrorKind::Internal, details)
}

} // verus!
