//! The authenticated handshake: an upgrade request that carries the bearer token.

use vstd::prelude::*;
use vstd::string::*;
use vstd::utf8::encode_utf8;
use crate::transport::{constructible, push_header, request_headers, request_line, url_text};

verus! {

/// The text of the authorization value for a token: `Bearer`, one space, and
/// the token as it is.
pub open spec fn bearer_text(token: Seq<char>) -> Seq<char> {
    "Bearer "@ + token
}

/// The header line that authorizes a request with a token.
pub open spec fn bearer_header(token: Seq<char>) -> (Seq<char>, Seq<u8>) {
    ("Authorization"@, encode_utf8(bearer_text(token)))
}

/// The authorization value for a token.
pub fn bearer(token: &str) -> (value: String)
    ensures
        value@ == bearer_text(token@),
{
    "Bearer ".to_owned().concat(token)
}

/// Appends the bearer authorization to a request.
pub fn authorize(req: ws::Request, token: &str) -> (out: ws::Request)
    ensures
        request_headers(out) == request_headers(req).push(bearer_header(token@)),
        request_line(out) == request_line(req),
{
    let mut req = req;
    let value = bearer(token);
    push_header(&mut req, "Authorization".to_owned(), value.as_str().as_bytes_vec());
    req
}

/// Completes what the construction of the bare request came to: a request is
/// authorized with `token`, a failure is handed on as it is.
pub fn finish_request(built: Result<ws::Request, ws::Error>, token: &str) -> (r: Result<
    ws::Request,
    ws::Error,
>)
    ensures
        match built {
            Ok(base) => {
                &&& r matches Ok(out)
                &&& request_headers(out) == request_headers(base).push(bearer_header(token@))
                &&& request_line(out) == request_line(base)
            },
            Err(e) => r == Err::<ws::Request, ws::Error>(e),
        },
{
    match built {
        Ok(base) => Ok(authorize(base, token)),
        Err(e) => Err(e),
    }
}

/// Builds the upgrade request for `url`, authorized with `token`: the bare
/// request that the WebSocket crate constructs for the URL, with the bearer
/// authorization as its last header line. It succeeds on every URL for which
/// that construction succeeds, whatever the token, and fails on the others
/// with the construction's error.
pub fn build_request(url: &url::Url, token: &str) -> (r: Result<ws::Request, ws::Error>)
    ensures
        r is Ok <==> constructible(url_text(*url)),
        r matches Ok(out) ==> {
            &&& request_headers(out).len() > 0
            &&& request_headers(out).last() == bearer_header(token@)
        },
{
    finish_request(ws::Request::from_url(url), token)
}

} // verus!
