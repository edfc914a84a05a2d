use crate::headers::{is_value, is_value_exec, HeaderMap};
use crate::message::{Body, Response, ResponseHead, ResponseView, Version};
use vstd::prelude::*;
use vstd::utf8::encode_utf8;

verus! {

/// The head of a response that has a status and nothing else.
pub open spec fn empty_head(status: u16) -> ResponseView {
    ResponseView { status, version: Version::Http11, headers: Seq::empty() }
}

/// The head of a redirect to `location`.
pub open spec fn redirect_head(location: Seq<char>) -> ResponseView {
    ResponseView {
        status: 307,
        version: Version::Http11,
        headers: seq![("location"@, encode_utf8(location))],
    }
}

/// A response with the given status, no headers and an empty body.
fn empty_response<S>(status: u16) -> (response: Response<S>)
    ensures
        response.head@ == empty_head(status),
        response.body is Empty,
{
    Response {
        head: ResponseHead { status, version: Version::Http11, headers: HeaderMap::new() },
        body: Body::Empty,
    }
}

/// Whether `location` can stand in a `location` header: it holds no control
/// character but the tab.
pub fn is_location(location: &str) -> (ok: bool)
    ensures
        ok == is_value(encode_utf8(location@)),
{
    let bytes = location.as_bytes_vec();
    is_value_exec(&bytes)
}

/// A Temporary Redirect to `location`.
pub fn temporary_redirect<S>(location: &str) -> (response: Response<S>)
    requires
        is_value(encode_utf8(location@)),
    ensures
        response.head@ == redirect_head(location@),
        response.body is Empty,
{
    let mut headers = HeaderMap::new();
    headers.push_named("location", location.as_bytes_vec());
    Response {
        head: ResponseHead { status: 307, version: Version::Http11, headers },
        body: Body::Empty,
    }
}

/// An Unauthorized response.
pub fn unauthorized<S>() -> (response: Response<S>)
    ensures
        response.head@ == empty_head(401),
        response.body is Empty,
{
    empty_response(401)
}

/// An Internal Server Error response.
pub fn internal_server_error<S>() -> (response: Response<S>)
    ensures
        response.head@ == empty_head(500),
        response.body is Empty,
{
    empty_response(500)
}

/// A Bad Gateway response.
pub fn bad_gateway<S>() -> (response: Response<S>)
    ensures
        response.head@ == empty_head(502),
        response.body is Empty,
{
    empty_response(502)
}

} // verus!
