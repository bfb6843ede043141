use vstd::prelude::*;

use crate::error::ApiError;

verus! {

/// The HTTP methods that endpoints use.
#[derive(Clone, Copy, Debug, PartialEq, Eq)]
pub enum Method {
    Get,
    Head,
    Post,
    Put,
    Patch,
    Delete,
    Options,
    Connect,
    Trace,
}

/// The name of the method on the wire.
pub open spec fn method_name(m: Method) -> Seq<char> {
    match m {
        Method::Get => "GET"@,
        Method::Head => "HEAD"@,
        Method::Post => "POST"@,
        Method::Put => "PUT"@,
        Method::Patch => "PATCH"@,
        Method::Delete => "DELETE"@,
        Method::Options => "OPTIONS"@,
        Method::Connect => "CONNECT"@,
        Method::Trace => "TRACE"@,
    }
}

impl Method {
    /// The name of the method on the wire.
    pub fn as_str(&self) -> (r: &'static str)
        ensures
            r@ == method_name(*self),
    {
        match self {
            Method::Get => "GET",
            Method::Head => "HEAD",
            Method::Post => "POST",
            Method::Put => "PUT",
            Method::Patch => "PATCH",
            Method::Delete => "DELETE",
            Method::Options => "OPTIONS",
            Method::Connect => "CONNECT",
            Method::Trace => "TRACE",
        }
    }
}

/// What a request is before its body is attached: a method and a URI.
#[derive(Debug)]
pub struct RequestHead {
    pub method: Method,
    pub uri: String,
}

/// A fully buffered answer of the server.
#[derive(Debug)]
pub struct Response {
    pub status: u16,
    pub headers: Vec<(String, Vec<u8>)>,
    pub body: Vec<u8>,
}

/// A status in the 2xx range.
pub open spec fn is_success(status: u16) -> bool {
    200 <= status <= 299
}

impl Response {
    /// Whether the status is in the 2xx range.
    pub fn is_success(&self) -> (r: bool)
        ensures
            r == is_success(self.status),
    {
        200 <= self.status && self.status <= 299
    }
}

/// Whether `http` accepts the method name and the URI as a request.
pub uninterp spec fn http_accepts(method: Seq<char>, uri: Seq<char>) -> bool;

/// Relies on `http::request::Builder`: `method`, `uri` and `body` assemble the
/// request, which fails where the method or the URI does not parse.
#[verifier::external_body]
fn assemble(method: &str, uri: &str, body: Vec<u8>) -> (r: Result<http::Request<Vec<u8>>, http::Error>)
    ensures
        r is Ok <==> http_accepts(method@, uri@),
{
    http::Request::builder().method(method).uri(uri).body(body)
}

/// The `http` request for `head` with `body` attached, for transports that
/// take one; a head that `http` refuses is a request-build error.
pub fn build_request<C>(head: &RequestHead, body: Vec<u8>) -> (r: Result<
    http::Request<Vec<u8>>,
    ApiError<C>,
>)
    ensures
        r is Ok <==> http_accepts(method_name(head.method), head.uri@),
        r is Err ==> r->Err_0 is HttpRequest,
{
    match assemble(head.method.as_str(), head.uri.as_str(), body) {
        Ok(request) => Ok(request),
        Err(error) => Err(ApiError::HttpRequest { error }),
    }
}

} // verus!
