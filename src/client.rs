use vstd::prelude::*;

use crate::address::Url;
use crate::error::ApiError;
use crate::request::{RequestHead, Response};

verus! {

/// A transport with a base URL: it resolves paths and moves requests.
pub trait Client {
    /// The transport's own error.
    type Error;

    /// Resolves `path` against the base URL, without network I/O; a path
    /// that does not resolve is a URL error.
    fn base_endpoint(&self, path: &str) -> (r: Result<Url, ApiError<Self::Error>>)
        ensures
            r is Err ==> r->Err_0 is Url,
    ;

    /// Attaches `body` to the request and performs one round trip; a request
    /// that cannot be assembled is a request-build error, a failed exchange a
    /// client error.
    fn send(&self, request: RequestHead, body: Vec<u8>) -> (r: Result<
        Response,
        ApiError<Self::Error>,
    >)
        ensures
            r is Err ==> (r->Err_0 is HttpRequest || r->Err_0 is Client),
    ;
}

/// Resolves `path` against `base`, for clients: a path that does not join is
/// a URL error that names both.
pub fn resolve<C>(base: &str, path: &str) -> (r: Result<Url, ApiError<C>>)
    ensures
        r is Ok <==> crate::address::joined_url(base@, path@) is Some,
        r is Ok ==> r->Ok_0@ == crate::address::joined_url(base@, path@)->Some_0,
        r is Err ==> {
            &&& r->Err_0 matches ApiError::Url { url, path: p, .. }
            &&& url@ == base@
            &&& p@ == path@
        },
{
    match Url::join(base, path) {
        Ok(url) => Ok(url),
        Err(error) => Err(
            ApiError::Url { error, url: String::from_str(base), path: String::from_str(path) },
        ),
    }
}

} // verus!
