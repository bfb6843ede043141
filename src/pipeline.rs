use vstd::prelude::*;

use crate::address::{appended_url, Url};
use crate::client::Client;
use crate::endpoint::Endpoint;
use crate::error::{ApiError, BodyError, Decodable, JsonResult};
use crate::params::QueryParams;
use crate::json::{decode, is_json_text, parse_value};
use crate::request::{is_success, Method, RequestHead, Response};

verus! {

/// The URL of a call, from what resolving its path gave: a failure to
/// resolve is passed on unchanged; a resolved URL gets the parameters
/// appended to its query.
pub fn target_url<C>(base: Result<Url, ApiError<C>>, parameters: &QueryParams) -> (r: Result<
    Url,
    ApiError<C>,
>)
    ensures
        base is Err ==> r == base,
        base is Ok ==> r is Ok && r->Ok_0@ == appended_url(base->Ok_0@, parameters@),
{
    match base {
        Ok(url) => {
            let mut url = url;
            parameters.append_to_url(&mut url);
            Ok(url)
        },
        Err(e) => Err(e),
    }
}

/// The request of a call to `url`: its head is made of the method and the
/// URL. A body that could not be serialized ends the query here, before
/// anything is sent.
pub fn prepare_request<C>(url: Url, method: Method, body: Result<Vec<u8>, BodyError>) -> (r: Result<
    (RequestHead, Vec<u8>),
    ApiError<C>,
>)
    ensures
        body is Err ==> {
            &&& r is Err
            &&& r->Err_0 matches ApiError::Body { error }
            &&& error == body->Err_0
        },
        body is Ok ==> {
            &&& r is Ok
            &&& r->Ok_0.0.method == method
            &&& r->Ok_0.0.uri@ == url@
            &&& r->Ok_0.1 == body->Ok_0
        },
{
    match body {
        Ok(body) => {
            let head = RequestHead { method, uri: String::from_str(url.as_str()) };
            Ok((head, body))
        },
        Err(error) => Err(ApiError::Body { error }),
    }
}

/// Sorts a response by its status: the body of a 2xx response goes on to be
/// decoded; any other status is an error that carries the status and what
/// reading the body as JSON gave.
pub fn classify_response<C>(response: Response) -> (r: Result<Vec<u8>, ApiError<C>>)
    ensures
        is_success(response.status) ==> r is Ok && r->Ok_0@ == response.body@,
        !is_success(response.status) ==> {
            &&& r is Err
            &&& r->Err_0 matches ApiError::HttpResponse { status_code, body }
            &&& status_code == response.status
            &&& (body is Json <==> is_json_text(response.body@))
        },
{
    if response.is_success() {
        Ok(response.body)
    } else {
        let body = JsonResult::from(parse_value(response.body.as_slice()));
        Err(ApiError::HttpResponse { status_code: response.status, body })
    }
}

/// What came back from the round trip: a failed exchange is passed on
/// unchanged; a response is sorted by its status.
pub fn receive<C>(sent: Result<Response, ApiError<C>>) -> (r: Result<Vec<u8>, ApiError<C>>)
    ensures
        sent is Err ==> r == Err::<Vec<u8>, ApiError<C>>(sent->Err_0),
        sent is Ok && is_success(sent->Ok_0.status) ==> r is Ok && r->Ok_0@ == sent->Ok_0.body@,
        sent is Ok && !is_success(sent->Ok_0.status) ==> {
            &&& r is Err
            &&& r->Err_0 matches ApiError::HttpResponse { status_code, body }
            &&& status_code == sent->Ok_0.status
            &&& (body is Json <==> is_json_text(sent->Ok_0.body@))
        },
{
    match sent {
        Ok(response) => classify_response(response),
        Err(e) => Err(e),
    }
}

/// The last step: a decoded value is the result; a decoding failure is an
/// error that names the type asked for.
pub fn finish_decode<T: Decodable, C>(decoded: Result<T, serde_json::Error>) -> (r: Result<
    T,
    ApiError<C>,
>)
    ensures
        decoded is Ok ==> r is Ok && r->Ok_0 == decoded->Ok_0,
        decoded is Err ==> r == Err::<T, ApiError<C>>(
            ApiError::ParseType { error: decoded->Err_0, target: T::TYPE_LABEL },
        ),
{
    match decoded {
        Ok(value) => Ok(value),
        Err(error) => Err(ApiError::parse_type_error::<T>(error)),
    }
}

/// Runs one call of `endpoint` through `client` and decodes the answer into
/// `T`. The steps run in order and the first failure ends the query: the
/// base URL, the parameters, the body, the round trip, the status, the
/// decoding. Nothing is sent for an endpoint whose body cannot be serialized.
pub fn query<E: Endpoint, C: Client, T: serde::de::DeserializeOwned + Decodable>(
    endpoint: &E,
    client: &C,
) -> (r: Result<T, ApiError<C::Error>>)
    ensures
        r matches Err(ApiError::HttpResponse { status_code, .. }) ==> !is_success(status_code),
        r matches Err(ApiError::ParseType { target, .. }) ==> target == T::TYPE_LABEL,
        !endpoint.body_ok() ==> (r is Err && (r->Err_0 is Url || r->Err_0 is Body)),
        r is Err && r->Err_0 is Body ==> !endpoint.body_ok(),
        r is Ok ==> endpoint.body_ok(),
        r is Err && (r->Err_0 is Client || r->Err_0 is HttpRequest || r->Err_0 is HttpResponse
            || r->Err_0 is ParseType) ==> endpoint.body_ok(),
{
    let path = endpoint.endpoint();
    let base = client.base_endpoint(path.as_str());
    let url = match target_url(base, &endpoint.parameters()) {
        Ok(url) => url,
        Err(e) => return Err(e),
    };
    let (head, body) = match prepare_request(url, endpoint.method(), endpoint.body()) {
        Ok(prepared) => prepared,
        Err(e) => return Err(e),
    };
    let bytes = match receive(client.send(head, body)) {
        Ok(bytes) => bytes,
        Err(e) => return Err(e),
    };
    finish_decode(decode::<T>(bytes.as_slice()))
}

} // verus!
