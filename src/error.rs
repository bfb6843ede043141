use vstd::prelude::*;

verus! {

/// The body of a request could not be serialized.
#[derive(Debug)]
#[non_exhaustive]
pub struct BodyError {
    pub error: serde_json::Error,
}

impl BodyError {
    pub fn new(error: serde_json::Error) -> (r: BodyError)
        ensures
            r.error == error,
    {
        BodyError { error }
    }
}

/// What came of reading a body as JSON: the value, or why it is not JSON.
#[derive(Debug)]
#[non_exhaustive]
pub enum JsonResult {
    Json(serde_json::Value),
    Error(serde_json::Error),
}

impl From<Result<serde_json::Value, serde_json::Error>> for JsonResult {
    fn from(value: Result<serde_json::Value, serde_json::Error>) -> (r: JsonResult) {
        match value {
            Ok(v) => JsonResult::Json(v),
            Err(e) => JsonResult::Error(e),
        }
    }
}

impl vstd::std_specs::convert::FromSpecImpl<Result<serde_json::Value, serde_json::Error>> for JsonResult {
    open spec fn obeys_from_spec() -> bool {
        true
    }

    open spec fn from_spec(value: Result<serde_json::Value, serde_json::Error>) -> JsonResult {
        match value {
            Ok(v) => JsonResult::Json(v),
            Err(e) => JsonResult::Error(e),
        }
    }
}

/// Every way a query can fail; `C` is the error of the client's transport.
#[derive(Debug)]
#[non_exhaustive]
pub enum ApiError<C> {
    /// The endpoint's body could not be serialized.
    Body { error: BodyError },
    /// The transport failed.
    Client { error: C },
    /// Method, URI and body do not make a request.
    HttpRequest { error: http::Error },
    /// The server answered with a status outside 200 to 299.
    HttpResponse { status_code: u16, body: JsonResult },
    /// The body of a successful answer is not the JSON of the type asked for.
    ParseType { error: serde_json::Error, target: &'static str },
    /// The path could not be joined to the base URL.
    Url { error: url::ParseError, url: String, path: String },
}

/// A type that response bodies are decoded into, with the name that errors
/// give it.
pub trait Decodable {
    /// The name of the type, as error messages show it.
    const TYPE_LABEL: &'static str;
}

impl Decodable for serde_json::Value {
    const TYPE_LABEL: &'static str = "serde_json::Value";
}

impl<C> ApiError<C> {
    /// The error for a body that is not the JSON of `T`, naming `T`.
    pub fn parse_type_error<T: Decodable>(error: serde_json::Error) -> (r: Self)
        ensures
            r == (ApiError::<C>::ParseType { error, target: T::TYPE_LABEL }),
    {
        ApiError::ParseType { error, target: T::TYPE_LABEL }
    }
}

} // verus!
