use vstd::prelude::*;

use crate::error::BodyError;
use crate::params::QueryParams;
use crate::request::Method;

verus! {

/// One call of an API: its method, its path, its query parameters and its
/// body. Each is a pure function of the endpoint's own fields, so asking
/// twice gives the same answer.
pub trait Endpoint {
    /// The method of the call.
    fn method(&self) -> Method;

    /// The path of the call, relative to the client's base URL.
    fn endpoint(&self) -> String;

    /// The query parameters of the call; none unless the endpoint says otherwise.
    fn parameters(&self) -> (r: QueryParams)
        default_ensures
            r@ == Seq::<(Seq<char>, Seq<char>)>::empty(),
    {
        QueryParams::new()
    }

    /// Whether the body of the call can be serialized.
    spec fn body_ok(&self) -> bool;

    /// The body of the call, or why it cannot be serialized; `empty_body`
    /// for an endpoint that sends none.
    fn body(&self) -> (r: Result<Vec<u8>, BodyError>)
        ensures
            r is Ok <==> self.body_ok(),
    ;
}

/// The body of an endpoint that sends none: empty.
pub fn empty_body() -> (r: Result<Vec<u8>, BodyError>)
    ensures
        r is Ok,
        r->Ok_0@ == Seq::<u8>::empty(),
{
    let body: Vec<u8> = Vec::new();
    Ok(body)
}

/// Fetches one crate by name: `GET v1/crates/<name>`.
#[derive(Clone, Debug)]
pub struct Crate {
    name: String,
}

impl Crate {
    /// The name of the crate.
    pub closed spec fn name_spec(&self) -> Seq<char> {
        self.name@
    }

    pub fn new(name: String) -> (r: Crate)
        ensures
            r.name_spec() == name@,
    {
        Crate { name }
    }
}

impl Crate {
    /// The path of the lookup: `v1/crates/` and the name.
    pub fn path(&self) -> (r: String)
        ensures
            r@ == "v1/crates/"@ + self.name_spec(),
    {
        let path = String::from_str("v1/crates/");
        path.concat(self.name.as_str())
    }
}

impl Endpoint for Crate {
    open spec fn body_ok(&self) -> bool {
        true
    }

    fn method(&self) -> (r: Method)
        ensures
            r == Method::Get,
    {
        Method::Get
    }

    fn endpoint(&self) -> (r: String)
        ensures
            r@ == "v1/crates/"@ + self.name_spec(),
    {
        self.path()
    }

    fn body(&self) -> (r: Result<Vec<u8>, BodyError>)
        ensures
            r is Ok && r->Ok_0@ == Seq::<u8>::empty(),
    {
        empty_body()
    }
}

} // verus!
