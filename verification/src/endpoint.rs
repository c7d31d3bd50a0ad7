//! What an operation of the service has to say of itself, so that a client
//! can build its request.

use crate::environment::{is_absolute_url, Environment};
use crate::json::{json_null, null_text, reads_as_null};
use crate::request::Method;
use crate::response::{null_bytes, ApiResult};
use vstd::prelude::*;
use vstd::slice::slice_to_vec;

verus! {

/// The type that a body has where its endpoint declares no other.
pub open spec fn json_content_type() -> Seq<char> {
    "application/json"@
}

/// Parameters that can be written as an ordered list of keys and values.
pub trait QueryParams {
    /// The parameters, in the order in which they go into the address.
    fn pairs(&self) -> Vec<(String, String)>;
}

/// A payload that can be written as JSON text.
pub trait RequestBody {
    /// The JSON text of the payload; `None` where it cannot be written.
    fn to_json(&self) -> Option<Vec<u8>>;
}

/// One operation of the service: its verb, its path, its parameters and its
/// payload. `ResultType` is what the operation answers with.
pub trait Endpoint<ResultType = (), QueryType = (), BodyType = ()> where
    ResultType: ApiResult,
    QueryType: QueryParams,
    BodyType: RequestBody,
 {
    /// The HTTP verb.
    fn method(&self) -> Method;

    /// The path of the resource, relative to the base address.
    fn path(&self) -> String;

    /// The parameters to append to the address, if any. An endpoint that
    /// does not say otherwise has none.
    fn query(&self) -> (query: Option<QueryType>)
        default_ensures
            query is None,
    {
        None
    }

    /// The payload to send as the body, if any. An endpoint that does not
    /// say otherwise has none.
    fn body(&self) -> (body: Option<BodyType>)
        default_ensures
            body is None,
    {
        None
    }

    /// The address of the operation in `environment`; `None` where the two
    /// do not make a well-formed absolute address. An endpoint that does
    /// not say otherwise has the address of its path in the environment:
    /// the base address and the path that `path` gives, joined.
    fn url(&self, environment: &Environment) -> (url: Option<String>)
        default_ensures
            exists|path: String|
                {
                    &&& #[trigger] call_ensures(Self::path, (self,), path)
                    &&& url is Some <==> is_absolute_url(environment.address_of(path@))
                    &&& url matches Some(address) ==> address@ == environment.address_of(path@)
                },
    {
        let path = self.path();
        environment.endpoint_url(path.as_str())
    }

    /// The type of the body, for the receiver to decode it by. An endpoint
    /// that does not say otherwise sends JSON.
    fn content_type(&self) -> (content_type: String)
        default_ensures
            content_type@ == json_content_type(),
    {
        "application/json".to_owned()
    }
}

/// No parameters.
impl QueryParams for () {
    fn pairs(&self) -> (pairs: Vec<(String, String)>)
        ensures
            pairs.deep_view() == Seq::<(Seq<char>, Seq<char>)>::empty(),
    {
        let pairs: Vec<(String, String)> = Vec::new();
        assert(pairs.deep_view() == Seq::<(Seq<char>, Seq<char>)>::empty());
        pairs
    }
}

/// Parameters that are a list of keys and values already.
impl QueryParams for Vec<(String, String)> {
    fn pairs(&self) -> (pairs: Vec<(String, String)>)
        ensures
            pairs.deep_view() == self.deep_view(),
    {
        let mut pairs: Vec<(String, String)> = Vec::new();
        let mut i: usize = 0;
        while i < self.len()
            invariant
                i <= self.len(),
                pairs.deep_view() == self.deep_view().take(i as int),
            decreases self.len() - i,
        {
            let ghost before = pairs.deep_view();
            pairs.push((self[i].0.clone(), self[i].1.clone()));
            assert(pairs.deep_view() == before.push((self[i as int].0@, self[i as int].1@)));
            i += 1;
        }
        assert(self.deep_view().take(i as int) == self.deep_view());
        pairs
    }
}

/// The empty payload, which is written as `null`.
impl RequestBody for () {
    fn to_json(&self) -> (text: Option<Vec<u8>>)
        ensures
            text matches Some(bytes) && bytes@ == null_text(),
    {
        Some(null_bytes())
    }
}

/// A payload that is JSON text already.
impl RequestBody for Vec<u8> {
    fn to_json(&self) -> (text: Option<Vec<u8>>)
        ensures
            text matches Some(bytes) && bytes@ == self@,
    {
        Some(slice_to_vec(self.as_slice()))
    }
}

/// The empty result, which is read from `null` alone.
impl ApiResult for () {
    fn from_json(payload: &[u8]) -> (value: Option<()>)
        ensures
            value is Some <==> json_null(payload@),
    {
        if reads_as_null(payload) {
            Some(())
        } else {
            None
        }
    }
}

/// A result that is kept as the text in which it came.
impl ApiResult for Vec<u8> {
    fn from_json(payload: &[u8]) -> (value: Option<Vec<u8>>)
        ensures
            value matches Some(bytes) && bytes@ == payload@,
    {
        Some(slice_to_vec(payload))
    }
}

} // verus!
