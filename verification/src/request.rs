//! The outgoing request as plain data: method, address, headers and body.

use crate::query::{append_query, with_query};
use crate::text::optional_bytes;
use vstd::prelude::*;

verus! {

/// The HTTP verb of a request.
#[derive(Clone, Copy, Debug, PartialEq, Eq, Structural)]
pub enum Method {
    Get,
    Post,
    Put,
    Delete,
    Patch,
}

impl Method {
    /// The verb as it is written on the wire.
    pub open spec fn wire_name(self) -> Seq<char> {
        match self {
            Method::Get => "GET"@,
            Method::Post => "POST"@,
            Method::Put => "PUT"@,
            Method::Delete => "DELETE"@,
            Method::Patch => "PATCH"@,
        }
    }

    /// Gives the verb as it is written on the wire.
    pub fn as_str(&self) -> (name: &'static str)
        ensures
            name@ == self.wire_name(),
    {
        match self {
            Method::Get => "GET",
            Method::Post => "POST",
            Method::Put => "PUT",
            Method::Delete => "DELETE",
            Method::Patch => "PATCH",
        }
    }
}

/// One header of a request.
#[derive(Clone, Debug, PartialEq, Eq)]
pub struct Header {
    pub name: String,
    pub value: String,
}

/// What a header says: its name and its value as texts.
pub ghost struct HeaderView {
    pub name: Seq<char>,
    pub value: Seq<char>,
}

impl View for Header {
    type V = HeaderView;

    open spec fn view(&self) -> HeaderView {
        HeaderView { name: self.name@, value: self.value@ }
    }
}

impl DeepView for Header {
    type V = HeaderView;

    open spec fn deep_view(&self) -> HeaderView {
        self@
    }
}

/// The name of the header that declares the type of the body.
pub open spec fn content_type_name() -> Seq<char> {
    "content-type"@
}

/// A request that has not been sent yet.
#[derive(Clone, Debug, PartialEq, Eq)]
pub struct HttpRequest {
    pub method: Method,
    pub url: String,
    pub headers: Vec<Header>,
    pub body: Option<Vec<u8>>,
}

/// What a request says.
pub ghost struct HttpRequestView {
    pub method: Method,
    pub url: Seq<char>,
    pub headers: Seq<HeaderView>,
    pub body: Option<Seq<u8>>,
}

impl View for HttpRequest {
    type V = HttpRequestView;

    open spec fn view(&self) -> HttpRequestView {
        HttpRequestView {
            method: self.method,
            url: self.url@,
            headers: self.headers.deep_view(),
            body: optional_bytes(self.body),
        }
    }
}

impl DeepView for HttpRequest {
    type V = HttpRequestView;

    open spec fn deep_view(&self) -> HttpRequestView {
        self@
    }
}

impl HttpRequest {
    /// A request for `url`, without headers and without a body.
    pub fn new(method: Method, url: String) -> (request: HttpRequest)
        ensures
            request@ == (HttpRequestView {
                method,
                url: url@,
                headers: Seq::empty(),
                body: None,
            }),
    {
        let request = HttpRequest { method, url, headers: Vec::new(), body: None };
        assert(request.headers.deep_view() == Seq::<HeaderView>::empty());
        request
    }

    /// The request with the parameters appended to its address.
    pub fn query(self, pairs: &Vec<(String, String)>) -> (request: HttpRequest)
        ensures
            request@ == (HttpRequestView {
                url: with_query(self@.url, pairs.deep_view()),
                ..self@
            }),
    {
        let HttpRequest { method, url, headers, body } = self;
        HttpRequest { method, url: append_query(url, pairs), headers, body }
    }

    /// The request with one more header, after those it has.
    pub fn header(self, name: &str, value: String) -> (request: HttpRequest)
        ensures
            request@ == (HttpRequestView {
                headers: self@.headers.push(HeaderView { name: name@, value: value@ }),
                ..self@
            }),
    {
        let HttpRequest { method, url, headers, body } = self;
        let mut headers = headers;
        let ghost before = headers.deep_view();
        headers.push(Header { name: name.to_owned(), value });
        assert(headers.deep_view() == before.push(HeaderView { name: name@, value: value@ }));
        HttpRequest { method, url, headers, body }
    }

    /// The request with `bytes` as its body, in place of any it had.
    pub fn body(self, bytes: Vec<u8>) -> (request: HttpRequest)
        ensures
            request@ == (HttpRequestView { body: Some(bytes@), ..self@ }),
    {
        let HttpRequest { method, url, headers, body: _ } = self;
        HttpRequest { method, url, headers, body: Some(bytes) }
    }
}

} // verus!
